use wasabi::key_table::{KeyPosition, KEY_COUNT};
use wasabi::render_pass::{NotePassStatus, NoteRenderPass, PassKind, PassPlan};

/// Runs one frame over a stream of `n` notes, the way a producer that
/// fills up to `capacity` records per call would report it.
fn run_frame(
    engine: &mut NoteRenderPass<Vec<u32>>,
    width: u32,
    height: u32,
    keys: &Vec<KeyPosition>,
    n: u64,
) -> (bool, Vec<PassPlan>, bool) {
    let recreate = engine.begin_frame(width, height, keys);
    let capacity = engine.capacity() as u64;
    let mut rest = n;
    let mut plans = Vec::new();
    while engine.is_active() {
        let buffer = engine.next_buffer();
        assert!(buffer < 2);
        let status = if rest <= capacity {
            let remaining = rest as u32;
            rest = 0;
            NotePassStatus::Finished { remaining }
        } else {
            rest -= capacity;
            NotePassStatus::HasMoreNotes
        };
        let plan = engine.submit(status);
        assert_eq!(plan.buffer, buffer);
        plans.push(plan);
    }
    let drain = engine.end_frame();
    (recreate, plans, drain)
}

fn engine(capacity: u32) -> NoteRenderPass<Vec<u32>> {
    NoteRenderPass::new(vec![0], vec![1], capacity)
}

#[test]
fn three_passes_for_2500_notes_at_capacity_1000() {
    let mut e = engine(1000);
    let (_, plans, drain) = run_frame(&mut e, 640, 480, &Vec::new(), 2500);
    assert_eq!(plans.len(), 3);
    let items: Vec<u32> = plans.iter().map(|p| p.items).collect();
    assert_eq!(items, vec![1000, 1000, 500]);
    assert_eq!(plans[0].kind, PassKind::Clear);
    assert_eq!(plans[1].kind, PassKind::DrawOver);
    assert_eq!(plans[2].kind, PassKind::DrawOver);
    assert!(!plans[0].wait_previous);
    assert!(plans[1].wait_previous);
    assert!(plans[2].wait_previous);
    assert!(!plans[0].last && !plans[1].last && plans[2].last);
    assert!(drain);
}

#[test]
fn empty_stream_makes_one_clearing_pass() {
    let mut e = engine(1000);
    let (_, plans, drain) = run_frame(&mut e, 640, 480, &Vec::new(), 0);
    assert_eq!(plans.len(), 1);
    assert_eq!(plans[0].kind, PassKind::Clear);
    assert_eq!(plans[0].items, 0);
    assert!(plans[0].last);
    assert!(drain);
}

#[test]
fn stream_of_exactly_capacity_makes_one_pass() {
    let mut e = engine(1000);
    let (_, plans, _) = run_frame(&mut e, 640, 480, &Vec::new(), 1000);
    assert_eq!(plans.len(), 1);
    assert_eq!(plans[0].kind, PassKind::Clear);
    assert_eq!(plans[0].items, 1000);
}

#[test]
fn one_note_over_capacity_makes_a_second_pass() {
    let mut e = engine(1000);
    let (_, plans, _) = run_frame(&mut e, 640, 480, &Vec::new(), 1001);
    assert_eq!(plans.len(), 2);
    assert_eq!(plans[0].items, 1000);
    assert_eq!(plans[1].items, 1);
    assert_eq!(plans[1].kind, PassKind::DrawOver);
}

#[test]
fn pass_count_is_ceiling_of_notes_over_capacity() {
    for n in [1u64, 7, 9, 10, 11, 29, 30, 31, 100] {
        let mut e = engine(10);
        let (_, plans, _) = run_frame(&mut e, 8, 8, &Vec::new(), n);
        let expected = ((n + 9) / 10) as usize;
        assert_eq!(plans.len(), expected);
        let last = plans[plans.len() - 1].items as u64;
        assert_eq!(last, n - (expected as u64 - 1) * 10);
        assert!(1 <= last && last <= 10);
    }
}

#[test]
fn unchanged_dimensions_reuse_the_depth_target() {
    let mut e = engine(1000);
    let (first, _, _) = run_frame(&mut e, 800, 600, &Vec::new(), 10);
    assert!(first);
    let (second, _, _) = run_frame(&mut e, 800, 600, &Vec::new(), 10);
    assert!(!second);
    assert_eq!(e.depth_dims(), (800, 600));
}

#[test]
fn changed_dimensions_recreate_the_depth_target() {
    let mut e = engine(1000);
    assert_eq!(e.depth_dims(), (1, 1));
    let (_, _, _) = run_frame(&mut e, 800, 600, &Vec::new(), 10);
    let (again, _, _) = run_frame(&mut e, 800, 601, &Vec::new(), 10);
    assert!(again);
    assert_eq!(e.depth_dims(), (800, 601));
    let (same_as_start, _, _) = run_frame(&mut e, 1, 1, &Vec::new(), 0);
    assert!(same_as_start);
}

#[test]
fn buffers_alternate_within_and_across_frames() {
    let mut e = engine(10);
    let mut used = Vec::new();
    for n in [35u64, 0, 10, 11] {
        let (_, plans, _) = run_frame(&mut e, 4, 4, &Vec::new(), n);
        used.extend(plans.iter().map(|p| p.buffer));
    }
    assert_eq!(used[0], 1);
    for w in used.windows(2) {
        assert_ne!(w[0], w[1]);
    }
    assert_eq!(*e.buffer(0), vec![0]);
    assert_eq!(*e.buffer(1), vec![1]);
}

#[test]
fn key_table_is_refreshed_once_per_frame() {
    let mut e = engine(10);
    assert_eq!(e.key_positions().len(), KEY_COUNT);
    assert!(e.key_positions().iter().all(|k| *k == KeyPosition::default()));
    let keys: Vec<KeyPosition> = (0..300u32).map(|i| KeyPosition::new(i, i + 1)).collect();
    let (_, plans, _) = run_frame(&mut e, 4, 4, &keys, 45);
    assert_eq!(plans.len(), 5);
    let table = e.key_positions().clone();
    assert_eq!(table.len(), KEY_COUNT);
    for (i, k) in table.iter().enumerate() {
        assert_eq!(*k, KeyPosition::new(i as u32, i as u32 + 1));
    }
    let fewer: Vec<KeyPosition> = (0..3u32).map(|i| KeyPosition::new(100 + i, 200 + i)).collect();
    let (_, _, _) = run_frame(&mut e, 4, 4, &fewer, 0);
    let table = e.key_positions();
    assert_eq!(table[0], KeyPosition::new(100, 200));
    assert_eq!(table[2], KeyPosition::new(102, 202));
    assert_eq!(table[3], KeyPosition::new(3, 4));
    assert_eq!(table[255], KeyPosition::new(255, 256));
}
