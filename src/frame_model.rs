use vstd::prelude::*;

use crate::key_table::{refreshed, KeyPosition};
use crate::render_pass::{
    acquire_spec, begin_spec, end_spec, plan_spec, submit_spec, NotePassStatus, PassKind, PassPlan,
    RenderState,
};

verus! {

/// A producer with `rest` notes still to deliver fills one buffer: it reports
/// `Finished` with what is left once that fits, `HasMoreNotes` otherwise.
pub open spec fn producer_status(rest: nat, capacity: nat) -> NotePassStatus {
    if rest <= capacity {
        NotePassStatus::Finished { remaining: rest as u32 }
    } else {
        NotePassStatus::HasMoreNotes
    }
}

/// The passes of a frame whose stream still holds `rest` notes, from state
/// `s`: each entry is the state the pass was decided in and the pass itself.
/// Also returns the state after the last pass.
pub open spec fn run_passes(s: RenderState, rest: nat) -> (RenderState, Seq<(RenderState, PassPlan)>)
    decreases rest,
{
    let s1 = acquire_spec(s);
    let status = producer_status(rest, s.capacity);
    let s2 = submit_spec(s1, status);
    let step = (s1, plan_spec(s1, status));
    if rest <= s.capacity || s.capacity == 0 {
        (s2, seq![step])
    } else {
        let (e, tail) = run_passes(s2, (rest - s.capacity) as nat);
        (e, seq![step] + tail)
    }
}

/// A whole frame over a stream of `n` notes: begin, the passes, the drain.
pub open spec fn run_frame(
    s: RenderState,
    width: u32,
    height: u32,
    keys: Seq<KeyPosition>,
    n: nat,
) -> (RenderState, Seq<(RenderState, PassPlan)>) {
    let (e, passes) = run_passes(begin_spec(s, width, height, keys), n);
    (end_spec(e), passes)
}

/// The number of passes a stream of `n` notes takes.
pub open spec fn pass_count(n: nat, capacity: nat) -> nat {
    if n == 0 { 1 } else { ((n + capacity - 1) / (capacity as int)) as nat }
}

proof fn lemma_count_step(rest: nat, c: nat)
    requires
        c >= 1,
    ensures
        rest > c ==> pass_count(rest, c) == 1 + pass_count((rest - c) as nat, c),
        0 < rest <= c ==> pass_count(rest, c) == 1,
{
    if rest > c {
        let r = (rest - c) as int;
        let ci = c as int;
        assert((r + ci - 1 + ci) / ci == (r + ci - 1) / ci + 1) by (nonlinear_arith)
            requires ci >= 1, r >= 1;
    }
    if 0 < rest <= c {
        let ri = rest as int;
        let ci = c as int;
        assert((ri + ci - 1) / ci == 1) by (nonlinear_arith)
            requires ci >= 1, ri >= 1, ri <= ci;
    }
}

/// What holds of the passes from any state in which a frame is under way.
proof fn lemma_run_passes(s: RenderState, rest: nat)
    requires
        1 <= s.capacity <= u32::MAX,
        s.buffer_index < 2,
    ensures
        ({
            let (e, t) = run_passes(s, rest);
            let c = s.capacity;
            &&& t.len() == pass_count(rest, c)
            &&& t[0].1.kind == (if s.first_pass { PassKind::Clear } else { PassKind::DrawOver })
            &&& t[0].1.wait_previous == s.in_flight
            &&& forall|i: int| 0 < i < t.len() ==> t[i].1.kind == PassKind::DrawOver && t[i].1.wait_previous
            &&& forall|i: int| 0 <= i < t.len() ==> t[i].1.buffer == (s.buffer_index + i + 1) % 2
            &&& forall|i: int| 0 <= i < t.len() ==> t[i].0.keys == s.keys && t[i].0.depth == s.depth
            &&& forall|i: int| 0 <= i < t.len() - 1 ==> t[i].1.items == c && !t[i].1.last
            &&& t[t.len() - 1].1.items == rest - (t.len() - 1) * c
            &&& t[t.len() - 1].1.last
            &&& e.buffer_index == t[t.len() - 1].1.buffer
            &&& e.keys == s.keys && e.depth == s.depth && e.capacity == s.capacity
            &&& e.in_flight && !e.active
        }),
    decreases rest,
{
    let c = s.capacity;
    lemma_count_step(rest, c);
    let s1 = acquire_spec(s);
    let s2 = submit_spec(s1, producer_status(rest, c));
    if rest > c {
        let r = (rest - c) as nat;
        lemma_run_passes(s2, r);
        let (e, tail) = run_passes(s2, r);
        let (e0, t) = run_passes(s, rest);
        assert(t == seq![(s1, plan_spec(s1, producer_status(rest, c)))] + tail);
        assert forall|i: int| 0 <= i < t.len() implies t[i].1.buffer == (s.buffer_index + i + 1) % 2 by {
            if i > 0 {
                assert(t[i] == tail[i - 1]);
            }
        }
        assert forall|i: int| 0 < i < t.len() implies t[i].1.kind == PassKind::DrawOver && t[i].1.wait_previous by {
            assert(t[i] == tail[i - 1]);
        }
        assert forall|i: int| 0 <= i < t.len() implies t[i].0.keys == s.keys && t[i].0.depth == s.depth by {
            if i > 0 {
                assert(t[i] == tail[i - 1]);
            }
        }
        assert forall|i: int| 0 <= i < t.len() - 1 implies t[i].1.items == c && !t[i].1.last by {
            if i > 0 {
                assert(t[i] == tail[i - 1]);
            }
        }
        assert(t[t.len() - 1] == tail[tail.len() - 1]);
        let lt = tail.len() as int;
        assert(r - (lt - 1) * c == rest - lt * c) by (nonlinear_arith)
            requires r == rest - c;
    }
}

/// Over a stream of `n` notes a frame makes exactly `ceil(n / C)` passes, or
/// one pass when `n` is zero; the first clears, every later one draws over.
pub proof fn lemma_pass_count_and_kinds(
    s: RenderState,
    width: u32,
    height: u32,
    keys: Seq<KeyPosition>,
    n: nat,
)
    requires
        1 <= s.capacity <= u32::MAX,
        s.buffer_index < 2,
    ensures
        ({
            let (e, t) = run_frame(s, width, height, keys, n);
            &&& t.len() == pass_count(n, s.capacity)
            &&& t[0].1.kind == PassKind::Clear
            &&& forall|i: int| 0 < i < t.len() ==> t[i].1.kind == PassKind::DrawOver
        }),
{
    lemma_run_passes(begin_spec(s, width, height, keys), n);
}

/// Every pass but the last draws a full buffer; the last draws
/// `n - (passes - 1) * C` notes, which lies in `[1, C]` when `n > 0`.
pub proof fn lemma_last_pass_items(
    s: RenderState,
    width: u32,
    height: u32,
    keys: Seq<KeyPosition>,
    n: nat,
)
    requires
        1 <= s.capacity <= u32::MAX,
        s.buffer_index < 2,
    ensures
        ({
            let (e, t) = run_frame(s, width, height, keys, n);
            let last = t[t.len() - 1].1;
            &&& forall|i: int| 0 <= i < t.len() - 1 ==> t[i].1.items == s.capacity
            &&& last.items == n - (t.len() - 1) * s.capacity
            &&& n > 0 ==> 1 <= last.items <= s.capacity
        }),
{
    let c = s.capacity;
    let b = begin_spec(s, width, height, keys);
    lemma_run_passes(b, n);
    let (e, t) = run_frame(s, width, height, keys, n);
    if n > 0 {
        let ni = n as int;
        let ci = c as int;
        let k = (ni + ci - 1) / ci;
        assert(t.len() == k);
        assert(1 <= ni - (k - 1) * ci <= ci) by (nonlinear_arith)
            requires ni >= 1, ci >= 1, k == (ni + ci - 1) / ci;
    }
}

/// Buffers alternate: no two consecutive passes read the same buffer, within
/// a frame or from the last pass of one frame to the first of the next.
pub proof fn lemma_buffers_alternate(
    s: RenderState,
    width: u32,
    height: u32,
    keys: Seq<KeyPosition>,
    n: nat,
    width2: u32,
    height2: u32,
    keys2: Seq<KeyPosition>,
    n2: nat,
)
    requires
        1 <= s.capacity <= u32::MAX,
        s.buffer_index < 2,
    ensures
        ({
            let (e, t) = run_frame(s, width, height, keys, n);
            let (e2, t2) = run_frame(e, width2, height2, keys2, n2);
            &&& forall|i: int| 0 <= i < t.len() - 1 ==> #[trigger] t[i].1.buffer != t[i + 1].1.buffer
            &&& t[t.len() - 1].1.buffer != t2[0].1.buffer
        }),
{
    let b = begin_spec(s, width, height, keys);
    lemma_run_passes(b, n);
    let (e, t) = run_frame(s, width, height, keys, n);
    lemma_run_passes(begin_spec(e, width2, height2, keys2), n2);
}

/// Every pass of a frame sees the same key table: the one refreshed once
/// from the keyboard's extents when the frame began.
pub proof fn lemma_key_table_snapshot(
    s: RenderState,
    width: u32,
    height: u32,
    keys: Seq<KeyPosition>,
    n: nat,
)
    requires
        1 <= s.capacity <= u32::MAX,
        s.buffer_index < 2,
    ensures
        ({
            let (e, t) = run_frame(s, width, height, keys, n);
            forall|i: int| 0 <= i < t.len() ==> t[i].0.keys == refreshed(s.keys, keys)
        }),
{
    lemma_run_passes(begin_spec(s, width, height, keys), n);
}

/// Before every pass the depth target has the output image's size, and the
/// next frame recreates it exactly when its image has another size.
pub proof fn lemma_depth_matches_image(
    s: RenderState,
    width: u32,
    height: u32,
    keys: Seq<KeyPosition>,
    n: nat,
    width2: u32,
    height2: u32,
)
    requires
        1 <= s.capacity <= u32::MAX,
        s.buffer_index < 2,
    ensures
        ({
            let (e, t) = run_frame(s, width, height, keys, n);
            &&& forall|i: int| 0 <= i < t.len() ==> t[i].0.depth == (width, height)
            &&& e.depth == (width, height)
            &&& (e.depth != (width2, height2)) == (width != width2 || height != height2)
        }),
{
    lemma_run_passes(begin_spec(s, width, height, keys), n);
}

} // verus!
