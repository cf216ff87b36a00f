use vstd::prelude::*;

use crate::buffer_set::BufferSet;
use crate::key_table::{empty_table, refreshed, KeyPosition, KeyTable, KEY_COUNT};

verus! {

/// What the note producer reports after filling a buffer.
#[derive(Clone, Copy, Debug, PartialEq, Eq, Structural)]
pub enum NotePassStatus {
    /// The stream is exhausted; `remaining` records were written.
    Finished { remaining: u32 },
    /// The whole buffer was written and more notes follow.
    HasMoreNotes,
}

/// Which of the two pass configurations a pass uses.
#[derive(Clone, Copy, Debug, PartialEq, Eq, Structural)]
pub enum PassKind {
    /// Resets colour and depth before drawing.
    Clear,
    /// Keeps what earlier passes drew and draws on top.
    DrawOver,
}

/// The decision for one pass: what to draw from which buffer, and whether
/// the previous submission must be waited on before this one is submitted.
#[derive(Clone, Copy, Debug, PartialEq, Eq, Structural)]
pub struct PassPlan {
    pub kind: PassKind,
    pub buffer: usize,
    pub items: u32,
    pub wait_previous: bool,
    pub last: bool,
}

/// The abstract state of the engine.
pub struct RenderState {
    /// Index of the buffer handed out last.
    pub buffer_index: nat,
    /// Width and height of the depth target.
    pub depth: (u32, u32),
    /// The key-position table.
    pub keys: Seq<KeyPosition>,
    /// Capacity of each note buffer.
    pub capacity: nat,
    /// The next pass is the frame's first.
    pub first_pass: bool,
    /// A submission has not yet been waited on.
    pub in_flight: bool,
    /// A frame is under way and its stream not yet exhausted.
    pub active: bool,
}

/// The number of notes a pass draws for a given status.
pub open spec fn items_for(status: NotePassStatus, capacity: nat) -> nat {
    match status {
        NotePassStatus::Finished { remaining } => remaining as nat,
        NotePassStatus::HasMoreNotes => capacity,
    }
}

/// Start of a frame: the depth target takes the image's size, the key table
/// is refreshed, and no pass has been made yet.
pub open spec fn begin_spec(s: RenderState, width: u32, height: u32, keys: Seq<KeyPosition>) -> RenderState {
    RenderState {
        buffer_index: s.buffer_index,
        depth: (width, height),
        keys: refreshed(s.keys, keys),
        capacity: s.capacity,
        first_pass: true,
        in_flight: false,
        active: true,
    }
}

/// Handing out the other buffer.
pub open spec fn acquire_spec(s: RenderState) -> RenderState {
    RenderState {
        buffer_index: (1 - s.buffer_index) as nat,
        depth: s.depth,
        keys: s.keys,
        capacity: s.capacity,
        first_pass: s.first_pass,
        in_flight: s.in_flight,
        active: s.active,
    }
}

/// The pass made from the current buffer once the producer reported `status`.
pub open spec fn plan_spec(s: RenderState, status: NotePassStatus) -> PassPlan {
    PassPlan {
        kind: if s.first_pass { PassKind::Clear } else { PassKind::DrawOver },
        buffer: s.buffer_index as usize,
        items: items_for(status, s.capacity) as u32,
        wait_previous: s.in_flight,
        last: status is Finished,
    }
}

/// The state after that pass was submitted.
pub open spec fn submit_spec(s: RenderState, status: NotePassStatus) -> RenderState {
    RenderState {
        buffer_index: s.buffer_index,
        depth: s.depth,
        keys: s.keys,
        capacity: s.capacity,
        first_pass: false,
        in_flight: true,
        active: status is HasMoreNotes,
    }
}

/// End of a frame: the last submission has been waited on.
pub open spec fn end_spec(s: RenderState) -> RenderState {
    RenderState {
        buffer_index: s.buffer_index,
        depth: s.depth,
        keys: s.keys,
        capacity: s.capacity,
        first_pass: s.first_pass,
        in_flight: false,
        active: false,
    }
}

/// The engine's state across frames: the two note buffers, the key table,
/// the size of the depth target, and the progress of the current frame.
pub struct NoteRenderPass<B> {
    buffer_set: BufferSet<B>,
    key_table: KeyTable,
    depth_width: u32,
    depth_height: u32,
    capacity: u32,
    first_pass: bool,
    in_flight: bool,
    active: bool,
}

impl<B> View for NoteRenderPass<B> {
    type V = RenderState;

    closed spec fn view(&self) -> RenderState {
        RenderState {
            buffer_index: self.buffer_set.current(),
            depth: (self.depth_width, self.depth_height),
            keys: self.key_table@,
            capacity: self.capacity as nat,
            first_pass: self.first_pass,
            in_flight: self.in_flight,
            active: self.active,
        }
    }
}

impl<B> NoteRenderPass<B> {
    /// The note buffer at index `i`.
    pub closed spec fn buffer_at(&self, i: int) -> B {
        self.buffer_set.buffer_at(i)
    }

    pub open spec fn wf(&self) -> bool {
        &&& self@.buffer_index < 2
        &&& self@.keys.len() == KEY_COUNT
        &&& 1 <= self@.capacity <= u32::MAX
    }

    /// An engine over two buffers of `capacity` notes each, with a 1x1 depth
    /// target and an empty key table.
    pub fn new(first: B, second: B, capacity: u32) -> (r: Self)
        requires
            capacity >= 1,
        ensures
            r.wf(),
            r@ == (RenderState {
                buffer_index: 0,
                depth: (1, 1),
                keys: empty_table(),
                capacity: capacity as nat,
                first_pass: true,
                in_flight: false,
                active: false,
            }),
            r.buffer_at(0) == first,
            r.buffer_at(1) == second,
    {
        NoteRenderPass {
            buffer_set: BufferSet::new(first, second),
            key_table: KeyTable::new(),
            depth_width: 1,
            depth_height: 1,
            capacity,
            first_pass: true,
            in_flight: false,
            active: false,
        }
    }

    /// Starts a frame for an output image of `width` x `height` and the
    /// keyboard's extents `keys`. Returns whether the depth target must be
    /// recreated, which is when its size differs from the image's.
    pub fn begin_frame(&mut self, width: u32, height: u32, keys: &Vec<KeyPosition>) -> (recreate_depth: bool)
        requires
            old(self).wf(),
        ensures
            final(self).wf(),
            final(self)@ == begin_spec(old(self)@, width, height, keys@),
            recreate_depth == (old(self)@.depth != (width, height)),
            forall|i: int| final(self).buffer_at(i) == old(self).buffer_at(i),
    {
        let recreate_depth = self.depth_width != width || self.depth_height != height;
        self.depth_width = width;
        self.depth_height = height;
        self.key_table.refresh(keys);
        self.first_pass = true;
        self.in_flight = false;
        self.active = true;
        recreate_depth
    }

    /// Hands out the buffer the producer fills next: never the one handed
    /// out just before.
    pub fn next_buffer(&mut self) -> (r: usize)
        requires
            old(self).wf(),
        ensures
            final(self).wf(),
            final(self)@ == acquire_spec(old(self)@),
            r == final(self)@.buffer_index,
            forall|i: int| final(self).buffer_at(i) == old(self).buffer_at(i),
    {
        self.buffer_set.next()
    }

    /// Decides the pass for the buffer just filled, given what the producer
    /// reported, and records that it was submitted.
    pub fn submit(&mut self, status: NotePassStatus) -> (plan: PassPlan)
        requires
            old(self).wf(),
            old(self)@.active,
            status matches NotePassStatus::Finished { remaining } ==> remaining <= old(self)@.capacity,
        ensures
            final(self).wf(),
            plan == plan_spec(old(self)@, status),
            final(self)@ == submit_spec(old(self)@, status),
            forall|i: int| final(self).buffer_at(i) == old(self).buffer_at(i),
    {
        let items: u32 = match status {
            NotePassStatus::Finished { remaining } => remaining,
            NotePassStatus::HasMoreNotes => self.capacity,
        };
        let kind = if self.first_pass {
            PassKind::Clear
        } else {
            PassKind::DrawOver
        };
        let plan = PassPlan {
            kind,
            buffer: self.buffer_set.index_of(),
            items,
            wait_previous: self.in_flight,
            last: match status {
                NotePassStatus::Finished { .. } => true,
                NotePassStatus::HasMoreNotes => false,
            },
        };
        self.first_pass = false;
        self.in_flight = true;
        self.active = !plan.last;
        plan
    }

    /// Ends the frame. Returns whether the last submission must be waited on.
    pub fn end_frame(&mut self) -> (wait: bool)
        requires
            old(self).wf(),
        ensures
            final(self).wf(),
            wait == old(self)@.in_flight,
            final(self)@ == end_spec(old(self)@),
            forall|i: int| final(self).buffer_at(i) == old(self).buffer_at(i),
    {
        let wait = self.in_flight;
        self.in_flight = false;
        self.active = false;
        wait
    }

    /// Whether the current frame still expects passes.
    pub fn is_active(&self) -> (r: bool)
        ensures
            r == self@.active,
    {
        self.active
    }

    pub fn buffer(&self, i: usize) -> (r: &B)
        requires
            i < 2,
        ensures
            *r == self.buffer_at(i as int),
    {
        self.buffer_set.buffer(i)
    }

    /// The key table's slots, in key-id order.
    pub fn key_positions(&self) -> (r: &Vec<KeyPosition>)
        ensures
            r@ == self@.keys,
    {
        self.key_table.entries()
    }

    pub fn depth_dims(&self) -> (r: (u32, u32))
        ensures
            r == self@.depth,
    {
        (self.depth_width, self.depth_height)
    }

    pub fn capacity(&self) -> (r: u32)
        ensures
            r == self@.capacity,
    {
        self.capacity
    }
}

} // verus!
