use vstd::prelude::*;

verus! {

/// Exactly two note buffers, handed out in turn.
pub struct BufferSet<B> {
    first: B,
    second: B,
    index: usize,
}

impl<B> BufferSet<B> {
    /// Index of the buffer handed out last (0 or 1).
    pub closed spec fn current(&self) -> nat {
        self.index as nat
    }

    /// The buffer at index `i`.
    pub closed spec fn buffer_at(&self, i: int) -> B {
        if i == 0 { self.first } else { self.second }
    }

    pub open spec fn wf(&self) -> bool {
        self.current() < 2
    }

    pub fn new(first: B, second: B) -> (r: Self)
        ensures
            r.wf(),
            r.current() == 0,
            r.buffer_at(0) == first,
            r.buffer_at(1) == second,
    {
        BufferSet { first, second, index: 0 }
    }

    /// Moves to the other buffer and returns its index.
    pub fn next(&mut self) -> (r: usize)
        requires
            old(self).wf(),
        ensures
            final(self).wf(),
            r == 1 - old(self).current(),
            final(self).current() == r,
            forall|i: int| final(self).buffer_at(i) == old(self).buffer_at(i),
    {
        self.index = (self.index + 1) % 2;
        self.index
    }

    /// Index of the buffer handed out last.
    pub fn index_of(&self) -> (r: usize)
        ensures
            r == self.current(),
    {
        self.index
    }

    pub fn buffer(&self, i: usize) -> (r: &B)
        requires
            i < 2,
        ensures
            *r == self.buffer_at(i as int),
    {
        if i == 0 {
            &self.first
        } else {
            &self.second
        }
    }
}

} // verus!
