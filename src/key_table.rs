use vstd::prelude::*;

verus! {

/// Number of keys the position table has a slot for.
pub const KEY_COUNT: usize = 256;

/// Horizontal extent of one key, as the bit patterns of two 32-bit floats.
#[derive(Clone, Copy, Debug, PartialEq, Eq, Structural, Default)]
pub struct KeyPosition {
    pub left_bits: u32,
    pub right_bits: u32,
}

impl KeyPosition {
    pub fn new(left_bits: u32, right_bits: u32) -> (r: Self)
        ensures
            r == (KeyPosition { left_bits, right_bits }),
    {
        KeyPosition { left_bits, right_bits }
    }
}

/// The all-zero entry a fresh table is filled with.
pub open spec fn empty_key() -> KeyPosition {
    KeyPosition { left_bits: 0, right_bits: 0 }
}

/// A table whose every slot holds the empty entry.
pub open spec fn empty_table() -> Seq<KeyPosition> {
    Seq::new(KEY_COUNT as nat, |i: int| empty_key())
}

/// The table after a refresh from `keys`: slot `i` takes `keys[i]` where the
/// provider has one, and keeps its entry otherwise.
pub open spec fn refreshed(table: Seq<KeyPosition>, keys: Seq<KeyPosition>) -> Seq<KeyPosition> {
    Seq::new(table.len(), |i: int| if i < keys.len() { keys[i] } else { table[i] })
}

/// The per-key position table, one slot per key id.
pub struct KeyTable {
    entries: Vec<KeyPosition>,
}

impl View for KeyTable {
    type V = Seq<KeyPosition>;

    closed spec fn view(&self) -> Seq<KeyPosition> {
        self.entries@
    }
}

impl KeyTable {
    pub open spec fn wf(&self) -> bool {
        self@.len() == KEY_COUNT
    }

    pub fn new() -> (r: Self)
        ensures
            r@ == empty_table(),
            r.wf(),
    {
        let mut entries: Vec<KeyPosition> = Vec::new();
        let mut i: usize = 0;
        while i < KEY_COUNT
            invariant
                i <= KEY_COUNT,
                entries@ == Seq::new(i as nat, |j: int| empty_key()),
            decreases KEY_COUNT - i,
        {
            entries.push(KeyPosition { left_bits: 0, right_bits: 0 });
            i = i + 1;
        }
        assert(entries@ =~= empty_table());
        KeyTable { entries }
    }

    /// Overwrites the table from the provider's extents, in key-id order.
    pub fn refresh(&mut self, keys: &Vec<KeyPosition>)
        requires
            old(self).wf(),
        ensures
            final(self)@ == refreshed(old(self)@, keys@),
            final(self).wf(),
    {
        let n: usize = if keys.len() < KEY_COUNT { keys.len() } else { KEY_COUNT };
        let mut i: usize = 0;
        while i < n
            invariant
                n <= keys@.len(),
                n <= KEY_COUNT,
                i <= n,
                self@.len() == KEY_COUNT,
                forall|j: int| 0 <= j < i ==> self@[j] == keys@[j],
                forall|j: int| i <= j < KEY_COUNT ==> self@[j] == old(self)@[j],
            decreases n - i,
        {
            self.entries.set(i, keys[i]);
            i = i + 1;
        }
        assert(self@ =~= refreshed(old(self)@, keys@));
    }

    /// The table's slots, in key-id order.
    pub fn entries(&self) -> (r: &Vec<KeyPosition>)
        ensures
            r@ == self@,
    {
        &self.entries
    }
}

} // verus!
