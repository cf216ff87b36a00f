use vstd::prelude::*;

verus! {

/// The packed key/colour word of a note: the key id in the low eight bits,
/// the colour shifted left by eight (its top eight bits fall off).
pub open spec fn packed_key_color(key: u8, color: u32) -> int {
    key as int + (color as int % 0x1000000) * 256
}

/// One note as uploaded to the device. The start time and length are the
/// bit patterns of two 32-bit floats; the library never reads them.
#[derive(Clone, Copy, Debug, PartialEq, Eq, Default)]
pub struct NoteVertex {
    pub start_bits: u32,
    pub length_bits: u32,
    pub key_color: u32,
}

impl NoteVertex {
    pub fn new(start_bits: u32, length_bits: u32, key: u8, color: u32) -> (r: Self)
        ensures
            r.start_bits == start_bits,
            r.length_bits == length_bits,
            r.key_color == packed_key_color(key, color),
    {
        let k: u32 = key as u32;
        assert((k | (color << 8u32)) == k + (color % 0x1000000) * 256) by (bit_vector)
            requires
                k < 256,
        ;
        NoteVertex { start_bits, length_bits, key_color: k | (color << 8u32) }
    }

    /// The key id that the note is drawn on.
    pub fn key(&self) -> (r: u8)
        ensures
            r == self.key_color % 256,
    {
        (self.key_color % 256) as u8
    }

    /// The colour stored beside the key id.
    pub fn color(&self) -> (r: u32)
        ensures
            r == self.key_color / 256,
    {
        self.key_color / 256
    }
}

} // verus!
