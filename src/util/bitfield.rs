//! A tiny bit set over 16-bit words.
use vstd::prelude::*;

verus! {

/// Bits kept in 16-bit words; bit `i` lives in word `i / 32` at position `i % 32`, so only
/// positions below 16 of each word can be addressed.
pub struct BitField {
    values: Vec<u16>,
}

/// Whether bit `i` can be addressed in a field of `len` words.
pub open spec fn addressable(len: nat, i: u16) -> bool {
    (i / 32) < len && (i % 32) < 16
}

impl View for BitField {
    type V = Seq<u16>;

    closed spec fn view(&self) -> Seq<u16> {
        self.values@
    }
}

impl BitField {
    /// A field of two words: the first zero, the second holding `len`.
    pub fn new(len: u16) -> (r: BitField)
        ensures
            r@ == seq![0u16, len],
    {
        let r = BitField { values: vec![0, len] };
        assert(r.values@ =~= seq![0u16, len]);
        r
    }

    /// Sets bit `i`.
    pub fn set(&mut self, i: u16)
        requires
            addressable(old(self)@.len(), i),
        ensures
            final(self)@ == old(self)@.update((i / 32) as int, old(self)@[(i / 32) as int] | (1u16 << (i % 32))),
    {
        let index = (i / 32) as usize;
        let bit = i % 32;
        let v = self.values[index] | (1u16 << bit);
        self.values.set(index, v);
    }

    /// Whether bit `i` is set.
    pub fn get(&mut self, i: u16) -> (r: bool)
        requires
            addressable(old(self)@.len(), i),
        ensures
            final(self)@ == old(self)@,
            r == (old(self)@[(i / 32) as int] & (1u16 << (i % 32)) != 0),
    {
        let index = (i / 32) as usize;
        let bit = i % 32;
        (self.values[index] & (1u16 << bit)) != 0
    }

    /// Clears bit `i`.
    pub fn unset(&mut self, i: u16)
        requires
            addressable(old(self)@.len(), i),
        ensures
            final(self)@ == old(self)@.update((i / 32) as int, old(self)@[(i / 32) as int] & !(1u16 << (i % 32))),
    {
        let index = (i / 32) as usize;
        let bit = i % 32;
        let v = self.values[index] & !(1u16 << bit);
        self.values.set(index, v);
    }

    /// The first word.
    pub fn get_value(&mut self) -> (r: u16)
        requires
            old(self)@.len() > 0,
        ensures
            final(self)@ == old(self)@,
            r == old(self)@[0],
    {
        self.values[0]
    }
}

} // verus!
