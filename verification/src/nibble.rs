//! The four-bit value that every register, port and address of the machine holds.

use crate::binary::{binary_digits, binary_text};
use vstd::prelude::*;

verus! {

/// A four-bit unsigned value. The stored byte is always below sixteen.
#[allow(non_camel_case_types)]
#[derive(Clone, Copy, Debug)]
pub struct u4 {
    v: u8,
}

impl View for u4 {
    type V = nat;

    /// The number that the nibble stands for: the low four bits of the
    /// stored byte. In executable code the stored byte is below sixteen, so
    /// the view is the byte itself.
    closed spec fn view(&self) -> nat {
        (self.v % 16) as nat
    }
}

impl u4 {
    #[verifier::type_invariant]
    spec fn in_range(self) -> bool {
        self.v < 16
    }

    /// Every nibble, in ghost code too, stands for a number below sixteen.
    pub proof fn lemma_view_in_range(self)
        ensures
            self@ < 16,
    {
    }

    /// The nibble held in the low four bits of `byte`.
    pub fn new(byte: u8) -> (nibble: u4)
        ensures
            nibble@ == byte % 16,
    {
        assert(byte & 0x0f == byte % 16) by (bit_vector);
        u4 { v: byte & 0x0f }
    }

    /// The value as a byte, for decimal display.
    pub fn value(&self) -> (byte: u8)
        ensures
            byte == self@,
            byte < 16,
    {
        proof {
            use_type_invariant(self);
        }
        self.v
    }

    /// The value as four binary digits, most significant first.
    pub fn to_string(&self) -> (text: String)
        ensures
            text@ == binary_digits(self@, 4),
    {
        proof {
            use_type_invariant(self);
        }
        binary_text(self.v, 4)
    }

    /// Adds `v` to this nibble, keeping the low four bits of the sum, and
    /// returns the carry out of the fourth bit.
    pub fn add(&mut self, v: u4) -> (carry: bool)
        ensures
            final(self)@ == (old(self)@ + v@) % 16,
            carry == (old(self)@ + v@ >= 16),
    {
        proof {
            use_type_invariant(&*self);
            use_type_invariant(&v);
        }
        let sum: u8 = self.v + v.v;
        if sum >= 16 {
            self.v = sum - 16;
            true
        } else {
            self.v = sum;
            false
        }
    }
}

} // verus!
