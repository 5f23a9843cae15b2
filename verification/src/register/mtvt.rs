//! The vector-table-base register (`mtvt`, CSR 0x307).
//!
//! In the extended (CLIC) controller configuration this register holds
//! the base address of the vector table, which the hardware requires to
//! be aligned to 64 bytes: the low 6 bits of the stored word are always
//! zero.  Reading and writing the CSR itself is the platform's generic
//! CSR primitive; this module decodes words read from it and composes
//! the words to store.

use vstd::prelude::*;

verus! {

/// The number under which the platform's CSR read/write primitive
/// reaches this register.
pub const CSR_NUMBER: u16 = 0x307;

/// The 64-byte-aligned base address held in a raw register word:
/// the low 6 bits cleared.
pub open spec fn spec_table_address(bits: usize) -> usize {
    bits & !0x3f
}

/// Machine trap vector table register
#[derive(Clone, Copy, Debug)]
pub struct Mtvt {
    bits: usize,
}

impl View for Mtvt {
    type V = usize;

    closed spec fn view(&self) -> usize {
        self.bits
    }
}

impl Mtvt {
    /// Wraps a raw word read from the register.
    pub fn from_bits(bits: usize) -> (r: Mtvt)
        ensures
            r@ == bits,
    {
        Mtvt { bits }
    }

    /// Returns the contents of the register as raw bits
    pub fn bits(&self) -> (r: usize)
        ensures
            r == self@,
    {
        self.bits
    }

    /// Returns the trap-vector base-address
    pub fn address(&self) -> (r: usize)
        ensures
            r == spec_table_address(self@),
    {
        self.bits & !0x3f
    }
}

/// Composes the word that a write of `addr` stores in the register: the
/// low 6 bits are silently truncated, since the table base is 64-byte
/// aligned (misaligned input is not rejected).  Storing the word in the
/// CSR is the platform's write primitive.
pub fn write(addr: usize) -> (r: Mtvt)
    ensures
        r@ == spec_table_address(addr),
        spec_table_address(r@) == r@,
        r@ % 64 == 0,
        addr % 64 == 0 ==> r@ == addr,
{
    let bits = addr & !0x3f;
    proof {
        assert((addr & !0x3fusize) & !0x3fusize == addr & !0x3fusize) by (bit_vector);
        assert((addr & !0x3fusize) % 64 == 0) by (bit_vector);
        assert(addr % 64 == 0 ==> addr & !0x3fusize == addr) by (bit_vector);
    }
    Mtvt { bits }
}

} // verus!
