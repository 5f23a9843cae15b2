//! The trap-vector base register (`mtvec`, CSR 0x305).
//!
//! The register packs a trap-handler base address with a 2-bit mode
//! selector in its low bits.  In the baseline configuration only modes
//! 0 (direct) and 1 (vectored) decode; the extended (CLIC) controller
//! configuration additionally decodes modes 2 and 3, which collapse
//! onto the same direct/vectored tags.  Reading and writing the CSR
//! itself is the platform's generic CSR primitive; this module decodes
//! words read from it and composes the words to store.

use vstd::prelude::*;

verus! {

/// The number under which the platform's CSR read/write primitive
/// reaches this register.
pub const CSR_NUMBER: u16 = 0x305;

/// The base address held in a raw register word: the low 2 mode bits cleared.
pub open spec fn spec_vector_address(bits: usize) -> usize {
    bits & !0x3
}

/// Trap mode
///
/// The extended-controller modes decode to the same direct/vectored
/// tags as the baseline modes; they differ only in the word they encode
/// to.  Under `ClicVectored`, exceptions set the program counter to the
/// handler base address while interrupts vector through the table that
/// the vector-table-base register points at.
#[derive(Copy, Clone, Debug, Eq, PartialEq, Structural)]
pub enum TrapMode {
    Direct,
    Vectored,
    ClicDirect,
    ClicVectored,
}

/// The 2-bit selector that each trap mode encodes to in the low bits of
/// the register.
pub open spec fn spec_mode_bits(mode: TrapMode) -> usize {
    match mode {
        TrapMode::Direct => 0,
        TrapMode::Vectored => 1,
        TrapMode::ClicDirect => 2,
        TrapMode::ClicVectored => 3,
    }
}

/// The baseline decode of a raw word's low 2 bits: only selectors 0 and
/// 1 have a meaning.
pub open spec fn spec_trap_mode(bits: usize) -> Option<TrapMode> {
    if bits & 0x3 == 0 {
        Some(TrapMode::Direct)
    } else if bits & 0x3 == 1 {
        Some(TrapMode::Vectored)
    } else {
        None
    }
}

/// The extended-controller decode of a raw word's low 2 bits:
/// selectors 2 and 3 collapse onto the direct and vectored tags.
pub open spec fn spec_trap_mode_extended(bits: usize) -> TrapMode {
    if bits & 0x3 == 0 || bits & 0x3 == 2 {
        TrapMode::Direct
    } else {
        TrapMode::Vectored
    }
}

impl TrapMode {
    /// The numeric selector this mode encodes to.
    pub fn number(self) -> (r: usize)
        ensures
            r == spec_mode_bits(self),
    {
        match self {
            TrapMode::Direct => 0,
            TrapMode::Vectored => 1,
            TrapMode::ClicDirect => 2,
            TrapMode::ClicVectored => 3,
        }
    }
}

/// mtvec register
#[derive(Clone, Copy, Debug)]
pub struct Mtvec {
    bits: usize,
}

impl View for Mtvec {
    type V = usize;

    closed spec fn view(&self) -> usize {
        self.bits
    }
}

impl Mtvec {
    /// Wraps a raw word read from the register.
    pub fn from_bits(bits: usize) -> (r: Mtvec)
        ensures
            r@ == bits,
    {
        Mtvec { bits }
    }

    /// Returns the contents of the register as raw bits
    pub fn bits(&self) -> (r: usize)
        ensures
            r == self@,
    {
        self.bits
    }

    /// Returns the trap-vector base-address
    pub fn address(&self) -> (r: usize)
        ensures
            r == spec_vector_address(self@),
    {
        self.bits & !0x3
    }

    /// Returns the trap-vector mode under the baseline decode, where
    /// only selectors 0 and 1 have a meaning.
    pub fn trap_mode(&self) -> (r: Option<TrapMode>)
        ensures
            r == spec_trap_mode(self@),
    {
        let mode = self.bits & 0x3;
        match mode {
            0 => Some(TrapMode::Direct),
            1 => Some(TrapMode::Vectored),
            _ => None,
        }
    }

    /// Returns the trap-vector mode under the extended-controller
    /// decode, which is total: selectors 2 and 3 collapse onto the
    /// direct and vectored tags.
    pub fn trap_mode_extended(&self) -> (r: TrapMode)
        ensures
            r == spec_trap_mode_extended(self@),
    {
        let mode = self.bits & 0x3;
        proof {
            let b = self.bits;
            assert(b & 0x3usize <= 3) by (bit_vector);
        }
        if mode == 0 || mode == 2 {
            TrapMode::Direct
        } else {
            TrapMode::Vectored
        }
    }
}

/// Composes the word that a write of `addr` with mode `mode` stores in
/// the register: the address plus the mode selector.  The caller must
/// pre-align `addr` so its low 2 bits are zero, otherwise the mode bits
/// would corrupt the address.  Storing the word in the CSR is the
/// platform's write primitive.
pub fn write(addr: usize, mode: TrapMode) -> (r: Mtvec)
    requires
        addr % 4 == 0,
    ensures
        r@ == addr + spec_mode_bits(mode),
        spec_vector_address(r@) == addr,
        spec_trap_mode_extended(r@) == spec_trap_mode_extended(spec_mode_bits(mode)),
        mode == TrapMode::Direct || mode == TrapMode::Vectored ==> spec_trap_mode(r@) == Some(mode),
{
    proof {
        let m = spec_mode_bits(mode);
        assert(addr % 4 == 0 && m <= 3 ==> (addr | m) == addr + m) by (bit_vector);
        assert(addr % 4 == 0 && m <= 3 ==> (addr | m) & !0x3usize == addr) by (bit_vector);
        assert(addr % 4 == 0 && m <= 3 ==> (addr | m) & 0x3usize == m) by (bit_vector);
        assert(m <= 3 ==> m & 0x3usize == m) by (bit_vector);
    }
    let bits = addr | mode.number();
    Mtvec { bits }
}

} // verus!
