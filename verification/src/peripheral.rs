//! RISC-V peripherals

use vstd::prelude::*;

pub mod clic;
pub mod clint;

verus! {

/// Interface for a context of the PLIC peripheral.
///
/// # Note
///
/// The RISC-V standard does not specify a fixed location for the PLIC,
/// so the base address of the peripheral is a compile-time parameter of
/// the handle type.  Each hart conventionally interfaces the PLIC
/// through a dedicated context, so distinct base/context pairs make
/// distinct handle types and cannot be cross-wired.  The internal
/// register layout behind the base address is platform-defined; only
/// the addressing contract is modelled here.
pub struct PLIC<const BASE: usize, const CONTEXT: usize> {}

impl<const BASE: usize, const CONTEXT: usize> PLIC<BASE, CONTEXT> {
    /// Creates a new interface for the PLIC peripheral.  The handle is
    /// zero-sized: the base address and context live in the type alone.
    pub fn new() -> (r: Self) {
        PLIC {  }
    }
}

/// The value that constructing a CLIC handle writes to the global
/// configuration register: a level-bit count of 4 in the bit-1 field,
/// assigning all four configurable bits of each per-source config byte
/// to the interrupt preemption level and none to sub-priority.
pub const CLIC_CFG_LEVEL_BITS: u8 = 8;

/// Interface for a CLIC peripheral.
///
/// # Note
///
/// The handle is zero-sized: the shared (CLINT) block address and the
/// hart-local block address are compile-time parameters of the type,
/// so distinct address pairs make distinct handle types.
pub struct CLIC<const SHARED: usize, const HART: usize> {}

impl<const SHARED: usize, const HART: usize> CLIC<SHARED, HART> {
    /// Creates a new interface for the CLIC peripheral.
    ///
    /// Construction has exactly one side effect: a pure write (not a
    /// read-modify-write) of the hart-local global configuration
    /// register with `CLIC_CFG_LEVEL_BITS`, whatever the register held
    /// before.  Any bits other initialization code had set there are
    /// overwritten.
    pub fn new(regs: &mut clic::RegisterBlock) -> (r: Self)
        ensures
            final(regs).clic_cfg == CLIC_CFG_LEVEL_BITS,
            final(regs).clic_int_ip@ == old(regs).clic_int_ip@,
            final(regs).clic_int_ie@ == old(regs).clic_int_ie@,
            final(regs).clic_int_cfg@ == old(regs).clic_int_cfg@,
    {
        regs.clic_cfg = CLIC_CFG_LEVEL_BITS;
        CLIC {  }
    }
}

} // verus!
