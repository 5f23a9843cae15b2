//! The software-interrupt/timer unit (CLINT) register block.

use vstd::prelude::*;

verus! {

/// Register block.
///
/// Models the fixed hardware layout of the shared software-interrupt
/// and timer unit: the machine-software-interrupt pending register at
/// offset `0x0000`, the timer compare register at offset `0x4000` and
/// the free-running counter at offset `0xBFF8`, with reserved padding
/// between them.  The volatile overlay of this layout on the block's
/// hardware address is the platform's.
pub struct RegisterBlock {
    /// `0x0000..=0x0003` - Machine Software Interrupt Pending register.
    pub msip: u32,
    /// `0x4000..=0x4007` - MTIMECMP register.
    pub mtimecmp: u64,
    /// `0xBFF8..=0xBFFF` - Timer register.
    pub mtime: u64,
}

} // verus!
