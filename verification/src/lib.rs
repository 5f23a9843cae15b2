//! Register models for RISC-V interrupt controllers.
//!
//! The crate models the memory-mapped register blocks of a hart-local
//! interrupt controller (CLIC) and of a software-interrupt/timer unit
//! (CLINT), together with the machine trap-cause (`mcause`) and
//! trap-vector (`mtvec`, `mtvt`) control-and-status registers.  Every
//! operation carries a contract that pins down the exact bit layout it
//! reads or writes.  The raw CSR access and the volatile overlay of the
//! register blocks on hardware addresses are left to the platform.

pub mod peripheral;
pub mod register;
