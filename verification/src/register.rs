//! Models of the machine control-and-status registers.

pub mod mcause;
pub mod mtvec;
pub mod mtvt;
