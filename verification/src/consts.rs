//! Numbers that the processor manual fixes.

pub mod msr;
pub mod vmx;
pub mod x86;
