//! Bits of control registers, of the EFER register and of `cpuid` answers.

use vstd::prelude::*;

verus! {

/// CR0 bit 0: protected mode.
pub const X86_CR0_PE: u64 = 0x1;

/// CR0 bit 5: numeric error.
pub const X86_CR0_NE: u64 = 0x20;

/// CR0 bit 31: paging.
pub const X86_CR0_PG: u64 = 0x8000_0000;

/// CR4 bit 5: physical address extension.
pub const X86_CR4_PAE: u64 = 0x20;

/// CR4 bit 18: XSAVE enabled by the operating system.
pub const X86_CR4_OSXSAVE: u64 = 0x4_0000;

/// EFER bit 8: long mode enable.
pub const EFER_LME: u64 = 0x100;

/// EFER bit 10: long mode active.
pub const EFER_LMA: u64 = 0x400;

/// `cpuid` leaf 1, ECX bit 3: MONITOR/MWAIT.
pub const CPUID_MONITOR: u32 = 0x8;

/// `cpuid` leaf 1, ECX bit 5: virtual machine extensions.
pub const CPUID_VMX: u32 = 0x20;

/// `cpuid` leaf 1, ECX bit 15: performance capabilities register.
pub const CPUID_PDCM: u32 = 0x8000;

/// `cpuid` leaf 1, ECX bit 26: XSAVE.
pub const CPUID_XSAVE: u32 = 0x400_0000;

/// `cpuid` leaf 1, ECX bit 27: XSAVE enabled by the operating system.
pub const CPUID_OSXSAVE: u32 = 0x800_0000;

/// `cpuid` leaf 1, ECX bit 31: running under a hypervisor.
pub const CPUID_HV: u32 = 0x8000_0000;

/// `cpuid` leaf 7, EBX bit 1: time stamp counter adjustment register.
pub const CPUID_TSC_ADJUST: u32 = 0x2;

} // verus!
