//! Addresses of model specific registers.

use vstd::prelude::*;

verus! {

/// Local APIC base address and status.
pub const MSR_IA32_APIC_BASE: u32 = 0x1b;

/// Signature of the loaded microcode update.
pub const MSR_IA32_BIOS_SIGN_ID: u32 = 0x8b;

/// Miscellaneous processor features.
pub const MSR_IA32_MISC_ENABLE: u32 = 0x1a0;

/// Page attribute table.
pub const MSR_IA32_CR_PAT: u32 = 0x277;

/// Extended feature enables.
pub const MSR_EFER: u32 = 0xc000_0080;

} // verus!
