//! Exit reasons, VMCS field encodings and VM-entry controls.

use vstd::prelude::*;

verus! {

/// Basic exit reason: control register access.
pub const VMX_REASON_MOV_CR: u64 = 28;

/// Basic exit reason: I/O instruction.
pub const VMX_REASON_IO: u64 = 30;

/// Basic exit reason: `rdmsr`.
pub const VMX_REASON_RDMSR: u64 = 31;

/// Basic exit reason: `wrmsr`.
pub const VMX_REASON_WRMSR: u64 = 32;

/// Encoding of the guest's IA32_EFER field.
pub const VMCS_GUEST_IA32_EFER: u32 = 0x2806;

/// Encoding of the VM-entry controls field.
pub const VMCS_CTRL_VMENTRY_CONTROLS: u32 = 0x4012;

/// Encoding of the CR0 read shadow field.
pub const VMCS_CTRL_CR0_SHADOW: u32 = 0x6004;

/// Encoding of the read-only exit qualification field.
pub const VMCS_RO_EXIT_QUALIFIC: u32 = 0x6400;

/// VM-entry control bit 9: the guest enters in IA-32e mode.
pub const VMENTRY_GUEST_IA32E: u64 = 0x200;

} // verus!
