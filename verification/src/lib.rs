//! VM-exit handling for a hypervisor that runs x86 guests on Intel VT-x.
//!
//! A guest leaves its virtual CPU when it touches a control register, a model
//! specific register, an I/O port, an unmapped guest-physical page or runs
//! `cpuid`. The functions of [`vmexit`] decide what such an exit does to the
//! virtual CPU ([`vcpu::VCPU`]) and to the guest thread
//! ([`guest::GuestThread`]), and how the guest goes on
//! ([`vmexit::HandleResult`]).

pub mod bits;
pub mod consts;
pub mod cpuid;
pub mod err;
pub mod guest;
pub mod text;
pub mod vcpu;
pub mod vmexit;
