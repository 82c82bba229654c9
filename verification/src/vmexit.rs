//! What an exit of the guest does.

use vstd::prelude::*;

use crate::err::Error;
use crate::vcpu::{Access, VcpuState, X86Reg};

pub mod cr;
pub mod cpuid;
pub mod ept;
pub mod io;
pub mod msr;

pub use cr::handle_cr;
pub use cpuid::handle_cpuid;
pub use ept::{ept_instr_fetch, ept_page_walk, ept_read, ept_write, handle_ept_violation};
pub use io::{handle_io, ExitQualIO};
pub use msr::handle_msr_access;

verus! {

/// How the guest goes on after an exit.
#[derive(Debug, PartialEq, Eq, Structural)]
pub enum HandleResult {
    /// The guest stops.
    Exit,
    /// The guest runs the same instruction again.
    Resume,
    /// The guest goes on with the next instruction.
    Next,
}

/// How the handling of an exit ends, mathematically.
pub enum Outcome {
    /// The guest goes on.
    Done(HandleResult),
    /// The hypervisor refused an access, with this code.
    Fault(u32),
    /// Nothing is implemented for what the guest did: the basic exit reason,
    /// and what the guest did in words.
    Unhandled(u64, Seq<char>),
}

/// The outcome that a handler's result stands for.
pub open spec fn outcome(r: Result<HandleResult, Error>) -> Outcome {
    match r {
        Ok(result) => Outcome::Done(result),
        Err(Error::Hypervisor(code)) => Outcome::Fault(code),
        Err(Error::Unhandled(reason, text)) => Outcome::Unhandled(reason, text@),
    }
}

/// The outcome of a script of accesses that ends with `end` unless one of them
/// is refused.
pub open spec fn script_outcome(s: VcpuState, script: Seq<Access>, end: Outcome) -> Outcome {
    match s.fault_in(script) {
        Some(code) => Outcome::Fault(code),
        None => end,
    }
}

/// A result and its outcome tell the same: how the guest goes on, the code of a
/// refusal, or the reason and the words of what is not implemented.
pub proof fn outcome_is_result(
    r: Result<HandleResult, Error>,
    result: HandleResult,
    code: u32,
    reason: u64,
    words: Seq<char>,
)
    ensures
        outcome(r) == Outcome::Done(result) <==> r == Ok::<HandleResult, Error>(result),
        outcome(r) == Outcome::Fault(code) <==> r == Err::<HandleResult, Error>(
            Error::Hypervisor(code),
        ),
        outcome(r) == Outcome::Unhandled(reason, words) <==> (r matches Err(
            Error::Unhandled(k, text),
        ) && k == reason && text@ == words),
{
}

/// A script ends as intended unless an access is refused, and with the code of
/// the refusal if one is.
pub proof fn refusal_ends_script(s: VcpuState, script: Seq<Access>, end: Outcome)
    ensures
        s.fault_in(script) is None ==> script_outcome(s, script, end) == end,
        s.fault_in(script) matches Some(code) ==> script_outcome(s, script, end)
            == Outcome::Fault(code),
{
}

/// The general purpose register that an exit qualification names by number.
pub open spec fn guest_reg(num: u64) -> X86Reg
    recommends
        num < 16,
{
    seq![
        X86Reg::RAX,
        X86Reg::RCX,
        X86Reg::RDX,
        X86Reg::RBX,
        X86Reg::RSP,
        X86Reg::RBP,
        X86Reg::RSI,
        X86Reg::RDI,
        X86Reg::R8,
        X86Reg::R9,
        X86Reg::R10,
        X86Reg::R11,
        X86Reg::R12,
        X86Reg::R13,
        X86Reg::R14,
        X86Reg::R15,
    ][num as int]
}

/// The general purpose register that an exit qualification names by number
/// (Intel SDM, table 27-3).
pub fn vmx_guest_reg(num: u64) -> (reg: X86Reg)
    requires
        num < 16,
    ensures
        reg == guest_reg(num),
{
    match num {
        0 => X86Reg::RAX,
        1 => X86Reg::RCX,
        2 => X86Reg::RDX,
        3 => X86Reg::RBX,
        4 => X86Reg::RSP,
        5 => X86Reg::RBP,
        6 => X86Reg::RSI,
        7 => X86Reg::RDI,
        8 => X86Reg::R8,
        9 => X86Reg::R9,
        10 => X86Reg::R10,
        11 => X86Reg::R11,
        12 => X86Reg::R12,
        13 => X86Reg::R13,
        14 => X86Reg::R14,
        _ => X86Reg::R15,
    }
}

/// The register numbers name the registers in the order in which instructions
/// encode them.
pub proof fn guest_reg_order()
    ensures
        guest_reg(0) == X86Reg::RAX,
        guest_reg(1) == X86Reg::RCX,
        guest_reg(2) == X86Reg::RDX,
        guest_reg(3) == X86Reg::RBX,
        guest_reg(4) == X86Reg::RSP,
        guest_reg(5) == X86Reg::RBP,
        guest_reg(6) == X86Reg::RSI,
        guest_reg(7) == X86Reg::RDI,
        guest_reg(8) == X86Reg::R8,
        guest_reg(9) == X86Reg::R9,
        guest_reg(10) == X86Reg::R10,
        guest_reg(11) == X86Reg::R11,
        guest_reg(12) == X86Reg::R12,
        guest_reg(13) == X86Reg::R13,
        guest_reg(14) == X86Reg::R14,
        guest_reg(15) == X86Reg::R15,
{
}

/// The sixteen register numbers name sixteen registers, none of them a control
/// register.
pub proof fn guest_reg_injective(a: u64, b: u64)
    requires
        a < 16,
        b < 16,
    ensures
        guest_reg(a) == guest_reg(b) ==> a == b,
        guest_reg(a) != X86Reg::CR0,
        guest_reg(a) != X86Reg::CR3,
        guest_reg(a) != X86Reg::CR4,
{
}

} // verus!
