//! Accesses to model specific registers.

use vstd::prelude::*;
use vstd::string::StringExecFns;

use crate::bits;
use crate::consts::msr::{
    MSR_EFER, MSR_IA32_APIC_BASE, MSR_IA32_BIOS_SIGN_ID, MSR_IA32_CR_PAT, MSR_IA32_MISC_ENABLE,
};
use crate::consts::vmx::{VMX_REASON_RDMSR, VMX_REASON_WRMSR};
use crate::err::Error;
use crate::guest::{GuestState, GuestThread};
use crate::text;
use crate::vcpu;
use crate::vcpu::{Access, Place, Slot, VCPU, VcpuState, VmcsField, X86Reg};
use crate::vmexit;
use crate::vmexit::{HandleResult, Outcome};

verus! {

/// What IA32_MISC_ENABLE reads as: fast strings enabled, branch trace storage
/// and precise event based sampling unavailable.
pub const MISC_ENABLE: u64 = 0x1801;

/// What IA32_BIOS_SIGN_ID reads as: no microcode update is loaded.
pub const BIOS_SIGN_ID: u64 = 0;

/// The register that the guest accesses: the lower half of RCX.
pub open spec fn msr_number(s: VcpuState) -> u32 {
    bits::low_half(s.reg(X86Reg::RCX)) as u32
}

/// The value that the guest writes, if it writes: its halves are the lower
/// halves of RDX and RAX.
pub open spec fn msr_operand(s: VcpuState, read: bool) -> Option<u64> {
    if read {
        None
    } else {
        Some(bits::join_halves(s.reg(X86Reg::RDX), s.reg(X86Reg::RAX)))
    }
}

/// Whether a model specific register is implemented.
pub open spec fn msr_known(msr: u32) -> bool {
    ||| msr == MSR_EFER
    ||| msr == MSR_IA32_MISC_ENABLE
    ||| msr == MSR_IA32_BIOS_SIGN_ID
    ||| msr == MSR_IA32_CR_PAT
    ||| msr == MSR_IA32_APIC_BASE
}

/// What an implemented model specific register holds.
pub open spec fn msr_value(s: VcpuState, g: GuestState, msr: u32) -> u64
    recommends
        msr_known(msr),
{
    if msr == MSR_EFER {
        s.vmcs(VmcsField::GuestIa32Efer)
    } else if msr == MSR_IA32_MISC_ENABLE {
        MISC_ENABLE
    } else if msr == MSR_IA32_BIOS_SIGN_ID {
        BIOS_SIGN_ID
    } else if msr == MSR_IA32_CR_PAT {
        g.pat_msr
    } else {
        g.msr_apic_base
    }
}

/// The accesses that hand a value to the guest: its lower half in RAX, its
/// upper half in RDX.
pub open spec fn msr_reply(value: u64) -> Seq<Access> {
    seq![
        Access::Store(Place::Reg(X86Reg::RAX), bits::low_half(value)),
        Access::Store(Place::Reg(X86Reg::RDX), bits::high_half(value)),
    ]
}

/// The accesses that fetch what the guest asks for.
pub open spec fn msr_fetch(read: bool) -> Seq<Access> {
    if read {
        seq![Access::Load(Place::Reg(X86Reg::RCX))]
    } else {
        seq![
            Access::Load(Place::Reg(X86Reg::RCX)),
            Access::Load(Place::Reg(X86Reg::RDX)),
            Access::Load(Place::Reg(X86Reg::RAX)),
        ]
    }
}

/// The accesses that answer the guest.
pub open spec fn msr_answer(
    s: VcpuState,
    g: GuestState,
    msr: u32,
    new_value: Option<u64>,
) -> Seq<Access> {
    match new_value {
        Some(value) => if msr == MSR_EFER {
            seq![Access::Store(Place::Vmcs(VmcsField::GuestIa32Efer), value)]
        } else {
            Seq::empty()
        },
        None => if !msr_known(msr) {
            Seq::empty()
        } else if msr == MSR_EFER {
            seq![Access::Load(Place::Vmcs(VmcsField::GuestIa32Efer))] + msr_reply(
                msr_value(s, g, msr),
            )
        } else {
            msr_reply(msr_value(s, g, msr))
        },
    }
}

/// The accesses that handle an exit for a model specific register.
pub open spec fn msr_script(s: VcpuState, g: GuestState, read: bool) -> Seq<Access> {
    msr_fetch(read) + msr_answer(s, g, msr_number(s), msr_operand(s, read))
}

/// How an exit for a model specific register ends unless an access is refused.
pub open spec fn msr_end(msr: u32, new_value: Option<u64>) -> Outcome {
    if msr_known(msr) {
        Outcome::Done(HandleResult::Next)
    } else {
        match new_value {
            Some(value) => Outcome::Unhandled(
                VMX_REASON_WRMSR,
                "guest writes "@ + text::hex(value as nat) + " to unknown msr: "@
                    + text::hex_digits(msr as nat, 8),
            ),
            None => Outcome::Unhandled(
                VMX_REASON_RDMSR,
                "guest reads from unknown msr: "@ + text::hex_digits(msr as nat, 8),
            ),
        }
    }
}

/// The guest thread after the guest has accessed a model specific register.
pub open spec fn msr_guest(g: GuestState, msr: u32, new_value: Option<u64>) -> GuestState {
    match new_value {
        Some(value) => if msr == MSR_IA32_CR_PAT {
            GuestState { pat_msr: value, ..g }
        } else if msr == MSR_IA32_APIC_BASE {
            GuestState { msr_apic_base: value, ..g }
        } else {
            g
        },
        None => g,
    }
}

/// The guest thread after an exit for a model specific register.
pub open spec fn msr_guest_after(s: VcpuState, g: GuestState, read: bool) -> GuestState {
    if s.fault_in(msr_fetch(read)) is None {
        msr_guest(g, msr_number(s), msr_operand(s, read))
    } else {
        g
    }
}

/// Whether `t`, `h` and `r` are what an exit for a model specific register
/// makes of `s` and `g`.
pub open spec fn msr_handled(
    s: VcpuState,
    g: GuestState,
    read: bool,
    t: VcpuState,
    h: GuestState,
    r: Result<HandleResult, Error>,
) -> bool {
    &&& t == s.run(msr_script(s, g, read))
    &&& vmexit::outcome(r) == vmexit::script_outcome(
        s,
        msr_script(s, g, read),
        msr_end(msr_number(s), msr_operand(s, read)),
    )
    &&& h == msr_guest_after(s, g, read)
}

/// Hands the value of a model specific register to the guest.
fn write_msr_to_reg(msr_value: u64, vcpu: &mut VCPU) -> (r: Result<(), Error>)
    ensures
        final(vcpu)@ == old(vcpu)@.run(msr_reply(msr_value)),
        r == match old(vcpu)@.fault_in(msr_reply(msr_value)) {
            Some(code) => Err::<(), Error>(Error::Hypervisor(code)),
            None => Ok(()),
        },
{
    proof {
        reveal_with_fuel(VcpuState::run, 3);
        reveal_with_fuel(VcpuState::fault_in, 3);
    }
    let new_eax: u64 = bits::take_low_half(msr_value) as u64;
    let new_edx: u64 = bits::take_high_half(msr_value) as u64;
    vcpu.write_reg(X86Reg::RAX, new_eax)?;
    vcpu.write_reg(X86Reg::RDX, new_edx)
}

/// Refuses an access to a register that is not implemented.
fn msr_unknown(new_value: Option<u64>, msr: u32) -> (r: Result<HandleResult, Error>)
    requires
        !msr_known(msr),
    ensures
        vmexit::outcome(r) == msr_end(msr, new_value),
{
    if let Some(v) = new_value {
        let mut err_msg = "guest writes ".to_owned();
        text::push_hex(&mut err_msg, v);
        err_msg.append(" to unknown msr: ");
        text::push_hex_digits(&mut err_msg, msr as u64, 8);
        Err(Error::Unhandled(VMX_REASON_WRMSR, err_msg))
    } else {
        let mut err_msg = "guest reads from unknown msr: ".to_owned();
        text::push_hex_digits(&mut err_msg, msr as u64, 8);
        Err(Error::Unhandled(VMX_REASON_RDMSR, err_msg))
    }
}

/// Reads or writes EFER.
fn msr_efer(vcpu: &mut VCPU, gth: &GuestThread, new_value: Option<u64>) -> (r: Result<
    HandleResult,
    Error,
>)
    ensures
        final(vcpu)@ == old(vcpu)@.run(msr_answer(old(vcpu)@, gth@, MSR_EFER, new_value)),
        vmexit::outcome(r) == vmexit::script_outcome(
            old(vcpu)@,
            msr_answer(old(vcpu)@, gth@, MSR_EFER, new_value),
            Outcome::Done(HandleResult::Next),
        ),
{
    proof {
        reveal_with_fuel(VcpuState::run, 2);
        reveal_with_fuel(VcpuState::fault_in, 2);
    }
    if let Some(v) = new_value {
        vcpu.write_vmcs(VmcsField::GuestIa32Efer, v)?;
    } else {
        proof {
            let fetch = seq![Access::Load(Place::Vmcs(VmcsField::GuestIa32Efer))];
            vcpu::run_parts(vcpu@, fetch, msr_reply(vcpu@.vmcs(VmcsField::GuestIa32Efer)));
        }
        let efer: u64 = vcpu.read_vmcs(VmcsField::GuestIa32Efer)?;
        write_msr_to_reg(efer, vcpu)?;
    }
    Ok(HandleResult::Next)
}

/// Reads or writes the base address of the local APIC.
fn msr_apicbase(vcpu: &mut VCPU, gth: &mut GuestThread, new_value: Option<u64>) -> (r: Result<
    HandleResult,
    Error,
>)
    ensures
        final(vcpu)@ == old(vcpu)@.run(
            msr_answer(old(vcpu)@, old(gth)@, MSR_IA32_APIC_BASE, new_value),
        ),
        vmexit::outcome(r) == vmexit::script_outcome(
            old(vcpu)@,
            msr_answer(old(vcpu)@, old(gth)@, MSR_IA32_APIC_BASE, new_value),
            Outcome::Done(HandleResult::Next),
        ),
        final(gth)@ == msr_guest(old(gth)@, MSR_IA32_APIC_BASE, new_value),
{
    if let Some(v) = new_value {
        if v != gth.apic.msr_apic_base {
            gth.apic.msr_apic_base = v;
        }
    } else {
        write_msr_to_reg(gth.apic.msr_apic_base, vcpu)?;
    }
    Ok(HandleResult::Next)
}

/// Reads a register whose value is fixed, or ignores a write to it.
fn msr_read_only(vcpu: &mut VCPU, new_value: Option<u64>, default_value: u64) -> (r: Result<
    HandleResult,
    Error,
>)
    ensures
        ({
            let answer = if new_value is Some { Seq::empty() } else { msr_reply(default_value) };
            &&& final(vcpu)@ == old(vcpu)@.run(answer)
            &&& vmexit::outcome(r) == vmexit::script_outcome(
                old(vcpu)@,
                answer,
                Outcome::Done(HandleResult::Next),
            )
        }),
{
    if new_value.is_none() {
        write_msr_to_reg(default_value, vcpu)?;
    }
    Ok(HandleResult::Next)
}

/// Reads or writes the page attribute table.
fn msr_pat(vcpu: &mut VCPU, gth: &mut GuestThread, new_value: Option<u64>) -> (r: Result<
    HandleResult,
    Error,
>)
    ensures
        final(vcpu)@ == old(vcpu)@.run(
            msr_answer(old(vcpu)@, old(gth)@, MSR_IA32_CR_PAT, new_value),
        ),
        vmexit::outcome(r) == vmexit::script_outcome(
            old(vcpu)@,
            msr_answer(old(vcpu)@, old(gth)@, MSR_IA32_CR_PAT, new_value),
            Outcome::Done(HandleResult::Next),
        ),
        final(gth)@ == msr_guest(old(gth)@, MSR_IA32_CR_PAT, new_value),
{
    if let Some(v) = new_value {
        gth.pat_msr = v;
    } else {
        write_msr_to_reg(gth.pat_msr, vcpu)?;
    }
    Ok(HandleResult::Next)
}

/// Handles `rdmsr` (`read`) and `wrmsr`.
pub fn handle_msr_access(vcpu: &mut VCPU, gth: &mut GuestThread, read: bool) -> (r: Result<
    HandleResult,
    Error,
>)
    ensures
        final(vcpu)@ == old(vcpu)@.run(msr_script(old(vcpu)@, old(gth)@, read)),
        vmexit::outcome(r) == vmexit::script_outcome(
            old(vcpu)@,
            msr_script(old(vcpu)@, old(gth)@, read),
            msr_end(msr_number(old(vcpu)@), msr_operand(old(vcpu)@, read)),
        ),
        final(gth)@ == if old(vcpu)@.fault_in(msr_fetch(read)) is None {
            msr_guest(old(gth)@, msr_number(old(vcpu)@), msr_operand(old(vcpu)@, read))
        } else {
            old(gth)@
        },
        msr_handled(old(vcpu)@, old(gth)@, read, final(vcpu)@, final(gth)@, r),
{
    proof {
        reveal_with_fuel(VcpuState::run, 4);
        reveal_with_fuel(VcpuState::fault_in, 4);
        vcpu::run_parts(
            vcpu@,
            msr_fetch(read),
            msr_answer(vcpu@, gth@, msr_number(vcpu@), msr_operand(vcpu@, read)),
        );
    }
    let msr: u32 = bits::take_low_half(vcpu.read_reg(X86Reg::RCX)?);
    let new_value = if read {
        None
    } else {
        let edx: u32 = bits::take_low_half(vcpu.read_reg(X86Reg::RDX)?);
        let eax: u32 = bits::take_low_half(vcpu.read_reg(X86Reg::RAX)?);
        Some(bits::join(edx, eax))
    };
    match msr {
        MSR_EFER => msr_efer(vcpu, gth, new_value),
        MSR_IA32_MISC_ENABLE => msr_read_only(vcpu, new_value, MISC_ENABLE),
        MSR_IA32_BIOS_SIGN_ID => msr_read_only(vcpu, new_value, BIOS_SIGN_ID),
        MSR_IA32_CR_PAT => msr_pat(vcpu, gth, new_value),
        MSR_IA32_APIC_BASE => msr_apicbase(vcpu, gth, new_value),
        _ => msr_unknown(new_value, msr),
    }
}

/// Whether a model specific register keeps what the guest writes to it.
pub open spec fn msr_writable(msr: u32) -> bool {
    msr == MSR_EFER || msr == MSR_IA32_CR_PAT || msr == MSR_IA32_APIC_BASE
}

/// After an exit for `rdmsr`, of which no access is refused, the lower halves
/// of RDX and RAX are the halves of what the register holds, and their upper
/// halves are zero.
pub proof fn rdmsr_gives_value(s: VcpuState, g: GuestState)
    requires
        msr_known(msr_number(s)),
        s.fault_in(msr_script(s, g, true)) is None,
    ensures
        ({
            let t = s.run(msr_script(s, g, true));
            let value = msr_value(s, g, msr_number(s));
            &&& t.reg(X86Reg::RAX) == bits::low_half(value)
            &&& t.reg(X86Reg::RDX) == bits::high_half(value)
            &&& bits::join_halves(t.reg(X86Reg::RDX), t.reg(X86Reg::RAX)) == value
        }),
{
    reveal_with_fuel(VcpuState::run, 5);
    reveal_with_fuel(VcpuState::fault_in, 5);
}

/// A register that keeps what is written reads as what was written last: `s`
/// and `g` are as the guest writes, `t` and `h` as it reads, where the
/// register has not been touched in between.
pub proof fn rdmsr_gives_written_value(s: VcpuState, g: GuestState, t: VcpuState, h: GuestState)
    requires
        msr_writable(msr_number(s)),
        s.fault_in(msr_script(s, g, false)) is None,
        msr_number(t) == msr_number(s),
        msr_value(t, h, msr_number(t)) == msr_value(
            s.run(msr_script(s, g, false)),
            msr_guest(g, msr_number(s), msr_operand(s, false)),
            msr_number(s),
        ),
        t.fault_in(msr_script(t, h, true)) is None,
    ensures
        ({
            let u = t.run(msr_script(t, h, true));
            Some(bits::join_halves(u.reg(X86Reg::RDX), u.reg(X86Reg::RAX))) == msr_operand(s, false)
        }),
{
    assert(msr_value(t, h, msr_number(t)) == msr_operand(s, false)->Some_0) by {
        reveal_with_fuel(VcpuState::run, 5);
        reveal_with_fuel(VcpuState::fault_in, 5);
    }
    rdmsr_gives_value(t, h);
}

/// A write changes no part of the virtual CPU but EFER, and that only if EFER
/// is what is written. It changes the guest thread only if the page attribute
/// table or the APIC base is written.
pub proof fn wrmsr_changes_only_its_register(s: VcpuState, g: GuestState)
    ensures
        msr_number(s) != MSR_EFER ==> s.run(msr_script(s, g, false)) == s,
        forall|place: Place|
            place != Place::Vmcs(VmcsField::GuestIa32Efer) ==> #[trigger] s.run(
                msr_script(s, g, false),
            ).slots[place] == s.slots[place],
        msr_number(s) != MSR_IA32_CR_PAT && msr_number(s) != MSR_IA32_APIC_BASE ==> msr_guest(
            g,
            msr_number(s),
            msr_operand(s, false),
        ) == g,
{
    reveal_with_fuel(VcpuState::run, 5);
    reveal_with_fuel(VcpuState::fault_in, 5);
    assert(msr_fetch(false) + Seq::<Access>::empty() =~= msr_fetch(false));
}

/// A read leaves the guest thread and everything but RAX and RDX as it was.
pub proof fn rdmsr_changes_only_rax_and_rdx(s: VcpuState, g: GuestState, place: Place)
    requires
        place != Place::Reg(X86Reg::RAX),
        place != Place::Reg(X86Reg::RDX),
    ensures
        s.run(msr_script(s, g, true)).slots[place] == s.slots[place],
        msr_guest(g, msr_number(s), msr_operand(s, true)) == g,
{
    vcpu::run_keeps_others(s, msr_script(s, g, true), place);
}

/// What a register reads as is not changed by a write to another register.
pub proof fn wrmsr_keeps_other_registers(s: VcpuState, g: GuestState, msr: u32)
    requires
        msr_known(msr),
        msr != msr_number(s) || !msr_writable(msr),
    ensures
        msr_value(
            s.run(msr_script(s, g, false)),
            msr_guest(g, msr_number(s), msr_operand(s, false)),
            msr,
        ) == msr_value(s, g, msr),
{
    if msr_number(s) != MSR_EFER {
        wrmsr_changes_only_its_register(s, g);
    }
}

/// An access to a register that is not implemented changes nothing.
pub proof fn unknown_msr_changes_nothing(s: VcpuState, g: GuestState, read: bool)
    requires
        !msr_known(msr_number(s)),
    ensures
        s.run(msr_script(s, g, read)) == s,
        msr_guest(g, msr_number(s), msr_operand(s, read)) == g,
        msr_end(msr_number(s), msr_operand(s, read)) is Unhandled,
{
    reveal_with_fuel(VcpuState::run, 4);
    assert(msr_script(s, g, read) =~= msr_fetch(read));
}

/// What `wrmsr` does, whatever is refused. The lower halves of RCX, RDX and RAX
/// are the register's address and the halves of the value.
///
/// EFER, the page attribute table and the APIC base then hold the value, the
/// registers of fixed value ignore it, and any other register is unhandled.
/// Nothing else changes.
pub proof fn wrmsr_stores_value(
    s: VcpuState,
    g: GuestState,
    t: VcpuState,
    h: GuestState,
    r: Result<HandleResult, Error>,
)
    requires
        msr_handled(s, g, false, t, h, r),
    ensures
        ({
            let rcx = s.slots[Place::Reg(X86Reg::RCX)];
            let rdx = s.slots[Place::Reg(X86Reg::RDX)];
            let rax = s.slots[Place::Reg(X86Reg::RAX)];
            let efer = s.slots[Place::Vmcs(VmcsField::GuestIa32Efer)];
            let msr = rcx.value % 0x1_0000_0000;
            let value = (rdx.value % 0x1_0000_0000) * 0x1_0000_0000 + rax.value % 0x1_0000_0000;
            if rcx.read_fault is Some {
                r == Err::<HandleResult, Error>(Error::Hypervisor(rcx.read_fault->Some_0)) && t == s
                    && h == g
            } else if rdx.read_fault is Some {
                r == Err::<HandleResult, Error>(Error::Hypervisor(rdx.read_fault->Some_0)) && t == s
                    && h == g
            } else if rax.read_fault is Some {
                r == Err::<HandleResult, Error>(Error::Hypervisor(rax.read_fault->Some_0)) && t == s
                    && h == g
            } else if msr == 0xc000_0080 {
                if efer.write_fault is Some {
                    r == Err::<HandleResult, Error>(Error::Hypervisor(efer.write_fault->Some_0)) && t
                        == s && h == g
                } else {
                    &&& r == Ok::<HandleResult, Error>(HandleResult::Next)
                    &&& t.slots == s.slots.insert(
                        Place::Vmcs(VmcsField::GuestIa32Efer),
                        Slot { value: value as u64, ..efer },
                    )
                    &&& t.slots[Place::Vmcs(VmcsField::GuestIa32Efer)].value == value
                    &&& t.stores == s.stores.push(
                        (Place::Vmcs(VmcsField::GuestIa32Efer), value as u64),
                    )
                    &&& h == g
                }
            } else if msr == 0x277 {
                &&& r == Ok::<HandleResult, Error>(HandleResult::Next)
                &&& t == s
                &&& h.pat_msr == value
                &&& h == (GuestState { pat_msr: h.pat_msr, ..g })
            } else if msr == 0x1b {
                &&& r == Ok::<HandleResult, Error>(HandleResult::Next)
                &&& t == s
                &&& h.msr_apic_base == value
                &&& h == (GuestState { msr_apic_base: h.msr_apic_base, ..g })
            } else if msr == 0x1a0 || msr == 0x8b {
                &&& r == Ok::<HandleResult, Error>(HandleResult::Next)
                &&& t == s
                &&& h == g
            } else {
                &&& r matches Err(Error::Unhandled(reason, text))
                &&& reason == 32
                &&& text@ == "guest writes "@ + text::hex(value as nat) + " to unknown msr: "@
                    + text::hex_digits(msr as nat, 8)
                &&& t == s
                &&& h == g
            }
        }),
{
    reveal_with_fuel(VcpuState::run, 6);
    reveal_with_fuel(VcpuState::fault_in, 6);
    vcpu::run_parts(
        s,
        msr_fetch(false),
        msr_answer(s, g, msr_number(s), msr_operand(s, false)),
    );
}

/// What `rdmsr` does, whatever is refused. The lower half of RCX is the
/// register's address.
///
/// The lower half of what the register holds goes to RAX, and then the upper
/// half to RDX. A register that is not implemented is unhandled. Nothing else
/// changes.
pub proof fn rdmsr_hands_value_over(
    s: VcpuState,
    g: GuestState,
    t: VcpuState,
    h: GuestState,
    r: Result<HandleResult, Error>,
)
    requires
        msr_handled(s, g, true, t, h, r),
    ensures
        h == g,
        ({
            let rcx = s.slots[Place::Reg(X86Reg::RCX)];
            let rdx = s.slots[Place::Reg(X86Reg::RDX)];
            let rax = s.slots[Place::Reg(X86Reg::RAX)];
            let efer = s.slots[Place::Vmcs(VmcsField::GuestIa32Efer)];
            let msr = rcx.value % 0x1_0000_0000;
            let value: u64 = if msr == 0xc000_0080 {
                efer.value
            } else if msr == 0x277 {
                g.pat_msr
            } else if msr == 0x1b {
                g.msr_apic_base
            } else if msr == 0x1a0 {
                0x1801
            } else {
                0
            };
            let low = value % 0x1_0000_0000;
            let high = value / 0x1_0000_0000;
            if rcx.read_fault is Some {
                r == Err::<HandleResult, Error>(Error::Hypervisor(rcx.read_fault->Some_0)) && t == s
            } else if msr != 0xc000_0080 && msr != 0x277 && msr != 0x1b && msr != 0x1a0 && msr
                != 0x8b {
                &&& r matches Err(Error::Unhandled(reason, text))
                &&& reason == 31
                &&& text@ == "guest reads from unknown msr: "@ + text::hex_digits(msr as nat, 8)
                &&& t == s
            } else if msr == 0xc000_0080 && efer.read_fault is Some {
                r == Err::<HandleResult, Error>(Error::Hypervisor(efer.read_fault->Some_0)) && t == s
            } else if rax.write_fault is Some {
                r == Err::<HandleResult, Error>(Error::Hypervisor(rax.write_fault->Some_0)) && t == s
            } else if rdx.write_fault is Some {
                &&& r == Err::<HandleResult, Error>(Error::Hypervisor(rdx.write_fault->Some_0))
                &&& t.slots == s.slots.insert(
                    Place::Reg(X86Reg::RAX),
                    Slot { value: low, ..rax },
                )
                &&& t.stores == s.stores.push((Place::Reg(X86Reg::RAX), low))
            } else {
                &&& r == Ok::<HandleResult, Error>(HandleResult::Next)
                &&& t.slots == s.slots.insert(
                    Place::Reg(X86Reg::RAX),
                    Slot { value: low, ..rax },
                ).insert(Place::Reg(X86Reg::RDX), Slot { value: high, ..rdx })
                &&& t.stores == s.stores.push((Place::Reg(X86Reg::RAX), low)).push(
                    (Place::Reg(X86Reg::RDX), high),
                )
            }
        }),
{
    reveal_with_fuel(VcpuState::run, 6);
    reveal_with_fuel(VcpuState::fault_in, 6);
    vcpu::run_parts(s, msr_fetch(true), msr_answer(s, g, msr_number(s), msr_operand(s, true)));
}

/// `rdmsr` after `wrmsr` gives back, in RAX and RDX, the lower halves of what
/// RAX and RDX were at the write. Both succeed, on the same one of EFER, the
/// page attribute table and the APIC base, which is not touched in between.
pub proof fn msr_round_trip(
    s: VcpuState,
    g: GuestState,
    t: VcpuState,
    h: GuestState,
    written: Result<HandleResult, Error>,
    s2: VcpuState,
    g2: GuestState,
    t2: VcpuState,
    h2: GuestState,
    read: Result<HandleResult, Error>,
)
    requires
        msr_handled(s, g, false, t, h, written),
        written is Ok,
        s2.slots[Place::Vmcs(VmcsField::GuestIa32Efer)].value == t.slots[Place::Vmcs(
            VmcsField::GuestIa32Efer,
        )].value,
        g2.pat_msr == h.pat_msr,
        g2.msr_apic_base == h.msr_apic_base,
        s2.slots[Place::Reg(X86Reg::RCX)].value % 0x1_0000_0000 == s.slots[Place::Reg(
            X86Reg::RCX,
        )].value % 0x1_0000_0000,
        ({
            let msr = s.slots[Place::Reg(X86Reg::RCX)].value % 0x1_0000_0000;
            msr == 0xc000_0080 || msr == 0x277 || msr == 0x1b
        }),
        msr_handled(s2, g2, true, t2, h2, read),
        read is Ok,
    ensures
        t2.slots[Place::Reg(X86Reg::RAX)].value == s.slots[Place::Reg(X86Reg::RAX)].value
            % 0x1_0000_0000,
        t2.slots[Place::Reg(X86Reg::RDX)].value == s.slots[Place::Reg(X86Reg::RDX)].value
            % 0x1_0000_0000,
{
    wrmsr_stores_value(s, g, t, h, written);
    rdmsr_hands_value_over(s2, g2, t2, h2, read);
}

} // verus!
