//! Control register accesses.

use vstd::prelude::*;
use vstd::string::StringExecFns;

use crate::consts::vmx::{VMENTRY_GUEST_IA32E, VMX_REASON_MOV_CR};
use crate::consts::x86::{EFER_LMA, EFER_LME, X86_CR0_NE, X86_CR0_PE, X86_CR0_PG, X86_CR4_PAE};
use crate::err::Error;
use crate::guest::GuestThread;
use crate::text;
use crate::vcpu;
use crate::vcpu::{Access, Place, VCPU, VcpuState, VmcsField, X86Reg};
use crate::vmexit;
use crate::vmexit::{HandleResult, Outcome};

verus! {

/// The number of the control register that an exit qualification names.
pub open spec fn cr_number(qual: u64) -> u64 {
    qual % 16
}

/// How an exit qualification says that the control register is accessed: 0 for
/// a move to it, 1 for a move from it, 2 for `clts`, 3 for `lmsw`.
pub open spec fn cr_access_type(qual: u64) -> u64 {
    qual / 16 % 4
}

/// The general purpose register that an exit qualification names.
pub open spec fn cr_source(qual: u64) -> X86Reg {
    vmexit::guest_reg(qual / 256 % 16)
}

/// Whether the processor is in long mode with these register values.
pub open spec fn long_mode(cr0: u64, cr4: u64, efer: u64) -> bool {
    &&& cr0 & X86_CR0_PE != 0
    &&& cr0 & X86_CR0_PG != 0
    &&& cr4 & X86_CR4_PAE != 0
    &&& efer & EFER_LME != 0
}

/// The value that the guest gets into CR0.
pub open spec fn new_cr0(s: VcpuState) -> u64 {
    s.reg(cr_source(s.vmcs(VmcsField::ExitQualification))) | X86_CR0_NE
}

/// The accesses by which long mode is entered or left.
pub open spec fn switch_long_mode(s: VcpuState, enter: bool) -> Seq<Access> {
    let efer = s.vmcs(VmcsField::GuestIa32Efer);
    let controls = s.vmcs(VmcsField::VmentryControls);
    seq![
        Access::Store(
            Place::Vmcs(VmcsField::GuestIa32Efer),
            if enter { efer | EFER_LMA } else { efer & !EFER_LMA },
        ),
        Access::Load(Place::Vmcs(VmcsField::VmentryControls)),
        Access::Store(
            Place::Vmcs(VmcsField::VmentryControls),
            if enter { controls | VMENTRY_GUEST_IA32E } else { controls & !VMENTRY_GUEST_IA32E },
        ),
    ]
}

/// The accesses of a move to CR0: the value goes to CR0 and to its shadow, and
/// long mode is switched where the guest has just turned it on or off.
pub open spec fn mov_to_cr0(s: VcpuState) -> Seq<Access> {
    let cr0 = new_cr0(s);
    let efer = s.vmcs(VmcsField::GuestIa32Efer);
    let enter = long_mode(cr0, s.reg(X86Reg::CR4), efer);
    seq![
        Access::Load(Place::Vmcs(VmcsField::ExitQualification)),
        Access::Load(Place::Reg(cr_source(s.vmcs(VmcsField::ExitQualification)))),
        Access::Store(Place::Vmcs(VmcsField::Cr0Shadow), cr0),
        Access::Store(Place::Reg(X86Reg::CR0), cr0),
        Access::Load(Place::Reg(X86Reg::CR0)),
        Access::Load(Place::Reg(X86Reg::CR4)),
        Access::Load(Place::Vmcs(VmcsField::GuestIa32Efer)),
    ] + if enter == (efer & EFER_LMA != 0) {
        Seq::empty()
    } else {
        switch_long_mode(s, enter)
    }
}

/// The accesses that handle a control register exit.
pub open spec fn cr_script(s: VcpuState) -> Seq<Access> {
    let qual = s.vmcs(VmcsField::ExitQualification);
    if cr_number(qual) == 8 || cr_access_type(qual) != 0 {
        seq![Access::Load(Place::Vmcs(VmcsField::ExitQualification))]
    } else if cr_number(qual) != 0 {
        seq![
            Access::Load(Place::Vmcs(VmcsField::ExitQualification)),
            Access::Load(Place::Reg(cr_source(qual))),
        ]
    } else {
        mov_to_cr0(s)
    }
}

/// How a control register exit ends unless an access is refused. Only moves to
/// CR0 are implemented.
pub open spec fn cr_end(qual: u64) -> Outcome {
    if cr_number(qual) == 8 {
        Outcome::Unhandled(VMX_REASON_MOV_CR, "access cr8: unimplemented"@)
    } else if cr_access_type(qual) != 0 {
        Outcome::Unhandled(
            VMX_REASON_MOV_CR,
            "access type "@ + text::hex(cr_access_type(qual) as nat) + ": unimplemented"@,
        )
    } else if cr_number(qual) == 3 {
        Outcome::Unhandled(VMX_REASON_MOV_CR, "mov to CR3: unimplemented"@)
    } else if cr_number(qual) == 4 {
        Outcome::Unhandled(VMX_REASON_MOV_CR, "mov to CR4: unimplemented"@)
    } else {
        Outcome::Done(HandleResult::Next)
    }
}

/// Whether an exit qualification names a control register whose accesses can
/// cause an exit.
pub open spec fn cr_valid(qual: u64) -> bool {
    cr_number(qual) == 0 || cr_number(qual) == 3 || cr_number(qual) == 4 || cr_number(qual) == 8
}

/// Whether `t` and `r` are what a control register exit makes of `s`.
pub open spec fn cr_handled(s: VcpuState, t: VcpuState, r: Result<HandleResult, Error>) -> bool {
    &&& t == s.run(cr_script(s))
    &&& vmexit::outcome(r) == vmexit::script_outcome(
        s,
        cr_script(s),
        cr_end(s.vmcs(VmcsField::ExitQualification)),
    )
}

/// Handles an access to a control register (Intel SDM, table 27-3).
///
/// No processor reports a register other than CR0, CR3, CR4 and CR8.
pub fn handle_cr(vcpu: &mut VCPU, _gth: &GuestThread) -> (r: Result<HandleResult, Error>)
    requires
        old(vcpu)@.fault(Access::Load(Place::Vmcs(VmcsField::ExitQualification))) is None
            ==> cr_valid(old(vcpu)@.vmcs(VmcsField::ExitQualification)),
    ensures
        final(vcpu)@ == old(vcpu)@.run(cr_script(old(vcpu)@)),
        vmexit::outcome(r) == vmexit::script_outcome(
            old(vcpu)@,
            cr_script(old(vcpu)@),
            cr_end(old(vcpu)@.vmcs(VmcsField::ExitQualification)),
        ),
        cr_handled(old(vcpu)@, final(vcpu)@, r),
{
    proof {
        reveal_with_fuel(VcpuState::run, 11);
        reveal_with_fuel(VcpuState::fault_in, 11);
    }
    let qual: u64 = vcpu.read_vmcs(VmcsField::ExitQualification)?;
    proof {
        assert(qual & 0xf == qual % 16 && (qual >> 4) & 0b11 == qual / 16 % 4 && (qual >> 8) & 0xf
            == qual / 256 % 16) by (bit_vector);
    }
    let ctrl_reg = match qual & 0xf {
        0 => X86Reg::CR0,
        3 => X86Reg::CR3,
        4 => X86Reg::CR4,
        _ => {
            return Err(
                Error::Unhandled(VMX_REASON_MOV_CR, "access cr8: unimplemented".to_owned()),
            );
        },
    };
    let access_type: u64 = (qual >> 4) & 0b11;
    let reg = vmexit::vmx_guest_reg((qual >> 8) & 0xf);
    if access_type != 0 {
        let mut message = "access type ".to_owned();
        text::push_hex(&mut message, access_type);
        message.append(": unimplemented");
        return Err(Error::Unhandled(VMX_REASON_MOV_CR, message));
    }
    let mut new_value: u64 = vcpu.read_reg(reg)?;
    match ctrl_reg {
        X86Reg::CR0 => {
            new_value |= X86_CR0_NE;
            vcpu.write_vmcs(VmcsField::Cr0Shadow, new_value)?;
        },
        X86Reg::CR3 => {
            return Err(
                Error::Unhandled(VMX_REASON_MOV_CR, "mov to CR3: unimplemented".to_owned()),
            );
        },
        _ => {
            return Err(
                Error::Unhandled(VMX_REASON_MOV_CR, "mov to CR4: unimplemented".to_owned()),
            );
        },
    }
    vcpu.write_reg(X86Reg::CR0, new_value)?;
    let cr0: u64 = vcpu.read_reg(X86Reg::CR0)?;
    let cr4: u64 = vcpu.read_reg(X86Reg::CR4)?;
    let mut efer: u64 = vcpu.read_vmcs(VmcsField::GuestIa32Efer)?;
    let long_mode = cr0 & X86_CR0_PE != 0 && cr0 & X86_CR0_PG != 0 && cr4 & X86_CR4_PAE != 0 && efer
        & EFER_LME != 0;
    if long_mode && efer & EFER_LMA == 0 {
        efer |= EFER_LMA;
        vcpu.write_vmcs(VmcsField::GuestIa32Efer, efer)?;
        let mut ctrl_entry: u64 = vcpu.read_vmcs(VmcsField::VmentryControls)?;
        ctrl_entry |= VMENTRY_GUEST_IA32E;
        vcpu.write_vmcs(VmcsField::VmentryControls, ctrl_entry)?;
    } else if !long_mode && efer & EFER_LMA != 0 {
        efer &= !EFER_LMA;
        vcpu.write_vmcs(VmcsField::GuestIa32Efer, efer)?;
        let mut ctrl_entry: u64 = vcpu.read_vmcs(VmcsField::VmentryControls)?;
        ctrl_entry &= !VMENTRY_GUEST_IA32E;
        vcpu.write_vmcs(VmcsField::VmentryControls, ctrl_entry)?;
    }
    Ok(HandleResult::Next)
}

/// Whether a control register exit is a move to CR0 of which no access is
/// refused.
pub open spec fn moves_to_cr0(s: VcpuState) -> bool {
    let qual = s.vmcs(VmcsField::ExitQualification);
    cr_number(qual) == 0 && cr_access_type(qual) == 0 && s.fault_in(cr_script(s)) is None
}

/// After a move to CR0 the register and its shadow hold the value that the
/// guest moved, with the numeric error bit set.
pub proof fn cr0_holds_moved_value(s: VcpuState)
    requires
        moves_to_cr0(s),
    ensures
        s.run(cr_script(s)).reg(X86Reg::CR0) == new_cr0(s),
        s.run(cr_script(s)).vmcs(VmcsField::Cr0Shadow) == new_cr0(s),
        new_cr0(s) & X86_CR0_NE == X86_CR0_NE,
        new_cr0(s) & !X86_CR0_NE == s.reg(cr_source(s.vmcs(VmcsField::ExitQualification)))
            & !X86_CR0_NE,
{
    reveal_with_fuel(VcpuState::run, 11);
    reveal_with_fuel(VcpuState::fault_in, 11);
    let v = s.reg(cr_source(s.vmcs(VmcsField::ExitQualification)));
    assert((v | 0x20) & 0x20 == 0x20 && (v | 0x20) & !0x20u64 == v & !0x20u64) by (bit_vector);
}

/// After a move to CR0 the guest's EFER says that long mode is active exactly
/// where CR0, CR4 and EFER make it so, and says otherwise what it said before.
pub proof fn lma_is_long_mode(s: VcpuState)
    requires
        moves_to_cr0(s),
    ensures
        ({
            let t = s.run(cr_script(s));
            let efer = t.vmcs(VmcsField::GuestIa32Efer);
            &&& efer & EFER_LMA != 0 <==> long_mode(t.reg(X86Reg::CR0), t.reg(X86Reg::CR4), efer)
            &&& efer & !EFER_LMA == s.vmcs(VmcsField::GuestIa32Efer) & !EFER_LMA
        }),
{
    reveal_with_fuel(VcpuState::run, 11);
    reveal_with_fuel(VcpuState::fault_in, 11);
    let e = s.vmcs(VmcsField::GuestIa32Efer);
    assert((e | 0x400) & 0x100 == e & 0x100 && (e & !0x400u64) & 0x100 == e & 0x100 && (e | 0x400)
        & 0x400 != 0 && (e & !0x400u64) & 0x400 == 0 && (e | 0x400) & !0x400u64 == e & !0x400u64
        && (e & !0x400u64) & !0x400u64 == e & !0x400u64) by (bit_vector);
}

/// Where the VM-entry controls agree with EFER on whether the guest is in long
/// mode, they still do after a move to CR0, and are otherwise as before.
pub proof fn entry_controls_follow_efer(s: VcpuState)
    requires
        moves_to_cr0(s),
        s.vmcs(VmcsField::VmentryControls) & VMENTRY_GUEST_IA32E != 0 <==> s.vmcs(
            VmcsField::GuestIa32Efer,
        ) & EFER_LMA != 0,
    ensures
        ({
            let t = s.run(cr_script(s));
            let controls = t.vmcs(VmcsField::VmentryControls);
            &&& controls & VMENTRY_GUEST_IA32E != 0 <==> t.vmcs(VmcsField::GuestIa32Efer) & EFER_LMA
                != 0
            &&& controls & !VMENTRY_GUEST_IA32E == s.vmcs(VmcsField::VmentryControls)
                & !VMENTRY_GUEST_IA32E
        }),
{
    reveal_with_fuel(VcpuState::run, 11);
    reveal_with_fuel(VcpuState::fault_in, 11);
    let e = s.vmcs(VmcsField::GuestIa32Efer);
    let c = s.vmcs(VmcsField::VmentryControls);
    assert((e | 0x400) & 0x400 != 0 && (e & !0x400u64) & 0x400 == 0 && (c | 0x200) & 0x200 != 0 && (c
        & !0x200u64) & 0x200 == 0 && (c | 0x200) & !0x200u64 == c & !0x200u64 && (c & !0x200u64)
        & !0x200u64 == c & !0x200u64) by (bit_vector);
}

/// A control register exit changes nothing but CR0, its shadow, EFER and the
/// VM-entry controls.
pub proof fn cr_keeps_others(s: VcpuState, place: Place)
    requires
        place != Place::Reg(X86Reg::CR0),
        place != Place::Vmcs(VmcsField::Cr0Shadow),
        place != Place::Vmcs(VmcsField::GuestIa32Efer),
        place != Place::Vmcs(VmcsField::VmentryControls),
    ensures
        s.run(cr_script(s)).slots[place] == s.slots[place],
{
    vcpu::run_keeps_others(s, cr_script(s), place);
}

/// A control register exit that is not a move to CR0 changes nothing.
pub proof fn unhandled_cr_changes_nothing(s: VcpuState)
    requires
        cr_end(s.vmcs(VmcsField::ExitQualification)) is Unhandled,
    ensures
        s.run(cr_script(s)) == s,
{
    reveal_with_fuel(VcpuState::run, 3);
}

/// The control registers whose accesses can cause an exit are CR0, CR3, CR4 and
/// CR8, which bits 0 to 3 of the exit qualification number.
pub proof fn valid_control_registers(qual: u64)
    ensures
        cr_valid(qual) <==> (qual % 16 == 0 || qual % 16 == 3 || qual % 16 == 4 || qual % 16 == 8),
{
}

/// What a control register exit that succeeds does. It is a move to CR0 (bits 0
/// to 5 of the exit qualification are zero), and the guest goes on with the next
/// instruction.
///
/// CR0 and its shadow become the value of the register that bits 8 to 11 of the
/// exit qualification name, with bit 5 set. Then EFER bit 10 is set exactly
/// where CR0 bits 0 and 31, CR4 bit 5 and EFER bit 8 all are. No other bit of
/// EFER changes. Bit 9 of the VM-entry controls follows EFER bit 10 where that
/// changes, and nothing else of them changes.
pub proof fn long_mode_follows_registers(
    s: VcpuState,
    t: VcpuState,
    r: Result<HandleResult, Error>,
)
    requires
        cr_handled(s, t, r),
        r is Ok,
        s.slots[Place::Vmcs(VmcsField::ExitQualification)].read_fault is None ==> cr_valid(
            s.slots[Place::Vmcs(VmcsField::ExitQualification)].value,
        ),
    ensures
        r == Ok::<HandleResult, Error>(HandleResult::Next),
        s.slots[Place::Vmcs(VmcsField::ExitQualification)].value % 64 == 0,
        ({
            let qual = s.slots[Place::Vmcs(VmcsField::ExitQualification)].value;
            let moved = s.slots[Place::Reg(vmexit::guest_reg(qual / 256 % 16))].value;
            let cr0 = t.slots[Place::Reg(X86Reg::CR0)].value;
            let cr4 = s.slots[Place::Reg(X86Reg::CR4)].value;
            let efer_before = s.slots[Place::Vmcs(VmcsField::GuestIa32Efer)].value;
            let efer = t.slots[Place::Vmcs(VmcsField::GuestIa32Efer)].value;
            let controls_before = s.slots[Place::Vmcs(VmcsField::VmentryControls)].value;
            let controls = t.slots[Place::Vmcs(VmcsField::VmentryControls)].value;
            &&& cr0 == if moved / 0x20 % 2 == 1 { moved as int } else { moved + 0x20 }
            &&& t.slots[Place::Vmcs(VmcsField::Cr0Shadow)].value == cr0
            &&& t.slots[Place::Reg(X86Reg::CR4)].value == cr4
            &&& efer / 0x400 % 2 == 1 <==> (cr0 % 2 == 1 && cr0 / 0x8000_0000 % 2 == 1 && cr4 / 0x20
                % 2 == 1 && efer / 0x100 % 2 == 1)
            &&& efer % 0x400 == efer_before % 0x400
            &&& efer / 0x800 == efer_before / 0x800
            &&& efer == efer_before ==> controls == controls_before
            &&& efer != efer_before ==> {
                &&& controls / 0x200 % 2 == 1 <==> efer / 0x400 % 2 == 1
                &&& controls % 0x200 == controls_before % 0x200
                &&& controls / 0x400 == controls_before / 0x400
            }
        }),
{
    refusals_in_order(s, t, r);
    cr_bits(
        s.reg(cr_source(s.vmcs(VmcsField::ExitQualification))),
        s.reg(X86Reg::CR4),
        s.vmcs(VmcsField::GuestIa32Efer),
        s.vmcs(VmcsField::VmentryControls),
    );
    reveal_with_fuel(VcpuState::run, 11);
    reveal_with_fuel(VcpuState::fault_in, 11);
}

/// The masks of control register handling pick out, set and clear single bits.
proof fn cr_bits(v: u64, cr4: u64, e: u64, c: u64)
    ensures
        v | 0x20 == if v / 0x20 % 2 == 1 { v as int } else { v + 0x20 },
        (v | 0x20) & 1 != 0 <==> (v | 0x20) % 2 == 1,
        (v | 0x20) & 0x8000_0000 != 0 <==> (v | 0x20) / 0x8000_0000 % 2 == 1,
        cr4 & 0x20 != 0 <==> cr4 / 0x20 % 2 == 1,
        e & 0x100 != 0 <==> e / 0x100 % 2 == 1,
        e & 0x400 != 0 <==> e / 0x400 % 2 == 1,
        e / 0x400 % 2 == 0 ==> e | 0x400 == e + 0x400,
        e / 0x400 % 2 == 1 ==> e & !0x400u64 == e - 0x400,
        c | 0x200 == if c / 0x200 % 2 == 1 { c as int } else { c + 0x200 },
        c & !0x200u64 == if c / 0x200 % 2 == 1 { c - 0x200 } else { c as int },
{
    assert((v / 0x20 % 2 == 1 ==> v | 0x20 == v) && (v / 0x20 % 2 != 1 ==> v | 0x20 == v + 0x20)
        && ((v | 0x20) & 1 != 0 <==> (v | 0x20) % 2 == 1) && ((v | 0x20) & 0x8000_0000 != 0 <==> (v
        | 0x20) / 0x8000_0000 % 2 == 1) && (cr4 & 0x20 != 0 <==> cr4 / 0x20 % 2 == 1)) by (bit_vector);
    assert((e & 0x100 != 0 <==> e / 0x100 % 2 == 1) && (e & 0x400 != 0 <==> e / 0x400 % 2 == 1) && (e
        / 0x400 % 2 == 0 ==> e | 0x400 == e + 0x400) && (e / 0x400 % 2 == 1 ==> e & !0x400u64 == e
        - 0x400)) by (bit_vector);
    assert((c / 0x200 % 2 == 1 ==> c | 0x200 == c && c & !0x200u64 == c - 0x200) && (c / 0x200 % 2
        != 1 ==> c | 0x200 == c + 0x200 && c & !0x200u64 == c)) by (bit_vector);
}

/// How a control register exit ends, and what has been stored by then, whatever
/// is refused.
///
/// The exit qualification is read first. CR8, and anything but a move to a
/// control register, is unhandled. Then the moved value is read; a move to CR3
/// or CR4 is unhandled. A move to CR0 writes the shadow and CR0, reads CR0, CR4
/// and EFER, and, where EFER bit 10 has to change, writes EFER and reads and
/// writes the VM-entry controls.
pub proof fn refusals_in_order(s: VcpuState, t: VcpuState, r: Result<HandleResult, Error>)
    requires
        cr_handled(s, t, r),
        s.slots[Place::Vmcs(VmcsField::ExitQualification)].read_fault is None ==> cr_valid(
            s.slots[Place::Vmcs(VmcsField::ExitQualification)].value,
        ),
    ensures
        ({
            let q = s.slots[Place::Vmcs(VmcsField::ExitQualification)];
            let qual = q.value;
            let source = s.slots[Place::Reg(vmexit::guest_reg(qual / 256 % 16))];
            let shadow = s.slots[Place::Vmcs(VmcsField::Cr0Shadow)];
            let cr0 = s.slots[Place::Reg(X86Reg::CR0)];
            let cr4 = s.slots[Place::Reg(X86Reg::CR4)];
            let efer = s.slots[Place::Vmcs(VmcsField::GuestIa32Efer)];
            let controls = s.slots[Place::Vmcs(VmcsField::VmentryControls)];
            let moved = source.value | 0x20;
            let active = moved % 2 == 1 && moved / 0x8000_0000 % 2 == 1 && cr4.value / 0x20 % 2 == 1
                && efer.value / 0x100 % 2 == 1;
            let one = s.stores.push((Place::Vmcs(VmcsField::Cr0Shadow), moved));
            let two = one.push((Place::Reg(X86Reg::CR0), moved));
            let three = two.push(
                (
                    Place::Vmcs(VmcsField::GuestIa32Efer),
                    if active { efer.value | 0x400 } else { efer.value & !0x400u64 },
                ),
            );
            let four = three.push(
                (
                    Place::Vmcs(VmcsField::VmentryControls),
                    if active { controls.value | 0x200 } else { controls.value & !0x200u64 },
                ),
            );
            if q.read_fault is Some {
                r == Err::<HandleResult, Error>(Error::Hypervisor(q.read_fault->Some_0)) && t == s
            } else if qual % 16 == 8 {
                (r matches Err(Error::Unhandled(reason, text)) && reason == 28 && text@
                    == "access cr8: unimplemented"@) && t == s
            } else if qual / 16 % 4 != 0 {
                (r matches Err(Error::Unhandled(reason, text)) && reason == 28 && text@
                    == "access type "@ + text::hex((qual / 16 % 4) as nat) + ": unimplemented"@) && t
                    == s
            } else if source.read_fault is Some {
                r == Err::<HandleResult, Error>(Error::Hypervisor(source.read_fault->Some_0)) && t
                    == s
            } else if qual % 16 == 3 {
                (r matches Err(Error::Unhandled(reason, text)) && reason == 28 && text@
                    == "mov to CR3: unimplemented"@) && t == s
            } else if qual % 16 == 4 {
                (r matches Err(Error::Unhandled(reason, text)) && reason == 28 && text@
                    == "mov to CR4: unimplemented"@) && t == s
            } else if shadow.write_fault is Some {
                r == Err::<HandleResult, Error>(Error::Hypervisor(shadow.write_fault->Some_0)) && t
                    == s
            } else if cr0.write_fault is Some {
                r == Err::<HandleResult, Error>(Error::Hypervisor(cr0.write_fault->Some_0))
                    && t.stores == one
            } else if cr0.read_fault is Some {
                r == Err::<HandleResult, Error>(Error::Hypervisor(cr0.read_fault->Some_0))
                    && t.stores == two
            } else if cr4.read_fault is Some {
                r == Err::<HandleResult, Error>(Error::Hypervisor(cr4.read_fault->Some_0))
                    && t.stores == two
            } else if efer.read_fault is Some {
                r == Err::<HandleResult, Error>(Error::Hypervisor(efer.read_fault->Some_0))
                    && t.stores == two
            } else if active == (efer.value / 0x400 % 2 == 1) {
                r == Ok::<HandleResult, Error>(HandleResult::Next) && t.stores == two
            } else if efer.write_fault is Some {
                r == Err::<HandleResult, Error>(Error::Hypervisor(efer.write_fault->Some_0))
                    && t.stores == two
            } else if controls.read_fault is Some {
                r == Err::<HandleResult, Error>(Error::Hypervisor(controls.read_fault->Some_0))
                    && t.stores == three
            } else if controls.write_fault is Some {
                r == Err::<HandleResult, Error>(Error::Hypervisor(controls.write_fault->Some_0))
                    && t.stores == three
            } else {
                r == Ok::<HandleResult, Error>(HandleResult::Next) && t.stores == four
            }
        }),
{
    cr_bits(
        s.reg(cr_source(s.vmcs(VmcsField::ExitQualification))),
        s.reg(X86Reg::CR4),
        s.vmcs(VmcsField::GuestIa32Efer),
        s.vmcs(VmcsField::VmentryControls),
    );
    reveal_with_fuel(VcpuState::run, 11);
    reveal_with_fuel(VcpuState::fault_in, 11);
}

} // verus!
