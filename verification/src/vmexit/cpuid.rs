//! The `cpuid` instruction of the guest.

use vstd::prelude::*;

use crate::bits;
use crate::consts::x86::{
    CPUID_HV, CPUID_MONITOR, CPUID_OSXSAVE, CPUID_PDCM, CPUID_TSC_ADJUST, CPUID_VMX, CPUID_XSAVE,
    X86_CR4_OSXSAVE,
};
use crate::cpuid;
use crate::err::Error;
use crate::guest::{GuestState, GuestThread};
use crate::vcpu;
use crate::vcpu::{Access, Place, Slot, VCPU, VcpuState, X86Reg};
use crate::vmexit;
use crate::vmexit::{HandleResult, Outcome};

verus! {

/// The leaf that the guest asks for: the lower half of RAX.
pub open spec fn cpuid_leaf(s: VcpuState) -> u32 {
    bits::low_half(s.reg(X86Reg::RAX)) as u32
}

/// The subleaf that the guest asks for: the lower half of RCX.
pub open spec fn cpuid_subleaf(s: VcpuState) -> u32 {
    bits::low_half(s.reg(X86Reg::RCX)) as u32
}

/// EBX of leaf 1: the lower half is the host's, then follow the number of
/// virtual CPUs and the number of this one, a byte each.
pub open spec fn cpuid_topology(host_ebx: u32, g: GuestState) -> u32 {
    (host_ebx % 0x1_0000 + g.cores % 0x100 * 0x1_0000 + g.id % 0x100 * 0x100_0000) as u32
}

/// ECX of leaf 1: the guest sees a hypervisor, and neither MONITOR, virtual
/// machine extensions nor performance capabilities. OSXSAVE is what XSAVE and
/// the guest's CR4 make of it.
pub open spec fn cpuid_features(host_ecx: u32, cr4: u64) -> u32 {
    let ecx = (host_ecx | CPUID_HV) & !(CPUID_MONITOR | CPUID_VMX | CPUID_PDCM);
    if host_ecx & CPUID_XSAVE != 0 && cr4 & X86_CR4_OSXSAVE != 0 {
        ecx | CPUID_OSXSAVE
    } else {
        ecx & !CPUID_OSXSAVE
    }
}

/// What the guest gets in EAX, EBX, ECX and EDX where the host answers `host`.
pub open spec fn cpuid_answer(
    s: VcpuState,
    g: GuestState,
    leaf: u32,
    host: (u32, u32, u32, u32),
) -> (u32, u32, u32, u32) {
    if leaf == 0x1 {
        (
            host.0,
            cpuid_topology(host.1, g),
            cpuid_features(host.2, s.reg(X86Reg::CR4)),
            host.3,
        )
    } else if leaf == 0x7 {
        (host.0, host.1 & !CPUID_TSC_ADJUST, host.2, host.3)
    } else if leaf == 0xa {
        (0, 0, 0, 0)
    } else if leaf == 0x4000_0000 {
        (0x4000_0000, host.1, host.2, host.3)
    } else {
        host
    }
}

/// The accesses that hand the answer to the guest.
pub open spec fn cpuid_reply(answer: (u32, u32, u32, u32)) -> Seq<Access> {
    seq![
        Access::Store(Place::Reg(X86Reg::RAX), answer.0 as u64),
        Access::Store(Place::Reg(X86Reg::RBX), answer.1 as u64),
        Access::Store(Place::Reg(X86Reg::RCX), answer.2 as u64),
        Access::Store(Place::Reg(X86Reg::RDX), answer.3 as u64),
    ]
}

/// The accesses that follow the host's answer. CR4 matters only where the host
/// has XSAVE.
pub open spec fn cpuid_finish(
    s: VcpuState,
    g: GuestState,
    leaf: u32,
    host: (u32, u32, u32, u32),
) -> Seq<Access> {
    let reply = cpuid_reply(cpuid_answer(s, g, leaf, host));
    if leaf == 0x1 && host.2 & CPUID_XSAVE != 0 {
        seq![Access::Load(Place::Reg(X86Reg::CR4))] + reply
    } else {
        reply
    }
}

/// The accesses that fetch what the guest asks for.
pub open spec fn cpuid_fetch() -> Seq<Access> {
    seq![Access::Load(Place::Reg(X86Reg::RAX)), Access::Load(Place::Reg(X86Reg::RCX))]
}

/// The accesses that handle `cpuid` where the host answers `host`.
pub open spec fn cpuid_script(
    s: VcpuState,
    g: GuestState,
    host: (u32, u32, u32, u32),
) -> Seq<Access> {
    cpuid_fetch() + cpuid_finish(s, g, cpuid_leaf(s), host)
}

/// Whether `t` and `r` are what `cpuid` makes of `s` where the host answers
/// `host`.
pub open spec fn cpuid_handled(
    s: VcpuState,
    g: GuestState,
    host: (u32, u32, u32, u32),
    t: VcpuState,
    r: Result<HandleResult, Error>,
) -> bool {
    &&& t == s.run(cpuid_script(s, g, host))
    &&& vmexit::outcome(r) == vmexit::script_outcome(
        s,
        cpuid_script(s, g, host),
        Outcome::Done(HandleResult::Next),
    )
}

/// Whether `t` and `r` are what handing over the host's answer to a leaf makes
/// of `s`.
pub open spec fn cpuid_finished(
    s: VcpuState,
    g: GuestState,
    leaf: u32,
    host: (u32, u32, u32, u32),
    t: VcpuState,
    r: Result<HandleResult, Error>,
) -> bool {
    &&& t == s.run(cpuid_finish(s, g, leaf, host))
    &&& vmexit::outcome(r) == vmexit::script_outcome(
        s,
        cpuid_finish(s, g, leaf, host),
        Outcome::Done(HandleResult::Next),
    )
}

/// Makes of the host's answer to a leaf what the guest sees of it, and hands
/// it to the guest.
pub fn finish_cpuid(
    vcpu: &mut VCPU,
    gth: &GuestThread,
    leaf: u32,
    host: (u32, u32, u32, u32),
) -> (r: Result<HandleResult, Error>)
    ensures
        final(vcpu)@ == old(vcpu)@.run(cpuid_finish(old(vcpu)@, gth@, leaf, host)),
        vmexit::outcome(r) == vmexit::script_outcome(
            old(vcpu)@,
            cpuid_finish(old(vcpu)@, gth@, leaf, host),
            Outcome::Done(HandleResult::Next),
        ),
        cpuid_finished(old(vcpu)@, gth@, leaf, host, final(vcpu)@, r),
{
    proof {
        reveal_with_fuel(VcpuState::run, 6);
        reveal_with_fuel(VcpuState::fault_in, 6);
    }
    let (mut eax, mut ebx, mut ecx, mut edx): (u32, u32, u32, u32) = host;
    match leaf {
        0x1 => {
            // Set the guest thread id into the apic ID field.
            ebx &= 0x0000_ffff;
            ebx |= (gth.vm.cores & 0xff) << 16;
            ebx |= (gth.id & 0xff) << 24;
            proof {
                let (b, c, i) = (host.1, gth.vm.cores, gth.id);
                assert((b & 0x0000_ffff) | ((c & 0xff) << 16) | ((i & 0xff) << 24) == b % 0x1_0000
                    + c % 0x100 * 0x1_0000 + i % 0x100 * 0x100_0000) by (bit_vector);
            }

            // Let the guest know that it is virtualized.
            ecx |= CPUID_HV;

            ecx &= !(CPUID_MONITOR | CPUID_VMX | CPUID_PDCM);

            proof {
                let e = host.2;
                assert((e | 0x8000_0000u32) & !(0x8u32 | 0x20u32 | 0x8000u32) & 0x400_0000u32 == e
                    & 0x400_0000u32) by (bit_vector);
            }
            // OSXSAVE is off where XSAVE is not supported or not turned on.
            if ecx & CPUID_XSAVE == 0 || vcpu.read_reg(X86Reg::CR4)? & X86_CR4_OSXSAVE == 0 {
                ecx &= !CPUID_OSXSAVE;
            } else {
                ecx |= CPUID_OSXSAVE;
            }
        },
        0x7 => {
            ebx &= !CPUID_TSC_ADJUST;
        },
        0xa => {
            eax = 0;
            ebx = 0;
            ecx = 0;
            edx = 0;
        },
        0x4000_0000 => {
            // The highest leaf for hypervisors.
            eax = 0x4000_0000;
        },
        _ => {},
    }
    vcpu.write_reg(X86Reg::RAX, eax as u64)?;
    vcpu.write_reg(X86Reg::RBX, ebx as u64)?;
    vcpu.write_reg(X86Reg::RCX, ecx as u64)?;
    vcpu.write_reg(X86Reg::RDX, edx as u64)?;
    Ok(HandleResult::Next)
}

/// Handles `cpuid`.
pub fn handle_cpuid(vcpu: &mut VCPU, gth: &GuestThread) -> (r: Result<HandleResult, Error>)
    ensures
        exists|host: (u32, u32, u32, u32)| #[trigger]
            cpuid_handled(old(vcpu)@, gth@, host, final(vcpu)@, r) && (old(vcpu)@.fault_in(
                cpuid_fetch(),
            ) is None ==> cpuid::host_answers(
                cpuid_leaf(old(vcpu)@),
                cpuid_subleaf(old(vcpu)@),
                host,
            )),
{
    let ghost s = vcpu@;
    proof {
        reveal_with_fuel(VcpuState::run, 3);
        reveal_with_fuel(VcpuState::fault_in, 3);
        let none = (0u32, 0u32, 0u32, 0u32);
        vcpu::run_parts(s, cpuid_fetch(), cpuid_finish(s, gth@, cpuid_leaf(s), none));
        if let Some(code) = s.fault_in(cpuid_fetch()) {
            assert(cpuid_handled(s, gth@, none, s, Err(Error::Hypervisor(code))));
        }
    }
    let eax_in: u32 = bits::take_low_half(vcpu.read_reg(X86Reg::RAX)?);
    let ecx_in: u32 = bits::take_low_half(vcpu.read_reg(X86Reg::RCX)?);
    let host = cpuid::host_cpuid(eax_in, ecx_in);
    proof {
        vcpu::run_parts(s, cpuid_fetch(), cpuid_finish(s, gth@, eax_in, host));
    }
    let r = finish_cpuid(vcpu, gth, eax_in, host);
    assert(cpuid_handled(s, gth@, host, vcpu@, r));
    r
}

/// Whatever the host answers to leaf 1, the guest sees a hypervisor and
/// neither MONITOR, virtual machine extensions nor performance capabilities,
/// OSXSAVE exactly where the host has XSAVE and the guest has turned it on,
/// and the host's value of every other bit.
pub proof fn guest_features(host_ecx: u32, cr4: u64)
    ensures
        ({
            let ecx = cpuid_features(host_ecx, cr4);
            let masked = CPUID_HV | CPUID_MONITOR | CPUID_VMX | CPUID_PDCM | CPUID_OSXSAVE;
            &&& ecx & CPUID_HV != 0
            &&& ecx & CPUID_MONITOR == 0
            &&& ecx & CPUID_VMX == 0
            &&& ecx & CPUID_PDCM == 0
            &&& ecx & CPUID_OSXSAVE != 0 <==> host_ecx & CPUID_XSAVE != 0 && cr4 & X86_CR4_OSXSAVE
                != 0
            &&& ecx & !masked == host_ecx & !masked
        }),
{
    let e = host_ecx;
    let on = (e | 0x8000_0000u32) & !(0x8u32 | 0x20u32 | 0x8000u32) | 0x800_0000u32;
    let off = (e | 0x8000_0000u32) & !(0x8u32 | 0x20u32 | 0x8000u32) & !0x800_0000u32;
    assert(on & 0x8000_0000 != 0 && on & 0x8 == 0 && on & 0x20 == 0 && on & 0x8000 == 0 && on
        & 0x800_0000 != 0 && on & !(0x8000_0000u32 | 0x8u32 | 0x20u32 | 0x8000u32 | 0x800_0000u32)
        == e & !(0x8000_0000u32 | 0x8u32 | 0x20u32 | 0x8000u32 | 0x800_0000u32)) by (bit_vector)
        requires
            on == (e | 0x8000_0000u32) & !(0x8u32 | 0x20u32 | 0x8000u32) | 0x800_0000u32,
    ;
    assert(off & 0x8000_0000 != 0 && off & 0x8 == 0 && off & 0x20 == 0 && off & 0x8000 == 0 && off
        & 0x800_0000 == 0 && off & !(0x8000_0000u32 | 0x8u32 | 0x20u32 | 0x8000u32 | 0x800_0000u32)
        == e & !(0x8000_0000u32 | 0x8u32 | 0x20u32 | 0x8000u32 | 0x800_0000u32)) by (bit_vector)
        requires
            off == (e | 0x8000_0000u32) & !(0x8u32 | 0x20u32 | 0x8000u32) & !0x800_0000u32,
    ;
}

/// The guest finds the answer in the lower halves of RAX, RBX, RCX and RDX,
/// and zero in the upper halves.
pub proof fn cpuid_gives_answer(s: VcpuState, g: GuestState, host: (u32, u32, u32, u32))
    requires
        s.fault_in(cpuid_script(s, g, host)) is None,
    ensures
        ({
            let t = s.run(cpuid_script(s, g, host));
            let answer = cpuid_answer(s, g, cpuid_leaf(s), host);
            &&& t.reg(X86Reg::RAX) == answer.0
            &&& t.reg(X86Reg::RBX) == answer.1
            &&& t.reg(X86Reg::RCX) == answer.2
            &&& t.reg(X86Reg::RDX) == answer.3
        }),
{
    reveal_with_fuel(VcpuState::run, 8);
    reveal_with_fuel(VcpuState::fault_in, 8);
}

/// `cpuid` changes no part of the virtual CPU but RAX, RBX, RCX and RDX.
pub proof fn cpuid_keeps_others(
    s: VcpuState,
    g: GuestState,
    host: (u32, u32, u32, u32),
    place: Place,
)
    requires
        place != Place::Reg(X86Reg::RAX),
        place != Place::Reg(X86Reg::RBX),
        place != Place::Reg(X86Reg::RCX),
        place != Place::Reg(X86Reg::RDX),
    ensures
        s.run(cpuid_script(s, g, host)).slots[place] == s.slots[place],
{
    vcpu::run_keeps_others(s, cpuid_script(s, g, host), place);
}

/// What the guest finds in its registers when `cpuid` succeeds, for every answer
/// of the host. The guest goes on with the next instruction.
///
/// - Leaf 1: EAX and EDX are the host's. The lower half of EBX is the host's;
///   above it are the lowest bytes of the number of virtual CPUs and of the
///   number of this one. In ECX bit 31 is set, bits 3, 5 and 15 are clear, bit
///   27 is set exactly where the host's bit 26 and the guest's CR4 bit 18 are,
///   and all other bits are the host's.
/// - Leaf 7: everything is the host's, but EBX bit 1 is clear.
/// - Leaf 0xa: everything is zero.
/// - Leaf 0x4000_0000: EAX is 0x4000_0000, the rest is the host's.
/// - Any other leaf: everything is the host's.
pub proof fn registers_after_cpuid(
    s: VcpuState,
    g: GuestState,
    leaf: u32,
    host: (u32, u32, u32, u32),
    t: VcpuState,
    r: Result<HandleResult, Error>,
)
    requires
        cpuid_finished(s, g, leaf, host, t, r),
        r is Ok,
    ensures
        r == Ok::<HandleResult, Error>(HandleResult::Next),
        ({
            let rax = t.slots[Place::Reg(X86Reg::RAX)].value;
            let rbx = t.slots[Place::Reg(X86Reg::RBX)].value;
            let rcx = t.slots[Place::Reg(X86Reg::RCX)].value;
            let rdx = t.slots[Place::Reg(X86Reg::RDX)].value;
            let cr4 = s.slots[Place::Reg(X86Reg::CR4)].value;
            &&& leaf == 0x1 ==> {
                &&& rax == host.0
                &&& rbx % 0x1_0000 == host.1 % 0x1_0000
                &&& rbx / 0x1_0000 % 0x100 == g.cores % 0x100
                &&& rbx / 0x100_0000 == g.id % 0x100
                &&& rcx < 0x1_0000_0000
                &&& rcx / 0x8000_0000 % 2 == 1
                &&& rcx / 0x8 % 2 == 0
                &&& rcx / 0x20 % 2 == 0
                &&& rcx / 0x8000 % 2 == 0
                &&& rcx / 0x800_0000 % 2 == 1 <==> (host.2 / 0x400_0000 % 2 == 1 && cr4 / 0x4_0000
                    % 2 == 1)
                &&& rcx & 0x77ff_7fd7 == host.2 & 0x77ff_7fd7
                &&& rdx == host.3
            }
            &&& leaf == 0x7 ==> {
                &&& rax == host.0
                &&& rbx == if host.1 / 2 % 2 == 1 { host.1 - 2 } else { host.1 as int }
                &&& rcx == host.2
                &&& rdx == host.3
            }
            &&& leaf == 0xa ==> rax == 0 && rbx == 0 && rcx == 0 && rdx == 0
            &&& leaf == 0x4000_0000 ==> rax == 0x4000_0000 && rbx == host.1 && rcx == host.2 && rdx
                == host.3
            &&& leaf != 0x1 && leaf != 0x7 && leaf != 0xa && leaf != 0x4000_0000 ==> rax == host.0
                && rbx == host.1 && rcx == host.2 && rdx == host.3
        }),
{
    assert(s.fault_in(cpuid_finish(s, g, leaf, host)) is None);
    let answer = cpuid_answer(s, g, leaf, host);
    assert(t.reg(X86Reg::RAX) == answer.0 && t.reg(X86Reg::RBX) == answer.1 && t.reg(X86Reg::RCX)
        == answer.2 && t.reg(X86Reg::RDX) == answer.3) by {
        reveal_with_fuel(VcpuState::run, 6);
        reveal_with_fuel(VcpuState::fault_in, 6);
    }
    if leaf == 0x1 {
        let (b, c, i) = (host.1 % 0x1_0000, g.cores % 0x100, g.id % 0x100);
        assert((b + c * 0x1_0000 + i * 0x100_0000) % 0x1_0000 == b && (b + c * 0x1_0000 + i
            * 0x100_0000) / 0x1_0000 % 0x100 == c && (b + c * 0x1_0000 + i * 0x100_0000)
            / 0x100_0000 == i);
        feature_bits(host.2, s.reg(X86Reg::CR4));
    }
    if leaf == 0x7 {
        let b = host.1;
        assert((b / 2 % 2 == 1 ==> b & !0x2u32 == b - 2) && (b / 2 % 2 != 1 ==> b & !0x2u32 == b))
            by (bit_vector);
    }
}

/// The bits of ECX of leaf 1, one by one.
proof fn feature_bits(e: u32, cr4: u64)
    ensures
        ({
            let f = cpuid_features(e, cr4);
            &&& f / 0x8000_0000 % 2 == 1
            &&& f / 0x8 % 2 == 0
            &&& f / 0x20 % 2 == 0
            &&& f / 0x8000 % 2 == 0
            &&& f / 0x800_0000 % 2 == 1 <==> (e / 0x400_0000 % 2 == 1 && cr4 / 0x4_0000 % 2 == 1)
            &&& (f as u64) & 0x77ff_7fd7 == (e & 0x77ff_7fd7) as u64
        }),
{
    let on = (e | 0x8000_0000u32) & !(0x8u32 | 0x20u32 | 0x8000u32) | 0x800_0000u32;
    let off = (e | 0x8000_0000u32) & !(0x8u32 | 0x20u32 | 0x8000u32) & !0x800_0000u32;
    assert(on / 0x8000_0000 % 2 == 1 && on / 0x8 % 2 == 0 && on / 0x20 % 2 == 0 && on / 0x8000 % 2
        == 0 && on / 0x800_0000 % 2 == 1 && (on as u64) & 0x77ff_7fd7 == (e & 0x77ff_7fd7) as u64
        && (e & 0x400_0000 != 0 <==> e / 0x400_0000 % 2 == 1)) by (bit_vector)
        requires
            on == (e | 0x8000_0000u32) & !(0x8u32 | 0x20u32 | 0x8000u32) | 0x800_0000u32,
    ;
    assert(off / 0x8000_0000 % 2 == 1 && off / 0x8 % 2 == 0 && off / 0x20 % 2 == 0 && off / 0x8000
        % 2 == 0 && off / 0x800_0000 % 2 == 0 && (off as u64) & 0x77ff_7fd7 == (e & 0x77ff_7fd7)
        as u64) by (bit_vector)
        requires
            off == (e | 0x8000_0000u32) & !(0x8u32 | 0x20u32 | 0x8000u32) & !0x800_0000u32,
    ;
    assert(cr4 & 0x4_0000 != 0 <==> cr4 / 0x4_0000 % 2 == 1) by (bit_vector);
}

/// How handing over the host's answer ends, whatever is refused. CR4 is read for
/// leaf 1 where bit 26 of the host's ECX is set; then RAX, RBX, RCX and RDX are
/// written, in this order, and nothing else is.
///
/// A refusal ends it there: `u` is what the same answer makes of `v`, a virtual
/// CPU that reads the same and refuses nothing, and the registers written
/// before the refusal are as in `u`.
pub proof fn cpuid_refusals_in_order(
    s: VcpuState,
    g: GuestState,
    leaf: u32,
    host: (u32, u32, u32, u32),
    t: VcpuState,
    r: Result<HandleResult, Error>,
    v: VcpuState,
    u: VcpuState,
    done: Result<HandleResult, Error>,
)
    requires
        cpuid_finished(s, g, leaf, host, t, r),
        forall|place: Place|
            #![trigger v.slots[place]]
            v.slots[place] == (Slot {
                value: s.slots[place].value,
                read_fault: None,
                write_fault: None,
            }),
        cpuid_finished(v, g, leaf, host, u, done),
    ensures
        done == Ok::<HandleResult, Error>(HandleResult::Next),
        ({
            let cr4 = s.slots[Place::Reg(X86Reg::CR4)];
            let rax = s.slots[Place::Reg(X86Reg::RAX)];
            let rbx = s.slots[Place::Reg(X86Reg::RBX)];
            let rcx = s.slots[Place::Reg(X86Reg::RCX)];
            let rdx = s.slots[Place::Reg(X86Reg::RDX)];
            let one = s.stores.push(
                (Place::Reg(X86Reg::RAX), u.slots[Place::Reg(X86Reg::RAX)].value),
            );
            let two = one.push((Place::Reg(X86Reg::RBX), u.slots[Place::Reg(X86Reg::RBX)].value));
            let three = two.push((Place::Reg(X86Reg::RCX), u.slots[Place::Reg(X86Reg::RCX)].value));
            let four = three.push((Place::Reg(X86Reg::RDX), u.slots[Place::Reg(X86Reg::RDX)].value));
            if leaf == 0x1 && host.2 / 0x400_0000 % 2 == 1 && cr4.read_fault is Some {
                r == Err::<HandleResult, Error>(Error::Hypervisor(cr4.read_fault->Some_0)) && t == s
            } else if rax.write_fault is Some {
                r == Err::<HandleResult, Error>(Error::Hypervisor(rax.write_fault->Some_0)) && t == s
            } else if rbx.write_fault is Some {
                r == Err::<HandleResult, Error>(Error::Hypervisor(rbx.write_fault->Some_0))
                    && t.stores == one
            } else if rcx.write_fault is Some {
                r == Err::<HandleResult, Error>(Error::Hypervisor(rcx.write_fault->Some_0))
                    && t.stores == two
            } else if rdx.write_fault is Some {
                r == Err::<HandleResult, Error>(Error::Hypervisor(rdx.write_fault->Some_0))
                    && t.stores == three
            } else {
                r == Ok::<HandleResult, Error>(HandleResult::Next) && t.stores == four
            }
        }),
{
    let e = host.2;
    assert(e & 0x400_0000 != 0 <==> e / 0x400_0000 % 2 == 1) by (bit_vector);
    assert(v.reg(X86Reg::CR4) == s.reg(X86Reg::CR4));
    reveal_with_fuel(VcpuState::run, 6);
    reveal_with_fuel(VcpuState::fault_in, 6);
}

/// `cpuid` asks the host for the leaf in the lower half of RAX and the subleaf
/// in the lower half of RCX, and hands its answer over. Where RAX, or then RCX,
/// cannot be read, nothing changes.
pub proof fn cpuid_asks_for_leaf(
    s: VcpuState,
    g: GuestState,
    host: (u32, u32, u32, u32),
    t: VcpuState,
    r: Result<HandleResult, Error>,
)
    requires
        cpuid_handled(s, g, host, t, r),
    ensures
        cpuid_leaf(s) == s.slots[Place::Reg(X86Reg::RAX)].value % 0x1_0000_0000,
        cpuid_subleaf(s) == s.slots[Place::Reg(X86Reg::RCX)].value % 0x1_0000_0000,
        ({
            let rax = s.slots[Place::Reg(X86Reg::RAX)];
            let rcx = s.slots[Place::Reg(X86Reg::RCX)];
            &&& s.fault_in(cpuid_fetch()) is None <==> rax.read_fault is None && rcx.read_fault
                is None
            &&& if rax.read_fault is Some {
                r == Err::<HandleResult, Error>(Error::Hypervisor(rax.read_fault->Some_0)) && t == s
            } else if rcx.read_fault is Some {
                r == Err::<HandleResult, Error>(Error::Hypervisor(rcx.read_fault->Some_0)) && t == s
            } else {
                cpuid_finished(s, g, (rax.value % 0x1_0000_0000) as u32, host, t, r)
            }
        }),
{
    reveal_with_fuel(VcpuState::run, 3);
    reveal_with_fuel(VcpuState::fault_in, 3);
    vcpu::run_parts(s, cpuid_fetch(), cpuid_finish(s, g, cpuid_leaf(s), host));
}

} // verus!
