use xhype::err::Error;
use xhype::guest::{Apic, ConfigAddr, GuestThread, PciBus, Serial, VirtualMachine};
use xhype::vcpu::{Place, Slot, X86Reg, VCPU};
use xhype::vmexit::cpuid::finish_cpuid;
use xhype::vmexit::{handle_cpuid, HandleResult};

const RAX: Place = Place::Reg(X86Reg::RAX);
const RBX: Place = Place::Reg(X86Reg::RBX);
const RCX: Place = Place::Reg(X86Reg::RCX);
const RDX: Place = Place::Reg(X86Reg::RDX);
const CR4: Place = Place::Reg(X86Reg::CR4);

fn thread() -> GuestThread {
    GuestThread {
        vm: VirtualMachine {
            cores: 0x304,
            com1: Serial { registers: [0; 8], accesses: Vec::new() },
            pci_bus: PciBus { config_addr: ConfigAddr(0), config_data: 0, accesses: Vec::new() },
        },
        id: 0x502,
        apic: Apic { msr_apic_base: 0 },
        pat_msr: 0,
    }
}

fn vcpu(values: &[(Place, u64)]) -> VCPU {
    let mut vcpu = VCPU::new();
    for &(place, value) in values {
        vcpu.load(place, Slot { value, read_fault: None, write_fault: None });
    }
    vcpu
}

fn answer(v: &VCPU) -> (u64, u64, u64, u64) {
    (v.slot(RAX).value, v.slot(RBX).value, v.slot(RCX).value, v.slot(RDX).value)
}

fn finish(leaf: u32, cr4: u64, host: (u32, u32, u32, u32)) -> (u64, u64, u64, u64) {
    let mut v = vcpu(&[(RAX, u64::MAX), (RBX, u64::MAX), (CR4, cr4)]);
    assert_eq!(finish_cpuid(&mut v, &thread(), leaf, host), Ok(HandleResult::Next));
    assert_eq!(v.stores().len(), 4);
    answer(&v)
}

const ALL: (u32, u32, u32, u32) = (u32::MAX, u32::MAX, u32::MAX, u32::MAX);

#[test]
fn leaf_one_hides_and_shows_features() {
    let seen = 0xffff_ffffu64 & !(0x8 | 0x20 | 0x8000);
    assert_eq!(finish(1, 0x4_0000, ALL), (0xffff_ffff, 0x0204_ffff, seen, 0xffff_ffff));
    assert_eq!(
        finish(1, !0x4_0000, ALL),
        (0xffff_ffff, 0x0204_ffff, seen & !0x800_0000, 0xffff_ffff)
    );
    assert_eq!(finish(1, u64::MAX, (0, 0, 0, 0)), (0, 0x0204_0000, 0x8000_0000, 0));
    // OSXSAVE of the host does not show without XSAVE.
    assert_eq!(finish(1, u64::MAX, (0, 0, 0x800_0000, 0)), (0, 0x0204_0000, 0x8000_0000, 0));
    // OSXSAVE shows where the guest turned it on, though the host has it off.
    assert_eq!(
        finish(1, 0x4_0000, (1, 2, 0x400_0000, 3)),
        (1, 0x0204_0002, 0x8c00_0000, 3)
    );
}

#[test]
fn other_leaves() {
    assert_eq!(finish(7, 0, ALL), (0xffff_ffff, 0xffff_fffd, 0xffff_ffff, 0xffff_ffff));
    assert_eq!(finish(0xa, 0, ALL), (0, 0, 0, 0));
    assert_eq!(finish(0x4000_0000, 0, (1, 2, 3, 4)), (0x4000_0000, 2, 3, 4));
    assert_eq!(finish(0x8000_0008, 0, (1, 2, 3, 4)), (1, 2, 3, 4));
    assert_eq!(finish(0, 0, (1, 2, 3, 4)), (1, 2, 3, 4));
}

#[test]
fn unreadable_cr4_matters_only_with_xsave() {
    let mut v = VCPU::new();
    v.load(CR4, Slot { value: 0, read_fault: Some(8), write_fault: None });
    assert_eq!(finish_cpuid(&mut v, &thread(), 1, ALL), Err(Error::Hypervisor(8)));
    assert!(v.stores().is_empty());
    assert_eq!(finish_cpuid(&mut v, &thread(), 1, (0, 0, 0, 0)), Ok(HandleResult::Next));
    assert_eq!(finish_cpuid(&mut v, &thread(), 2, ALL), Ok(HandleResult::Next));
}

#[test]
fn refused_writes_end_the_answer() {
    for (n, place) in [RAX, RBX, RCX, RDX].iter().enumerate() {
        let mut v = VCPU::new();
        v.load(*place, Slot { value: 0, read_fault: None, write_fault: Some(8) });
        assert_eq!(finish_cpuid(&mut v, &thread(), 0, (1, 2, 3, 4)), Err(Error::Hypervisor(8)));
        assert_eq!(v.stores().len(), n);
    }
}

#[test]
fn host_answers_the_guest() {
    let host = core::arch::x86_64::__cpuid_count(0, 0);
    let mut v = vcpu(&[(RAX, 0x7_0000_0000), (RCX, 0x7_0000_0000)]);
    assert_eq!(handle_cpuid(&mut v, &thread()), Ok(HandleResult::Next));
    assert_eq!(
        answer(&v),
        (host.eax as u64, host.ebx as u64, host.ecx as u64, host.edx as u64)
    );
    assert_ne!(v.slot(RBX).value, 0);
}

#[test]
fn subleaf_reaches_the_host() {
    for subleaf in 0..3u32 {
        let host = core::arch::x86_64::__cpuid_count(4, subleaf);
        let mut v = vcpu(&[(RAX, 4), (RCX, subleaf as u64)]);
        assert_eq!(handle_cpuid(&mut v, &thread()), Ok(HandleResult::Next));
        assert_eq!(v.slot(RBX).value, host.ebx as u64);
        assert_eq!(v.slot(RCX).value, host.ecx as u64);
    }
}

#[test]
fn guest_sees_a_hypervisor() {
    let mut v = vcpu(&[(RAX, 1)]);
    assert_eq!(handle_cpuid(&mut v, &thread()), Ok(HandleResult::Next));
    assert_eq!(v.slot(RBX).value >> 16, 0x0204);
    assert_eq!(v.slot(RCX).value & 0x8000_0000, 0x8000_0000);
    assert_eq!(v.slot(RCX).value & (0x8 | 0x20 | 0x8000 | 0x800_0000), 0);
}

#[test]
fn refused_reads_change_nothing_of_cpuid() {
    for place in [RAX, RCX] {
        let mut v = VCPU::new();
        v.load(place, Slot { value: 0, read_fault: Some(8), write_fault: None });
        assert_eq!(handle_cpuid(&mut v, &thread()), Err(Error::Hypervisor(8)));
        assert!(v.stores().is_empty());
    }
}
