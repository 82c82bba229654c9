use xhype::err::Error;
use xhype::guest::{Apic, ConfigAddr, GuestThread, PciBus, Serial, VirtualMachine};
use xhype::vcpu::{Place, Slot, VmcsField, X86Reg, VCPU};
use xhype::vmexit::{handle_msr_access, HandleResult};

const RAX: Place = Place::Reg(X86Reg::RAX);
const RCX: Place = Place::Reg(X86Reg::RCX);
const RDX: Place = Place::Reg(X86Reg::RDX);
const EFER: Place = Place::Vmcs(VmcsField::GuestIa32Efer);

fn thread() -> GuestThread {
    GuestThread {
        vm: VirtualMachine {
            cores: 1,
            com1: Serial { registers: [0; 8], accesses: Vec::new() },
            pci_bus: PciBus { config_addr: ConfigAddr(0), config_data: 0, accesses: Vec::new() },
        },
        id: 0,
        apic: Apic { msr_apic_base: 0xfee0_0900 },
        pat_msr: 0x0007_0406_0007_0406,
    }
}

fn vcpu(values: &[(Place, u64)]) -> VCPU {
    let mut vcpu = VCPU::new();
    for &(place, value) in values {
        vcpu.load(place, Slot { value, read_fault: None, write_fault: None });
    }
    vcpu
}

fn refuse(vcpu: &mut VCPU, place: Place, read: Option<u32>, write: Option<u32>) {
    let value = vcpu.slot(place).value;
    vcpu.load(place, Slot { value, read_fault: read, write_fault: write });
}

/// Reads a register, with noise in the halves that do not matter.
fn rdmsr(gth: &mut GuestThread, msr: u64, efer: u64) -> (u64, u64) {
    let mut v = vcpu(&[
        (RCX, 0xdead_beef_0000_0000 | msr),
        (RAX, u64::MAX),
        (RDX, u64::MAX),
        (EFER, efer),
    ]);
    assert_eq!(handle_msr_access(&mut v, gth, true), Ok(HandleResult::Next));
    assert_eq!(v.stores().len(), 2);
    (v.slot(RDX).value, v.slot(RAX).value)
}

/// Writes a register and gives EFER as it is then.
fn wrmsr(gth: &mut GuestThread, msr: u64, value: u64, efer: u64) -> u64 {
    let mut v = vcpu(&[
        (RCX, 0xdead_beef_0000_0000 | msr),
        (RAX, 0x1111_1111_0000_0000 | (value & 0xffff_ffff)),
        (RDX, 0x2222_2222_0000_0000 | (value >> 32)),
        (EFER, efer),
    ]);
    assert_eq!(handle_msr_access(&mut v, gth, false), Ok(HandleResult::Next));
    v.slot(EFER).value
}

#[test]
fn registers_read_as_two_halves() {
    let mut gth = thread();
    assert_eq!(rdmsr(&mut gth, 0xc000_0080, 0x1234_5678_9abc_def0), (0x1234_5678, 0x9abc_def0));
    assert_eq!(rdmsr(&mut gth, 0x1a0, 0), (0, 0x1801));
    assert_eq!(rdmsr(&mut gth, 0x8b, 0), (0, 0));
    assert_eq!(rdmsr(&mut gth, 0x277, 0), (0x0007_0406, 0x0007_0406));
    assert_eq!(rdmsr(&mut gth, 0x1b, 0), (0, 0xfee0_0900));
}

#[test]
fn written_values_read_back() {
    let mut gth = thread();
    let value = 0xfedc_ba98_7654_3210;
    let efer = wrmsr(&mut gth, 0xc000_0080, value, 0);
    assert_eq!(efer, value);
    assert_eq!(rdmsr(&mut gth, 0xc000_0080, efer), (0xfedc_ba98, 0x7654_3210));
    wrmsr(&mut gth, 0x277, value, 0);
    assert_eq!(gth.pat_msr, value);
    assert_eq!(rdmsr(&mut gth, 0x277, 0), (0xfedc_ba98, 0x7654_3210));
    wrmsr(&mut gth, 0x1b, value + 1, 0);
    assert_eq!(gth.apic.msr_apic_base, value + 1);
    assert_eq!(rdmsr(&mut gth, 0x1b, 0), (0xfedc_ba98, 0x7654_3211));
    assert_eq!(gth.pat_msr, value);
}

#[test]
fn same_apic_base_is_kept() {
    let mut gth = thread();
    wrmsr(&mut gth, 0x1b, 0xfee0_0900, 0);
    assert_eq!(gth.apic.msr_apic_base, 0xfee0_0900);
}

#[test]
fn fixed_registers_ignore_writes() {
    let mut gth = thread();
    assert_eq!(wrmsr(&mut gth, 0x1a0, 5, 0x500), 0x500);
    assert_eq!(wrmsr(&mut gth, 0x8b, 5, 0x500), 0x500);
    assert_eq!(rdmsr(&mut gth, 0x1a0, 0), (0, 0x1801));
    assert_eq!(rdmsr(&mut gth, 0x8b, 0), (0, 0));
    assert_eq!(gth.pat_msr, 0x0007_0406_0007_0406);
    assert_eq!(gth.apic.msr_apic_base, 0xfee0_0900);
}

#[test]
fn unknown_registers_are_unhandled() {
    let mut gth = thread();
    let mut v = vcpu(&[(RCX, 0x10), (RDX, 0xab), (RAX, 0xcd)]);
    assert_eq!(
        handle_msr_access(&mut v, &mut gth, true),
        Err(Error::Unhandled(31, "guest reads from unknown msr: 00000010".to_string()))
    );
    assert_eq!(
        handle_msr_access(&mut v, &mut gth, false),
        Err(Error::Unhandled(
            32,
            "guest writes ab000000cd to unknown msr: 00000010".to_string()
        ))
    );
    let mut v = vcpu(&[(RCX, 0xc000_0081)]);
    assert_eq!(
        handle_msr_access(&mut v, &mut gth, false),
        Err(Error::Unhandled(32, "guest writes 0 to unknown msr: c0000081".to_string()))
    );
    assert!(v.stores().is_empty());
    assert_eq!(gth.pat_msr, 0x0007_0406_0007_0406);
}

#[test]
fn messages_are_in_hexadecimal() {
    let values = [0u64, 9, 10, 15, 16, 0xff, 0x1234_5678_9abc_def0, u64::MAX];
    for value in values {
        let msr = 0x9abc_def0u64 ^ (value & 0xff);
        let mut v = vcpu(&[(RCX, msr), (RDX, value >> 32), (RAX, value)]);
        assert_eq!(
            handle_msr_access(&mut v, &mut thread(), false),
            Err(Error::Unhandled(
                32,
                format!("guest writes {:x} to unknown msr: {:08x}", value, msr)
            ))
        );
    }
}

#[test]
fn refused_reads_change_nothing() {
    for place in [RCX, RDX, RAX] {
        let mut gth = thread();
        let mut v = vcpu(&[(RCX, 0x277), (RAX, 1)]);
        refuse(&mut v, place, Some(3), None);
        assert_eq!(handle_msr_access(&mut v, &mut gth, false), Err(Error::Hypervisor(3)));
        assert_eq!(gth.pat_msr, 0x0007_0406_0007_0406);
    }
    let mut v = vcpu(&[(RCX, 0x277)]);
    refuse(&mut v, RCX, Some(3), None);
    assert_eq!(handle_msr_access(&mut v, &mut thread(), true), Err(Error::Hypervisor(3)));
}

#[test]
fn refused_writes_end_the_handling() {
    let mut v = vcpu(&[(RCX, 0x277)]);
    refuse(&mut v, RAX, None, Some(4));
    assert_eq!(handle_msr_access(&mut v, &mut thread(), true), Err(Error::Hypervisor(4)));
    assert!(v.stores().is_empty());

    let mut v = vcpu(&[(RCX, 0x277)]);
    refuse(&mut v, RDX, None, Some(5));
    assert_eq!(handle_msr_access(&mut v, &mut thread(), true), Err(Error::Hypervisor(5)));
    assert_eq!(*v.stores(), vec![(RAX, 0x0007_0406)]);

    let mut v = vcpu(&[(RCX, 0xc000_0080), (RAX, 1)]);
    refuse(&mut v, EFER, Some(6), Some(7));
    assert_eq!(handle_msr_access(&mut v, &mut thread(), true), Err(Error::Hypervisor(6)));
    assert_eq!(handle_msr_access(&mut v, &mut thread(), false), Err(Error::Hypervisor(7)));
    assert!(v.stores().is_empty());
}
