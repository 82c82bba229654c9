use xhype::err::Error;
use xhype::guest::{Apic, ConfigAddr, GuestThread, PciBus, Serial, VirtualMachine};
use xhype::vcpu::{Place, Slot, VmcsField, X86Reg, VCPU};
use xhype::vmexit::{handle_cr, vmx_guest_reg, HandleResult};

const QUAL: Place = Place::Vmcs(VmcsField::ExitQualification);
const SHADOW: Place = Place::Vmcs(VmcsField::Cr0Shadow);
const EFER: Place = Place::Vmcs(VmcsField::GuestIa32Efer);
const CONTROLS: Place = Place::Vmcs(VmcsField::VmentryControls);
const CR0: Place = Place::Reg(X86Reg::CR0);
const CR4: Place = Place::Reg(X86Reg::CR4);

fn thread() -> GuestThread {
    GuestThread {
        vm: VirtualMachine {
            cores: 1,
            com1: Serial { registers: [0; 8], accesses: Vec::new() },
            pci_bus: PciBus { config_addr: ConfigAddr(0), config_data: 0, accesses: Vec::new() },
        },
        id: 0,
        apic: Apic { msr_apic_base: 0 },
        pat_msr: 0,
    }
}

fn vcpu(values: &[(Place, u64)]) -> VCPU {
    let mut vcpu = VCPU::new();
    for &(place, value) in values {
        vcpu.load(place, Slot { value, read_fault: None, write_fault: None });
    }
    vcpu
}

fn refuse(vcpu: &mut VCPU, place: Place, read: Option<u32>, write: Option<u32>) {
    let value = vcpu.slot(place).value;
    vcpu.load(place, Slot { value, read_fault: read, write_fault: write });
}

fn value(vcpu: &VCPU, place: Place) -> u64 {
    vcpu.slot(place).value
}

/// A guest about to turn on paging, with long mode enabled.
fn entering() -> VCPU {
    vcpu(&[
        (QUAL, 0x300),
        (Place::Reg(X86Reg::RBX), 0x8000_0001),
        (CR4, 0x20),
        (EFER, 0x100),
        (CONTROLS, 0x11ff),
    ])
}

#[test]
fn register_numbers_name_registers() {
    let regs = [
        X86Reg::RAX, X86Reg::RCX, X86Reg::RDX, X86Reg::RBX, X86Reg::RSP, X86Reg::RBP,
        X86Reg::RSI, X86Reg::RDI, X86Reg::R8, X86Reg::R9, X86Reg::R10, X86Reg::R11,
        X86Reg::R12, X86Reg::R13, X86Reg::R14, X86Reg::R15,
    ];
    for (num, reg) in regs.iter().enumerate() {
        assert_eq!(vmx_guest_reg(num as u64), *reg);
    }
}

#[test]
fn long_mode_is_entered() {
    let mut v = entering();
    assert_eq!(handle_cr(&mut v, &thread()), Ok(HandleResult::Next));
    assert_eq!(value(&v, CR0), 0x8000_0021);
    assert_eq!(value(&v, SHADOW), 0x8000_0021);
    assert_eq!(value(&v, EFER), 0x500);
    assert_eq!(value(&v, CONTROLS), 0x13ff);
    assert_eq!(
        *v.stores(),
        vec![(SHADOW, 0x8000_0021), (CR0, 0x8000_0021), (EFER, 0x500), (CONTROLS, 0x13ff)]
    );
}

#[test]
fn long_mode_is_left() {
    let mut v = vcpu(&[
        (QUAL, 0),
        (Place::Reg(X86Reg::RAX), 0x1),
        (CR0, 0x8000_0021),
        (CR4, 0x20),
        (EFER, 0xd01),
        (CONTROLS, 0x13ff),
    ]);
    assert_eq!(handle_cr(&mut v, &thread()), Ok(HandleResult::Next));
    assert_eq!(value(&v, CR0), 0x21);
    assert_eq!(value(&v, SHADOW), 0x21);
    assert_eq!(value(&v, EFER), 0x901);
    assert_eq!(value(&v, CONTROLS), 0x11ff);
}

#[test]
fn long_mode_stays() {
    let mut off = vcpu(&[(QUAL, 0x100), (Place::Reg(X86Reg::RCX), 0x11), (EFER, 0x100)]);
    assert_eq!(handle_cr(&mut off, &thread()), Ok(HandleResult::Next));
    assert_eq!(*off.stores(), vec![(SHADOW, 0x31), (CR0, 0x31)]);

    let mut on = vcpu(&[
        (QUAL, 0xf00),
        (Place::Reg(X86Reg::R15), 0x8000_0001),
        (CR4, 0x20),
        (EFER, 0x500),
    ]);
    assert_eq!(handle_cr(&mut on, &thread()), Ok(HandleResult::Next));
    assert_eq!(*on.stores(), vec![(SHADOW, 0x8000_0021), (CR0, 0x8000_0021)]);
}

#[test]
fn long_mode_needs_every_bit() {
    let cases = [
        (0x8000_0000u64, 0x20u64, 0x100u64),
        (0x1, 0x20, 0x100),
        (0x8000_0001, 0x0, 0x100),
        (0x8000_0001, 0x20, 0x0),
    ];
    for (cr0, cr4, efer) in cases {
        let mut v = vcpu(&[
            (QUAL, 0),
            (Place::Reg(X86Reg::RAX), cr0),
            (CR4, cr4),
            (EFER, efer),
        ]);
        assert_eq!(handle_cr(&mut v, &thread()), Ok(HandleResult::Next));
        assert_eq!(value(&v, EFER), efer);
    }
}

fn unhandled(qual: u64) -> String {
    let mut v = vcpu(&[(QUAL, qual)]);
    let r = handle_cr(&mut v, &thread());
    assert!(v.stores().is_empty());
    match r {
        Err(Error::Unhandled(28, text)) => text,
        other => panic!("{:?}", other),
    }
}

#[test]
fn other_accesses_are_unhandled() {
    assert_eq!(unhandled(0x8), "access cr8: unimplemented");
    assert_eq!(unhandled(0x18), "access cr8: unimplemented");
    assert_eq!(unhandled(0x10), "access type 1: unimplemented");
    assert_eq!(unhandled(0x23), "access type 2: unimplemented");
    assert_eq!(unhandled(0x34), "access type 3: unimplemented");
    assert_eq!(unhandled(0x3), "mov to CR3: unimplemented");
    assert_eq!(unhandled(0x4), "mov to CR4: unimplemented");
}

#[test]
fn refused_accesses_end_the_handling() {
    let rbx = Place::Reg(X86Reg::RBX);
    // The place refused, whether its reading is, and the stores made before.
    let cases = [
        (QUAL, true, 0),
        (rbx, true, 0),
        (SHADOW, false, 0),
        (CR0, false, 1),
        (CR0, true, 2),
        (CR4, true, 2),
        (EFER, true, 2),
        (EFER, false, 2),
        (CONTROLS, true, 3),
        (CONTROLS, false, 3),
    ];
    for (place, read, stores) in cases {
        let mut v = entering();
        let code = Some(0xfae9_4005);
        refuse(&mut v, place, if read { code } else { None }, if read { None } else { code });
        assert_eq!(handle_cr(&mut v, &thread()), Err(Error::Hypervisor(0xfae9_4005)));
        assert_eq!(v.stores().len(), stores);
    }
}

#[test]
fn first_refusal_is_reported() {
    let mut v = entering();
    refuse(&mut v, CR4, Some(2), None);
    refuse(&mut v, CR0, None, Some(1));
    assert_eq!(handle_cr(&mut v, &thread()), Err(Error::Hypervisor(1)));
}

#[test]
fn unreadable_source_precedes_unhandled_register() {
    let mut v = vcpu(&[(QUAL, 0x3)]);
    refuse(&mut v, Place::Reg(X86Reg::RAX), Some(7), None);
    assert_eq!(handle_cr(&mut v, &thread()), Err(Error::Hypervisor(7)));
}
