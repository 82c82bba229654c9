use xhype::err::Error;
use xhype::guest::{
    Apic, ConfigAccess, ConfigAddr, GuestThread, PciBus, Serial, SerialAccess, VirtualMachine,
};
use xhype::vcpu::{Place, Slot, VmcsField, X86Reg, VCPU};
use xhype::vmexit::io::IoRequest;
use xhype::vmexit::{handle_io, ExitQualIO, HandleResult};

const QUAL: Place = Place::Vmcs(VmcsField::ExitQualification);
const RAX: Place = Place::Reg(X86Reg::RAX);

const OUT: u64 = 0;
const IN: u64 = 8;

fn thread() -> GuestThread {
    GuestThread {
        vm: VirtualMachine {
            cores: 1,
            com1: Serial {
                registers: [0xa0, 0xa1, 0xa2, 0xa3, 0xa4, 0xa5, 0xa6, 0xa7],
                accesses: Vec::new(),
            },
            pci_bus: PciBus {
                config_addr: ConfigAddr(0x8000_0010),
                config_data: 0x4433_2211,
                accesses: Vec::new(),
            },
        },
        id: 0,
        apic: Apic { msr_apic_base: 0 },
        pat_msr: 0,
    }
}

fn qual(port: u64, direction: u64, size: u64) -> u64 {
    (port << 16) | direction | (size - 1)
}

fn vcpu(qualification: u64, rax: u64) -> VCPU {
    let mut vcpu = VCPU::new();
    vcpu.load(QUAL, Slot { value: qualification, read_fault: None, write_fault: None });
    vcpu.load(RAX, Slot { value: rax, read_fault: None, write_fault: None });
    vcpu
}

/// RAX after an instruction.
fn run(gth: &mut GuestThread, qualification: u64, rax: u64) -> u64 {
    let mut v = vcpu(qualification, rax);
    assert_eq!(handle_io(&mut v, gth), Ok(HandleResult::Next));
    v.slot(RAX).value
}

const NOISE: u64 = 0xfeed_face_cafe_f00d;

#[test]
fn qualification_has_size_direction_and_port() {
    let q = ExitQualIO(0xffff_ffff_0cfc_ff8b);
    assert_eq!(q.size(), 4);
    assert!(q.is_in());
    assert_eq!(q.port(), 0xcfc);
    let q = ExitQualIO(0x1_03f8_fff0);
    assert_eq!(q.size(), 1);
    assert!(!q.is_in());
    assert_eq!(q.port(), 0x3f8);
    assert_eq!(ExitQualIO(0b111).size(), 8);
    assert_eq!(ExitQualIO(0b001).size(), 2);
}

#[test]
fn requests_follow_ports() {
    let request = |port, direction, size, rax| ExitQualIO(qual(port, direction, size)).request(rax);
    assert_eq!(request(0x3f8, IN, 1, 0), Some(IoRequest::SerialRead(0)));
    assert_eq!(request(0x3ff, OUT, 1, 0x1ff), Some(IoRequest::SerialWrite(7, 0xff)));
    assert_eq!(request(0xcf8, IN, 4, 0), Some(IoRequest::ConfigAddrRead));
    assert_eq!(request(0xcf8, OUT, 4, NOISE), Some(IoRequest::ConfigAddrWrite(0xcafe_f00d)));
    assert_eq!(request(0xcff, IN, 1, 0), Some(IoRequest::ConfigDataRead));
    assert_eq!(request(0xcfc, OUT, 4, NOISE), Some(IoRequest::ConfigDataWrite(0xcafe_f00d)));
    for port in [0x3f7, 0x400, 0xcf7, 0xcf9, 0xcfb, 0xd00] {
        assert_eq!(request(port, IN, 1, 0), None);
    }
}

#[test]
fn serial_registers_are_read_into_al() {
    for offset in 0..8u64 {
        let mut gth = thread();
        let rax = run(&mut gth, qual(0x3f8 + offset, IN, 1), NOISE);
        assert_eq!(rax, 0xfeed_face_cafe_f0a0 + offset);
        assert_eq!(gth.vm.com1.accesses, vec![SerialAccess::Read(offset as u16)]);
        assert!(gth.vm.pci_bus.accesses.is_empty());
    }
}

#[test]
fn serial_registers_are_written_from_al() {
    for offset in 0..8u64 {
        let mut gth = thread();
        assert_eq!(run(&mut gth, qual(0x3f8 + offset, OUT, 1), NOISE), NOISE);
        assert_eq!(gth.vm.com1.accesses, vec![SerialAccess::Write(offset as u16, 0x0d)]);
    }
}

#[test]
fn config_address_reads_back() {
    let mut gth = thread();
    assert_eq!(run(&mut gth, qual(0xcf8, IN, 4), NOISE), 0x8000_0010);
    assert_eq!(run(&mut gth, qual(0xcf8, OUT, 4), NOISE), NOISE);
    assert_eq!(gth.vm.pci_bus.config_addr, ConfigAddr(0xcafe_f00d));
    assert_eq!(run(&mut gth, qual(0xcf8, IN, 4), 0), 0xcafe_f00d);
    assert!(gth.vm.pci_bus.accesses.is_empty());
}

#[test]
fn config_data_is_read_in_parts() {
    let mut gth = thread();
    assert_eq!(run(&mut gth, qual(0xcfc, IN, 1), NOISE), 0xfeed_face_cafe_f011);
    assert_eq!(run(&mut gth, qual(0xcfd, IN, 1), NOISE), 0xfeed_face_cafe_f022);
    assert_eq!(run(&mut gth, qual(0xcfe, IN, 1), NOISE), 0xfeed_face_cafe_f033);
    assert_eq!(run(&mut gth, qual(0xcff, IN, 1), NOISE), 0xfeed_face_cafe_f044);
    assert_eq!(run(&mut gth, qual(0xcfc, IN, 2), NOISE), 0xfeed_face_cafe_2211);
    assert_eq!(run(&mut gth, qual(0xcfd, IN, 2), NOISE), 0xfeed_face_cafe_2211);
    assert_eq!(run(&mut gth, qual(0xcfe, IN, 2), NOISE), 0xfeed_face_cafe_4433);
    assert_eq!(run(&mut gth, qual(0xcff, IN, 2), NOISE), 0xfeed_face_cafe_4433);
    assert_eq!(run(&mut gth, qual(0xcfc, IN, 4), NOISE), 0x4433_2211);
    assert_eq!(run(&mut gth, qual(0xcfd, IN, 3), NOISE), 0x4433_2211);
    assert_eq!(gth.vm.pci_bus.accesses, vec![ConfigAccess::Read(0x8000_0010); 10]);
}

#[test]
fn config_data_is_written_whole() {
    let mut gth = thread();
    assert_eq!(run(&mut gth, qual(0xcfc, OUT, 4), NOISE), NOISE);
    assert_eq!(gth.vm.pci_bus.accesses, vec![ConfigAccess::Write(0x8000_0010, 0xcafe_f00d)]);
}

#[test]
fn other_ports_are_unhandled() {
    let mut gth = thread();
    let mut v = vcpu(qual(0x80, OUT, 1), 1);
    assert_eq!(
        handle_io(&mut v, &mut gth),
        Err(Error::Unhandled(30, "cannot handle IO port 0x80".to_string()))
    );
    let mut v = vcpu(qual(0xffff, IN, 1), 1);
    assert_eq!(
        handle_io(&mut v, &mut gth),
        Err(Error::Unhandled(30, "cannot handle IO port 0xffff".to_string()))
    );
    assert!(v.stores().is_empty());
    assert!(gth.vm.com1.accesses.is_empty() && gth.vm.pci_bus.accesses.is_empty());
}

#[test]
fn refused_reads_reach_no_device() {
    for place in [QUAL, RAX] {
        let mut gth = thread();
        let mut v = vcpu(qual(0x3f8, IN, 1), 0);
        let value = v.slot(place).value;
        v.load(place, Slot { value, read_fault: Some(9), write_fault: None });
        assert_eq!(handle_io(&mut v, &mut gth), Err(Error::Hypervisor(9)));
        assert!(gth.vm.com1.accesses.is_empty());
    }
}

#[test]
fn refused_answer_comes_after_the_device() {
    let cases = [(0x3f8, 1), (0xcf8, 4), (0xcfc, 1), (0xcfc, 2), (0xcfc, 4)];
    for (port, size) in cases {
        let mut gth = thread();
        let mut v = vcpu(qual(port, IN, size), 0);
        v.load(RAX, Slot { value: 0, read_fault: None, write_fault: Some(9) });
        assert_eq!(handle_io(&mut v, &mut gth), Err(Error::Hypervisor(9)));
        assert!(v.stores().is_empty());
        assert_eq!(gth.vm.com1.accesses.len(), if port == 0x3f8 { 1 } else { 0 });
        assert_eq!(gth.vm.pci_bus.accesses.len(), if port == 0xcfc { 1 } else { 0 });
    }
}
