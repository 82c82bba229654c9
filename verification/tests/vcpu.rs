use xhype::err::Error;
use xhype::vcpu::{Place, Slot, VmcsField, X86Reg, VCPU};

const RAX: Place = Place::Reg(X86Reg::RAX);
const EFER: Place = Place::Vmcs(VmcsField::GuestIa32Efer);

#[test]
fn writes_read_back_and_are_recorded() {
    let mut v = VCPU::new();
    assert_eq!(v.read_reg(X86Reg::RAX), Ok(0));
    assert_eq!(v.write_reg(X86Reg::RAX, 5), Ok(()));
    assert_eq!(v.write_vmcs(VmcsField::GuestIa32Efer, 6), Ok(()));
    assert_eq!(v.read_reg(X86Reg::RAX), Ok(5));
    assert_eq!(v.read_vmcs(VmcsField::GuestIa32Efer), Ok(6));
    assert_eq!(v.read_reg(X86Reg::RCX), Ok(0));
    assert_eq!(*v.stores(), vec![(RAX, 5), (EFER, 6)]);
}

#[test]
fn narrow_writes_keep_upper_bits() {
    let mut v = VCPU::new();
    v.load(RAX, Slot { value: 0x1122_3344_5566_7788, read_fault: None, write_fault: None });
    assert_eq!(v.write_reg_16_low(X86Reg::RAX, 0xff), Ok(()));
    assert_eq!(v.read_reg(X86Reg::RAX), Ok(0x1122_3344_5566_77ff));
    assert_eq!(v.write_reg_16(X86Reg::RAX, 0xabcd), Ok(()));
    assert_eq!(v.read_reg(X86Reg::RAX), Ok(0x1122_3344_5566_abcd));
}

#[test]
fn refused_accesses_change_nothing() {
    let mut v = VCPU::new();
    v.load(RAX, Slot { value: 1, read_fault: Some(2), write_fault: Some(3) });
    assert_eq!(v.read_reg(X86Reg::RAX), Err(Error::Hypervisor(2)));
    assert_eq!(v.write_reg(X86Reg::RAX, 9), Err(Error::Hypervisor(3)));
    assert_eq!(v.write_reg_16(X86Reg::RAX, 9), Err(Error::Hypervisor(2)));
    assert_eq!(v.write_reg_16_low(X86Reg::RAX, 9), Err(Error::Hypervisor(2)));
    assert_eq!(v.slot(RAX).value, 1);
    assert!(v.stores().is_empty());
}

#[test]
fn fields_have_their_encodings() {
    assert_eq!(VmcsField::ExitQualification.encoding(), 0x6400);
    assert_eq!(VmcsField::Cr0Shadow.encoding(), 0x6004);
    assert_eq!(VmcsField::GuestIa32Efer.encoding(), 0x2806);
    assert_eq!(VmcsField::VmentryControls.encoding(), 0x4012);
}
