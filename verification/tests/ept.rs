use xhype::guest::{Apic, ConfigAddr, GuestThread, PciBus, Serial, VirtualMachine};
use xhype::vcpu::VCPU;
use xhype::vmexit::{
    ept_instr_fetch, ept_page_walk, ept_read, ept_write, handle_ept_violation, HandleResult,
};

#[test]
fn each_access_bit_has_its_own_predicate() {
    assert!(ept_read(0b001) && !ept_write(0b001) && !ept_instr_fetch(0b001));
    assert!(!ept_read(0b010) && ept_write(0b010) && !ept_instr_fetch(0b010));
    assert!(!ept_read(0b100) && !ept_write(0b100) && ept_instr_fetch(0b100));
    assert!(ept_read(u64::MAX) && ept_write(u64::MAX) && ept_instr_fetch(u64::MAX));
    assert!(!ept_read(!1) && !ept_write(!2) && !ept_instr_fetch(!4));
}

#[test]
fn page_walk_is_bit_seven_without_bit_eight() {
    assert!(ept_page_walk(0x80));
    assert!(!ept_page_walk(0x180));
    assert!(!ept_page_walk(0x100));
    assert!(!ept_page_walk(0));
    assert!(ept_page_walk(!0x100));
}

#[test]
fn violations_resume_the_guest() {
    let mut gth = GuestThread {
        vm: VirtualMachine {
            cores: 2,
            com1: Serial { registers: [0; 8], accesses: Vec::new() },
            pci_bus: PciBus { config_addr: ConfigAddr(7), config_data: 0, accesses: Vec::new() },
        },
        id: 1,
        apic: Apic { msr_apic_base: 3 },
        pat_msr: 4,
    };
    let before = format!("{:?}", gth);
    assert_eq!(handle_ept_violation(&VCPU::new(), &mut gth, 0xfee0_0000), Ok(HandleResult::Resume));
    assert_eq!(format!("{:?}", gth), before);
}
