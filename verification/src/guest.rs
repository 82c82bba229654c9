//! A guest thread, its virtual machine and the devices that it reaches
//! through I/O ports.
//!
//! Of a device the guest's side is kept: what it answers, which the device
//! fills in before the guest reads, and what the guest asked of it, which the
//! device takes out.

use vstd::prelude::*;

verus! {

/// One access of the guest to the first serial port.
#[derive(Debug, Clone, Copy, PartialEq, Eq)]
pub enum SerialAccess {
    /// A read of the register at this offset.
    Read(u16),
    /// A write of this byte to the register at this offset.
    Write(u16, u8),
}

/// What a serial port holds, mathematically.
pub struct SerialState {
    pub registers: Seq<u8>,
    pub accesses: Seq<SerialAccess>,
}

/// The guest's side of a serial port: what each of the eight registers
/// answers, and the accesses that the guest has made, oldest first.
#[derive(Debug)]
pub struct Serial {
    pub registers: [u8; 8],
    pub accesses: Vec<SerialAccess>,
}

impl View for Serial {
    type V = SerialState;

    open spec fn view(&self) -> SerialState {
        SerialState { registers: self.registers@, accesses: self.accesses@ }
    }
}

impl Serial {
    /// Reads the register at an offset.
    pub fn read(&mut self, offset: u16) -> (value: u8)
        requires
            offset < 8,
        ensures
            value == old(self)@.registers[offset as int],
            final(self)@ == (SerialState {
                accesses: old(self)@.accesses.push(SerialAccess::Read(offset)),
                ..old(self)@
            }),
    {
        self.accesses.push(SerialAccess::Read(offset));
        self.registers[offset as usize]
    }

    /// Writes the register at an offset.
    pub fn write(&mut self, offset: u16, value: u8)
        requires
            offset < 8,
        ensures
            final(self)@ == (SerialState {
                accesses: old(self)@.accesses.push(SerialAccess::Write(offset, value)),
                ..old(self)@
            }),
    {
        self.accesses.push(SerialAccess::Write(offset, value));
    }
}

/// The configuration address register of a PCI bus.
#[derive(Debug, Clone, Copy, PartialEq, Eq, Structural)]
pub struct ConfigAddr(pub u32);

/// One access of the guest to the configuration space of a PCI bus, at the
/// address that the configuration address register held.
#[derive(Debug, Clone, Copy, PartialEq, Eq)]
pub enum ConfigAccess {
    /// A read at this address.
    Read(u32),
    /// A write at this address, of this double word.
    Write(u32, u32),
}

/// What a PCI bus holds, mathematically.
pub struct PciBusState {
    pub config_addr: u32,
    pub config_data: u32,
    pub accesses: Seq<ConfigAccess>,
}

/// The guest's side of a PCI bus: the configuration address, what the
/// configuration space answers there, and the accesses that the guest has made
/// to it, oldest first.
#[derive(Debug)]
pub struct PciBus {
    pub config_addr: ConfigAddr,
    pub config_data: u32,
    pub accesses: Vec<ConfigAccess>,
}

impl View for PciBus {
    type V = PciBusState;

    open spec fn view(&self) -> PciBusState {
        PciBusState {
            config_addr: self.config_addr.0,
            config_data: self.config_data,
            accesses: self.accesses@,
        }
    }
}

impl PciBus {
    /// Reads the double word at the configuration address.
    pub fn read(&mut self) -> (value: u32)
        ensures
            value == old(self)@.config_data,
            final(self)@ == (PciBusState {
                accesses: old(self)@.accesses.push(ConfigAccess::Read(old(self)@.config_addr)),
                ..old(self)@
            }),
    {
        self.accesses.push(ConfigAccess::Read(self.config_addr.0));
        self.config_data
    }

    /// Writes the double word at the configuration address.
    pub fn write(&mut self, value: u32)
        ensures
            final(self)@ == (PciBusState {
                accesses: old(self)@.accesses.push(
                    ConfigAccess::Write(old(self)@.config_addr, value),
                ),
                ..old(self)@
            }),
    {
        self.accesses.push(ConfigAccess::Write(self.config_addr.0, value));
    }
}

/// A virtual machine.
#[derive(Debug)]
pub struct VirtualMachine {
    /// The number of virtual CPUs.
    pub cores: u32,
    pub com1: Serial,
    pub pci_bus: PciBus,
}

/// The interrupt controller of a guest thread.
#[derive(Debug)]
pub struct Apic {
    pub msr_apic_base: u64,
}

/// What a guest thread holds, mathematically.
pub struct GuestState {
    pub id: u32,
    pub cores: u32,
    pub msr_apic_base: u64,
    pub pat_msr: u64,
    pub com1: SerialState,
    pub pci_bus: PciBusState,
}

/// A thread that runs one virtual CPU of a virtual machine.
#[derive(Debug)]
pub struct GuestThread {
    pub vm: VirtualMachine,
    pub id: u32,
    pub apic: Apic,
    pub pat_msr: u64,
}

impl View for GuestThread {
    type V = GuestState;

    open spec fn view(&self) -> GuestState {
        GuestState {
            id: self.id,
            cores: self.vm.cores,
            msr_apic_base: self.apic.msr_apic_base,
            pat_msr: self.pat_msr,
            com1: self.vm.com1@,
            pci_bus: self.vm.pci_bus@,
        }
    }
}

/// The views of the devices and of a guest thread hold what their fields hold.
pub proof fn views_hold_fields(serial: Serial, bus: PciBus, gth: GuestThread)
    ensures
        serial@.registers == serial.registers@,
        serial@.accesses == serial.accesses@,
        bus@.config_addr == bus.config_addr.0,
        bus@.config_data == bus.config_data,
        bus@.accesses == bus.accesses@,
        gth@.id == gth.id,
        gth@.cores == gth.vm.cores,
        gth@.msr_apic_base == gth.apic.msr_apic_base,
        gth@.pat_msr == gth.pat_msr,
        gth@.com1 == gth.vm.com1@,
        gth@.pci_bus == gth.vm.pci_bus@,
{
}

} // verus!
