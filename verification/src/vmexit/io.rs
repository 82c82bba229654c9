//! I/O instructions.

use vstd::prelude::*;
use vstd::string::StringExecFns;

use crate::bits;
use crate::consts::vmx::VMX_REASON_IO;
use crate::err::Error;
use crate::guest::{
    ConfigAccess, ConfigAddr, GuestState, GuestThread, PciBusState, SerialAccess, SerialState,
};
use crate::text;
use crate::vcpu;
use crate::vcpu::{Access, Place, Slot, VCPU, VcpuState, VmcsField, X86Reg};
use crate::vmexit;
use crate::vmexit::{HandleResult, Outcome};

verus! {

/// The port of the PCI configuration address register.
pub const PCI_CONFIG_ADDR: u16 = 0xcf8;

/// The first port of the PCI configuration data register.
pub const PCI_CONFIG_DATA: u16 = 0xcfc;

/// The last port of the PCI configuration data register.
pub const PCI_CONFIG_DATA_MAX: u16 = 0xcff;

/// The first port of the first serial port.
pub const COM1_BASE: u16 = 0x3f8;

/// The last port of the first serial port.
pub const COM1_MAX: u16 = 0x3ff;

/// The exit qualification of an I/O instruction.
pub struct ExitQualIO(pub u64);

/// The number of bytes that an I/O instruction moves.
pub open spec fn io_size(qual: u64) -> u64 {
    (qual % 8 + 1) as u64
}

/// Whether an I/O instruction reads from its port.
pub open spec fn io_is_in(qual: u64) -> bool {
    bits::bit(qual, 3)
}

/// The port of an I/O instruction.
pub open spec fn io_port(qual: u64) -> u16 {
    (qual / 0x1_0000 % 0x1_0000) as u16
}

/// Whether a port is one of the PCI configuration data register.
pub open spec fn is_config_data(port: u16) -> bool {
    PCI_CONFIG_DATA <= port <= PCI_CONFIG_DATA_MAX
}

/// Whether an exit qualification describes a write of something else than four
/// bytes to the PCI configuration data register, which is not implemented.
pub open spec fn io_unimplemented(qual: u64) -> bool {
    is_config_data(io_port(qual)) && !io_is_in(qual) && io_size(qual) != 4
}

/// What an I/O instruction asks of a device.
#[derive(Debug, Clone, Copy, PartialEq, Eq)]
pub enum IoRequest {
    /// Read the register of the first serial port at this offset.
    SerialRead(u16),
    /// Write this byte to the register of the first serial port at this offset.
    SerialWrite(u16, u8),
    /// Read the PCI configuration address.
    ConfigAddrRead,
    /// Set the PCI configuration address.
    ConfigAddrWrite(u32),
    /// Read the double word at the PCI configuration address.
    ConfigDataRead,
    /// Write the double word at the PCI configuration address.
    ConfigDataWrite(u32),
}

/// What an I/O instruction asks of a device, if one is at its port. `rax` is
/// what RAX reads as.
pub open spec fn io_request(qual: u64, rax: u64) -> Option<IoRequest> {
    let port = io_port(qual);
    if COM1_BASE <= port <= COM1_MAX {
        let offset = (port - COM1_BASE) as u16;
        if io_is_in(qual) {
            Some(IoRequest::SerialRead(offset))
        } else {
            Some(IoRequest::SerialWrite(offset, (rax % 0x100) as u8))
        }
    } else if port == PCI_CONFIG_ADDR {
        if io_is_in(qual) {
            Some(IoRequest::ConfigAddrRead)
        } else {
            Some(IoRequest::ConfigAddrWrite(bits::low_half(rax) as u32))
        }
    } else if is_config_data(port) {
        if io_is_in(qual) {
            Some(IoRequest::ConfigDataRead)
        } else {
            Some(IoRequest::ConfigDataWrite(bits::low_half(rax) as u32))
        }
    } else {
        None
    }
}

/// What the devices answer to a request, zero where they answer nothing.
pub open spec fn io_value(g: GuestState, request: IoRequest) -> u32 {
    match request {
        IoRequest::SerialRead(offset) => g.com1.registers[offset as int] as u32,
        IoRequest::ConfigAddrRead => g.pci_bus.config_addr,
        IoRequest::ConfigDataRead => g.pci_bus.config_data,
        _ => 0,
    }
}

/// The guest thread after its devices have served a request.
pub open spec fn io_guest(g: GuestState, request: IoRequest) -> GuestState {
    let serial = |access: SerialAccess|
        GuestState {
            com1: SerialState { accesses: g.com1.accesses.push(access), ..g.com1 },
            ..g
        };
    let config = |access: ConfigAccess|
        GuestState {
            pci_bus: PciBusState { accesses: g.pci_bus.accesses.push(access), ..g.pci_bus },
            ..g
        };
    match request {
        IoRequest::SerialRead(offset) => serial(SerialAccess::Read(offset)),
        IoRequest::SerialWrite(offset, byte) => serial(SerialAccess::Write(offset, byte)),
        IoRequest::ConfigAddrRead => g,
        IoRequest::ConfigAddrWrite(address) => GuestState {
            pci_bus: PciBusState { config_addr: address, ..g.pci_bus },
            ..g
        },
        IoRequest::ConfigDataRead => config(ConfigAccess::Read(g.pci_bus.config_addr)),
        IoRequest::ConfigDataWrite(value) => config(
            ConfigAccess::Write(g.pci_bus.config_addr, value),
        ),
    }
}

/// Byte `n` of a double word, from the lowest.
pub open spec fn byte_of(dword: u32, n: u16) -> u8 {
    if n == 0 {
        (dword % 0x100) as u8
    } else if n == 1 {
        (dword / 0x100 % 0x100) as u8
    } else if n == 2 {
        (dword / 0x1_0000 % 0x100) as u8
    } else {
        (dword / 0x100_0000) as u8
    }
}

/// Word `n` of a double word, from the lowest.
pub open spec fn word_of(dword: u32, n: u16) -> u16 {
    if n == 0 {
        (dword % 0x1_0000) as u16
    } else {
        (dword / 0x1_0000) as u16
    }
}

/// The accesses that hand a device's answer to the guest. A byte or a word of
/// the PCI configuration data register is the one at the port, and keeps the
/// rest of RAX; a double word clears the upper half of RAX.
pub open spec fn io_reply(s: VcpuState, qual: u64, request: IoRequest, value: u32) -> Seq<Access> {
    let whole = seq![Access::Store(Place::Reg(X86Reg::RAX), value as u64)];
    match request {
        IoRequest::SerialRead(_) => vcpu::replace_low_8(s, X86Reg::RAX, byte_of(value, 0)),
        IoRequest::ConfigAddrRead => whole,
        IoRequest::ConfigDataRead => if io_size(qual) == 1 {
            vcpu::replace_low_8(s, X86Reg::RAX, byte_of(value, io_port(qual) % 4))
        } else if io_size(qual) == 2 {
            vcpu::replace_low_16(s, X86Reg::RAX, word_of(value, io_port(qual) % 4 / 2))
        } else {
            whole
        },
        _ => Seq::empty(),
    }
}

/// The accesses that fetch what an I/O instruction does.
pub open spec fn io_fetch() -> Seq<Access> {
    seq![
        Access::Load(Place::Vmcs(VmcsField::ExitQualification)),
        Access::Load(Place::Reg(X86Reg::RAX)),
    ]
}

/// The accesses that handle an I/O instruction.
pub open spec fn io_script(s: VcpuState, g: GuestState) -> Seq<Access> {
    let qual = s.vmcs(VmcsField::ExitQualification);
    match io_request(qual, s.reg(X86Reg::RAX)) {
        Some(request) => io_fetch() + io_reply(s, qual, request, io_value(g, request)),
        None => io_fetch(),
    }
}

/// How an I/O instruction ends unless an access is refused.
pub open spec fn io_end(qual: u64) -> Outcome {
    if io_request(qual, 0) is Some {
        Outcome::Done(HandleResult::Next)
    } else {
        Outcome::Unhandled(
            VMX_REASON_IO,
            "cannot handle IO port 0x"@ + text::hex(io_port(qual) as nat),
        )
    }
}

/// The guest thread after an I/O instruction.
pub open spec fn io_guest_after(s: VcpuState, g: GuestState) -> GuestState {
    match io_request(s.vmcs(VmcsField::ExitQualification), s.reg(X86Reg::RAX)) {
        Some(request) => if s.fault_in(io_fetch()) is None {
            io_guest(g, request)
        } else {
            g
        },
        None => g,
    }
}

/// Whether `t`, `h` and `r` are what an I/O instruction makes of `s` and `g`.
pub open spec fn io_handled(
    s: VcpuState,
    g: GuestState,
    t: VcpuState,
    h: GuestState,
    r: Result<HandleResult, Error>,
) -> bool {
    &&& t == s.run(io_script(s, g))
    &&& vmexit::outcome(r) == vmexit::script_outcome(
        s,
        io_script(s, g),
        io_end(s.vmcs(VmcsField::ExitQualification)),
    )
    &&& h == io_guest_after(s, g)
}

/// Whether `t` and `r` are what handing over a device's answer makes of `s`.
pub open spec fn io_finished(
    s: VcpuState,
    qual: u64,
    request: IoRequest,
    value: u32,
    t: VcpuState,
    r: Result<HandleResult, Error>,
) -> bool {
    &&& t == s.run(io_reply(s, qual, request, value))
    &&& vmexit::outcome(r) == vmexit::script_outcome(
        s,
        io_reply(s, qual, request, value),
        Outcome::Done(HandleResult::Next),
    )
}

impl ExitQualIO {
    /// The number of bytes that the instruction moves (Intel SDM, table 27-5).
    pub fn size(&self) -> (size: u64)
        ensures
            size == io_size(self.0),
            size == self.0 % 8 + 1,
    {
        let q: u64 = self.0;
        assert(q & 0b111 == q % 8) by (bit_vector);
        (self.0 & 0b111) + 1
    }

    /// Whether the instruction reads from its port.
    pub fn is_in(&self) -> (is_in: bool)
        ensures
            is_in == io_is_in(self.0),
            is_in <==> self.0 / 8 % 2 == 1,
    {
        let q: u64 = self.0;
        assert((q >> 3) & 1 == q / 8 % 2) by (bit_vector);
        (self.0 >> 3) & 1 == 1
    }

    /// The port of the instruction.
    pub fn port(&self) -> (port: u16)
        ensures
            port == io_port(self.0),
            port == self.0 / 0x1_0000 % 0x1_0000,
    {
        let q: u64 = self.0;
        assert((q >> 16) & 0xffff == q / 0x1_0000 % 0x1_0000) by (bit_vector);
        ((self.0 >> 16) & 0xffff) as u16
    }

    /// What the instruction asks of a device, if one is at its port. `rax` is
    /// what RAX reads as.
    pub fn request(&self, rax: u64) -> (request: Option<IoRequest>)
        requires
            !io_unimplemented(self.0),
        ensures
            request == io_request(self.0, rax),
    {
        assert(rax & 0xff == rax % 0x100) by (bit_vector);
        let port: u16 = self.port();
        if COM1_BASE <= port && port <= COM1_MAX {
            let offset: u16 = port - COM1_BASE;
            if self.is_in() {
                Some(IoRequest::SerialRead(offset))
            } else {
                Some(IoRequest::SerialWrite(offset, (rax & 0xff) as u8))
            }
        } else if port == PCI_CONFIG_ADDR {
            if self.is_in() {
                Some(IoRequest::ConfigAddrRead)
            } else {
                Some(IoRequest::ConfigAddrWrite(bits::take_low_half(rax)))
            }
        } else if PCI_CONFIG_DATA <= port && port <= PCI_CONFIG_DATA_MAX {
            if self.is_in() {
                Some(IoRequest::ConfigDataRead)
            } else {
                Some(IoRequest::ConfigDataWrite(bits::take_low_half(rax)))
            }
        } else {
            None
        }
    }
}

/// Has the devices of the guest thread serve a request.
fn serve_io(gth: &mut GuestThread, request: IoRequest) -> (value: u32)
    requires
        request matches IoRequest::SerialRead(offset) ==> offset < 8,
        request matches IoRequest::SerialWrite(offset, _) ==> offset < 8,
    ensures
        value == io_value(old(gth)@, request),
        final(gth)@ == io_guest(old(gth)@, request),
{
    match request {
        IoRequest::SerialRead(offset) => gth.vm.com1.read(offset) as u32,
        IoRequest::SerialWrite(offset, byte) => {
            gth.vm.com1.write(offset, byte);
            0
        },
        IoRequest::ConfigAddrRead => gth.vm.pci_bus.config_addr.0,
        IoRequest::ConfigAddrWrite(address) => {
            gth.vm.pci_bus.config_addr = ConfigAddr(address);
            0
        },
        IoRequest::ConfigDataRead => gth.vm.pci_bus.read(),
        IoRequest::ConfigDataWrite(value) => {
            gth.vm.pci_bus.write(value);
            0
        },
    }
}

/// Hands a device's answer to the guest.
pub fn finish_io(vcpu: &mut VCPU, qual: &ExitQualIO, request: IoRequest, value: u32) -> (r: Result<
    HandleResult,
    Error,
>)
    ensures
        final(vcpu)@ == old(vcpu)@.run(io_reply(old(vcpu)@, qual.0, request, value)),
        vmexit::outcome(r) == vmexit::script_outcome(
            old(vcpu)@,
            io_reply(old(vcpu)@, qual.0, request, value),
            Outcome::Done(HandleResult::Next),
        ),
        io_finished(old(vcpu)@, qual.0, request, value, final(vcpu)@, r),
{
    proof {
        reveal_with_fuel(VcpuState::run, 2);
        reveal_with_fuel(VcpuState::fault_in, 2);
        assert(value & 0xff == value % 0x100) by (bit_vector);
    }
    match request {
        IoRequest::SerialRead(_) => {
            vcpu.write_reg_16_low(X86Reg::RAX, (value & 0xff) as u8)?;
        },
        IoRequest::ConfigAddrRead => {
            vcpu.write_reg(X86Reg::RAX, value as u64)?;
        },
        IoRequest::ConfigDataRead => {
            let port: u16 = qual.port();
            let size: u64 = qual.size();
            proof {
                assert(port & 0b11 == port % 4 && port & 0b10 == port % 4 / 2 * 2) by (bit_vector);
                assert(value >> 0 == value && value >> 8 == value / 0x100 && value >> 16 == value
                    / 0x1_0000 && value >> 24 == value / 0x100_0000) by (bit_vector);
                assert(forall|v: u32| v & 0xff == #[trigger] (v % 0x100)) by (bit_vector);
                assert(forall|v: u32| v & 0xffff == #[trigger] (v % 0x1_0000)) by (bit_vector);
            }
            if size == 1 {
                let v: u32 = value >> (((port & 0b11) * 8) as u32);
                assert(v & 0xff == v % 0x100);
                vcpu.write_reg_16_low(X86Reg::RAX, (v & 0xff) as u8)?;
            } else if size == 2 {
                let v: u32 = value >> (((port & 0b10) * 8) as u32);
                assert(v & 0xffff == v % 0x1_0000);
                vcpu.write_reg_16(X86Reg::RAX, (v & 0xffff) as u16)?;
            } else {
                vcpu.write_reg(X86Reg::RAX, value as u64)?;
            }
        },
        _ => {},
    }
    Ok(HandleResult::Next)
}

/// Handles an I/O instruction.
pub fn handle_io(vcpu: &mut VCPU, gth: &mut GuestThread) -> (r: Result<HandleResult, Error>)
    requires
        old(vcpu)@.fault_in(io_fetch()) is None ==> !io_unimplemented(
            old(vcpu)@.vmcs(VmcsField::ExitQualification),
        ),
    ensures
        final(vcpu)@ == old(vcpu)@.run(io_script(old(vcpu)@, old(gth)@)),
        vmexit::outcome(r) == vmexit::script_outcome(
            old(vcpu)@,
            io_script(old(vcpu)@, old(gth)@),
            io_end(old(vcpu)@.vmcs(VmcsField::ExitQualification)),
        ),
        final(gth)@ == match io_request(
            old(vcpu)@.vmcs(VmcsField::ExitQualification),
            old(vcpu)@.reg(X86Reg::RAX),
        ) {
            Some(request) => if old(vcpu)@.fault_in(io_fetch()) is None {
                io_guest(old(gth)@, request)
            } else {
                old(gth)@
            },
            None => old(gth)@,
        },
        io_handled(old(vcpu)@, old(gth)@, final(vcpu)@, final(gth)@, r),
{
    let ghost s = vcpu@;
    let ghost g = gth@;
    proof {
        reveal_with_fuel(VcpuState::run, 3);
        reveal_with_fuel(VcpuState::fault_in, 3);
        let q = s.vmcs(VmcsField::ExitQualification);
        let request = io_request(q, s.reg(X86Reg::RAX))->Some_0;
        vcpu::run_parts(s, io_fetch(), io_reply(s, q, request, io_value(g, request)));
    }
    let qual = ExitQualIO(vcpu.read_vmcs(VmcsField::ExitQualification)?);
    let rax: u64 = vcpu.read_reg(X86Reg::RAX)?;
    match qual.request(rax) {
        Some(request) => {
            let value: u32 = serve_io(gth, request);
            finish_io(vcpu, &qual, request, value)
        },
        None => {
            let mut message = "cannot handle IO port 0x".to_owned();
            text::push_hex(&mut message, qual.port() as u64);
            Err(Error::Unhandled(VMX_REASON_IO, message))
        },
    }
}

/// The four bytes, and the two words, of a double word make it up: reads of
/// parts of the PCI configuration data register give what one read of the
/// whole gives.
pub proof fn parts_make_up_dword(dword: u32)
    ensures
        dword == byte_of(dword, 0) + byte_of(dword, 1) * 0x100 + byte_of(dword, 2) * 0x1_0000
            + byte_of(dword, 3) * 0x100_0000,
        dword == word_of(dword, 0) + word_of(dword, 1) * 0x1_0000,
{
    assert(dword == dword % 0x100 + dword / 0x100 % 0x100 * 0x100 + dword / 0x1_0000 % 0x100
        * 0x1_0000 + dword / 0x100_0000 * 0x100_0000 && dword == dword % 0x1_0000 + dword / 0x1_0000
        * 0x1_0000 && dword / 0x100_0000 < 0x100 && dword / 0x1_0000 < 0x1_0000) by (bit_vector);
}

/// The PCI configuration address reads as what was written to it last: `s` and
/// `g` are as the guest writes, `t` and `h` as it reads, where the address has
/// not been touched in between.
pub proof fn config_address_reads_back(
    s: VcpuState,
    g: GuestState,
    request: IoRequest,
    t: VcpuState,
    h: GuestState,
)
    requires
        io_request(s.vmcs(VmcsField::ExitQualification), s.reg(X86Reg::RAX)) == Some(request),
        request is ConfigAddrWrite,
        io_request(t.vmcs(VmcsField::ExitQualification), t.reg(X86Reg::RAX)) == Some(
            IoRequest::ConfigAddrRead,
        ),
        h.pci_bus.config_addr == io_guest(g, request).pci_bus.config_addr,
        t.fault_in(io_script(t, h)) is None,
    ensures
        t.run(io_script(t, h)).reg(X86Reg::RAX) == bits::low_half(s.reg(X86Reg::RAX)),
{
    reveal_with_fuel(VcpuState::run, 4);
    reveal_with_fuel(VcpuState::fault_in, 4);
}

/// An I/O instruction changes no part of the virtual CPU but RAX, and that
/// only if it reads from its port.
pub proof fn io_changes_only_rax(s: VcpuState, g: GuestState, place: Place)
    requires
        place != Place::Reg(X86Reg::RAX) || !io_is_in(s.vmcs(VmcsField::ExitQualification)),
    ensures
        s.run(io_script(s, g)).slots[place] == s.slots[place],
{
    vcpu::run_keeps_others(s, io_script(s, g), place);
}

/// After a read from a port, of which no access is refused, RAX holds what the
/// device answers. A byte replaces the lowest byte of RAX, a word its lowest
/// word, and anything else all of it.
pub proof fn in_gives_answer(s: VcpuState, g: GuestState)
    requires
        io_is_in(s.vmcs(VmcsField::ExitQualification)),
        io_request(s.vmcs(VmcsField::ExitQualification), s.reg(X86Reg::RAX)) is Some,
        s.fault_in(io_script(s, g)) is None,
    ensures
        ({
            let qual = s.vmcs(VmcsField::ExitQualification);
            let before = s.reg(X86Reg::RAX);
            let after = s.run(io_script(s, g)).reg(X86Reg::RAX);
            match io_request(qual, before)->Some_0 {
                IoRequest::SerialRead(offset) => after % 0x100 == g.com1.registers[offset as int]
                    && after / 0x100 == before / 0x100,
                IoRequest::ConfigAddrRead => after == g.pci_bus.config_addr,
                _ => if io_size(qual) == 1 {
                    after % 0x100 == byte_of(g.pci_bus.config_data, io_port(qual) % 4) && after
                        / 0x100 == before / 0x100
                } else if io_size(qual) == 2 {
                    after % 0x1_0000 == word_of(g.pci_bus.config_data, io_port(qual) % 4 / 2)
                        && after / 0x1_0000 == before / 0x1_0000
                } else {
                    after == g.pci_bus.config_data
                },
            }
        }),
{
    let qual = s.vmcs(VmcsField::ExitQualification);
    let before = s.reg(X86Reg::RAX);
    let request = io_request(qual, before)->Some_0;
    let data = g.pci_bus.config_data;
    let reply = io_reply(s, qual, request, io_value(g, request));
    vcpu::run_parts(s, io_fetch(), reply);
    assert(s.run(io_fetch()) == s) by {
        reveal_with_fuel(VcpuState::run, 3);
    }
    reveal_with_fuel(VcpuState::run, 3);
    reveal_with_fuel(VcpuState::fault_in, 3);
    if let IoRequest::SerialRead(offset) = request {
        bits::low_bits_replaced(before, byte_of(io_value(g, request), 0), 0);
    } else {
        bits::low_bits_replaced(
            before,
            byte_of(data, io_port(qual) % 4),
            word_of(data, io_port(qual) % 4 / 2),
        );
    }
}

/// An I/O instruction on a port without a device changes nothing.
pub proof fn unknown_port_changes_nothing(s: VcpuState, g: GuestState)
    requires
        io_end(s.vmcs(VmcsField::ExitQualification)) is Unhandled,
    ensures
        s.run(io_script(s, g)) == s,
        io_request(s.vmcs(VmcsField::ExitQualification), s.reg(X86Reg::RAX)) is None,
{
    reveal_with_fuel(VcpuState::run, 3);
}

/// The parts of an exit qualification: bits 0 to 2 are one less than the size,
/// bit 3 is the direction, bits 16 to 31 are the port. What is not implemented
/// is to write something else than four bytes to ports 0xcfc to 0xcff.
pub proof fn io_qualification_parts(qual: u64)
    ensures
        io_size(qual) == qual % 8 + 1,
        io_is_in(qual) <==> qual / 8 % 2 == 1,
        io_port(qual) == qual / 0x1_0000 % 0x1_0000,
        io_unimplemented(qual) <==> (0xcfc <= qual / 0x1_0000 % 0x1_0000 <= 0xcff && qual / 8 % 2
            == 0 && qual % 8 != 3),
{
    assert((qual >> 3) & 1 == qual / 8 % 2) by (bit_vector);
}

/// What an I/O instruction asks for, in terms of its exit qualification and of
/// what RAX reads as: ports 0x3f8 to 0x3ff are the serial port's registers and
/// take the lowest byte, port 0xcf8 is the PCI configuration address and ports
/// 0xcfc to 0xcff are the configuration data, which take the lower half.
pub proof fn requests_carry_rax(qual: u64, rax: u64)
    ensures
        ({
            let port = qual / 0x1_0000 % 0x1_0000;
            let is_in = qual / 8 % 2 == 1;
            let request = io_request(qual, rax);
            if 0x3f8 <= port <= 0x3ff {
                if is_in {
                    request matches Some(IoRequest::SerialRead(offset)) && offset == port - 0x3f8
                } else {
                    request matches Some(IoRequest::SerialWrite(offset, byte)) && offset == port
                        - 0x3f8 && byte == rax % 0x100
                }
            } else if port == 0xcf8 {
                if is_in {
                    request == Some(IoRequest::ConfigAddrRead)
                } else {
                    request matches Some(IoRequest::ConfigAddrWrite(address)) && address == rax
                        % 0x1_0000_0000
                }
            } else if 0xcfc <= port <= 0xcff {
                if is_in {
                    request == Some(IoRequest::ConfigDataRead)
                } else {
                    request matches Some(IoRequest::ConfigDataWrite(value)) && value == rax
                        % 0x1_0000_0000
                }
            } else {
                request is None
            }
        }),
{
    io_qualification_parts(qual);
}

/// What handing a device's answer over does, whatever is refused. A request
/// that writes hands nothing over.
///
/// The answer of the serial port is a byte. Of the PCI configuration data, a
/// byte is the one that bits 16 and 17 of the exit qualification choose, and a
/// word the one that bit 17 chooses. A byte replaces the lowest byte of RAX, a
/// word its lowest word, and anything else all of it.
pub proof fn answers_go_to_rax(
    s: VcpuState,
    qual: u64,
    request: IoRequest,
    value: u32,
    t: VcpuState,
    r: Result<HandleResult, Error>,
)
    requires
        io_finished(s, qual, request, value, t, r),
    ensures
        ({
            let rax = s.slots[Place::Reg(X86Reg::RAX)];
            let after = t.slots[Place::Reg(X86Reg::RAX)].value;
            let part = qual / 0x1_0000 % 4;
            let narrow = request is SerialRead || (request is ConfigDataRead && qual % 8 < 2);
            if request is SerialWrite || request is ConfigAddrWrite || request is ConfigDataWrite {
                r == Ok::<HandleResult, Error>(HandleResult::Next) && t == s
            } else if narrow && rax.read_fault is Some {
                r == Err::<HandleResult, Error>(Error::Hypervisor(rax.read_fault->Some_0)) && t == s
            } else if rax.write_fault is Some {
                r == Err::<HandleResult, Error>(Error::Hypervisor(rax.write_fault->Some_0)) && t == s
            } else {
                &&& r == Ok::<HandleResult, Error>(HandleResult::Next)
                &&& t.slots == s.slots.insert(
                    Place::Reg(X86Reg::RAX),
                    Slot { value: after, ..rax },
                )
                &&& t.stores == s.stores.push((Place::Reg(X86Reg::RAX), after))
                &&& if request is SerialRead {
                    after % 0x100 == value % 0x100 && after / 0x100 == rax.value / 0x100
                } else if request is ConfigDataRead && qual % 8 == 0 {
                    &&& after / 0x100 == rax.value / 0x100
                    &&& part == 0 ==> after % 0x100 == value % 0x100
                    &&& part == 1 ==> after % 0x100 == value / 0x100 % 0x100
                    &&& part == 2 ==> after % 0x100 == value / 0x1_0000 % 0x100
                    &&& part == 3 ==> after % 0x100 == value / 0x100_0000
                } else if request is ConfigDataRead && qual % 8 == 1 {
                    &&& after / 0x1_0000 == rax.value / 0x1_0000
                    &&& part < 2 ==> after % 0x1_0000 == value % 0x1_0000
                    &&& part >= 2 ==> after % 0x1_0000 == value / 0x1_0000
                } else {
                    after == value
                }
            }
        }),
{
    io_qualification_parts(qual);
    assert(qual / 0x1_0000 % 0x1_0000 % 4 == qual / 0x1_0000 % 4);
    reveal_with_fuel(VcpuState::run, 3);
    reveal_with_fuel(VcpuState::fault_in, 3);
    let port = io_port(qual);
    bits::low_bits_replaced(
        s.reg(X86Reg::RAX),
        byte_of(value, if request is SerialRead { 0 } else { port % 4 }),
        word_of(value, port % 4 / 2),
    );
}

/// What a write to a port does. No part of the virtual CPU changes, whatever is
/// refused.
///
/// Ports 0x3f8 to 0x3ff pass the lowest byte of RAX to the serial port's
/// register at that port. Port 0xcf8 sets the PCI configuration address to the
/// lower half of RAX, and ports 0xcfc to 0xcff pass that half to the PCI bus, as
/// a write at its configuration address. Any other port is unhandled. Nothing
/// else of the guest thread changes.
pub proof fn out_passes_rax_on(
    s: VcpuState,
    g: GuestState,
    t: VcpuState,
    h: GuestState,
    r: Result<HandleResult, Error>,
)
    requires
        io_handled(s, g, t, h, r),
        s.slots[Place::Vmcs(VmcsField::ExitQualification)].value / 8 % 2 == 0,
    ensures
        t == s,
        ({
            let q = s.slots[Place::Vmcs(VmcsField::ExitQualification)];
            let rax = s.slots[Place::Reg(X86Reg::RAX)];
            let port = q.value / 0x1_0000 % 0x1_0000;
            if q.read_fault is Some {
                r == Err::<HandleResult, Error>(Error::Hypervisor(q.read_fault->Some_0)) && h == g
            } else if rax.read_fault is Some {
                r == Err::<HandleResult, Error>(Error::Hypervisor(rax.read_fault->Some_0)) && h == g
            } else if 0x3f8 <= port <= 0x3ff {
                &&& r == Ok::<HandleResult, Error>(HandleResult::Next)
                &&& h.com1.accesses.len() == g.com1.accesses.len() + 1
                &&& h.com1.accesses.drop_last() == g.com1.accesses
                &&& h.com1.accesses.last() matches SerialAccess::Write(offset, byte)
                &&& offset == port - 0x3f8
                &&& byte == rax.value % 0x100
                &&& h.com1.registers == g.com1.registers
                &&& h == (GuestState { com1: h.com1, ..g })
            } else if port == 0xcf8 {
                &&& r == Ok::<HandleResult, Error>(HandleResult::Next)
                &&& h.pci_bus.config_addr == rax.value % 0x1_0000_0000
                &&& h.pci_bus.config_data == g.pci_bus.config_data
                &&& h.pci_bus.accesses == g.pci_bus.accesses
                &&& h == (GuestState { pci_bus: h.pci_bus, ..g })
            } else if 0xcfc <= port <= 0xcff {
                &&& r == Ok::<HandleResult, Error>(HandleResult::Next)
                &&& h.pci_bus.accesses.len() == g.pci_bus.accesses.len() + 1
                &&& h.pci_bus.accesses.drop_last() == g.pci_bus.accesses
                &&& h.pci_bus.accesses.last() matches ConfigAccess::Write(address, value)
                &&& address == g.pci_bus.config_addr
                &&& value == rax.value % 0x1_0000_0000
                &&& h.pci_bus.config_addr == g.pci_bus.config_addr
                &&& h.pci_bus.config_data == g.pci_bus.config_data
                &&& h == (GuestState { pci_bus: h.pci_bus, ..g })
            } else {
                &&& r matches Err(Error::Unhandled(reason, text))
                &&& reason == 30
                &&& text@ == "cannot handle IO port 0x"@ + text::hex(port as nat)
                &&& h == g
            }
        }),
{
    io_cases(s, g, t, h, r);
    let qual = s.vmcs(VmcsField::ExitQualification);
    requests_carry_rax(qual, s.reg(X86Reg::RAX));
    if let Some(request) = io_request(qual, s.reg(X86Reg::RAX)) {
        if s.fault_in(io_fetch()) is None {
            answers_go_to_rax(s, qual, request, io_value(g, request), t, r);
            if request is SerialWrite {
                assert(h.com1.accesses.drop_last() =~= g.com1.accesses);
            }
            if request is ConfigDataWrite {
                assert(h.pci_bus.accesses.drop_last() =~= g.pci_bus.accesses);
            }
        }
    }
}

/// What a read from a port does, whatever is refused. No part of the virtual
/// CPU but RAX changes.
///
/// Ports 0x3f8 to 0x3ff give the byte that the serial port's register at that
/// port answers, port 0xcf8 gives the PCI configuration address, and ports 0xcfc
/// to 0xcff give what the PCI bus answers at that address: the byte or the word
/// at the port, or all of it. The device is asked once, before RAX is written,
/// whether or not that is refused. Any other port is unhandled.
pub proof fn in_brings_answer(
    s: VcpuState,
    g: GuestState,
    t: VcpuState,
    h: GuestState,
    r: Result<HandleResult, Error>,
)
    requires
        io_handled(s, g, t, h, r),
        s.slots[Place::Vmcs(VmcsField::ExitQualification)].value / 8 % 2 == 1,
    ensures
        ({
            let q = s.slots[Place::Vmcs(VmcsField::ExitQualification)];
            let rax = s.slots[Place::Reg(X86Reg::RAX)];
            let port = q.value / 0x1_0000 % 0x1_0000;
            let after = t.slots[Place::Reg(X86Reg::RAX)].value;
            let data = g.pci_bus.config_data;
            if q.read_fault is Some {
                r == Err::<HandleResult, Error>(Error::Hypervisor(q.read_fault->Some_0)) && t == s
                    && h == g
            } else if rax.read_fault is Some {
                r == Err::<HandleResult, Error>(Error::Hypervisor(rax.read_fault->Some_0)) && t == s
                    && h == g
            } else if !(0x3f8 <= port <= 0x3ff || port == 0xcf8 || 0xcfc <= port <= 0xcff) {
                &&& r matches Err(Error::Unhandled(reason, text))
                &&& reason == 30
                &&& text@ == "cannot handle IO port 0x"@ + text::hex(port as nat)
                &&& t == s
                &&& h == g
            } else {
                &&& if 0x3f8 <= port <= 0x3ff {
                    &&& h.com1.accesses.len() == g.com1.accesses.len() + 1
                    &&& h.com1.accesses.drop_last() == g.com1.accesses
                    &&& h.com1.accesses.last() matches SerialAccess::Read(offset)
                    &&& offset == port - 0x3f8
                    &&& h.com1.registers == g.com1.registers
                    &&& h == (GuestState { com1: h.com1, ..g })
                } else if port == 0xcf8 {
                    h == g
                } else {
                    &&& h.pci_bus.accesses.len() == g.pci_bus.accesses.len() + 1
                    &&& h.pci_bus.accesses.drop_last() == g.pci_bus.accesses
                    &&& h.pci_bus.accesses.last() == ConfigAccess::Read(g.pci_bus.config_addr)
                    &&& h.pci_bus.config_addr == g.pci_bus.config_addr
                    &&& h.pci_bus.config_data == g.pci_bus.config_data
                    &&& h == (GuestState { pci_bus: h.pci_bus, ..g })
                }
                &&& if rax.write_fault is Some {
                    r == Err::<HandleResult, Error>(Error::Hypervisor(rax.write_fault->Some_0)) && t
                        == s
                } else {
                    &&& r == Ok::<HandleResult, Error>(HandleResult::Next)
                    &&& t.slots == s.slots.insert(
                        Place::Reg(X86Reg::RAX),
                        Slot { value: after, ..rax },
                    )
                    &&& t.stores == s.stores.push((Place::Reg(X86Reg::RAX), after))
                    &&& if 0x3f8 <= port <= 0x3ff {
                        &&& after % 0x100 == g.com1.registers[port - 0x3f8]
                        &&& after / 0x100 == rax.value / 0x100
                    } else if port == 0xcf8 {
                        after == g.pci_bus.config_addr
                    } else if q.value % 8 == 0 {
                        &&& after / 0x100 == rax.value / 0x100
                        &&& port == 0xcfc ==> after % 0x100 == data % 0x100
                        &&& port == 0xcfd ==> after % 0x100 == data / 0x100 % 0x100
                        &&& port == 0xcfe ==> after % 0x100 == data / 0x1_0000 % 0x100
                        &&& port == 0xcff ==> after % 0x100 == data / 0x100_0000
                    } else if q.value % 8 == 1 {
                        &&& after / 0x1_0000 == rax.value / 0x1_0000
                        &&& port < 0xcfe ==> after % 0x1_0000 == data % 0x1_0000
                        &&& port >= 0xcfe ==> after % 0x1_0000 == data / 0x1_0000
                    } else {
                        after == data
                    }
                }
            }
        }),
{
    io_cases(s, g, t, h, r);
    let qual = s.vmcs(VmcsField::ExitQualification);
    requests_carry_rax(qual, s.reg(X86Reg::RAX));
    if let Some(request) = io_request(qual, s.reg(X86Reg::RAX)) {
        if s.fault_in(io_fetch()) is None {
            answers_go_to_rax(s, qual, request, io_value(g, request), t, r);
            if request is SerialRead {
                assert(h.com1.accesses.drop_last() =~= g.com1.accesses);
            }
            if request is ConfigDataRead {
                assert(h.pci_bus.accesses.drop_last() =~= g.pci_bus.accesses);
            }
        }
    }
}

/// An I/O instruction fetches the exit qualification and RAX, and then hands
/// over the answer to its request, if it has one.
proof fn io_cases(
    s: VcpuState,
    g: GuestState,
    t: VcpuState,
    h: GuestState,
    r: Result<HandleResult, Error>,
)
    requires
        io_handled(s, g, t, h, r),
    ensures
        ({
            let qual = s.vmcs(VmcsField::ExitQualification);
            let q = s.slots[Place::Vmcs(VmcsField::ExitQualification)];
            let rax = s.slots[Place::Reg(X86Reg::RAX)];
            &&& s.fault_in(io_fetch()) == if q.read_fault is Some {
                q.read_fault
            } else {
                rax.read_fault
            }
            &&& s.fault_in(io_fetch()) matches Some(code) ==> r == Err::<HandleResult, Error>(
                Error::Hypervisor(code),
            ) && t == s && h == g
            &&& s.fault_in(io_fetch()) is None ==> match io_request(qual, s.reg(X86Reg::RAX)) {
                Some(request) => io_finished(s, qual, request, io_value(g, request), t, r) && h
                    == io_guest(g, request),
                None => vmexit::outcome(r) == io_end(qual) && t == s && h == g,
            }
        }),
{
    let qual = s.vmcs(VmcsField::ExitQualification);
    assert(s.run(io_fetch()) == s && s.fault_in(io_fetch()) == if s.slots[Place::Vmcs(
        VmcsField::ExitQualification,
    )].read_fault is Some {
        s.slots[Place::Vmcs(VmcsField::ExitQualification)].read_fault
    } else {
        s.slots[Place::Reg(X86Reg::RAX)].read_fault
    }) by {
        reveal_with_fuel(VcpuState::run, 3);
        reveal_with_fuel(VcpuState::fault_in, 3);
    }
    if let Some(request) = io_request(qual, s.reg(X86Reg::RAX)) {
        vcpu::run_parts(s, io_fetch(), io_reply(s, qual, request, io_value(g, request)));
    }
}

} // verus!
