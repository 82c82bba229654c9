//! A virtual CPU as an exit handler sees it.
//!
//! [`VCPU`] holds what each register and each VMCS field reads as, whether the
//! hypervisor refuses to read or to write it, and every store made so far. It
//! is filled from the hypervisor when the guest exits; a place then reads as
//! what was last stored to it, and the stores are carried out, in order, before
//! the guest goes on.

use vstd::prelude::*;

use crate::bits;
use crate::consts::vmx::{
    VMCS_CTRL_CR0_SHADOW, VMCS_CTRL_VMENTRY_CONTROLS, VMCS_GUEST_IA32_EFER, VMCS_RO_EXIT_QUALIFIC,
};
use crate::err::Error;

verus! {

/// A register of the guest.
#[derive(Debug, Clone, Copy, PartialEq, Eq, Structural)]
pub enum X86Reg {
    RAX,
    RCX,
    RDX,
    RBX,
    RSP,
    RBP,
    RSI,
    RDI,
    R8,
    R9,
    R10,
    R11,
    R12,
    R13,
    R14,
    R15,
    CR0,
    CR3,
    CR4,
}

/// A field of the virtual machine control structure.
#[derive(Debug, Clone, Copy, PartialEq, Eq, Structural)]
pub enum VmcsField {
    /// What caused the exit, in detail.
    ExitQualification,
    /// What the guest reads of the CR0 bits that the host owns.
    Cr0Shadow,
    /// The guest's EFER register.
    GuestIa32Efer,
    /// The VM-entry controls.
    VmentryControls,
}

/// A part of the virtual CPU that can be read or written.
#[derive(Debug, Clone, Copy, PartialEq, Eq, Structural)]
pub enum Place {
    Reg(X86Reg),
    Vmcs(VmcsField),
}

/// What a place reads as, and the code with which the hypervisor refuses to
/// read or to write it, if it does.
#[derive(Debug, Clone, Copy, PartialEq, Eq)]
pub struct Slot {
    pub value: u64,
    pub read_fault: Option<u32>,
    pub write_fault: Option<u32>,
}

/// The number of places.
pub const PLACES: usize = 23;

/// One access to the virtual CPU.
pub enum Access {
    Load(Place),
    Store(Place, u64),
}

/// What a virtual CPU holds, mathematically.
pub struct VcpuState {
    /// The slot of every place.
    pub slots: Map<Place, Slot>,
    /// The stores made so far, oldest first.
    pub stores: Seq<(Place, u64)>,
}

impl VcpuState {
    /// What a register reads as.
    pub open spec fn reg(self, reg: X86Reg) -> u64 {
        self.slots[Place::Reg(reg)].value
    }

    /// What a VMCS field reads as.
    pub open spec fn vmcs(self, field: VmcsField) -> u64 {
        self.slots[Place::Vmcs(field)].value
    }

    /// The code with which the hypervisor refuses an access, if it does.
    pub open spec fn fault(self, access: Access) -> Option<u32> {
        match access {
            Access::Load(place) => self.slots[place].read_fault,
            Access::Store(place, _) => self.slots[place].write_fault,
        }
    }

    /// The state after an access that was not refused.
    pub open spec fn after(self, access: Access) -> VcpuState {
        match access {
            Access::Load(_) => self,
            Access::Store(place, value) => VcpuState {
                slots: self.slots.insert(place, Slot { value, ..self.slots[place] }),
                stores: self.stores.push((place, value)),
            },
        }
    }

    /// The code of the first access of a script that is refused, if one is.
    pub open spec fn fault_in(self, script: Seq<Access>) -> Option<u32>
        decreases script.len(),
    {
        if script.len() == 0 {
            None
        } else {
            match self.fault(script[0]) {
                Some(code) => Some(code),
                None => self.fault_in(script.drop_first()),
            }
        }
    }

    /// The state after the accesses of a script, made in order up to the first
    /// that is refused.
    pub open spec fn run(self, script: Seq<Access>) -> VcpuState
        decreases script.len(),
    {
        if script.len() == 0 || self.fault(script[0]) is Some {
            self
        } else {
            self.after(script[0]).run(script.drop_first())
        }
    }
}

/// A register and a VMCS field read as what their places hold.
pub proof fn places_hold_values(s: VcpuState, reg: X86Reg, field: VmcsField)
    ensures
        s.reg(reg) == s.slots[Place::Reg(reg)].value,
        s.vmcs(field) == s.slots[Place::Vmcs(field)].value,
{
}

/// A script of no accesses does nothing.
pub proof fn empty_script(s: VcpuState)
    ensures
        s.fault_in(Seq::empty()) is None,
        s.run(Seq::empty()) == s,
{
}

/// A script that begins with a load ends there, with nothing changed, where
/// the place cannot be read, and is otherwise the rest of it.
pub proof fn load_comes_first(s: VcpuState, place: Place, rest: Seq<Access>)
    ensures
        s.slots[place].read_fault matches Some(code) ==> s.fault_in(
            seq![Access::Load(place)] + rest,
        ) == Some(code) && s.run(seq![Access::Load(place)] + rest) == s,
        s.slots[place].read_fault is None ==> s.fault_in(seq![Access::Load(place)] + rest)
            == s.fault_in(rest) && s.run(seq![Access::Load(place)] + rest) == s.run(rest),
{
    assert((seq![Access::Load(place)] + rest).drop_first() =~= rest);
}

/// A script that begins with a store ends there, with nothing changed, where
/// the place cannot be written. Otherwise the place reads as what is stored,
/// the store is recorded, nothing else changes, and the rest follows.
pub proof fn store_comes_first(s: VcpuState, place: Place, value: u64, rest: Seq<Access>)
    ensures
        ({
            let script = seq![Access::Store(place, value)] + rest;
            let t = VcpuState {
                slots: s.slots.insert(
                    place,
                    Slot { value, read_fault: s.slots[place].read_fault, write_fault: None },
                ),
                stores: s.stores.push((place, value)),
            };
            &&& s.slots[place].write_fault matches Some(code) ==> s.fault_in(script) == Some(code)
                && s.run(script) == s
            &&& s.slots[place].write_fault is None ==> s.fault_in(script) == t.fault_in(rest)
                && s.run(script) == t.run(rest)
        }),
{
    let script = seq![Access::Store(place, value)] + rest;
    assert(script.drop_first() =~= rest);
    same_faults(s, s.after(Access::Store(place, value)), rest);
}

/// After a script a place reads as the newest value that was stored to it, and
/// as before where nothing was.
pub proof fn places_read_as_stored(s: VcpuState, script: Seq<Access>, place: Place)
    ensures
        ({
            let t = s.run(script);
            let n = s.stores.len() as int;
            &&& n <= t.stores.len()
            &&& forall|i: int|
                #![trigger t.stores[i]]
                n <= i < t.stores.len() && t.stores[i].0 == place && (forall|j: int|
                    i < j < t.stores.len() ==> (#[trigger] t.stores[j]).0 != place)
                    ==> t.slots[place].value == t.stores[i].1
            &&& (forall|j: int| n <= j < t.stores.len() ==> (#[trigger] t.stores[j]).0 != place)
                ==> t.slots[place] == s.slots[place]
        }),
    decreases script.len(),
{
    if script.len() > 0 && s.fault(script[0]) is None {
        let u = s.after(script[0]);
        let t = s.run(script);
        let n = s.stores.len() as int;
        places_read_as_stored(u, script.drop_first(), place);
        run_extends_stores(u, script.drop_first());
        if let Access::Store(other, value) = script[0] {
            assert(t.stores[n] == u.stores[n]);
        }
    }
}

/// A script made of two parts is the first part and, unless an access of that
/// is refused, the second.
pub proof fn run_parts(s: VcpuState, first: Seq<Access>, second: Seq<Access>)
    ensures
        s.fault_in(first + second) == match s.fault_in(first) {
            Some(code) => Some(code),
            None => s.fault_in(second),
        },
        s.run(first + second) == match s.fault_in(first) {
            Some(_) => s.run(first),
            None => s.run(first).run(second),
        },
    decreases first.len(),
{
    if first.len() == 0 {
        assert(first + second =~= second);
    } else {
        let rest = first.drop_first();
        assert((first + second).drop_first() =~= rest + second);
        run_parts(s, rest, second);
        run_parts(s.after(first[0]), rest, second);
        same_faults(s, s.after(first[0]), rest);
    }
}

/// States in which the same accesses are refused agree on the first access of
/// a script that is.
pub proof fn same_faults(s: VcpuState, t: VcpuState, script: Seq<Access>)
    requires
        forall|place: Place|
            #![trigger t.slots[place]]
            t.slots[place].read_fault == s.slots[place].read_fault && t.slots[place].write_fault
                == s.slots[place].write_fault,
    ensures
        s.fault_in(script) == t.fault_in(script),
    decreases script.len(),
{
    if script.len() > 0 {
        same_faults(s, t, script.drop_first());
    }
}

/// A script never changes which accesses are refused.
pub proof fn run_keeps_faults(s: VcpuState, script: Seq<Access>, place: Place)
    ensures
        s.run(script).slots[place].read_fault == s.slots[place].read_fault,
        s.run(script).slots[place].write_fault == s.slots[place].write_fault,
    decreases script.len(),
{
    if script.len() > 0 && s.fault(script[0]) is None {
        run_keeps_faults(s.after(script[0]), script.drop_first(), place);
    }
}

/// Whether an access stores to a place.
pub open spec fn stores_to(access: Access, place: Place) -> bool {
    access matches Access::Store(other, _) && other == place
}

/// A script leaves every place alone that it does not store to.
pub proof fn run_keeps_others(s: VcpuState, script: Seq<Access>, place: Place)
    requires
        forall|i: int| 0 <= i < script.len() ==> !stores_to(#[trigger] script[i], place),
    ensures
        s.run(script).slots[place] == s.slots[place],
    decreases script.len(),
{
    if script.len() > 0 && s.fault(script[0]) is None {
        run_keeps_others(s.after(script[0]), script.drop_first(), place);
    }
}

/// A script keeps the record of the stores made before it.
pub proof fn run_extends_stores(s: VcpuState, script: Seq<Access>)
    ensures
        s.stores.is_prefix_of(s.run(script).stores),
    decreases script.len(),
{
    if script.len() > 0 && s.fault(script[0]) is None {
        run_extends_stores(s.after(script[0]), script.drop_first());
    }
}

/// Where the slot of a place is kept.
pub open spec fn slot_index(place: Place) -> int {
    match place {
        Place::Reg(X86Reg::RAX) => 0,
        Place::Reg(X86Reg::RCX) => 1,
        Place::Reg(X86Reg::RDX) => 2,
        Place::Reg(X86Reg::RBX) => 3,
        Place::Reg(X86Reg::RSP) => 4,
        Place::Reg(X86Reg::RBP) => 5,
        Place::Reg(X86Reg::RSI) => 6,
        Place::Reg(X86Reg::RDI) => 7,
        Place::Reg(X86Reg::R8) => 8,
        Place::Reg(X86Reg::R9) => 9,
        Place::Reg(X86Reg::R10) => 10,
        Place::Reg(X86Reg::R11) => 11,
        Place::Reg(X86Reg::R12) => 12,
        Place::Reg(X86Reg::R13) => 13,
        Place::Reg(X86Reg::R14) => 14,
        Place::Reg(X86Reg::R15) => 15,
        Place::Reg(X86Reg::CR0) => 16,
        Place::Reg(X86Reg::CR3) => 17,
        Place::Reg(X86Reg::CR4) => 18,
        Place::Vmcs(VmcsField::ExitQualification) => 19,
        Place::Vmcs(VmcsField::Cr0Shadow) => 20,
        Place::Vmcs(VmcsField::GuestIa32Efer) => 21,
        Place::Vmcs(VmcsField::VmentryControls) => 22,
    }
}

impl Place {
    /// Where the slot of this place is kept.
    fn index(self) -> (i: usize)
        ensures
            i == slot_index(self),
            i < PLACES,
    {
        match self {
            Place::Reg(reg) => match reg {
                X86Reg::RAX => 0,
                X86Reg::RCX => 1,
                X86Reg::RDX => 2,
                X86Reg::RBX => 3,
                X86Reg::RSP => 4,
                X86Reg::RBP => 5,
                X86Reg::RSI => 6,
                X86Reg::RDI => 7,
                X86Reg::R8 => 8,
                X86Reg::R9 => 9,
                X86Reg::R10 => 10,
                X86Reg::R11 => 11,
                X86Reg::R12 => 12,
                X86Reg::R13 => 13,
                X86Reg::R14 => 14,
                X86Reg::R15 => 15,
                X86Reg::CR0 => 16,
                X86Reg::CR3 => 17,
                X86Reg::CR4 => 18,
            },
            Place::Vmcs(field) => match field {
                VmcsField::ExitQualification => 19,
                VmcsField::Cr0Shadow => 20,
                VmcsField::GuestIa32Efer => 21,
                VmcsField::VmentryControls => 22,
            },
        }
    }
}

impl VmcsField {
    /// The encoding by which the processor names this field.
    pub fn encoding(self) -> (encoding: u32)
        ensures
            encoding == match self {
                VmcsField::ExitQualification => VMCS_RO_EXIT_QUALIFIC,
                VmcsField::Cr0Shadow => VMCS_CTRL_CR0_SHADOW,
                VmcsField::GuestIa32Efer => VMCS_GUEST_IA32_EFER,
                VmcsField::VmentryControls => VMCS_CTRL_VMENTRY_CONTROLS,
            },
    {
        match self {
            VmcsField::ExitQualification => VMCS_RO_EXIT_QUALIFIC,
            VmcsField::Cr0Shadow => VMCS_CTRL_CR0_SHADOW,
            VmcsField::GuestIa32Efer => VMCS_GUEST_IA32_EFER,
            VmcsField::VmentryControls => VMCS_CTRL_VMENTRY_CONTROLS,
        }
    }
}

/// A virtual CPU, stopped at an exit.
#[derive(Debug)]
pub struct VCPU {
    slots: [Slot; PLACES],
    stores: Vec<(Place, u64)>,
}

impl View for VCPU {
    type V = VcpuState;

    closed spec fn view(&self) -> VcpuState {
        VcpuState {
            slots: Map::total(|place: Place| self.slots@[slot_index(place)]),
            stores: self.stores@,
        }
    }
}

impl VCPU {
    /// A virtual CPU of which every place reads as zero, and none is refused.
    pub fn new() -> (vcpu: Self)
        ensures
            forall|place: Place| #[trigger] vcpu@.slots[place] == (Slot {
                value: 0,
                read_fault: None,
                write_fault: None,
            }),
            vcpu@.stores == Seq::<(Place, u64)>::empty(),
    {
        VCPU {
            slots: [Slot { value: 0, read_fault: None, write_fault: None };PLACES],
            stores: Vec::new(),
        }
    }

    /// The slot of a place.
    pub fn slot(&self, place: Place) -> (slot: Slot)
        ensures
            slot == self@.slots[place],
    {
        self.slots[place.index()]
    }

    /// Fills the slot of a place.
    pub fn load(&mut self, place: Place, slot: Slot)
        ensures
            final(self)@.slots == old(self)@.slots.insert(place, slot),
            final(self)@.stores == old(self)@.stores,
    {
        let i: usize = place.index();
        self.slots[i] = slot;
        assert(self@.slots =~= old(self)@.slots.insert(place, slot));
    }

    /// The stores made so far, oldest first.
    pub fn stores(&self) -> (stores: &Vec<(Place, u64)>)
        ensures
            stores@ == self@.stores,
    {
        &self.stores
    }

    /// Reads a place.
    fn read(&self, place: Place) -> (r: Result<u64, Error>)
        ensures
            r == match self@.fault(Access::Load(place)) {
                Some(code) => Err::<u64, Error>(Error::Hypervisor(code)),
                None => Ok(self@.slots[place].value),
            },
    {
        let slot = self.slot(place);
        match slot.read_fault {
            Some(code) => Err(Error::Hypervisor(code)),
            None => Ok(slot.value),
        }
    }

    /// Writes a place.
    fn write(&mut self, place: Place, value: u64) -> (r: Result<(), Error>)
        ensures
            match old(self)@.fault(Access::Store(place, value)) {
                Some(code) => r == Err::<(), Error>(Error::Hypervisor(code)) && final(self)@
                    == old(self)@,
                None => r == Ok::<(), Error>(()) && final(self)@ == old(self)@.after(
                    Access::Store(place, value),
                ),
            },
    {
        let slot = self.slot(place);
        match slot.write_fault {
            Some(code) => Err(Error::Hypervisor(code)),
            None => {
                self.load(place, Slot { value, ..slot });
                self.stores.push((place, value));
                assert(self@.slots =~= old(self)@.after(Access::Store(place, value)).slots);
                Ok(())
            },
        }
    }

    /// Reads a register.
    pub fn read_reg(&self, reg: X86Reg) -> (r: Result<u64, Error>)
        ensures
            r == match self@.fault(Access::Load(Place::Reg(reg))) {
                Some(code) => Err::<u64, Error>(Error::Hypervisor(code)),
                None => Ok(self@.reg(reg)),
            },
            self@.slots[Place::Reg(reg)].read_fault matches Some(code) ==> r == Err::<u64, Error>(
                Error::Hypervisor(code),
            ),
            self@.slots[Place::Reg(reg)].read_fault is None ==> r == Ok::<u64, Error>(
                self@.slots[Place::Reg(reg)].value,
            ),
    {
        self.read(Place::Reg(reg))
    }

    /// Writes a register.
    pub fn write_reg(&mut self, reg: X86Reg, value: u64) -> (r: Result<(), Error>)
        ensures
            match old(self)@.fault(Access::Store(Place::Reg(reg), value)) {
                Some(code) => r == Err::<(), Error>(Error::Hypervisor(code)) && final(self)@
                    == old(self)@,
                None => r == Ok::<(), Error>(()) && final(self)@ == old(self)@.after(
                    Access::Store(Place::Reg(reg), value),
                ),
            },
            old(self)@.slots[Place::Reg(reg)].write_fault matches Some(code) ==> r == Err::<(), Error>(
                Error::Hypervisor(code),
            ) && final(self)@ == old(self)@,
            old(self)@.slots[Place::Reg(reg)].write_fault is None ==> r == Ok::<(), Error>(())
                && final(self)@.stores == old(self)@.stores.push((Place::Reg(reg), value))
                && final(self)@.slots == old(self)@.slots.insert(
                Place::Reg(reg),
                Slot {
                    value,
                    read_fault: old(self)@.slots[Place::Reg(reg)].read_fault,
                    write_fault: None,
                },
            ),
    {
        self.write(Place::Reg(reg), value)
    }

    /// Reads a VMCS field.
    pub fn read_vmcs(&self, field: VmcsField) -> (r: Result<u64, Error>)
        ensures
            r == match self@.fault(Access::Load(Place::Vmcs(field))) {
                Some(code) => Err::<u64, Error>(Error::Hypervisor(code)),
                None => Ok(self@.vmcs(field)),
            },
            self@.slots[Place::Vmcs(field)].read_fault matches Some(code) ==> r == Err::<u64, Error>(
                Error::Hypervisor(code),
            ),
            self@.slots[Place::Vmcs(field)].read_fault is None ==> r == Ok::<u64, Error>(
                self@.slots[Place::Vmcs(field)].value,
            ),
    {
        self.read(Place::Vmcs(field))
    }

    /// Writes a VMCS field.
    pub fn write_vmcs(&mut self, field: VmcsField, value: u64) -> (r: Result<(), Error>)
        ensures
            match old(self)@.fault(Access::Store(Place::Vmcs(field), value)) {
                Some(code) => r == Err::<(), Error>(Error::Hypervisor(code)) && final(self)@
                    == old(self)@,
                None => r == Ok::<(), Error>(()) && final(self)@ == old(self)@.after(
                    Access::Store(Place::Vmcs(field), value),
                ),
            },
            old(self)@.slots[Place::Vmcs(field)].write_fault matches Some(code) ==> r == Err::<(), Error>(
                Error::Hypervisor(code),
            ) && final(self)@ == old(self)@,
            old(self)@.slots[Place::Vmcs(field)].write_fault is None ==> r == Ok::<(), Error>(())
                && final(self)@.stores == old(self)@.stores.push((Place::Vmcs(field), value))
                && final(self)@.slots == old(self)@.slots.insert(
                Place::Vmcs(field),
                Slot {
                    value,
                    read_fault: old(self)@.slots[Place::Vmcs(field)].read_fault,
                    write_fault: None,
                },
            ),
    {
        self.write(Place::Vmcs(field), value)
    }

    /// Writes the lowest sixteen bits of a register, and keeps the others.
    pub fn write_reg_16(&mut self, reg: X86Reg, value: u16) -> (r: Result<(), Error>)
        ensures
            ({
                let script = replace_low_16(old(self)@, reg, value);
                &&& final(self)@ == old(self)@.run(script)
                &&& r == match old(self)@.fault_in(script) {
                    Some(code) => Err::<(), Error>(Error::Hypervisor(code)),
                    None => Ok(()),
                }
            }),
            ({
                let slot = old(self)@.slots[Place::Reg(reg)];
                &&& slot.read_fault matches Some(code) ==> r == Err::<(), Error>(
                    Error::Hypervisor(code),
                ) && final(self)@ == old(self)@
                &&& slot.read_fault is None && slot.write_fault is Some ==> r == Err::<(), Error>(
                    Error::Hypervisor(slot.write_fault->Some_0),
                ) && final(self)@ == old(self)@
                &&& slot.read_fault is None && slot.write_fault is None ==> {
                    let word = final(self)@.slots[Place::Reg(reg)].value;
                    &&& r == Ok::<(), Error>(())
                    &&& word % 0x1_0000 == value
                    &&& word / 0x1_0000 == slot.value / 0x1_0000
                    &&& final(self)@.stores == old(self)@.stores.push((Place::Reg(reg), word))
                    &&& final(self)@.slots == old(self)@.slots.insert(
                        Place::Reg(reg),
                        Slot { value: word, ..slot },
                    )
                }
            }),
    {
        proof {
            reveal_with_fuel(VcpuState::run, 3);
            reveal_with_fuel(VcpuState::fault_in, 3);
        }
        let word = self.read_reg(reg)?;
        proof {
            bits::low_bits_replaced(word, 0, value);
        }
        self.write_reg(reg, bits::set_low_16(word, value))
    }

    /// Writes the lowest eight bits of a register, and keeps the others.
    pub fn write_reg_16_low(&mut self, reg: X86Reg, value: u8) -> (r: Result<(), Error>)
        ensures
            ({
                let script = replace_low_8(old(self)@, reg, value);
                &&& final(self)@ == old(self)@.run(script)
                &&& r == match old(self)@.fault_in(script) {
                    Some(code) => Err::<(), Error>(Error::Hypervisor(code)),
                    None => Ok(()),
                }
            }),
            ({
                let slot = old(self)@.slots[Place::Reg(reg)];
                &&& slot.read_fault matches Some(code) ==> r == Err::<(), Error>(
                    Error::Hypervisor(code),
                ) && final(self)@ == old(self)@
                &&& slot.read_fault is None && slot.write_fault is Some ==> r == Err::<(), Error>(
                    Error::Hypervisor(slot.write_fault->Some_0),
                ) && final(self)@ == old(self)@
                &&& slot.read_fault is None && slot.write_fault is None ==> {
                    let word = final(self)@.slots[Place::Reg(reg)].value;
                    &&& r == Ok::<(), Error>(())
                    &&& word % 0x100 == value
                    &&& word / 0x100 == slot.value / 0x100
                    &&& final(self)@.stores == old(self)@.stores.push((Place::Reg(reg), word))
                    &&& final(self)@.slots == old(self)@.slots.insert(
                        Place::Reg(reg),
                        Slot { value: word, ..slot },
                    )
                }
            }),
    {
        proof {
            reveal_with_fuel(VcpuState::run, 3);
            reveal_with_fuel(VcpuState::fault_in, 3);
        }
        let word = self.read_reg(reg)?;
        proof {
            bits::low_bits_replaced(word, value, 0);
        }
        self.write_reg(reg, bits::set_low_8(word, value))
    }
}

/// The accesses that replace the lowest sixteen bits of a register.
pub open spec fn replace_low_16(s: VcpuState, reg: X86Reg, value: u16) -> Seq<Access> {
    seq![
        Access::Load(Place::Reg(reg)),
        Access::Store(Place::Reg(reg), bits::with_low_16(s.reg(reg), value)),
    ]
}

/// The accesses that replace the lowest eight bits of a register.
pub open spec fn replace_low_8(s: VcpuState, reg: X86Reg, value: u8) -> Seq<Access> {
    seq![
        Access::Load(Place::Reg(reg)),
        Access::Store(Place::Reg(reg), bits::with_low_8(s.reg(reg), value)),
    ]
}

} // verus!
