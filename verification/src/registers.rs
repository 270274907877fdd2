//! The register file: four general-purpose register families, each one bank
//! of four byte lanes seen through a 16-bit and a 32-bit name, and three
//! 16-bit special registers.

use vstd::prelude::*;
use crate::data::{byte_at, compose, conversion_note, Data, Diagnostic, Width};

verus! {

/// The names by which instructions address the general-purpose registers.
/// `AX` is the low half of `EAX`, and so on: the two names share storage.
#[derive(Clone, Copy, Debug, PartialEq, Eq, Structural)]
pub enum Register {
    AX,
    BX,
    CX,
    DX,
    EAX,
    EBX,
    ECX,
    EDX,
}

/// The four banks of storage behind the eight register names.
#[derive(Clone, Copy, Debug, PartialEq, Eq, Structural)]
pub enum Family {
    Accumulator,
    Base,
    Counter,
    Data,
}

impl Register {
    /// The bank that the name reads and writes.
    pub open spec fn spec_family(&self) -> Family {
        match self {
            Register::AX | Register::EAX => Family::Accumulator,
            Register::BX | Register::EBX => Family::Base,
            Register::CX | Register::ECX => Family::Counter,
            Register::DX | Register::EDX => Family::Data,
        }
    }

    /// How much of the bank the name covers: a word or a double word.
    pub open spec fn spec_width(&self) -> Width {
        match self {
            Register::AX | Register::BX | Register::CX | Register::DX => Width::Word,
            Register::EAX | Register::EBX | Register::ECX | Register::EDX => Width::Dword,
        }
    }

    /// The 16-bit name of the same bank.
    pub open spec fn narrow(self) -> Register {
        match self.spec_family() {
            Family::Accumulator => Register::AX,
            Family::Base => Register::BX,
            Family::Counter => Register::CX,
            Family::Data => Register::DX,
        }
    }

    /// The bank that the name reads and writes.
    #[verifier::when_used_as_spec(spec_family)]
    pub fn family(&self) -> (family: Family)
        ensures
            family == self.spec_family(),
    {
        match self {
            Register::AX | Register::EAX => Family::Accumulator,
            Register::BX | Register::EBX => Family::Base,
            Register::CX | Register::ECX => Family::Counter,
            Register::DX | Register::EDX => Family::Data,
        }
    }

    /// How much of the bank the name covers.
    #[verifier::when_used_as_spec(spec_width)]
    pub fn width(&self) -> (width: Width)
        ensures
            width == self.spec_width(),
    {
        match self {
            Register::AX | Register::BX | Register::CX | Register::DX => Width::Word,
            Register::EAX | Register::EBX | Register::ECX | Register::EDX => Width::Dword,
        }
    }
}

/// One bank of general-purpose storage: four byte lanes, least significant
/// first. The 16-bit view is the first two lanes, the 32-bit view all four.
/// Every combination of lane values is a valid bank.
#[derive(Clone, Copy, Debug, PartialEq, Eq, Structural)]
pub struct GPRegister {
    pub low: u8,
    pub high: u8,
    pub ext_low: u8,
    pub ext_high: u8,
}

impl GPRegister {
    /// The number seen through a view of the given width.
    pub open spec fn value(self, view: Width) -> u32 {
        match view {
            Width::Byte => self.low as u32,
            Width::Word => compose(self.low, self.high, 0, 0),
            Width::Dword => compose(self.low, self.high, self.ext_low, self.ext_high),
        }
    }

    /// How many lanes a write of `data` through `view` replaces: as many as
    /// the narrower of the two has bytes.
    pub open spec fn lanes_written(view: Width, data: Data) -> nat {
        if data.spec_width().bytes() < view.bytes() {
            data.spec_width().bytes()
        } else {
            view.bytes()
        }
    }

    /// The bank after `data` is written through `view`: the low lanes take
    /// the low bytes of `data`, the lanes above them stay as they were.
    pub open spec fn stored(self, view: Width, data: Data) -> GPRegister {
        let n = Self::lanes_written(view, data);
        GPRegister {
            low: byte_at(data.value(), 0),
            high: if n >= 2 { byte_at(data.value(), 1) } else { self.high },
            ext_low: if n >= 4 { byte_at(data.value(), 2) } else { self.ext_low },
            ext_high: if n >= 4 { byte_at(data.value(), 3) } else { self.ext_high },
        }
    }

    /// The remark owed for a write of `data` through `view`: a value wider
    /// than the view is cut down and reported, anything else is silent.
    pub open spec fn mismatch(view: Width, data: Data) -> Option<Diagnostic> {
        if data.spec_width().bytes() > view.bytes() {
            conversion_note(data.spec_width(), view, data.value())
        } else {
            None
        }
    }

    /// The bank with every lane zero.
    pub open spec fn zeroed() -> GPRegister {
        GPRegister { low: 0, high: 0, ext_low: 0, ext_high: 0 }
    }

    /// Computes the remark owed for a write of `value` through `view`.
    pub fn check(view: Width, value: Data) -> (note: Option<Diagnostic>)
        ensures
            note == Self::mismatch(view, value),
    {
        if value.width().byte_count() > view.byte_count() {
            value.convert(view).1
        } else {
            None
        }
    }

    /// A bank with every lane zero.
    pub fn new() -> (bank: GPRegister)
        ensures
            bank == GPRegister::zeroed(),
    {
        GPRegister { low: 0, high: 0, ext_low: 0, ext_high: 0 }
    }

    /// Reads the bank through a view of the given width.
    pub fn get_value(&self, view: Width) -> (value: u32)
        ensures
            value == self.value(view),
    {
        match view {
            Width::Byte => self.low as u32,
            Width::Word => self.low as u32 + 0x100 * (self.high as u32),
            Width::Dword => self.low as u32 + 0x100 * (self.high as u32) + 0x1_0000 * (
            self.ext_low as u32) + 0x100_0000 * (self.ext_high as u32),
        }
    }

    /// Writes `value` through a view of the given width. A byte replaces the
    /// lowest lane, a word the low two lanes, a double word all four; a value
    /// wider than the view is cut to the view and reported. Lanes that the
    /// write does not reach keep their contents.
    pub fn set_value(&mut self, view: Width, value: Data) -> (note: Option<Diagnostic>)
        ensures
            *final(self) == old(self).stored(view, value),
            note == Self::mismatch(view, value),
    {
        let number = value.get_value();
        let source = value.width();
        let lanes: u16 = if source.byte_count() < view.byte_count() {
            source.byte_count()
        } else {
            view.byte_count()
        };
        self.low = (number % 0x100) as u8;
        if lanes >= 2 {
            self.high = ((number / 0x100) % 0x100) as u8;
        }
        if lanes >= 4 {
            self.ext_low = ((number / 0x1_0000) % 0x100) as u8;
            self.ext_high = ((number / 0x100_0000) % 0x100) as u8;
        }
        Self::check(view, value)
    }
}

/// A 16-bit special register: two byte lanes, least significant first.
#[derive(Clone, Copy, Debug, PartialEq, Eq, Structural)]
pub struct SPRegister {
    pub low: u8,
    pub high: u8,
}

impl SPRegister {
    /// The 16-bit number held, zero-extended.
    pub open spec fn value(self) -> u32 {
        compose(self.low, self.high, 0, 0)
    }

    /// The register after `data` is written: a byte replaces the low lane,
    /// anything wider both lanes, with the low 16 bits of the value.
    pub open spec fn stored(self, data: Data) -> SPRegister {
        SPRegister {
            low: byte_at(data.value(), 0),
            high: if data.spec_width().bytes() >= 2 { byte_at(data.value(), 1) } else { self.high },
        }
    }

    /// The register holding zero.
    pub open spec fn zeroed() -> SPRegister {
        SPRegister { low: 0, high: 0 }
    }

    /// A register holding zero.
    pub fn new() -> (register: SPRegister)
        ensures
            register == SPRegister::zeroed(),
    {
        SPRegister { low: 0, high: 0 }
    }

    /// Reads the register.
    pub fn get_value(&self) -> (value: u32)
        ensures
            value == self.value(),
            value <= 0xFFFF,
    {
        self.low as u32 + 0x100 * (self.high as u32)
    }

    /// Writes `value`: a byte replaces the low lane and leaves the high lane,
    /// a word replaces both, a double word is cut to its low 16 bits and
    /// reported.
    pub fn set_value(&mut self, value: Data) -> (note: Option<Diagnostic>)
        ensures
            *final(self) == old(self).stored(value),
            note == GPRegister::mismatch(Width::Word, value),
    {
        let number = value.get_value();
        self.low = (number % 0x100) as u8;
        match value {
            Data::Byte(_) => {},
            _ => {
                self.high = ((number / 0x100) % 0x100) as u8;
            },
        }
        GPRegister::check(Width::Word, value)
    }
}

/// The register file.
#[derive(Clone, Copy, Debug, PartialEq, Eq, Structural)]
pub struct Registers {
    pub accumulator: GPRegister,
    pub base: GPRegister,
    pub counter: GPRegister,
    pub data: GPRegister,
    pub stack_pointer: SPRegister,
    pub base_pointer: SPRegister,
    pub instruction_pointer: SPRegister,
}

impl Registers {
    /// The bank behind a register name.
    pub open spec fn bank(self, register: Register) -> GPRegister {
        match register.spec_family() {
            Family::Accumulator => self.accumulator,
            Family::Base => self.base,
            Family::Counter => self.counter,
            Family::Data => self.data,
        }
    }

    /// The register file with the bank behind `register` replaced.
    pub open spec fn with_bank(self, register: Register, bank: GPRegister) -> Registers {
        match register.spec_family() {
            Family::Accumulator => Registers { accumulator: bank, ..self },
            Family::Base => Registers { base: bank, ..self },
            Family::Counter => Registers { counter: bank, ..self },
            Family::Data => Registers { data: bank, ..self },
        }
    }

    /// The number that `register` holds: its bank seen at the name's width.
    pub open spec fn read(self, register: Register) -> u32 {
        self.bank(register).value(register.spec_width())
    }

    /// The register file after `data` is written to `register`.
    pub open spec fn write(self, register: Register, data: Data) -> Registers {
        self.with_bank(register, self.bank(register).stored(register.spec_width(), data))
    }

    /// The program counter.
    pub open spec fn pc(self) -> nat {
        self.instruction_pointer.value() as nat
    }

    /// The register file with every lane zero.
    pub open spec fn zeroed() -> Registers {
        Registers {
            accumulator: GPRegister::zeroed(),
            base: GPRegister::zeroed(),
            counter: GPRegister::zeroed(),
            data: GPRegister::zeroed(),
            stack_pointer: SPRegister::zeroed(),
            base_pointer: SPRegister::zeroed(),
            instruction_pointer: SPRegister::zeroed(),
        }
    }

    /// A register file with every lane zero: every register reads zero.
    pub fn new() -> (registers: Registers)
        ensures
            registers == Registers::zeroed(),
            forall|register: Register| registers.read(register) == 0,
            registers.pc() == 0,
    {
        Registers {
            accumulator: GPRegister::new(),
            base: GPRegister::new(),
            counter: GPRegister::new(),
            data: GPRegister::new(),
            stack_pointer: SPRegister::new(),
            base_pointer: SPRegister::new(),
            instruction_pointer: SPRegister::new(),
        }
    }

    /// Hands out the bank behind a register name for reading and writing.
    /// Both names of a family lead to the same bank; whatever the caller
    /// leaves in it is what the register file then holds, and no other bank
    /// or special register changes.
    pub fn get_register(&mut self, register: Register) -> (bank: &mut GPRegister)
        ensures
            *bank == old(self).bank(register),
            *final(self) == old(self).with_bank(register, *final(bank)),
    {
        match register {
            Register::AX | Register::EAX => &mut self.accumulator,
            Register::BX | Register::EBX => &mut self.base,
            Register::CX | Register::ECX => &mut self.counter,
            Register::DX | Register::EDX => &mut self.data,
        }
    }

    /// Reads a register: 16 bits for the short names, 32 for the long.
    pub fn get(&self, register: Register) -> (value: u32)
        ensures
            value == self.read(register),
    {
        let view = register.width();
        match register {
            Register::AX | Register::EAX => self.accumulator.get_value(view),
            Register::BX | Register::EBX => self.base.get_value(view),
            Register::CX | Register::ECX => self.counter.get_value(view),
            Register::DX | Register::EDX => self.data.get_value(view),
        }
    }

    /// Writes a register through its name's width. Lanes that the write does
    /// not reach, the other banks and the special registers stay as they
    /// were; a double word sent to a 16-bit name is cut to 16 bits and
    /// reported.
    pub fn set(&mut self, register: Register, value: Data) -> (note: Option<Diagnostic>)
        ensures
            *final(self) == old(self).write(register, value),
            note == GPRegister::mismatch(register.spec_width(), value),
    {
        let view = register.width();
        let bank = self.get_register(register);
        bank.set_value(view, value)
    }
}

} // verus!
