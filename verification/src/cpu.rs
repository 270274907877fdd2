//! The processor: registers, flags, arithmetic unit and memory under one
//! owner, and the engine that fetches, decodes and executes instructions.

use vstd::pervasive::unreached;
use vstd::prelude::*;
use crate::alu::{ALUMode, ALU};
use crate::data::{Data, Diagnostic, Width};
use crate::event::{Action, Event, State};
use crate::fault::{fails_with, succeeds_with, Fault};
use crate::flags::{Flag, FLAGS};
use crate::instruction::{Instruction, MemOp, Operand, IS};
use crate::machine::{
    booted, lemma_advanced, lemma_fetch_keeps_wf, lemma_placed_keeps_wf, requested, Machine, Place,
};
use crate::memory::{laid, Address};
use crate::memory_unit::MemoryUnit;
use crate::registers::{GPRegister, Register, Registers};

verus! {

/// The processor.
#[allow(clippy::upper_case_acronyms)]
#[derive(Debug)]
pub struct CPU {
    alu: ALU,
    registers: Registers,
    flags: FLAGS,
    memory_unit: MemoryUnit,
    trace: Vec<Event>,
    state: State,
}

impl View for CPU {
    type V = Machine;

    closed spec fn view(&self) -> Machine {
        Machine {
            alu: self.alu,
            registers: self.registers,
            flags: self.flags,
            memory: self.memory_unit@,
            trace: self.trace@,
            state: self.state,
        }
    }
}

impl CPU {
    /// The processor's invariant; see [`Machine::wf`].
    pub open spec fn wf(&self) -> bool {
        self@.wf()
    }

    /// Builds a processor for a program: the data section's labels with
    /// their initial values, the uninitialized section's labels with their
    /// widths, and the instructions. The processor starts idle, with every
    /// register zero, every flag clear, the arithmetic unit off, an empty
    /// trace, and the sections laid out in memory as [`laid`] says. Fails on
    /// a program longer than 65535 instructions, on a label declared twice,
    /// and on declarations that need more bytes than the memory has.
    pub fn new(
        data_section: Vec<(String, Data)>,
        bss_section: Vec<(String, Width)>,
        code_section: Vec<Instruction>,
    ) -> (cpu: Result<CPU, Fault>)
        ensures
            match cpu {
                Ok(cpu) => cpu.wf() && succeeds_with(
                    booted(data_section@, bss_section@, code_section@),
                    cpu@,
                ) && laid(
                    cpu@.memory,
                    data_section@,
                    bss_section@,
                    data_section@.len(),
                    bss_section@.len(),
                ),
                Err(fault) => fails_with(booted(data_section@, bss_section@, code_section@), fault),
            },
    {
        if code_section.len() > 0xFFFF {
            return Err(Fault::ProgramTooLong);
        }
        match MemoryUnit::new(data_section, bss_section, code_section) {
            Err(fault) => Err(fault),
            Ok(memory_unit) => {
                Ok(
                    CPU {
                        alu: ALU::new(),
                        registers: Registers::new(),
                        flags: FLAGS::new(),
                        memory_unit,
                        trace: Vec::new(),
                        state: State::Idle,
                    },
                )
            },
        }
    }

    /// The register file.
    pub fn registers(&self) -> (registers: &Registers)
        ensures
            *registers == self@.registers,
    {
        &self.registers
    }

    /// The flags.
    pub fn flags(&self) -> (flags: &FLAGS)
        ensures
            *flags == self@.flags,
    {
        &self.flags
    }

    /// The arithmetic unit.
    pub fn alu(&self) -> (alu: &ALU)
        ensures
            *alu == self@.alu,
    {
        &self.alu
    }

    /// The memory unit.
    pub fn memory_unit(&self) -> (memory_unit: &MemoryUnit)
        ensures
            memory_unit@ == self@.memory,
            self.wf() ==> memory_unit.wf(),
    {
        &self.memory_unit
    }

    /// Everything recorded so far, oldest first.
    pub fn trace(&self) -> (trace: &Vec<Event>)
        ensures
            trace@ == self@.trace,
    {
        &self.trace
    }

    /// The engine's state.
    pub fn state(&self) -> (state: State)
        ensures
            state == self@.state,
    {
        self.state
    }

    /// Resolves a destination operand to the place it names.
    pub fn resolve_destination(&self, operand: &Operand) -> (result: Result<Place, Fault>)
        requires
            self.wf(),
        ensures
            result == self@.destination(*operand),
            result is Ok ==> self@.has(result->Ok_0),
    {
        match operand {
            Operand::Register(register) => Ok(Place::Register(*register)),
            Operand::Memory(MemOp::Address(label)) => match self.memory_unit.find(label) {
                Some(index) => Ok(Place::Cell(index)),
                None => Err(Fault::UndeclaredMemoryAccess { label: label.clone() }),
            },
            Operand::Memory(MemOp::Label(label)) => Err(
                Fault::LabelAsAddress { label: label.clone() },
            ),
            Operand::Immediate(_) => Err(Fault::IllegalAddressingMode),
        }
    }

    /// Resolves a source operand of an instruction with the given opcode to
    /// the value it stands for. A label reference is a value only in a move;
    /// in arithmetic it is refused.
    pub fn resolve_source(&self, opcode: IS, operand: &Operand) -> (result: Result<Data, Fault>)
        requires
            self.wf(),
        ensures
            result == self@.source(opcode, *operand),
    {
        match operand {
            Operand::Register(register) => Ok(
                Data::new(register.width(), self.registers.get(*register)),
            ),
            Operand::Memory(MemOp::Address(label)) => self.memory_unit.load(label),
            Operand::Memory(MemOp::Label(label)) => match opcode {
                IS::Mov => self.memory_unit.address_of(label),
                _ => Err(Fault::LabelAsAddress { label: label.clone() }),
            },
            Operand::Immediate(data) => Ok(*data),
        }
    }

    /// The width of a place.
    fn width_of(&self, place: Place) -> (width: Width)
        requires
            self@.has(place),
        ensures
            width == self@.width_of(place),
    {
        match place {
            Place::Register(register) => register.width(),
            Place::Cell(index) => self.memory_unit.symbol(index).width,
        }
    }

    /// The number that a place holds, as an operand of arithmetic.
    fn current(&self, place: Place) -> (result: Result<u32, Fault>)
        requires
            self.wf(),
            self@.has(place),
        ensures
            result == self@.current(place),
    {
        match place {
            Place::Register(register) => Ok(self.registers.get(register)),
            Place::Cell(index) => match self.memory_unit.load_at(index) {
                Ok(data) => Ok(data.get_value()),
                Err(fault) => Err(fault),
            },
        }
    }

    /// Records a remark, if there is one.
    fn note(&mut self, note: Option<Diagnostic>)
        ensures
            final(self)@ == old(self)@.noted(note),
    {
        match note {
            Some(diagnostic) => {
                self.trace.push(Event::Note(diagnostic));
            },
            None => {},
        }
    }

    /// Writes `data` to a register and records the write.
    fn place_in_register(&mut self, register: Register, data: Data)
        ensures
            final(self)@ == old(self)@.placed(Place::Register(register), data),
    {
        proof {
            reveal(Machine::placed);
        }
        let _ = self.registers.set(register, data);
        let value = self.registers.get(register);
        self.trace.push(Event::RegisterSet { register, value });
    }

    /// Writes `data` to the cell of a symbol-table entry and records the
    /// write.
    fn place_in_cell(&mut self, index: usize, data: Data)
        requires
            old(self).wf(),
            index < old(self)@.memory.symbols.len(),
        ensures
            final(self)@ == old(self)@.placed(Place::Cell(index), data),
    {
        proof {
            reveal(Machine::placed);
        }
        let label = self.memory_unit.symbol(index).label.clone();
        let stored = self.memory_unit.store_at(index, data.get_value());
        self.trace.push(Event::MemorySet { label, value: stored.get_value() });
    }

    /// Writes `data` to `place` and records the write.
    fn place(&mut self, place: Place, data: Data)
        requires
            old(self).wf(),
            old(self)@.has(place),
        ensures
            final(self).wf(),
            final(self)@ == old(self)@.placed(place, data),
    {
        proof {
            lemma_placed_keeps_wf(self@, place, data);
        }
        match place {
            Place::Register(register) => self.place_in_register(register, data),
            Place::Cell(index) => self.place_in_cell(index, data),
        }
    }

    /// Executes a two-operand instruction: a move, an addition or a
    /// subtraction. Operand kinds, labels and readability are all checked
    /// before the first write, so a fault leaves the processor exactly as it
    /// was.
    fn transfer(&mut self, opcode: IS, destination: &Operand, source: &Operand) -> (result: Result<
        (),
        Fault,
    >)
        requires
            old(self).wf(),
            opcode == IS::Mov || opcode == IS::Add || opcode == IS::Sub,
        ensures
            final(self).wf(),
            match result {
                Ok(()) => succeeds_with(
                    old(self)@.transferred(opcode, *destination, *source),
                    final(self)@,
                ),
                Err(fault) => fails_with(
                    old(self)@.transferred(opcode, *destination, *source),
                    fault,
                ) && final(self)@ == old(self)@,
            },
    {
        let both_memory = match (destination, source) {
            (Operand::Memory(_), Operand::Memory(_)) => true,
            _ => false,
        };
        let immediate_target = match destination {
            Operand::Immediate(_) => true,
            _ => false,
        };
        if immediate_target || both_memory {
            return Err(Fault::IllegalAddressingMode);
        }
        let place = match self.resolve_destination(destination) {
            Ok(place) => place,
            Err(fault) => {
                return Err(fault);
            },
        };
        let data = match self.resolve_source(opcode, source) {
            Ok(data) => data,
            Err(fault) => {
                return Err(fault);
            },
        };
        let target = self.width_of(place);
        match opcode {
            IS::Mov => {
                let origin: Option<Register> = match source {
                    Operand::Register(register) => Some(*register),
                    _ => None,
                };
                self.deliver(place, target, data, origin);
            },
            _ => {
                let current = match self.current(place) {
                    Ok(current) => current,
                    Err(fault) => {
                        return Err(fault);
                    },
                };
                let mode = match opcode {
                    IS::Add => ALUMode::Add,
                    _ => ALUMode::Sub,
                };
                self.compute(mode, place, target, current, data.get_value());
            },
        }
        Ok(())
    }

    /// Carries out a move whose operands are resolved.
    fn deliver(&mut self, place: Place, target: Width, data: Data, origin: Option<Register>)
        requires
            old(self).wf(),
            old(self)@.has(place),
            target == old(self)@.width_of(place),
        ensures
            final(self).wf(),
            final(self)@ == old(self)@.moved(place, data, origin),
    {
        match (place, origin) {
            (Place::Register(to), Some(from)) => {
                if to == from {
                    self.note(Some(Diagnostic::SelfMove));
                    return ;
                }
                if to.family() == from.family() {
                    self.note(GPRegister::check(target, data));
                    self.place(place, data);
                    return ;
                }
            },
            _ => {},
        }
        let (converted, note) = data.convert(target);
        self.note(note);
        self.place(place, converted);
    }

    /// Sends an operand pair through the arithmetic unit and writes the
    /// result back.
    fn compute(&mut self, mode: ALUMode, place: Place, target: Width, current: u32, operand: u32)
        requires
            old(self).wf(),
            old(self)@.has(place),
            target == old(self)@.width_of(place),
            mode == ALUMode::Add || mode == ALUMode::Sub,
        ensures
            final(self).wf(),
            final(self)@ == old(self)@.computed(mode, place, current, operand),
    {
        self.alu.set_mode(mode);
        self.alu.operand_fetch(current, operand);
        let (result, overflow) = match self.alu.execute() {
            Ok(outcome) => outcome,
            Err(_) => unreached(),
        };
        self.alu.set_mode(ALUMode::Off);
        self.place(place, Data::new(target, result));
        self.flags.set_value(Flag::OF, overflow);
        self.trace.push(Event::FlagSet { flag: Flag::OF, bit: overflow });
    }

    /// Decodes the system call that the registers ask for: `AX` holds the
    /// number, `BX` the stream or the exit status, `CX` the buffer's offset,
    /// `DX` its length. The call itself is outside work: the request is
    /// returned for the caller to carry out, and the processor does not
    /// change. Every number but 1, 2 and 60 is a recoverable fault that
    /// carries the number.
    pub fn syscall(&self) -> (result: Result<Action, Fault>)
        ensures
            result == requested(self@.registers),
    {
        let number = self.registers.get(Register::AX) as u16;
        let fd = self.registers.get(Register::BX) as u16;
        let offset = self.registers.get(Register::CX);
        let length = self.registers.get(Register::DX);
        let buffer = Address { offset: offset as u16, length: length as u16 }.encode();
        if number == 1 {
            Ok(Action::Read { fd, buffer })
        } else if number == 2 {
            Ok(Action::Write { fd, buffer })
        } else if number == 60 {
            Ok(Action::Exit { status: fd })
        } else {
            Err(Fault::UnknownSyscall { number })
        }
    }

    /// Executes one instruction against the processor.
    ///
    /// The operand count is checked against the opcode, then the pair of
    /// operand kinds, then each operand is resolved; only then is anything
    /// written. A fault therefore leaves the processor exactly as it was.
    pub fn decode(&mut self, instruction: Instruction) -> (result: Result<Action, Fault>)
        requires
            old(self).wf(),
        ensures
            final(self).wf(),
            match result {
                Ok(action) => succeeds_with(
                    old(self)@.executed(instruction.opcode, instruction.operands@),
                    (final(self)@, action),
                ),
                Err(fault) => fails_with(
                    old(self)@.executed(instruction.opcode, instruction.operands@),
                    fault,
                ) && final(self)@ == old(self)@,
            },
    {
        match instruction.verify_operands() {
            Ok(()) => {},
            Err(fault) => {
                return Err(fault);
            },
        }
        match instruction.opcode {
            IS::Syscall => self.syscall(),
            IS::Mov | IS::Add | IS::Sub => {
                match self.transfer(
                    instruction.opcode,
                    &instruction.operands[0],
                    &instruction.operands[1],
                ) {
                    Ok(()) => Ok(Action::Proceed),
                    Err(fault) => Err(fault),
                }
            },
            _ => Err(Fault::OpcodeNotImplemented { opcode: instruction.opcode }),
        }
    }

    /// Fetches the instruction at the program counter, advances the counter
    /// by one, and executes the instruction.
    pub fn fetch(&mut self) -> (result: Result<Action, Fault>)
        requires
            old(self).wf(),
        ensures
            final(self).wf(),
            (final(self)@, result) == old(self)@.fetched(),
    {
        let pc = self.registers.instruction_pointer.get_value() as usize;
        let halted = match self.state {
            State::Halted => true,
            _ => false,
        };
        if halted || pc >= self.memory_unit.code_len() {
            self.state = State::Halted;
            return Ok(Action::Halt);
        }
        proof {
            lemma_advanced(self@);
            lemma_fetch_keeps_wf(self@);
        }
        let instruction = self.memory_unit.instruction(pc);
        let _ = self.registers.instruction_pointer.set_value(Data::Word((pc + 1) as u16));
        let result = self.decode(instruction);
        let resting = if self.registers.instruction_pointer.get_value() as usize
            >= self.memory_unit.code_len() {
            State::Halted
        } else {
            State::Fetching
        };
        self.state = match &result {
            Ok(Action::Exit { .. }) => State::Halted,
            Ok(Action::Read { .. }) | Ok(Action::Write { .. }) => State::Decoding(IS::Syscall),
            Ok(_) => resting,
            Err(fault) => if fault.recoverable() {
                resting
            } else {
                State::Halted
            },
        };
        result
    }

    /// Runs the program from the program counter on: fetch after fetch,
    /// until the program ends, an instruction asks for outside work or
    /// exits, or a fault stops it. Returns what the last fetch reported.
    pub fn run(&mut self) -> (result: Result<Action, Fault>)
        requires
            old(self).wf(),
        ensures
            final(self).wf(),
            (final(self)@, result) == old(self)@.ran(),
    {
        loop
            invariant
                self.wf(),
                self@.ran() == old(self)@.ran(),
            decreases self@.remaining(),
        {
            proof {
                lemma_fetch_keeps_wf(self@);
            }
            let result = self.fetch();
            match result {
                Ok(Action::Proceed) => {},
                _ => {
                    return result;
                },
            }
        }
    }

    /// Writes bytes that came from outside to the range that `buffer`
    /// describes, as a read system call asks, and records the write. The
    /// range takes the bytes cut or zero-filled to its length, and every
    /// cell that lies wholly in it counts as written. Fails, changing
    /// nothing, when the range reaches beyond the memory's capacity.
    pub fn store_input(&mut self, buffer: Data, bytes: Vec<u8>) -> (result: Result<(), Fault>)
        requires
            old(self).wf(),
        ensures
            final(self).wf(),
            match result {
                Ok(()) => succeeds_with(old(self)@.filled(buffer, bytes@), final(self)@),
                Err(fault) => fails_with(old(self)@.filled(buffer, bytes@), fault) && final(self)@
                    == old(self)@,
            },
    {
        match self.memory_unit.write_data(buffer, bytes) {
            Ok(()) => {
                self.trace.push(Event::InputStored { buffer });
                Ok(())
            },
            Err(fault) => Err(fault),
        }
    }

    /// Reads the bytes of the range that `buffer` describes, as a write
    /// system call asks.
    pub fn load_output(&self, buffer: Data) -> (result: Result<Vec<u8>, Fault>)
        requires
            self.wf(),
        ensures
            match result {
                Ok(bytes) => succeeds_with(
                    self@.memory.read(Address::unpacked(buffer.value())),
                    bytes@,
                ),
                Err(fault) => fails_with(
                    self@.memory.read(Address::unpacked(buffer.value())),
                    fault,
                ),
            },
    {
        self.memory_unit.read_data(buffer)
    }
}

} // verus!
