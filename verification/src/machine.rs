//! The model of the processor: what a machine is, and what an instruction,
//! a fetch and a run make of it.

use vstd::prelude::*;
use crate::alu::{wrapping_difference, wrapping_sum, ALUMode, ALU};
use crate::data::{conversion_note, Data, Diagnostic, Width};
use crate::event::{Action, Event, State};
use crate::fault::Fault;
use crate::flags::{Flag, FLAGS};
use crate::instruction::{arity_check, Instruction, MemOp, Operand, IS};
use crate::memory::{lemma_store_then_load, loaded, Address, Memory};
use crate::registers::{GPRegister, Register, Registers};

verus! {

/// Where a result goes: a register, or the cell of a symbol-table entry.
#[derive(Clone, Copy, Debug, PartialEq, Eq, Structural)]
pub enum Place {
    Register(Register),
    Cell(usize),
}

/// The mathematical content of a processor.
pub struct Machine {
    pub alu: ALU,
    pub registers: Registers,
    pub flags: FLAGS,
    pub memory: Memory,
    pub trace: Seq<Event>,
    pub state: State,
}

/// The system call that the registers ask for: `AX` holds the call's
/// number, `BX` the stream or the exit status, `CX` the buffer's offset and
/// `DX` its length. The numbers 1, 2 and 60 name a call; every other number
/// is refused, and the fault carries it.
pub open spec fn requested(registers: Registers) -> Result<Action, Fault> {
    let number = registers.read(Register::AX) as u16;
    let fd = registers.read(Register::BX) as u16;
    let buffer = Data::Dword(
        Address {
            offset: registers.read(Register::CX) as u16,
            length: registers.read(Register::DX) as u16,
        }.packed(),
    );
    if number == 1 {
        Ok(Action::Read { fd, buffer })
    } else if number == 2 {
        Ok(Action::Write { fd, buffer })
    } else if number == 60 {
        Ok(Action::Exit { status: fd })
    } else {
        Err(Fault::UnknownSyscall { number })
    }
}

impl Machine {
    /// The invariant of a processor: its memory is well formed, the program
    /// is no longer than the program counter can count, and the program
    /// counter is within the program or just behind it.
    pub open spec fn wf(self) -> bool {
        &&& self.memory.wf()
        &&& self.memory.code.len() <= 0xFFFF
        &&& self.registers.pc() <= self.memory.code.len()
    }

    /// Whether a place exists in this machine.
    pub open spec fn has(self, place: Place) -> bool {
        match place {
            Place::Register(_) => true,
            Place::Cell(index) => index < self.memory.symbols.len(),
        }
    }

    /// The place that a destination operand names. A destination is a
    /// register or a declared memory location; a label reference and an
    /// immediate are refused.
    pub open spec fn destination(self, operand: Operand) -> Result<Place, Fault> {
        match operand {
            Operand::Register(register) => Ok(Place::Register(register)),
            Operand::Memory(MemOp::Address(label)) => match self.memory.position(label@) {
                Some(index) => Ok(Place::Cell(index as usize)),
                None => Err(Fault::UndeclaredMemoryAccess { label }),
            },
            Operand::Memory(MemOp::Label(label)) => Err(Fault::LabelAsAddress { label }),
            Operand::Immediate(_) => Err(Fault::IllegalAddressingMode),
        }
    }

    /// The value that a source operand stands for in an instruction with the
    /// given opcode, at its own width: a register's content, a cell's
    /// content, or the literal itself. A label reference stands for the
    /// label's descriptor in a move; arithmetic requires a location and
    /// refuses it.
    pub open spec fn source(self, opcode: IS, operand: Operand) -> Result<Data, Fault> {
        match operand {
            Operand::Register(register) => Ok(
                Data::fitted(register.spec_width(), self.registers.read(register)),
            ),
            Operand::Memory(MemOp::Address(label)) => self.memory.load(label),
            Operand::Memory(MemOp::Label(label)) => if opcode == IS::Mov {
                self.memory.address_of(label)
            } else {
                Err(Fault::LabelAsAddress { label })
            },
            Operand::Immediate(data) => Ok(data),
        }
    }

    /// The width of a place.
    pub open spec fn width_of(self, place: Place) -> Width {
        match place {
            Place::Register(register) => register.spec_width(),
            Place::Cell(index) => self.memory.symbols[index as int].width,
        }
    }

    /// The number that a place holds, as an operand of arithmetic. A cell
    /// that may not be read has none.
    pub open spec fn current(self, place: Place) -> Result<u32, Fault> {
        match place {
            Place::Register(register) => Ok(self.registers.read(register)),
            Place::Cell(index) => match self.memory.load_at(index as int) {
                Ok(data) => Ok(data.value()),
                Err(fault) => Err(fault),
            },
        }
    }

    /// The machine with one more remark in its trace, if there is one.
    pub open spec fn noted(self, note: Option<Diagnostic>) -> Machine {
        match note {
            Some(diagnostic) => Machine { trace: self.trace.push(Event::Note(diagnostic)), ..self },
            None => self,
        }
    }

    /// The machine after `data` is written to `place`, the write recorded in
    /// the trace. A register takes `data` through its name's width; a cell
    /// takes the number fitted to the cell's width.
    #[verifier::opaque]
    pub open spec fn placed(self, place: Place, data: Data) -> Machine {
        match place {
            Place::Register(register) => {
                let registers = self.registers.write(register, data);
                Machine {
                    registers,
                    trace: self.trace.push(
                        Event::RegisterSet { register, value: registers.read(register) },
                    ),
                    ..self
                }
            },
            Place::Cell(index) => {
                let symbol = self.memory.symbols[index as int];
                Machine {
                    memory: self.memory.stored_at(index as int, data.value()),
                    trace: self.trace.push(
                        Event::MemorySet {
                            label: symbol.label,
                            value: Data::fitted(symbol.width, data.value()).value(),
                        },
                    ),
                    ..self
                }
            },
        }
    }

    /// The machine after a move of `data` to `place`. `origin` is the source
    /// register, when the source is one.
    ///
    /// A register moved into itself changes nothing and is remarked on. A
    /// move between the two names of one bank writes the source's own width
    /// and leaves the lanes above it. Every other move writes the
    /// destination in full, with the value cut or zero-extended to the
    /// destination's width and a remark where the widths differ.
    pub open spec fn moved(self, place: Place, data: Data, origin: Option<Register>) -> Machine {
        let target = self.width_of(place);
        if place is Register && origin == Some(place->Register_0) {
            self.noted(Some(Diagnostic::SelfMove))
        } else if place is Register && origin is Some && origin->0.spec_family()
            == place->Register_0.spec_family() {
            self.noted(GPRegister::mismatch(target, data)).placed(place, data)
        } else {
            self.noted(conversion_note(data.spec_width(), target, data.value())).placed(
                place,
                Data::fitted(target, data.value()),
            )
        }
    }

    /// The machine after `current` and `operand` went through the arithmetic
    /// unit in `mode`: the result is written to `place` at the place's
    /// width, the overflow flag takes the unit's overflow bit, and the unit
    /// is left switched off with the operand pair in its buffer.
    pub open spec fn computed(
        self,
        mode: ALUMode,
        place: Place,
        current: u32,
        operand: u32,
    ) -> Machine {
        let (result, overflow) = if mode == ALUMode::Add {
            wrapping_sum(current, operand)
        } else {
            wrapping_difference(current, operand)
        };
        let written = Machine {
            alu: ALU { buffer: (current, operand), mode: ALUMode::Off },
            ..self
        }.placed(place, Data::fitted(self.width_of(place), result));
        Machine {
            flags: written.flags.with(Flag::OF, overflow),
            trace: written.trace.push(Event::FlagSet { flag: Flag::OF, bit: overflow }),
            ..written
        }
    }

    /// The machine after a two-operand instruction, or the fault that stops
    /// it. The operand kinds are checked first, then the destination is
    /// resolved, then the source, and for arithmetic the destination's
    /// present value is read last; nothing is written unless all succeed.
    pub open spec fn transferred(self, opcode: IS, destination: Operand, source: Operand) -> Result<
        Machine,
        Fault,
    > {
        if destination is Immediate || (destination is Memory && source is Memory) {
            Err(Fault::IllegalAddressingMode)
        } else {
            match self.destination(destination) {
                Err(fault) => Err(fault),
                Ok(place) => match self.source(opcode, source) {
                    Err(fault) => Err(fault),
                    Ok(data) => if opcode == IS::Mov {
                        Ok(
                            self.moved(
                                place,
                                data,
                                if source is Register {
                                    Some(source->Register_0)
                                } else {
                                    None
                                },
                            ),
                        )
                    } else {
                        match self.current(place) {
                            Err(fault) => Err(fault),
                            Ok(current) => Ok(
                                self.computed(
                                    if opcode == IS::Add {
                                        ALUMode::Add
                                    } else {
                                        ALUMode::Sub
                                    },
                                    place,
                                    current,
                                    data.value(),
                                ),
                            ),
                        }
                    },
                },
            }
        }
    }

    /// The machine after one instruction and what the caller is to do next,
    /// or the fault that stops the instruction.
    pub open spec fn executed(self, opcode: IS, operands: Seq<Operand>) -> Result<
        (Machine, Action),
        Fault,
    > {
        match arity_check(opcode, operands.len() as usize) {
            Err(fault) => Err(fault),
            Ok(()) => if opcode == IS::Syscall {
                match requested(self.registers) {
                    Err(fault) => Err(fault),
                    Ok(action) => Ok((self, action)),
                }
            } else {
                match self.transferred(opcode, operands[0], operands[1]) {
                    Err(fault) => Err(fault),
                    Ok(machine) => Ok((machine, Action::Proceed)),
                }
            },
        }
    }

    /// The machine after bytes from outside are written to the range that
    /// `buffer` describes, the write recorded in the trace. The cells that
    /// the range covers count as written.
    pub open spec fn filled(self, buffer: Data, bytes: Seq<u8>) -> Result<Machine, Fault> {
        match self.memory.write(Address::unpacked(buffer.value()), bytes) {
            Err(fault) => Err(fault),
            Ok(memory) => Ok(
                Machine { memory, trace: self.trace.push(Event::InputStored { buffer }), ..self },
            ),
        }
    }

    /// The state between instructions: halted once the program counter has
    /// reached the end of the program.
    pub open spec fn resting(self) -> State {
        if self.registers.pc() >= self.memory.code.len() {
            State::Halted
        } else {
            State::Fetching
        }
    }

    /// The machine with the program counter moved to the next instruction.
    pub open spec fn advanced(self) -> Machine {
        Machine {
            registers: Registers {
                instruction_pointer: self.registers.instruction_pointer.stored(
                    Data::Word((self.registers.pc() + 1) as u16),
                ),
                ..self.registers
            },
            ..self
        }
    }

    /// One fetch: the machine afterwards and what the fetch reports.
    ///
    /// A halted machine, and one whose program counter is behind the last
    /// instruction, executes nothing and reports `Halt`. Otherwise the
    /// program counter advances by one, and then the instruction it pointed
    /// at executes. An exit and every fatal fault halt the machine; a call
    /// for outside work leaves it inside the system call; a recoverable
    /// fault leaves it between instructions.
    pub open spec fn fetched(self) -> (Machine, Result<Action, Fault>) {
        if self.state == State::Halted || self.registers.pc() >= self.memory.code.len() {
            (Machine { state: State::Halted, ..self }, Ok(Action::Halt))
        } else {
            let instruction = self.memory.code[self.registers.pc() as int];
            let advanced = self.advanced();
            match advanced.executed(instruction.opcode, instruction.operands@) {
                Ok((machine, action)) => (
                    Machine {
                        state: match action {
                            Action::Exit { .. } => State::Halted,
                            Action::Read { .. } | Action::Write { .. } => State::Decoding(
                                IS::Syscall,
                            ),
                            _ => machine.resting(),
                        },
                        ..machine
                    },
                    Ok(action),
                ),
                Err(fault) => (
                    Machine {
                        state: if fault.spec_recoverable() {
                            advanced.resting()
                        } else {
                            State::Halted
                        },
                        ..advanced
                    },
                    Err(fault),
                ),
            }
        }
    }

    /// How many instructions lie between the program counter and the end of
    /// the program.
    pub open spec fn remaining(self) -> nat {
        (self.memory.code.len() - self.registers.pc()) as nat
    }

    /// A run: fetch after fetch until one reports anything but `Proceed`.
    pub open spec fn ran(self) -> (Machine, Result<Action, Fault>)
        decreases self.remaining(),
        when self.wf()
        via Self::ran_terminates
    {
        let (machine, report) = self.fetched();
        if report == Ok::<Action, Fault>(Action::Proceed) {
            machine.ran()
        } else {
            (machine, report)
        }
    }

    #[via_fn]
    proof fn ran_terminates(self) {
        lemma_fetch_keeps_wf(self);
    }
}

/// Writing to a place keeps the machine well formed and moves neither the
/// program counter nor the program.
pub proof fn lemma_placed_keeps_wf(machine: Machine, place: Place, data: Data)
    requires
        machine.wf(),
        machine.has(place),
    ensures
        machine.placed(place, data).wf(),
        machine.placed(place, data).registers.pc() == machine.registers.pc(),
        machine.placed(place, data).memory.code == machine.memory.code,
        machine.placed(place, data).state == machine.state,
{
    reveal(Machine::placed);
    if let Place::Cell(index) = place {
        lemma_store_then_load(machine.memory, index as int, data.value());
    }
}

/// An instruction that executes keeps the machine well formed and moves
/// neither the program counter nor the program.
pub proof fn lemma_executed_keeps_wf(machine: Machine, opcode: IS, operands: Seq<Operand>)
    requires
        machine.wf(),
        machine.executed(opcode, operands) is Ok,
    ensures
        machine.executed(opcode, operands)->Ok_0.0.wf(),
        machine.executed(opcode, operands)->Ok_0.0.registers.pc() == machine.registers.pc(),
        machine.executed(opcode, operands)->Ok_0.0.memory.code == machine.memory.code,
        machine.executed(opcode, operands)->Ok_0.0.state == machine.state,
{
    if opcode != IS::Syscall {
        let place = machine.destination(operands[0])->Ok_0;
        let data = machine.source(opcode, operands[1])->Ok_0;
        assert(machine.has(place));
        if opcode == IS::Mov {
            let origin = if operands[1] is Register {
                Some(operands[1]->Register_0)
            } else {
                None
            };
            let target = machine.width_of(place);
            lemma_placed_keeps_wf(machine.noted(GPRegister::mismatch(target, data)), place, data);
            lemma_placed_keeps_wf(
                machine.noted(conversion_note(data.spec_width(), target, data.value())),
                place,
                Data::fitted(target, data.value()),
            );
        } else {
            let current = machine.current(place)->Ok_0;
            let result = if opcode == IS::Add {
                wrapping_sum(current, data.value()).0
            } else {
                wrapping_difference(current, data.value()).0
            };
            lemma_placed_keeps_wf(
                Machine {
                    alu: ALU { buffer: (current, data.value()), mode: ALUMode::Off },
                    ..machine
                },
                place,
                Data::fitted(machine.width_of(place), result),
            );
        }
    }
}

/// A fetch keeps the machine well formed and the program unchanged; a fetch
/// that reports `Proceed` has moved the program counter on by one.
pub proof fn lemma_fetch_keeps_wf(machine: Machine)
    requires
        machine.wf(),
    ensures
        machine.fetched().0.wf(),
        machine.fetched().0.memory.code == machine.memory.code,
        machine.fetched().1 == Ok::<Action, Fault>(Action::Proceed)
            ==> machine.fetched().0.remaining() < machine.remaining(),
{
    if !(machine.state == State::Halted || machine.registers.pc() >= machine.memory.code.len()) {
        let instruction = machine.memory.code[machine.registers.pc() as int];
        let advanced = machine.advanced();
        lemma_advanced(machine);
        if advanced.executed(instruction.opcode, instruction.operands@) is Ok {
            lemma_executed_keeps_wf(advanced, instruction.opcode, instruction.operands@);
        }
    }
}

/// Advancing the program counter of a machine that has an instruction left
/// adds one to it and changes nothing else that the invariant speaks of.
pub proof fn lemma_advanced(machine: Machine)
    requires
        machine.wf(),
        machine.registers.pc() < machine.memory.code.len(),
    ensures
        machine.advanced().registers.pc() == machine.registers.pc() + 1,
        machine.advanced().wf(),
{
    let next = (machine.registers.pc() + 1) as u32;
    assert(next <= 0xFFFF ==> next % 0x100 + 0x100 * ((next / 0x100) % 0x100) == next)
        by (bit_vector);
}

/// The machine that a program starts in: registers zero, flags clear, the
/// arithmetic unit off, the trace empty, the memory laid out.
pub open spec fn booted(
    data: Seq<(String, Data)>,
    bss: Seq<(String, Width)>,
    code: Seq<Instruction>,
) -> Result<Machine, Fault> {
    if code.len() > 0xFFFF {
        Err(Fault::ProgramTooLong)
    } else {
        match loaded(data, bss, code) {
            Err(fault) => Err(fault),
            Ok(memory) => Ok(
                Machine {
                    alu: ALU::idle(),
                    registers: Registers::zeroed(),
                    flags: FLAGS::cleared(),
                    memory,
                    trace: Seq::empty(),
                    state: State::Idle,
                },
            ),
        }
    }
}

} // verus!
