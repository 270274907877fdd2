//! What holds of the machine whatever its state: the rules that the parts
//! are built to keep, each stated over the model and proved.

use vstd::prelude::*;
use crate::alu::{wrapping_difference, wrapping_sum};
use crate::machine::{
    lemma_advanced, lemma_executed_keeps_wf, lemma_fetch_keeps_wf, Machine, Place,
};
use crate::data::{compose, Data, Diagnostic, Width};
use crate::event::{Action, Event, State};
use crate::fault::Fault;
use crate::flags::{Flag, FLAGS};
use crate::instruction::{MemOp, Operand, IS};
use crate::memory::{
    fit, lemma_store_then_load, lemma_symbol_count, lemma_written, Address, Memory, Section,
};
use crate::registers::{GPRegister, Register, Registers};

verus! {

/// Width aliasing. Whatever four bytes the lanes of a 32-bit register are
/// set to, its 16-bit name reads the first two of them, the first as the low
/// byte: `b1 | (b2 << 8)`. The same holds when the lanes are set by writing
/// the double word that the four bytes spell.
pub proof fn law_width_aliasing(
    registers: Registers,
    wide: Register,
    b1: u8,
    b2: u8,
    b3: u8,
    b4: u8,
)
    requires
        wide.spec_width() == Width::Dword,
    ensures
        registers.with_bank(
            wide,
            GPRegister { low: b1, high: b2, ext_low: b3, ext_high: b4 },
        ).read(wide.narrow()) == (b1 as u32) | ((b2 as u32) << 8),
        registers.write(wide, Data::Dword(compose(b1, b2, b3, b4))).bank(wide) == (GPRegister {
            low: b1,
            high: b2,
            ext_low: b3,
            ext_high: b4,
        }),
        registers.write(wide, Data::Dword(compose(b1, b2, b3, b4))).read(wide.narrow()) == (
        b1 as u32) | ((b2 as u32) << 8),
{
    assert(b1 as u32 + 0x100 * (b2 as u32) == (b1 as u32) | ((b2 as u32) << 8)) by (bit_vector);
    let v = compose(b1, b2, b3, b4);
    assert(v == b1 as u32 + 0x100 * (b2 as u32) + 0x1_0000 * (b3 as u32) + 0x100_0000 * (
    b4 as u32));
    assert(v == b1 as u32 + 0x100 * (b2 as u32) + 0x1_0000 * (b3 as u32) + 0x100_0000 * (
    b4 as u32) ==> (v % 0x100) as u8 == b1 && ((v / 0x100) % 0x100) as u8 == b2 && ((v
        / 0x1_0000) % 0x100) as u8 == b3 && ((v / 0x100_0000) % 0x100) as u8 == b4)
        by (bit_vector);
}

/// A register reads back what was written to it. After a write of a value
/// at least as wide as the register, the register reads the value modulo the
/// register's range; after any write, the 16-bit name of the bank reads the
/// low 16 bits of the value, or, for a byte, the byte below the old high
/// lane.
pub proof fn law_register_write_then_read(registers: Registers, register: Register, data: Data)
    ensures
        data.spec_width().bytes() >= register.spec_width().bytes() ==> registers.write(
            register,
            data,
        ).read(register) as int == data.value() as int % register.spec_width().modulus(),
        registers.write(register, data).read(register.narrow()) as int == (if data.spec_width()
            == Width::Byte {
            data.value() + 0x100 * registers.bank(register).high
        } else {
            data.value() as int % 0x1_0000
        }),
{
    let v = data.value();
    assert(v % 0x100 + 0x100 * ((v / 0x100) % 0x100) + 0x1_0000 * ((v / 0x1_0000) % 0x100)
        + 0x100_0000 * ((v / 0x100_0000) % 0x100) == v) by (bit_vector);
    assert(v % 0x100 + 0x100 * ((v / 0x100) % 0x100) == v % 0x1_0000) by (bit_vector);
    assert(v < 0x100 ==> v % 0x100 == v) by (bit_vector);
}

/// A write to a register leaves every register of another bank, and every
/// special register, as it was.
pub proof fn law_write_leaves_other_banks(
    registers: Registers,
    register: Register,
    data: Data,
    other: Register,
)
    requires
        other.spec_family() != register.spec_family(),
    ensures
        registers.write(register, data).read(other) == registers.read(other),
        registers.write(register, data).stack_pointer == registers.stack_pointer,
        registers.write(register, data).base_pointer == registers.base_pointer,
        registers.write(register, data).instruction_pointer == registers.instruction_pointer,
{
}

/// A written flag reads back what was written, and every other flag stays
/// latched at its last value.
pub proof fn law_flags_latched(flags: FLAGS, flag: Flag, value: bool, other: Flag)
    ensures
        flags.with(flag, value).value(flag) == value,
        other != flag ==> flags.with(flag, value).value(other) == flags.value(other),
{
}

/// Packing and unpacking a descriptor are inverse to each other, and the
/// upper half of a descriptor is the length alone: ranges of different
/// lengths never share a descriptor, wherever they start.
pub proof fn law_descriptor_round_trip(address: Address, descriptor: u32)
    ensures
        Address::unpacked(address.packed()) == address,
        Address::unpacked(descriptor).packed() == descriptor,
        address.packed() / 0x1_0000 == address.length,
        address.packed() % 0x1_0000 == address.offset,
{
}

/// A write followed by a read. A write keeps the memory well formed, and a
/// read of the range just written gives back the bytes written, cut or
/// zero-filled to the range's length. Every label that names a cell lying
/// wholly in the range loads without fault afterwards, whatever was
/// written.
pub proof fn law_write_then_read(memory: Memory, address: Address, bytes: Seq<u8>, label: String)
    requires
        memory.wf(),
        memory.write(address, bytes) is Ok,
    ensures
        memory.write(address, bytes)->Ok_0.wf(),
        memory.write(address, bytes)->Ok_0.read(address) == Ok::<Seq<u8>, Fault>(
            fit(bytes, address.length as nat),
        ),
        memory.declares(label@) && address.covers(
            memory.symbols[memory.position(label@)->0].spec_address(),
        ) ==> memory.write(address, bytes)->Ok_0.load(label) is Ok,
{
    lemma_written(memory, address, bytes);
    let after = memory.write(address, bytes)->Ok_0;
    assert(after.position(label@) == memory.position(label@));
    if memory.declares(label@) {
        let index = memory.position(label@)->0;
        if address.covers(memory.symbols[index].spec_address()) {
            assert(after.readable(index));
        }
    }
}

/// Input counts as a write. Once bytes from outside have been stored over
/// the whole cell of a label, a move from that cell to a register executes,
/// whatever the bytes were and whatever the cell held.
pub proof fn law_input_then_move(
    machine: Machine,
    buffer: Data,
    bytes: Seq<u8>,
    label: String,
    register: Register,
)
    requires
        machine.wf(),
        machine.filled(buffer, bytes) is Ok,
        machine.memory.declares(label@),
        Address::unpacked(buffer.value()).covers(
            machine.memory.symbols[machine.memory.position(label@)->0].spec_address(),
        ),
    ensures
        machine.filled(buffer, bytes)->Ok_0.executed(
            IS::Mov,
            seq![Operand::Register(register), Operand::Memory(MemOp::Address(label))],
        ) is Ok,
{
    law_write_then_read(machine.memory, Address::unpacked(buffer.value()), bytes, label);
    lemma_move_from_cell(machine.filled(buffer, bytes)->Ok_0, label, register);
}

/// A store followed by a load. Whatever a declared cell held, after a store
/// of `value` to its label a load from the label gives `value` fitted to the
/// cell's width, and a load from any other label gives what it gave before.
pub proof fn law_store_then_load(memory: Memory, label: String, value: u32, other: String)
    requires
        memory.wf(),
        memory.declares(label@),
    ensures
        memory.store(label, value) is Ok,
        memory.store(label, value)->Ok_0.wf(),
        memory.store(label, value)->Ok_0.load(label) == Ok::<Data, Fault>(
            Data::fitted(memory.symbols[memory.position(label@)->0].width, value),
        ),
        other@ != label@ ==> memory.store(label, value)->Ok_0.load(other) == memory.load(other),
{
    let index = memory.position(label@)->0;
    let after = memory.stored_at(index, value);
    lemma_store_then_load(memory, index, value);
    assert(after.position(label@) == memory.position(label@));
    assert(after.position(other@) == memory.position(other@));
    if other@ != label@ && memory.declares(other@) {
        let neighbour = memory.position(other@)->0;
        assert(after.cell(neighbour) == memory.cell(neighbour));
    }
}

/// Use before initialisation. A cell of the data section that holds zero
/// and was never stored to cannot be loaded; after one store of any value
/// the same cell loads without fault, and gives the value stored, fitted to
/// the cell's width.
pub proof fn law_use_before_init(memory: Memory, label: String, value: u32)
    requires
        memory.wf(),
        memory.declares(label@),
        memory.symbols[memory.position(label@)->0].section == Section::Data,
        !memory.symbols[memory.position(label@)->0].written,
        memory.cell(memory.position(label@)->0).value() == 0,
    ensures
        memory.load(label) == Err::<Data, Fault>(
            Fault::UninitializedMemory { label: memory.symbols[memory.position(label@)->0].label },
        ),
        memory.store(label, value) is Ok,
        memory.store(label, value)->Ok_0.load(label) == Ok::<Data, Fault>(
            Data::fitted(memory.symbols[memory.position(label@)->0].width, value),
        ),
{
    law_store_then_load(memory, label, value, label);
}

/// Use before initialisation, at the engine. A move from such a cell to a
/// register is stopped; once a move to the cell has executed, from a
/// register or an immediate, the same move from the cell executes.
pub proof fn law_use_before_init_at_engine(
    machine: Machine,
    label: String,
    register: Register,
    source: Operand,
)
    requires
        machine.wf(),
        machine.memory.declares(label@),
        machine.memory.symbols[machine.memory.position(label@)->0].section == Section::Data,
        !machine.memory.symbols[machine.memory.position(label@)->0].written,
        machine.memory.cell(machine.memory.position(label@)->0).value() == 0,
        source is Register || source is Immediate,
    ensures
        machine.executed(
            IS::Mov,
            seq![Operand::Register(register), Operand::Memory(MemOp::Address(label))],
        ) == Err::<(Machine, Action), Fault>(
            Fault::UninitializedMemory {
                label: machine.memory.symbols[machine.memory.position(label@)->0].label,
            },
        ),
        machine.executed(IS::Mov, seq![Operand::Memory(MemOp::Address(label)), source]) is Ok,
        machine.executed(
            IS::Mov,
            seq![Operand::Memory(MemOp::Address(label)), source],
        )->Ok_0.0.executed(
            IS::Mov,
            seq![Operand::Register(register), Operand::Memory(MemOp::Address(label))],
        ) is Ok,
{
    lemma_move_from_cell(machine, label, register);
    lemma_move_into_cell(machine, label, source);
    let index = machine.memory.position(label@)->0;
    let origin = if source is Register {
        Some(source->Register_0)
    } else {
        None
    };
    let data = machine.source(IS::Mov, source)->Ok_0;
    let after = machine.moved(Place::Cell(index as usize), data, origin);
    lemma_move_to_cell(machine, index, data, origin);
    assert(after.memory.position(label@) == machine.memory.position(label@));
    assert(after.memory.load(label) is Ok);
    lemma_move_from_cell(after, label, register);
}

/// A move from a register or an immediate to a declared cell executes, and
/// makes of the machine what [`Machine::moved`] says.
proof fn lemma_move_into_cell(machine: Machine, label: String, source: Operand)
    requires
        machine.wf(),
        machine.memory.declares(label@),
        source is Register || source is Immediate,
    ensures
        machine.source(IS::Mov, source) is Ok,
        machine.executed(IS::Mov, seq![Operand::Memory(MemOp::Address(label)), source]) == Ok::<
            (Machine, Action),
            Fault,
        >(
            (
                machine.moved(
                    Place::Cell(machine.memory.position(label@)->0 as usize),
                    machine.source(IS::Mov, source)->Ok_0,
                    if source is Register {
                        Some(source->Register_0)
                    } else {
                        None
                    },
                ),
                Action::Proceed,
            ),
        ),
        0 <= machine.memory.position(label@)->0 < machine.memory.symbols.len(),
{
    let write = seq![Operand::Memory(MemOp::Address(label)), source];
    assert(write.len() == 2 && write[0] == Operand::Memory(MemOp::Address(label)) && write[1]
        == source);
    lemma_symbol_count(machine.memory);
}

/// A move from a cell to a register executes exactly when the cell can be
/// loaded, and is stopped with the load's fault when it cannot.
proof fn lemma_move_from_cell(machine: Machine, label: String, register: Register)
    ensures
        machine.memory.load(label) is Ok ==> machine.executed(
            IS::Mov,
            seq![Operand::Register(register), Operand::Memory(MemOp::Address(label))],
        ) is Ok,
        machine.memory.load(label) is Err ==> machine.executed(
            IS::Mov,
            seq![Operand::Register(register), Operand::Memory(MemOp::Address(label))],
        ) == Err::<(Machine, Action), Fault>(machine.memory.load(label)->Err_0),
{
    let read = seq![Operand::Register(register), Operand::Memory(MemOp::Address(label))];
    assert(read.len() == 2 && read[0] == Operand::Register(register) && read[1]
        == Operand::Memory(MemOp::Address(label)));
}

/// A move to a cell stores the value, fitted to the cell's width, and
/// touches neither registers nor flags; afterwards the cell is readable and
/// every label is where it was.
proof fn lemma_move_to_cell(machine: Machine, index: int, data: Data, origin: Option<Register>)
    requires
        machine.wf(),
        0 <= index < machine.memory.symbols.len(),
    ensures
        machine.moved(Place::Cell(index as usize), data, origin).memory
            == machine.memory.stored_at(
            index,
            Data::fitted(machine.memory.symbols[index].width, data.value()).value(),
        ),
        machine.moved(Place::Cell(index as usize), data, origin).registers == machine.registers,
        machine.moved(Place::Cell(index as usize), data, origin).flags == machine.flags,
        machine.moved(Place::Cell(index as usize), data, origin).memory.readable(index),
        forall|label: Seq<char>| #[trigger]
            machine.moved(Place::Cell(index as usize), data, origin).memory.position(label)
                == machine.memory.position(label),
{
    reveal(Machine::placed);
    lemma_symbol_count(machine.memory);
    lemma_store_then_load(
        machine.memory,
        index,
        Data::fitted(machine.memory.symbols[index].width, data.value()).value(),
    );
}

/// Truncation. A move of any double word into a 16-bit register is no
/// error: the register then reads the low 16 bits of the value, the lanes
/// above it stay, and the trace gains a remark that holds the 16 bits cut
/// off, followed by the record of the write.
pub proof fn law_truncation(machine: Machine, register: Register, value: u32)
    requires
        register.spec_width() == Width::Word,
    ensures
        machine.executed(
            IS::Mov,
            seq![Operand::Register(register), Operand::Immediate(Data::Dword(value))],
        ) is Ok,
        machine.executed(
            IS::Mov,
            seq![Operand::Register(register), Operand::Immediate(Data::Dword(value))],
        )->Ok_0.0.registers.read(register) == value % 0x1_0000,
        machine.executed(
            IS::Mov,
            seq![Operand::Register(register), Operand::Immediate(Data::Dword(value))],
        )->Ok_0.0.registers.bank(register).ext_low == machine.registers.bank(register).ext_low,
        machine.executed(
            IS::Mov,
            seq![Operand::Register(register), Operand::Immediate(Data::Dword(value))],
        )->Ok_0.0.registers.bank(register).ext_high == machine.registers.bank(register).ext_high,
        machine.executed(
            IS::Mov,
            seq![Operand::Register(register), Operand::Immediate(Data::Dword(value))],
        )->Ok_0.0.trace == machine.trace.push(
            Event::Note(Diagnostic::Truncated { lost: value / 0x1_0000 }),
        ).push(Event::RegisterSet { register, value: value % 0x1_0000 }),
{
    let operands = seq![Operand::Register(register), Operand::Immediate(Data::Dword(value))];
    assert(operands.len() == 2 && operands[0] == Operand::Register(register) && operands[1]
        == Operand::Immediate(Data::Dword(value)));
    reveal(Machine::placed);
    let low = (value % 0x1_0000) as u32;
    assert(low % 0x100 + 0x100 * ((low / 0x100) % 0x100) == low) by (bit_vector)
        requires
            low <= 0xFFFF,
    ;
}

/// Undeclared labels, at the memory. A label that no section declares can be
/// neither loaded from, nor stored to, nor taken the address of.
pub proof fn law_undeclared_label_in_memory(memory: Memory, label: String, value: u32)
    requires
        !memory.declares(label@),
    ensures
        memory.load(label) == Err::<Data, Fault>(Fault::UndeclaredMemoryAccess { label }),
        memory.store(label, value) == Err::<Memory, Fault>(
            Fault::UndeclaredMemoryAccess { label },
        ),
        memory.address_of(label) == Err::<Data, Fault>(Fault::UndeclaredMemoryAccess { label }),
{
}

/// The three opcodes that take a destination and a source.
pub open spec fn binary(opcode: IS) -> bool {
    opcode == IS::Mov || opcode == IS::Add || opcode == IS::Sub
}

/// Undeclared labels, at the engine. A move, an addition or a subtraction
/// whose memory operand names a label that no section declares is stopped,
/// in the write direction (the memory operand is the destination) as in the
/// read direction (it is the source). Where the operand is a location, and
/// where it is a label reference in a move, the fault is the undeclared
/// access, with that label; a label reference in arithmetic is refused as
/// such, declared or not.
pub proof fn law_undeclared_label(machine: Machine, opcode: IS, label: String, other: Operand)
    requires
        binary(opcode),
        !machine.memory.declares(label@),
        !(other is Memory),
    ensures
        machine.executed(opcode, seq![Operand::Memory(MemOp::Address(label)), other]) == Err::<
            (Machine, Action),
            Fault,
        >(Fault::UndeclaredMemoryAccess { label }),
        other is Register ==> machine.executed(
            opcode,
            seq![other, Operand::Memory(MemOp::Address(label))],
        ) == Err::<(Machine, Action), Fault>(Fault::UndeclaredMemoryAccess { label }),
        other is Register ==> machine.executed(
            opcode,
            seq![other, Operand::Memory(MemOp::Label(label))],
        ) == Err::<(Machine, Action), Fault>(
            if opcode == IS::Mov {
                Fault::UndeclaredMemoryAccess { label }
            } else {
                Fault::LabelAsAddress { label }
            },
        ),
{
    let write = seq![Operand::Memory(MemOp::Address(label)), other];
    assert(write.len() == 2 && write[0] == Operand::Memory(MemOp::Address(label)) && write[1]
        == other);
    let read = seq![other, Operand::Memory(MemOp::Address(label))];
    assert(read.len() == 2 && read[0] == other && read[1] == Operand::Memory(
        MemOp::Address(label),
    ));
    let refer = seq![other, Operand::Memory(MemOp::Label(label))];
    assert(refer.len() == 2 && refer[0] == other && refer[1] == Operand::Memory(
        MemOp::Label(label),
    ));
}

/// Self-move. A move of a register into itself is no error and changes no
/// register, flag or memory cell: the machine afterwards is the machine
/// before with one remark more in its trace.
pub proof fn law_self_move(machine: Machine, register: Register)
    ensures
        machine.executed(
            IS::Mov,
            seq![Operand::Register(register), Operand::Register(register)],
        ) == Ok::<(Machine, Action), Fault>(
            (
                Machine {
                    trace: machine.trace.push(Event::Note(Diagnostic::SelfMove)),
                    ..machine
                },
                Action::Proceed,
            ),
        ),
{
    let operands = seq![Operand::Register(register), Operand::Register(register)];
    assert(operands.len() == 2 && operands[0] == Operand::Register(register) && operands[1]
        == Operand::Register(register));
}

/// Moves between the two names of one bank. Such a move is no error and
/// leaves every register as it was: the 16-bit name already is the low half
/// of the 32-bit name, and the upper half is not written.
pub proof fn law_alias_move(machine: Machine, to: Register, from: Register)
    requires
        to.spec_family() == from.spec_family(),
    ensures
        machine.executed(IS::Mov, seq![Operand::Register(to), Operand::Register(from)]) is Ok,
        machine.executed(
            IS::Mov,
            seq![Operand::Register(to), Operand::Register(from)],
        )->Ok_0.0.registers == machine.registers,
        machine.executed(
            IS::Mov,
            seq![Operand::Register(to), Operand::Register(from)],
        )->Ok_0.0.memory == machine.memory,
        machine.executed(
            IS::Mov,
            seq![Operand::Register(to), Operand::Register(from)],
        )->Ok_0.0.flags == machine.flags,
{
    let operands = seq![Operand::Register(to), Operand::Register(from)];
    assert(operands.len() == 2 && operands[0] == Operand::Register(to) && operands[1]
        == Operand::Register(from));
    reveal(Machine::placed);
    lemma_rewrite(machine.registers, to, from);
}

/// Writing a register's own content back through either name of its bank
/// changes nothing.
proof fn lemma_rewrite(registers: Registers, to: Register, from: Register)
    requires
        to.spec_family() == from.spec_family(),
    ensures
        registers.write(to, Data::fitted(from.spec_width(), registers.read(from))) == registers,
{
    let bank = registers.bank(from);
    let (b0, b1, b2, b3) = (bank.low, bank.high, bank.ext_low, bank.ext_high);
    let narrow = registers.read(from.narrow());
    assert(narrow == b0 as u32 + 0x100 * (b1 as u32));
    assert(narrow == b0 as u32 + 0x100 * (b1 as u32) ==> (narrow % 0x100) as u8 == b0 && ((narrow
        / 0x100) % 0x100) as u8 == b1 && narrow % 0x1_0000 == narrow) by (bit_vector);
    let wide = (b0 as u32 + 0x100 * (b1 as u32) + 0x1_0000 * (b2 as u32) + 0x100_0000 * (
    b3 as u32)) as u32;
    assert(wide == b0 as u32 + 0x100 * (b1 as u32) + 0x1_0000 * (b2 as u32) + 0x100_0000 * (
    b3 as u32) ==> (wide % 0x100) as u8 == b0 && ((wide / 0x100) % 0x100) as u8 == b1 && ((wide
        / 0x1_0000) % 0x100) as u8 == b2 && ((wide / 0x100_0000) % 0x100) as u8 == b3)
        by (bit_vector);
}

/// Arity. A move, an addition or a subtraction with any number of operands
/// but two, and a system call with any operand at all, is stopped as a
/// wrong-arity fault; an opcode that does not execute is stopped whatever
/// its operands. Being stopped, the instruction has written nothing.
pub proof fn law_wrong_arity(machine: Machine, opcode: IS, operands: Seq<Operand>)
    requires
        operands.len() <= usize::MAX,
    ensures
        binary(opcode) && operands.len() != 2 ==> machine.executed(opcode, operands) == Err::<
            (Machine, Action),
            Fault,
        >(Fault::WrongArity { opcode, expected: 2, found: operands.len() as usize }),
        opcode == IS::Syscall && operands.len() != 0 ==> machine.executed(opcode, operands)
            == Err::<(Machine, Action), Fault>(
            Fault::WrongArity { opcode, expected: 0, found: operands.len() as usize },
        ),
        !binary(opcode) && opcode != IS::Syscall ==> machine.executed(opcode, operands) == Err::<
            (Machine, Action),
            Fault,
        >(Fault::OpcodeNotImplemented { opcode }),
{
}

/// Addressing modes. A move, an addition or a subtraction from memory to
/// memory, or with an immediate as its destination, is stopped as an
/// illegal addressing mode, whatever the labels and values involved. Being
/// stopped, the instruction has written nothing.
pub proof fn law_illegal_addressing_mode(
    machine: Machine,
    opcode: IS,
    destination: Operand,
    source: Operand,
)
    requires
        binary(opcode),
        destination is Immediate || (destination is Memory && source is Memory),
    ensures
        machine.executed(opcode, seq![destination, source]) == Err::<(Machine, Action), Fault>(
            Fault::IllegalAddressingMode,
        ),
{
    let operands = seq![destination, source];
    assert(operands.len() == 2 && operands[0] == destination && operands[1] == source);
}

/// Flags. No instruction writes a flag other than overflow. A move and a
/// system call write no flag at all; an addition and a subtraction leave in
/// the overflow flag the overflow bit of the operation on the operand pair
/// that the arithmetic unit holds afterwards.
pub proof fn law_flags(machine: Machine, opcode: IS, operands: Seq<Operand>, flag: Flag)
    requires
        machine.executed(opcode, operands) is Ok,
    ensures
        flag != Flag::OF ==> machine.executed(opcode, operands)->Ok_0.0.flags.value(flag)
            == machine.flags.value(flag),
        opcode == IS::Mov || opcode == IS::Syscall ==> machine.executed(
            opcode,
            operands,
        )->Ok_0.0.flags == machine.flags,
        opcode == IS::Add ==> machine.executed(opcode, operands)->Ok_0.0.flags.overflow
            == wrapping_sum(
            machine.executed(opcode, operands)->Ok_0.0.alu.buffer.0,
            machine.executed(opcode, operands)->Ok_0.0.alu.buffer.1,
        ).1,
        opcode == IS::Sub ==> machine.executed(opcode, operands)->Ok_0.0.flags.overflow
            == wrapping_difference(
            machine.executed(opcode, operands)->Ok_0.0.alu.buffer.0,
            machine.executed(opcode, operands)->Ok_0.0.alu.buffer.1,
        ).1,
{
    reveal(Machine::placed);
}

/// Fetches. A fetch by a machine that has not halted and has an instruction
/// left moves the program counter on by exactly one, whether the instruction
/// executes or is stopped, and leaves the program as it was. Any other fetch
/// moves nothing and halts the machine.
pub proof fn law_fetch_advances_once(machine: Machine)
    requires
        machine.wf(),
    ensures
        machine.fetched().0.memory.code == machine.memory.code,
        machine.state != State::Halted && machine.registers.pc() < machine.memory.code.len()
            ==> machine.fetched().0.registers.pc() == machine.registers.pc() + 1,
        machine.state == State::Halted || machine.registers.pc() >= machine.memory.code.len()
            ==> machine.fetched() == (
            Machine { state: State::Halted, ..machine },
            Ok::<Action, Fault>(Action::Halt),
        ),
{
    if machine.state != State::Halted && machine.registers.pc() < machine.memory.code.len() {
        let instruction = machine.memory.code[machine.registers.pc() as int];
        lemma_advanced(machine);
        if machine.advanced().executed(instruction.opcode, instruction.operands@) is Ok {
            lemma_executed_keeps_wf(
                machine.advanced(),
                instruction.opcode,
                instruction.operands@,
            );
        }
    }
}

/// Runs. A run of a well-formed machine ends well formed, with the program
/// it started with, and never reports `Proceed`. When it reports that the
/// machine halted or exited, or stops on a fatal fault, the machine is in
/// the halted state; when it asks for outside work, the machine is inside
/// the system call.
pub proof fn law_run(machine: Machine)
    requires
        machine.wf(),
    ensures
        machine.ran().0.wf(),
        machine.ran().0.memory.code == machine.memory.code,
        machine.ran().1 != Ok::<Action, Fault>(Action::Proceed),
        machine.ran().1 == Ok::<Action, Fault>(Action::Halt) ==> machine.ran().0.state
            == State::Halted,
        machine.ran().1 is Ok && machine.ran().1->Ok_0 is Exit ==> machine.ran().0.state
            == State::Halted,
        machine.ran().1 is Ok && (machine.ran().1->Ok_0 is Read || machine.ran().1->Ok_0 is Write)
            ==> machine.ran().0.state == State::Decoding(IS::Syscall),
        machine.ran().1 is Err && !machine.ran().1->Err_0.spec_recoverable()
            ==> machine.ran().0.state == State::Halted,
    decreases machine.remaining(),
{
    lemma_fetch_keeps_wf(machine);
    let (next, report) = machine.fetched();
    if report == Ok::<Action, Fault>(Action::Proceed) {
        law_run(next);
    }
}

} // verus!
