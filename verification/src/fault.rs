//! The conditions that stop an instruction, each with the detail a caller
//! needs to say which rule was broken.

use vstd::prelude::*;
use crate::alu::ALUMode;
use crate::instruction::IS;

verus! {

/// Why an operation was refused. Every fault but `UnknownSyscall` is fatal
/// to a run; none of them leaves a partial write behind.
#[derive(Debug, PartialEq, Eq)]
pub enum Fault {
    /// A memory operand names a label that neither section declares.
    UndeclaredMemoryAccess { label: String },
    /// A read of a data-section cell that holds zero and was never written.
    UninitializedMemory { label: String },
    /// The instruction has another number of operands than its opcode takes.
    WrongArity { opcode: IS, expected: usize, found: usize },
    /// Memory to memory, or an immediate as the destination.
    IllegalAddressingMode,
    /// A label reference stands where a memory location is required.
    LabelAsAddress { label: String },
    /// The opcode is not one the engine executes.
    OpcodeNotImplemented { opcode: IS },
    /// The arithmetic unit was asked to compute while switched off.
    AluOff,
    /// The arithmetic unit was asked to compute in a mode it does not have.
    AluModeNotImplemented { mode: ALUMode },
    /// A memory access reaches beyond the capacity of the backing store.
    CapacityExhausted,
    /// A read of bytes that were never stored.
    OutOfBounds,
    /// The accumulator held a number that names no system call.
    UnknownSyscall { number: u16 },
    /// Two declarations carry the same label.
    DuplicateLabel { label: String },
    /// The program has more instructions than the program counter can count.
    ProgramTooLong,
}

impl Clone for Fault {
    fn clone(&self) -> (copy: Self)
        ensures
            copy == *self,
    {
        match self {
            Fault::UndeclaredMemoryAccess { label } => Fault::UndeclaredMemoryAccess {
                label: label.clone(),
            },
            Fault::UninitializedMemory { label } => Fault::UninitializedMemory {
                label: label.clone(),
            },
            Fault::WrongArity { opcode, expected, found } => Fault::WrongArity {
                opcode: *opcode,
                expected: *expected,
                found: *found,
            },
            Fault::IllegalAddressingMode => Fault::IllegalAddressingMode,
            Fault::LabelAsAddress { label } => Fault::LabelAsAddress { label: label.clone() },
            Fault::OpcodeNotImplemented { opcode } => Fault::OpcodeNotImplemented {
                opcode: *opcode,
            },
            Fault::AluOff => Fault::AluOff,
            Fault::AluModeNotImplemented { mode } => Fault::AluModeNotImplemented { mode: *mode },
            Fault::CapacityExhausted => Fault::CapacityExhausted,
            Fault::OutOfBounds => Fault::OutOfBounds,
            Fault::UnknownSyscall { number } => Fault::UnknownSyscall { number: *number },
            Fault::DuplicateLabel { label } => Fault::DuplicateLabel { label: label.clone() },
            Fault::ProgramTooLong => Fault::ProgramTooLong,
        }
    }
}

impl Fault {
    /// A recoverable fault is reported to the caller and leaves the machine
    /// able to go on; every other fault halts it.
    pub open spec fn spec_recoverable(&self) -> bool {
        self is UnknownSyscall
    }

    /// Whether the machine may go on after this fault.
    #[verifier::when_used_as_spec(spec_recoverable)]
    pub fn recoverable(&self) -> (recoverable: bool)
        ensures
            recoverable == self.spec_recoverable(),
    {
        match self {
            Fault::UnknownSyscall { .. } => true,
            _ => false,
        }
    }
}

/// The outcome is success with exactly `value`.
pub open spec fn succeeds_with<T>(outcome: Result<T, Fault>, value: T) -> bool {
    outcome == Ok::<T, Fault>(value)
}

/// The outcome is failure with exactly `fault`.
pub open spec fn fails_with<T>(outcome: Result<T, Fault>, fault: Fault) -> bool {
    outcome == Err::<T, Fault>(fault)
}

} // verus!
