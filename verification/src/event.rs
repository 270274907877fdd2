//! What an instruction leaves behind for its caller: the trace of what it
//! changed, the outside work it asks for, and the engine's state.

use vstd::prelude::*;
use crate::data::{Data, Diagnostic};
use crate::flags::Flag;
use crate::instruction::IS;
use crate::registers::Register;

verus! {

/// One entry of the trace. Every change an instruction makes to a register,
/// a memory cell or a flag is recorded, and so is every remark.
#[derive(Debug, PartialEq, Eq)]
pub enum Event {
    /// `register` was written and now reads `value`.
    RegisterSet { register: Register, value: u32 },
    /// The cell that `label` names was written and now holds `value`.
    MemorySet { label: String, value: u32 },
    /// `flag` was written with `bit`.
    FlagSet { flag: Flag, bit: bool },
    /// Bytes from outside were written to the range that `buffer` describes.
    InputStored { buffer: Data },
    /// The operation completed with a remark.
    Note(Diagnostic),
}

impl Clone for Event {
    fn clone(&self) -> (copy: Self)
        ensures
            copy == *self,
    {
        match self {
            Event::RegisterSet { register, value } => Event::RegisterSet {
                register: *register,
                value: *value,
            },
            Event::MemorySet { label, value } => Event::MemorySet {
                label: label.clone(),
                value: *value,
            },
            Event::FlagSet { flag, bit } => Event::FlagSet { flag: *flag, bit: *bit },
            Event::InputStored { buffer } => Event::InputStored { buffer: *buffer },
            Event::Note(diagnostic) => Event::Note(*diagnostic),
        }
    }
}

/// What the caller of the engine is to do next.
#[derive(Clone, Copy, Debug, PartialEq, Eq, Structural)]
pub enum Action {
    /// Nothing: the instruction is done.
    Proceed,
    /// Nothing: the machine has halted and executed no instruction.
    Halt,
    /// Read as many bytes as `buffer` is long from the input stream `fd` and
    /// write them to the range that `buffer` describes.
    Read { fd: u16, buffer: Data },
    /// Write the bytes of the range that `buffer` describes to the output
    /// stream `fd`.
    Write { fd: u16, buffer: Data },
    /// End the process with `status`.
    Exit { status: u16 },
}

/// The state of the engine.
#[derive(Clone, Copy, Debug, PartialEq, Eq, Structural)]
pub enum State {
    /// Built, nothing fetched yet.
    Idle,
    /// Between instructions, with more to fetch.
    Fetching,
    /// Inside the instruction with this opcode, waiting for the caller to do
    /// the outside work the instruction asked for.
    Decoding(IS),
    /// At the end of the program, after an exit, or after a fatal fault.
    Halted,
}

} // verus!
