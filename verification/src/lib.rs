//! A simulator of a small x86-like processor: a register file whose 16-bit
//! registers alias the low half of their 32-bit supersets, a byte-addressable
//! memory reached through a symbol table, an arithmetic unit with explicit
//! overflow, and a fetch-decode-execute engine over a fixed instruction list.
//!
//! Every executable function carries a contract over a mathematical model of
//! the machine, and the contracts are proved. The model of the memory lives in
//! [`memory`], that of the whole processor in [`machine`]; [`memory_unit`] and
//! [`cpu`] hold the executable counterparts. [`laws`] states what holds of the
//! machine in every state.
//!
//! The engine does no input or output. A system call that needs outside work
//! comes back to the caller as an [`Action`]; the caller carries it out, hands
//! input to [`CPU::store_input`] or takes output from [`CPU::load_output`], and
//! calls [`CPU::run`] again.

pub mod data;
pub mod registers;
pub mod flags;
pub mod alu;
pub mod fault;
pub mod instruction;
pub mod memory;
pub mod memory_unit;
pub mod event;
pub mod machine;
pub mod cpu;
pub mod laws;

pub use crate::alu::{ALUMode, ALU};
pub use crate::cpu::CPU;
pub use crate::data::{Data, Diagnostic, Width};
pub use crate::event::{Action, Event, State};
pub use crate::fault::Fault;
pub use crate::flags::{Flag, FLAGS};
pub use crate::instruction::{Instruction, MemOp, Operand, IS};
pub use crate::machine::{Machine, Place};
pub use crate::memory::{Address, Memory, Section, Symbol, RAM_SIZE};
pub use crate::memory_unit::{MemoryUnit, RAM};
pub use crate::registers::{Family, GPRegister, Register, Registers, SPRegister};
