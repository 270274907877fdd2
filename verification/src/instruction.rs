//! Instructions: an opcode and the operands it takes.

use vstd::prelude::*;
use crate::data::Data;
use crate::fault::Fault;
use crate::registers::Register;

verus! {

/// The instruction set. `Mov`, `Add`, `Sub` and `Syscall` execute; the rest
/// are reserved.
#[allow(clippy::upper_case_acronyms)]
#[derive(Clone, Copy, Debug, PartialEq, Eq, Structural)]
pub enum IS {
    Mov,
    Add,
    Sub,
    Mul,
    Div,
    And,
    Or,
    Xor,
    Not,
    Syscall,
}

impl IS {
    /// The number of operands the opcode takes; `None` for an opcode that
    /// does not execute.
    pub open spec fn spec_arity(&self) -> Option<usize> {
        match self {
            IS::Mov | IS::Add | IS::Sub => Some(2usize),
            IS::Syscall => Some(0usize),
            _ => None,
        }
    }

    /// The number of operands the opcode takes; `None` for an opcode that
    /// does not execute.
    #[verifier::when_used_as_spec(spec_arity)]
    pub fn arity(&self) -> (arity: Option<usize>)
        ensures
            arity == self.spec_arity(),
    {
        match self {
            IS::Mov | IS::Add | IS::Sub => Some(2),
            IS::Syscall => Some(0),
            _ => None,
        }
    }
}

/// A reference to memory by label.
#[derive(Debug, PartialEq, Eq)]
pub enum MemOp {
    /// `[label]`: the cell that the label names.
    Address(String),
    /// `label`: the label's own address, as a number.
    Label(String),
}

impl Clone for MemOp {
    fn clone(&self) -> (copy: Self)
        ensures
            copy == *self,
    {
        match self {
            MemOp::Address(label) => MemOp::Address(label.clone()),
            MemOp::Label(label) => MemOp::Label(label.clone()),
        }
    }
}

impl MemOp {
    /// The label referred to.
    pub open spec fn label(self) -> Seq<char> {
        match self {
            MemOp::Address(label) => label@,
            MemOp::Label(label) => label@,
        }
    }
}

/// An operand: a register, a memory reference or a literal value.
#[derive(Debug, PartialEq, Eq)]
pub enum Operand {
    Register(Register),
    Memory(MemOp),
    Immediate(Data),
}

impl Clone for Operand {
    fn clone(&self) -> (copy: Self)
        ensures
            copy == *self,
    {
        match self {
            Operand::Register(register) => Operand::Register(*register),
            Operand::Memory(reference) => Operand::Memory(reference.clone()),
            Operand::Immediate(data) => Operand::Immediate(*data),
        }
    }
}

/// What `verify_operands` answers for an opcode and an operand count.
pub open spec fn arity_check(opcode: IS, count: usize) -> Result<(), Fault> {
    match opcode.spec_arity() {
        None => Err(Fault::OpcodeNotImplemented { opcode }),
        Some(expected) => if expected == count {
            Ok(())
        } else {
            Err(Fault::WrongArity { opcode, expected, found: count })
        },
    }
}

/// An instruction. It is built once and never changes.
#[derive(Debug, PartialEq, Eq)]
pub struct Instruction {
    pub opcode: IS,
    pub operands: Vec<Operand>,
}

impl Clone for Instruction {
    fn clone(&self) -> (copy: Self)
        ensures
            copy.opcode == self.opcode,
            copy.operands@ == self.operands@,
    {
        let mut operands: Vec<Operand> = Vec::new();
        let mut index: usize = 0;
        while index < self.operands.len()
            invariant
                index <= self.operands.len(),
                operands@ == self.operands@.take(index as int),
            decreases self.operands.len() - index,
        {
            operands.push(self.operands[index].clone());
            index = index + 1;
        }
        Instruction { opcode: self.opcode, operands }
    }
}

impl Instruction {
    /// Builds an instruction from its opcode and operands, destination
    /// first.
    pub fn new(opcode: IS, operands: Vec<Operand>) -> (instruction: Instruction)
        ensures
            instruction.opcode == opcode,
            instruction.operands == operands,
    {
        Instruction { opcode, operands }
    }

    /// Checks the operand count against the opcode: `Mov`, `Add` and `Sub`
    /// take two operands, `Syscall` none. An opcode that does not execute is
    /// refused whatever its operands.
    pub fn verify_operands(&self) -> (verdict: Result<(), Fault>)
        ensures
            verdict == arity_check(self.opcode, self.operands.len()),
    {
        match self.opcode.arity() {
            None => Err(Fault::OpcodeNotImplemented { opcode: self.opcode }),
            Some(expected) => {
                if expected == self.operands.len() {
                    Ok(())
                } else {
                    Err(
                        Fault::WrongArity {
                            opcode: self.opcode,
                            expected,
                            found: self.operands.len(),
                        },
                    )
                }
            },
        }
    }
}

} // verus!
