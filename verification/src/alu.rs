//! The arithmetic unit: a scratch pair of operands and a mode. Addition and
//! subtraction wrap modulo 2^32 and report overflow beside the result.

use vstd::prelude::*;
use crate::fault::Fault;

verus! {

/// What the arithmetic unit is set to do. Only `Add` and `Sub` compute.
#[derive(Clone, Copy, Debug, PartialEq, Eq, Structural)]
pub enum ALUMode {
    Add,
    Sub,
    Mul,
    Div,
    And,
    Or,
    Xor,
    Not,
    Off,
}

/// The sum of two 32-bit numbers modulo 2^32, and whether the true sum
/// exceeds 32 bits.
pub open spec fn wrapping_sum(a: u32, b: u32) -> (u32, bool) {
    (((a + b) % 0x1_0000_0000) as u32, a + b > u32::MAX)
}

/// The difference of two 32-bit numbers modulo 2^32, and whether the true
/// difference is negative.
pub open spec fn wrapping_difference(a: u32, b: u32) -> (u32, bool) {
    (((a - b) % 0x1_0000_0000) as u32, a < b)
}

/// The arithmetic unit.
#[allow(clippy::upper_case_acronyms)]
#[derive(Clone, Copy, Debug, PartialEq, Eq)]
pub struct ALU {
    /// The operand pair last fetched: destination first, source second.
    pub buffer: (u32, u32),
    pub mode: ALUMode,
}

impl ALU {
    /// What `execute` yields in the unit's present state.
    pub open spec fn outcome(self) -> Result<(u32, bool), Fault> {
        match self.mode {
            ALUMode::Add => Ok(wrapping_sum(self.buffer.0, self.buffer.1)),
            ALUMode::Sub => Ok(wrapping_difference(self.buffer.0, self.buffer.1)),
            ALUMode::Off => Err(Fault::AluOff),
            mode => Err(Fault::AluModeNotImplemented { mode }),
        }
    }

    /// The unit switched off, with a zero operand pair.
    pub open spec fn idle() -> ALU {
        ALU { buffer: (0u32, 0u32), mode: ALUMode::Off }
    }

    /// A unit that is switched off, with a zero operand pair.
    pub fn new() -> (alu: ALU)
        ensures
            alu == ALU::idle(),
    {
        ALU { buffer: (0, 0), mode: ALUMode::Off }
    }

    /// Sets the mode; the operand pair stays.
    pub fn set_mode(&mut self, mode: ALUMode)
        ensures
            *final(self) == (ALU { buffer: old(self).buffer, mode }),
    {
        self.mode = mode;
    }

    /// Loads the operand pair; the mode stays.
    pub fn operand_fetch(&mut self, destination: u32, source: u32)
        ensures
            *final(self) == (ALU { buffer: (destination, source), mode: old(self).mode }),
    {
        self.buffer = (destination, source);
    }

    /// Applies the mode to the operand pair. `Add` and `Sub` give the wrapped
    /// result and the overflow bit; `Off` and the modes that are not
    /// implemented are faults. The unit itself does not change.
    pub fn execute(&self) -> (result: Result<(u32, bool), Fault>)
        ensures
            result == self.outcome(),
    {
        match self.mode {
            ALUMode::Add => Ok(self.add()),
            ALUMode::Sub => Ok(self.sub()),
            ALUMode::Off => Err(Fault::AluOff),
            mode => Err(Fault::AluModeNotImplemented { mode }),
        }
    }

    /// Adds the operand pair: the sum modulo 2^32, and `true` exactly when
    /// the true sum does not fit in 32 bits.
    pub fn add(&self) -> (result: (u32, bool))
        ensures
            result == wrapping_sum(self.buffer.0, self.buffer.1),
    {
        let total: u64 = self.buffer.0 as u64 + self.buffer.1 as u64;
        if total > 0xFFFF_FFFF {
            ((total - 0x1_0000_0000) as u32, true)
        } else {
            (total as u32, false)
        }
    }

    /// Subtracts the source from the destination: the difference modulo
    /// 2^32, and `true` exactly when the source is the larger.
    pub fn sub(&self) -> (result: (u32, bool))
        ensures
            result == wrapping_difference(self.buffer.0, self.buffer.1),
    {
        let (destination, source) = self.buffer;
        if destination < source {
            let deficit: u32 = source - destination;
            (0xFFFF_FFFF - deficit + 1, true)
        } else {
            (destination - source, false)
        }
    }
}

} // verus!
