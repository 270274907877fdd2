//! The condition flags: nine single bits, each latched until an operation
//! that defines it writes it again.

use vstd::prelude::*;

verus! {

/// The names of the condition flags.
#[derive(Clone, Copy, Debug, PartialEq, Eq, Structural)]
pub enum Flag {
    /// Parity.
    PF,
    /// Auxiliary carry.
    AF,
    /// Zero.
    ZF,
    /// Sign.
    SF,
    /// Trap.
    TF,
    /// Interrupt enable.
    IF,
    /// Direction.
    DF,
    /// Overflow.
    OF,
    /// Carry.
    CF,
}

/// The flags register. Each flag is one bit.
#[allow(clippy::upper_case_acronyms)]
#[derive(Clone, Copy, Debug, PartialEq, Eq, Structural)]
pub struct FLAGS {
    pub parity: bool,
    pub auxiliary: bool,
    pub zero: bool,
    pub sign: bool,
    pub trap: bool,
    pub interrupt: bool,
    pub direction: bool,
    pub overflow: bool,
    pub carry: bool,
}

impl FLAGS {
    /// The bit that a flag holds.
    pub open spec fn value(self, flag: Flag) -> bool {
        match flag {
            Flag::PF => self.parity,
            Flag::AF => self.auxiliary,
            Flag::ZF => self.zero,
            Flag::SF => self.sign,
            Flag::TF => self.trap,
            Flag::IF => self.interrupt,
            Flag::DF => self.direction,
            Flag::OF => self.overflow,
            Flag::CF => self.carry,
        }
    }

    /// The register with one flag replaced.
    pub open spec fn with(self, flag: Flag, value: bool) -> FLAGS {
        match flag {
            Flag::PF => FLAGS { parity: value, ..self },
            Flag::AF => FLAGS { auxiliary: value, ..self },
            Flag::ZF => FLAGS { zero: value, ..self },
            Flag::SF => FLAGS { sign: value, ..self },
            Flag::TF => FLAGS { trap: value, ..self },
            Flag::IF => FLAGS { interrupt: value, ..self },
            Flag::DF => FLAGS { direction: value, ..self },
            Flag::OF => FLAGS { overflow: value, ..self },
            Flag::CF => FLAGS { carry: value, ..self },
        }
    }

    /// The register with every flag clear.
    pub open spec fn cleared() -> FLAGS {
        FLAGS {
            parity: false,
            auxiliary: false,
            zero: false,
            sign: false,
            trap: false,
            interrupt: false,
            direction: false,
            overflow: false,
            carry: false,
        }
    }

    /// A register with every flag clear.
    pub fn new() -> (flags: FLAGS)
        ensures
            flags == FLAGS::cleared(),
            forall|flag: Flag| !flags.value(flag),
    {
        FLAGS {
            parity: false,
            auxiliary: false,
            zero: false,
            sign: false,
            trap: false,
            interrupt: false,
            direction: false,
            overflow: false,
            carry: false,
        }
    }

    /// Reads a flag.
    pub fn get_value(&self, flag: Flag) -> (value: bool)
        ensures
            value == self.value(flag),
    {
        match flag {
            Flag::PF => self.parity,
            Flag::AF => self.auxiliary,
            Flag::ZF => self.zero,
            Flag::SF => self.sign,
            Flag::TF => self.trap,
            Flag::IF => self.interrupt,
            Flag::DF => self.direction,
            Flag::OF => self.overflow,
            Flag::CF => self.carry,
        }
    }

    /// Writes a flag; every other flag keeps its bit.
    pub fn set_value(&mut self, flag: Flag, value: bool)
        ensures
            *final(self) == old(self).with(flag, value),
    {
        *self = match flag {
            Flag::PF => FLAGS { parity: value, ..*self },
            Flag::AF => FLAGS { auxiliary: value, ..*self },
            Flag::ZF => FLAGS { zero: value, ..*self },
            Flag::SF => FLAGS { sign: value, ..*self },
            Flag::TF => FLAGS { trap: value, ..*self },
            Flag::IF => FLAGS { interrupt: value, ..*self },
            Flag::DF => FLAGS { direction: value, ..*self },
            Flag::OF => FLAGS { overflow: value, ..*self },
            Flag::CF => FLAGS { carry: value, ..*self },
        };
    }
}

} // verus!
