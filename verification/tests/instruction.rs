use cpusim::data::Data;
use cpusim::fault::Fault;
use cpusim::instruction::{Instruction, MemOp, Operand, IS};
use cpusim::registers::Register;

fn operands(count: usize) -> Vec<Operand> {
    let mut operands = Vec::new();
    for index in 0..count {
        operands.push(Operand::Immediate(Data::Dword(index as u32)));
    }
    operands
}

#[test]
fn new_keeps_opcode_and_operands() {
    let instruction = Instruction::new(
        IS::Mov,
        vec![
            Operand::Register(Register::AX),
            Operand::Memory(MemOp::Address("num".to_string())),
        ],
    );
    assert_eq!(instruction.opcode, IS::Mov);
    assert_eq!(
        instruction.operands,
        vec![
            Operand::Register(Register::AX),
            Operand::Memory(MemOp::Address("num".to_string())),
        ]
    );
}

#[test]
fn arity_of_each_opcode() {
    assert_eq!(IS::Mov.arity(), Some(2));
    assert_eq!(IS::Add.arity(), Some(2));
    assert_eq!(IS::Sub.arity(), Some(2));
    assert_eq!(IS::Syscall.arity(), Some(0));
    for opcode in [IS::Mul, IS::Div, IS::And, IS::Or, IS::Xor, IS::Not] {
        assert_eq!(opcode.arity(), None);
    }
}

#[test]
fn two_operands_pass_for_mov_add_sub() {
    for opcode in [IS::Mov, IS::Add, IS::Sub] {
        assert_eq!(Instruction::new(opcode, operands(2)).verify_operands(), Ok(()));
    }
}

#[test]
fn other_counts_are_wrong_arity() {
    for opcode in [IS::Mov, IS::Add, IS::Sub] {
        for count in [0usize, 1, 3, 258] {
            assert_eq!(
                Instruction::new(opcode, operands(count)).verify_operands(),
                Err(Fault::WrongArity { opcode, expected: 2, found: count })
            );
        }
    }
}

#[test]
fn syscall_takes_no_operand() {
    assert_eq!(Instruction::new(IS::Syscall, operands(0)).verify_operands(), Ok(()));
    assert_eq!(
        Instruction::new(IS::Syscall, operands(1)).verify_operands(),
        Err(Fault::WrongArity { opcode: IS::Syscall, expected: 0, found: 1 })
    );
}

#[test]
fn reserved_opcodes_are_not_implemented() {
    for opcode in [IS::Mul, IS::Div, IS::And, IS::Or, IS::Xor, IS::Not] {
        for count in [0usize, 1, 2] {
            assert_eq!(
                Instruction::new(opcode, operands(count)).verify_operands(),
                Err(Fault::OpcodeNotImplemented { opcode })
            );
        }
    }
}

#[test]
fn clone_is_equal() {
    let instruction = Instruction::new(
        IS::Add,
        vec![
            Operand::Memory(MemOp::Label("here".to_string())),
            Operand::Immediate(Data::Byte(3)),
            Operand::Register(Register::EDX),
        ],
    );
    assert_eq!(instruction.clone(), instruction);
}

#[test]
fn only_unknown_syscall_is_recoverable() {
    assert!(Fault::UnknownSyscall { number: 9 }.recoverable());
    for fault in [
        Fault::UndeclaredMemoryAccess { label: "x".to_string() },
        Fault::UninitializedMemory { label: "x".to_string() },
        Fault::WrongArity { opcode: IS::Mov, expected: 2, found: 0 },
        Fault::IllegalAddressingMode,
        Fault::LabelAsAddress { label: "x".to_string() },
        Fault::OpcodeNotImplemented { opcode: IS::Mul },
        Fault::AluOff,
        Fault::CapacityExhausted,
        Fault::OutOfBounds,
        Fault::DuplicateLabel { label: "x".to_string() },
        Fault::ProgramTooLong,
    ] {
        assert!(!fault.recoverable());
    }
}

#[test]
fn fault_clone_is_equal() {
    for fault in [
        Fault::UndeclaredMemoryAccess { label: "a".to_string() },
        Fault::UninitializedMemory { label: "b".to_string() },
        Fault::WrongArity { opcode: IS::Sub, expected: 2, found: 7 },
        Fault::IllegalAddressingMode,
        Fault::LabelAsAddress { label: "c".to_string() },
        Fault::OpcodeNotImplemented { opcode: IS::Xor },
        Fault::AluOff,
        Fault::CapacityExhausted,
        Fault::OutOfBounds,
        Fault::UnknownSyscall { number: 200 },
        Fault::DuplicateLabel { label: "d".to_string() },
        Fault::ProgramTooLong,
    ] {
        assert_eq!(fault.clone(), fault);
    }
}
