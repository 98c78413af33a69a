use myboy::alu::{AluOp, ShiftOp};
use myboy::instruction::{
    operation_for, AccumulatorOp, Condition, DecodeError, Family, Indirect, Instruction, Operand,
    Operation,
};
use myboy::register_set::{Register16, Register8, StackRegister};

const UNDEFINED: [u8; 11] = [0xD3, 0xDB, 0xDD, 0xE3, 0xE4, 0xEB, 0xEC, 0xED, 0xF4, 0xFC, 0xFD];

/// Bytes each opcode takes, 0 for an undefined one.
const LENGTHS: [u16; 256] = [
    1, 3, 1, 1, 1, 1, 2, 1, 3, 1, 1, 1, 1, 1, 2, 1, //
    2, 3, 1, 1, 1, 1, 2, 1, 2, 1, 1, 1, 1, 1, 2, 1, //
    2, 3, 1, 1, 1, 1, 2, 1, 2, 1, 1, 1, 1, 1, 2, 1, //
    2, 3, 1, 1, 1, 1, 2, 1, 2, 1, 1, 1, 1, 1, 2, 1, //
    1, 1, 1, 1, 1, 1, 1, 1, 1, 1, 1, 1, 1, 1, 1, 1, //
    1, 1, 1, 1, 1, 1, 1, 1, 1, 1, 1, 1, 1, 1, 1, 1, //
    1, 1, 1, 1, 1, 1, 1, 1, 1, 1, 1, 1, 1, 1, 1, 1, //
    1, 1, 1, 1, 1, 1, 1, 1, 1, 1, 1, 1, 1, 1, 1, 1, //
    1, 1, 1, 1, 1, 1, 1, 1, 1, 1, 1, 1, 1, 1, 1, 1, //
    1, 1, 1, 1, 1, 1, 1, 1, 1, 1, 1, 1, 1, 1, 1, 1, //
    1, 1, 1, 1, 1, 1, 1, 1, 1, 1, 1, 1, 1, 1, 1, 1, //
    1, 1, 1, 1, 1, 1, 1, 1, 1, 1, 1, 1, 1, 1, 1, 1, //
    1, 1, 3, 3, 3, 1, 2, 1, 1, 1, 3, 2, 3, 3, 2, 1, //
    1, 1, 3, 0, 3, 1, 2, 1, 1, 1, 3, 0, 3, 0, 2, 1, //
    2, 1, 1, 0, 0, 1, 2, 1, 2, 1, 3, 0, 0, 0, 2, 1, //
    2, 1, 1, 1, 0, 1, 2, 1, 2, 1, 3, 1, 0, 0, 2, 1, //
];

/// Machine cycles of each opcode when a conditional branch is not taken; the
/// prefix entry holds the cost of the operation the next byte 0x00 selects.
const CYCLES: [u32; 256] = [
    1, 3, 2, 2, 1, 1, 2, 1, 5, 2, 2, 2, 1, 1, 2, 1, //
    1, 3, 2, 2, 1, 1, 2, 1, 3, 2, 2, 2, 1, 1, 2, 1, //
    2, 3, 2, 2, 1, 1, 2, 1, 2, 2, 2, 2, 1, 1, 2, 1, //
    2, 3, 2, 2, 3, 3, 3, 1, 2, 2, 2, 2, 1, 1, 2, 1, //
    1, 1, 1, 1, 1, 1, 2, 1, 1, 1, 1, 1, 1, 1, 2, 1, //
    1, 1, 1, 1, 1, 1, 2, 1, 1, 1, 1, 1, 1, 1, 2, 1, //
    1, 1, 1, 1, 1, 1, 2, 1, 1, 1, 1, 1, 1, 1, 2, 1, //
    2, 2, 2, 2, 2, 2, 1, 2, 1, 1, 1, 1, 1, 1, 2, 1, //
    1, 1, 1, 1, 1, 1, 2, 1, 1, 1, 1, 1, 1, 1, 2, 1, //
    1, 1, 1, 1, 1, 1, 2, 1, 1, 1, 1, 1, 1, 1, 2, 1, //
    1, 1, 1, 1, 1, 1, 2, 1, 1, 1, 1, 1, 1, 1, 2, 1, //
    1, 1, 1, 1, 1, 1, 2, 1, 1, 1, 1, 1, 1, 1, 2, 1, //
    2, 3, 3, 4, 3, 4, 2, 4, 2, 4, 3, 2, 3, 6, 2, 4, //
    2, 3, 3, 0, 3, 4, 2, 4, 2, 4, 3, 0, 3, 0, 2, 4, //
    3, 3, 2, 0, 0, 4, 2, 4, 4, 1, 4, 0, 0, 0, 2, 4, //
    3, 3, 2, 1, 0, 4, 2, 4, 3, 2, 4, 1, 0, 0, 2, 4, //
];

fn decoded(bytes: &[u8]) -> Operation {
    Instruction::create(0, bytes).unwrap().operation
}

#[test]
fn every_opcode_has_its_length_and_cost() {
    for opcode in 0..=255u8 {
        let program = [opcode, 0x00, 0x00];
        let result = Instruction::create(0, &program);
        if UNDEFINED.contains(&opcode) {
            assert_eq!(result, Err(DecodeError::UnknownOpcode));
            assert_eq!(operation_for(opcode, 0, 0), None);
            assert_eq!(LENGTHS[opcode as usize], 0);
        } else {
            let instruction = result.unwrap();
            assert_eq!(instruction.address, 0);
            assert_eq!(instruction.length(), LENGTHS[opcode as usize], "opcode {:#04x}", opcode);
            assert_eq!(instruction.cycles(false), CYCLES[opcode as usize], "opcode {:#04x}", opcode);
            assert_eq!(operation_for(opcode, 0, 0), Some(instruction.operation));
        }
    }
}

#[test]
fn taken_branches_cost_more() {
    let table: [(u8, u32, u32); 16] = [
        (0x20, 2, 3),
        (0x28, 2, 3),
        (0x30, 2, 3),
        (0x38, 2, 3),
        (0xC0, 2, 5),
        (0xC8, 2, 5),
        (0xD0, 2, 5),
        (0xD8, 2, 5),
        (0xC2, 3, 4),
        (0xCA, 3, 4),
        (0xD2, 3, 4),
        (0xDA, 3, 4),
        (0xC4, 3, 6),
        (0xCC, 3, 6),
        (0xD4, 3, 6),
        (0xDC, 3, 6),
    ];
    for (opcode, not_taken, taken) in table {
        let instruction = Instruction::create(0, &[opcode, 0, 0]).unwrap();
        assert!(instruction.operation.condition().is_some());
        assert_eq!(instruction.cycles(false), not_taken);
        assert_eq!(instruction.cycles(true), taken);
    }
    for opcode in [0x18u8, 0xC3, 0xCD, 0xC9, 0x00, 0x3E] {
        let instruction = Instruction::create(0, &[opcode, 0, 0]).unwrap();
        assert!(instruction.operation.condition().is_none());
        assert_eq!(instruction.cycles(false), instruction.cycles(true));
    }
}

#[test]
fn extended_opcodes_decode_by_their_fields() {
    let operands = [
        Operand::Register(Register8::B),
        Operand::Register(Register8::C),
        Operand::Register(Register8::D),
        Operand::Register(Register8::E),
        Operand::Register(Register8::H),
        Operand::Register(Register8::L),
        Operand::HlIndirect,
        Operand::Register(Register8::A),
    ];
    let shifts = [
        ShiftOp::RotateLeftCircular,
        ShiftOp::RotateRightCircular,
        ShiftOp::RotateLeft,
        ShiftOp::RotateRight,
        ShiftOp::ShiftLeft,
        ShiftOp::ShiftRightArithmetic,
        ShiftOp::Swap,
        ShiftOp::ShiftRightLogical,
    ];
    for code in 0..=255u8 {
        let instruction = Instruction::create(0, &[0xCB, code]).unwrap();
        let target = operands[(code % 8) as usize];
        let y = (code / 8) % 8;
        let expected = match code / 64 {
            0 => Operation::Shift { op: shifts[y as usize], target },
            1 => Operation::TestBit { bit: y, target },
            2 => Operation::ResetBit { bit: y, target },
            _ => Operation::SetBit { bit: y, target },
        };
        assert_eq!(instruction.operation, expected);
        assert_eq!(instruction.length(), 2);
        let in_memory = target == Operand::HlIndirect;
        assert!(target.is_memory() == in_memory);
        let cost = match (code / 64, in_memory) {
            (_, false) => 2,
            (1, true) => 3,
            (_, true) => 4,
        };
        assert_eq!(instruction.cycles(false), cost);
        assert_eq!(instruction.operation.classify(), Family::Bits);
    }
}

#[test]
fn opcodes_decode_to_their_operations() {
    assert_eq!(decoded(&[0x00]), Operation::Nop);
    assert_eq!(decoded(&[0x10, 0x00]), Operation::Stop);
    assert_eq!(decoded(&[0x76]), Operation::Halt);
    assert_eq!(decoded(&[0xF3]), Operation::DisableInterrupts);
    assert_eq!(decoded(&[0xFB]), Operation::EnableInterrupts);
    assert_eq!(
        decoded(&[0x01, 0x34, 0x12]),
        Operation::LoadWide { target: Register16::BC, value: 0x1234 }
    );
    assert_eq!(
        decoded(&[0x31, 0xFE, 0xFF]),
        Operation::LoadWide { target: Register16::SP, value: 0xFFFE }
    );
    assert_eq!(decoded(&[0x08, 0x00, 0xC0]), Operation::StoreStackPointer { address: 0xC000 });
    assert_eq!(decoded(&[0x02]), Operation::StoreAccumulator { at: Indirect::BC });
    assert_eq!(decoded(&[0x12]), Operation::StoreAccumulator { at: Indirect::DE });
    assert_eq!(decoded(&[0x22]), Operation::StoreAccumulator { at: Indirect::HlIncrement });
    assert_eq!(decoded(&[0x32]), Operation::StoreAccumulator { at: Indirect::HlDecrement });
    assert_eq!(decoded(&[0x0A]), Operation::LoadAccumulator { from: Indirect::BC });
    assert_eq!(decoded(&[0x3A]), Operation::LoadAccumulator { from: Indirect::HlDecrement });
    assert_eq!(decoded(&[0x03]), Operation::IncrementWide { target: Register16::BC });
    assert_eq!(decoded(&[0x3B]), Operation::DecrementWide { target: Register16::SP });
    assert_eq!(decoded(&[0x29]), Operation::AddHl { source: Register16::HL });
    assert_eq!(decoded(&[0x04]), Operation::Increment { target: Operand::Register(Register8::B) });
    assert_eq!(decoded(&[0x34]), Operation::Increment { target: Operand::HlIndirect });
    assert_eq!(decoded(&[0x3D]), Operation::Decrement { target: Operand::Register(Register8::A) });
    assert_eq!(
        decoded(&[0x3E, 0x42]),
        Operation::LoadImmediate { target: Operand::Register(Register8::A), value: 0x42 }
    );
    assert_eq!(
        decoded(&[0x36, 0x99]),
        Operation::LoadImmediate { target: Operand::HlIndirect, value: 0x99 }
    );
    assert_eq!(decoded(&[0x07]), Operation::Accumulator { op: AccumulatorOp::RotateLeftCircular });
    assert_eq!(decoded(&[0x0F]), Operation::Accumulator { op: AccumulatorOp::RotateRightCircular });
    assert_eq!(decoded(&[0x17]), Operation::Accumulator { op: AccumulatorOp::RotateLeft });
    assert_eq!(decoded(&[0x1F]), Operation::Accumulator { op: AccumulatorOp::RotateRight });
    assert_eq!(decoded(&[0x27]), Operation::Accumulator { op: AccumulatorOp::DecimalAdjust });
    assert_eq!(decoded(&[0x2F]), Operation::Accumulator { op: AccumulatorOp::Complement });
    assert_eq!(decoded(&[0x37]), Operation::Accumulator { op: AccumulatorOp::SetCarry });
    assert_eq!(decoded(&[0x3F]), Operation::Accumulator { op: AccumulatorOp::ComplementCarry });
    assert_eq!(decoded(&[0x18, 0xFE]), Operation::JumpRelative { condition: None, offset: 0xFE });
    assert_eq!(
        decoded(&[0x20, 0x05]),
        Operation::JumpRelative { condition: Some(Condition::NotZero), offset: 0x05 }
    );
    assert_eq!(
        decoded(&[0x38, 0x05]),
        Operation::JumpRelative { condition: Some(Condition::Carry), offset: 0x05 }
    );
    assert_eq!(
        decoded(&[0x41]),
        Operation::Load {
            target: Operand::Register(Register8::B),
            source: Operand::Register(Register8::C)
        }
    );
    assert_eq!(
        decoded(&[0x7E]),
        Operation::Load { target: Operand::Register(Register8::A), source: Operand::HlIndirect }
    );
    assert_eq!(
        decoded(&[0x70]),
        Operation::Load { target: Operand::HlIndirect, source: Operand::Register(Register8::B) }
    );
    assert_eq!(
        decoded(&[0x80]),
        Operation::Alu { op: AluOp::Add, source: Operand::Register(Register8::B) }
    );
    assert_eq!(
        decoded(&[0x8E]),
        Operation::Alu { op: AluOp::AddCarry, source: Operand::HlIndirect }
    );
    assert_eq!(
        decoded(&[0x97]),
        Operation::Alu { op: AluOp::Subtract, source: Operand::Register(Register8::A) }
    );
    assert_eq!(
        decoded(&[0x9A]),
        Operation::Alu { op: AluOp::SubtractCarry, source: Operand::Register(Register8::D) }
    );
    assert_eq!(
        decoded(&[0xA3]),
        Operation::Alu { op: AluOp::And, source: Operand::Register(Register8::E) }
    );
    assert_eq!(
        decoded(&[0xAF]),
        Operation::Alu { op: AluOp::Xor, source: Operand::Register(Register8::A) }
    );
    assert_eq!(
        decoded(&[0xB4]),
        Operation::Alu { op: AluOp::Or, source: Operand::Register(Register8::H) }
    );
    assert_eq!(
        decoded(&[0xBD]),
        Operation::Alu { op: AluOp::Compare, source: Operand::Register(Register8::L) }
    );
    assert_eq!(decoded(&[0xC6, 0x10]), Operation::AluImmediate { op: AluOp::Add, value: 0x10 });
    assert_eq!(decoded(&[0xFE, 0x90]), Operation::AluImmediate { op: AluOp::Compare, value: 0x90 });
    assert_eq!(decoded(&[0xC0]), Operation::Return { condition: Some(Condition::NotZero) });
    assert_eq!(decoded(&[0xC8]), Operation::Return { condition: Some(Condition::Zero) });
    assert_eq!(decoded(&[0xD0]), Operation::Return { condition: Some(Condition::NotCarry) });
    assert_eq!(decoded(&[0xD8]), Operation::Return { condition: Some(Condition::Carry) });
    assert_eq!(decoded(&[0xC9]), Operation::Return { condition: None });
    assert_eq!(decoded(&[0xD9]), Operation::ReturnFromInterrupt);
    assert_eq!(decoded(&[0xE9]), Operation::JumpHl);
    assert_eq!(decoded(&[0xF9]), Operation::LoadStackPointerFromHl);
    assert_eq!(decoded(&[0xC1]), Operation::Pop { target: StackRegister::BC });
    assert_eq!(decoded(&[0xF1]), Operation::Pop { target: StackRegister::AF });
    assert_eq!(decoded(&[0xD5]), Operation::Push { source: StackRegister::DE });
    assert_eq!(decoded(&[0xE5]), Operation::Push { source: StackRegister::HL });
    assert_eq!(
        decoded(&[0xC3, 0x50, 0x01]),
        Operation::Jump { condition: None, address: 0x0150 }
    );
    assert_eq!(
        decoded(&[0xCA, 0x50, 0x01]),
        Operation::Jump { condition: Some(Condition::Zero), address: 0x0150 }
    );
    assert_eq!(
        decoded(&[0xCD, 0x00, 0x20]),
        Operation::Call { condition: None, address: 0x2000 }
    );
    assert_eq!(
        decoded(&[0xD4, 0x00, 0x20]),
        Operation::Call { condition: Some(Condition::NotCarry), address: 0x2000 }
    );
    for y in 0..8u8 {
        assert_eq!(decoded(&[0xC7 + 8 * y]), Operation::Restart { address: 8 * y as u16 });
    }
    assert_eq!(decoded(&[0xE0, 0x01]), Operation::StoreHigh { offset: 0x01 });
    assert_eq!(decoded(&[0xF0, 0x44]), Operation::LoadHigh { offset: 0x44 });
    assert_eq!(decoded(&[0xE2]), Operation::StoreHighC);
    assert_eq!(decoded(&[0xF2]), Operation::LoadHighC);
    assert_eq!(decoded(&[0xEA, 0x00, 0xC0]), Operation::StoreAccumulatorDirect { address: 0xC000 });
    assert_eq!(decoded(&[0xFA, 0x00, 0xC0]), Operation::LoadAccumulatorDirect { address: 0xC000 });
    assert_eq!(decoded(&[0xE8, 0xFE]), Operation::AddStackPointer { offset: 0xFE });
    assert_eq!(decoded(&[0xF8, 0x02]), Operation::LoadHlFromStackOffset { offset: 0x02 });
}

#[test]
fn decoding_depends_on_address_and_bytes_alone() {
    let program = [0x00, 0x3E, 0x42, 0xC3, 0x34, 0x12];
    assert_eq!(
        Instruction::create(1, &program),
        Ok(Instruction {
            address: 1,
            operation: Operation::LoadImmediate {
                target: Operand::Register(Register8::A),
                value: 0x42
            }
        })
    );
    assert_eq!(
        Instruction::create(3, &program),
        Ok(Instruction {
            address: 3,
            operation: Operation::Jump { condition: None, address: 0x1234 }
        })
    );
    assert_eq!(Instruction::create(1, &program), Instruction::create(1, &program.to_vec()));
}

#[test]
fn decoding_fails_past_the_end_of_the_program() {
    assert_eq!(Instruction::create(0, &[]), Err(DecodeError::OutOfRange));
    assert_eq!(Instruction::create(4, &[0, 0, 0, 0x76]), Err(DecodeError::OutOfRange));
    assert_eq!(Instruction::create(0xFFFF, &[0, 0, 0, 0x76]), Err(DecodeError::OutOfRange));
    assert_eq!(Instruction::create(3, &[0, 0, 0, 0x76]).unwrap().operation, Operation::Halt);
    assert_eq!(Instruction::create(0, &[0x3E]), Err(DecodeError::OutOfRange));
    assert_eq!(Instruction::create(0, &[0xC3, 0x00]), Err(DecodeError::OutOfRange));
    assert_eq!(Instruction::create(1, &[0x00, 0xCB]), Err(DecodeError::OutOfRange));
    assert_eq!(Instruction::create(0, &[0xD3]), Err(DecodeError::UnknownOpcode));
}

#[test]
fn families_partition_the_operations() {
    assert_eq!(decoded(&[0x41]).classify(), Family::Load);
    assert_eq!(decoded(&[0x01, 0, 0]).classify(), Family::Load);
    assert_eq!(decoded(&[0x08, 0, 0]).classify(), Family::StackPointer);
    assert_eq!(decoded(&[0xE8, 0]).classify(), Family::StackPointer);
    assert_eq!(decoded(&[0x22]).classify(), Family::Accumulator);
    assert_eq!(decoded(&[0xFA, 0, 0]).classify(), Family::Accumulator);
    assert_eq!(decoded(&[0xE0, 0]).classify(), Family::HighPage);
    assert_eq!(decoded(&[0xF2]).classify(), Family::HighPage);
    assert_eq!(decoded(&[0x04]).classify(), Family::Count);
    assert_eq!(decoded(&[0x0B]).classify(), Family::Count);
    assert_eq!(decoded(&[0x09]).classify(), Family::Arithmetic);
    assert_eq!(decoded(&[0x27]).classify(), Family::Arithmetic);
    assert_eq!(decoded(&[0xCB, 0x37]).classify(), Family::Bits);
    assert_eq!(decoded(&[0x00]).classify(), Family::Jump);
    assert_eq!(decoded(&[0x76]).classify(), Family::Jump);
    assert_eq!(decoded(&[0xE9]).classify(), Family::Jump);
    assert_eq!(decoded(&[0xCD, 0, 0]).classify(), Family::Stack);
    assert_eq!(decoded(&[0xD9]).classify(), Family::Stack);
    assert_eq!(decoded(&[0xF1]).classify(), Family::Stack);
}
