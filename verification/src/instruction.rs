//! Decoding of the variable-length instruction encoding.
//!
//! An opcode byte splits into three fields, `x = opcode / 64`,
//! `y = opcode / 8 % 8` and `z = opcode % 8`; `y` splits again into
//! `p = y / 2` and `q = y % 2`. The fields select the operation and index the
//! operand tables. The opcode 0xCB is a prefix: the byte after it is split
//! the same way and selects an operation of the extended family.

use vstd::prelude::*;
use crate::alu::{AluOp, ShiftOp};
use crate::memory::{make_word, word_of};
use crate::register_set::{Register16, Register8, StackRegister};

verus! {

/// An 8-bit operand: a register, or the byte in memory that HL points at.
#[derive(Clone, Copy, Debug, PartialEq, Eq, Structural)]
pub enum Operand {
    Register(Register8),
    HlIndirect,
}

/// The memory operand of an accumulator load or store through a register
/// pair.
#[derive(Clone, Copy, Debug, PartialEq, Eq, Structural)]
pub enum Indirect {
    /// The byte BC points at.
    BC,
    /// The byte DE points at.
    DE,
    /// The byte HL points at; HL is incremented afterwards.
    HlIncrement,
    /// The byte HL points at; HL is decremented afterwards.
    HlDecrement,
}

/// The conditions a branch can test.
#[derive(Clone, Copy, Debug, PartialEq, Eq, Structural)]
pub enum Condition {
    NotZero,
    Zero,
    NotCarry,
    Carry,
}

/// The one-byte operations on the accumulator and the flags.
#[derive(Clone, Copy, Debug, PartialEq, Eq, Structural)]
pub enum AccumulatorOp {
    RotateLeftCircular,
    RotateRightCircular,
    RotateLeft,
    RotateRight,
    DecimalAdjust,
    Complement,
    SetCarry,
    ComplementCarry,
}

/// What an instruction does, with its operands.
#[allow(inconsistent_fields)]
#[derive(Clone, Copy, Debug, PartialEq, Eq, Structural)]
pub enum Operation {
    /// Do nothing.
    Nop,
    /// Stop the clock until a button is pressed. The engine moves on as
    /// after `Nop`, past the opcode and the byte that follows it.
    Stop,
    /// Wait for an interrupt. The engine moves on as after `Nop`.
    Halt,
    /// Switch the interrupt master enable off.
    DisableInterrupts,
    /// Switch the interrupt master enable on; it takes effect one fetch
    /// later.
    EnableInterrupts,
    /// Copy `source` to `target`.
    Load { target: Operand, source: Operand },
    /// Store the immediate byte in `target`.
    LoadImmediate { target: Operand, value: u8 },
    /// Store the immediate word in a 16-bit register.
    LoadWide { target: Register16, value: u16 },
    /// Store the stack pointer at the immediate address.
    StoreStackPointer { address: u16 },
    /// Copy HL to the stack pointer.
    LoadStackPointerFromHl,
    /// Store the stack pointer plus a signed offset in HL.
    LoadHlFromStackOffset { offset: u8 },
    /// Add a signed offset to the stack pointer.
    AddStackPointer { offset: u8 },
    /// Store the accumulator through a register pair.
    StoreAccumulator { at: Indirect },
    /// Load the accumulator through a register pair.
    LoadAccumulator { from: Indirect },
    /// Store the accumulator at the immediate address.
    StoreAccumulatorDirect { address: u16 },
    /// Load the accumulator from the immediate address.
    LoadAccumulatorDirect { address: u16 },
    /// Store the accumulator at 0xFF00 plus the immediate byte.
    StoreHigh { offset: u8 },
    /// Load the accumulator from 0xFF00 plus the immediate byte.
    LoadHigh { offset: u8 },
    /// Store the accumulator at 0xFF00 plus register C.
    StoreHighC,
    /// Load the accumulator from 0xFF00 plus register C.
    LoadHighC,
    /// Add one to an 8-bit operand.
    Increment { target: Operand },
    /// Subtract one from an 8-bit operand.
    Decrement { target: Operand },
    /// Add one to a 16-bit register; no flag changes.
    IncrementWide { target: Register16 },
    /// Subtract one from a 16-bit register; no flag changes.
    DecrementWide { target: Register16 },
    /// Add a 16-bit register to HL.
    AddHl { source: Register16 },
    /// Combine the accumulator with `source`.
    Alu { op: AluOp, source: Operand },
    /// Combine the accumulator with the immediate byte.
    AluImmediate { op: AluOp, value: u8 },
    /// Rotate, adjust or complement the accumulator, or set or complement
    /// the carry flag.
    Accumulator { op: AccumulatorOp },
    /// Shift or rotate an 8-bit operand.
    Shift { op: ShiftOp, target: Operand },
    /// Copy the complement of bit `bit` of the operand to the zero flag.
    TestBit { bit: u8, target: Operand },
    /// Clear bit `bit` of the operand.
    ResetBit { bit: u8, target: Operand },
    /// Set bit `bit` of the operand.
    SetBit { bit: u8, target: Operand },
    /// Jump by a signed offset from the address after the instruction.
    JumpRelative { condition: Option<Condition>, offset: u8 },
    /// Jump to the immediate address.
    Jump { condition: Option<Condition>, address: u16 },
    /// Jump to the address in HL.
    JumpHl,
    /// Push the address of the next instruction and jump.
    Call { condition: Option<Condition>, address: u16 },
    /// Pop the address to continue at.
    Return { condition: Option<Condition> },
    /// Return from an interrupt routine; the interrupt master enable goes
    /// to disabled.
    ReturnFromInterrupt,
    /// Call one of the eight fixed addresses 0x00, 0x08, ..., 0x38.
    Restart { address: u16 },
    /// Push a register pair.
    Push { source: StackRegister },
    /// Pop a register pair.
    Pop { target: StackRegister },
}

/// The families of operations. The engine runs each family in a routine of
/// its own.
#[derive(Clone, Copy, Debug, PartialEq, Eq, Structural)]
pub enum Family {
    Load,
    StackPointer,
    Accumulator,
    HighPage,
    Count,
    Arithmetic,
    Bits,
    Jump,
    Stack,
}

/// Why a byte sequence does not decode.
#[derive(Clone, Copy, Debug, PartialEq, Eq, Structural)]
pub enum DecodeError {
    /// The opcode or one of its operand bytes lies past the end of the
    /// program bytes.
    OutOfRange,
    /// The opcode has no operation.
    UnknownOpcode,
}

/// A decoded instruction: where it was read and what it does.
#[derive(Clone, Copy, Debug, PartialEq, Eq, Structural)]
pub struct Instruction {
    /// Address of the opcode byte.
    pub address: u16,
    /// The operation with its operands.
    pub operation: Operation,
}

/// Entry `index` of the 8-bit operand table.
pub open spec fn operand_at(index: int) -> Operand {
    if index == 0 {
        Operand::Register(Register8::B)
    } else if index == 1 {
        Operand::Register(Register8::C)
    } else if index == 2 {
        Operand::Register(Register8::D)
    } else if index == 3 {
        Operand::Register(Register8::E)
    } else if index == 4 {
        Operand::Register(Register8::H)
    } else if index == 5 {
        Operand::Register(Register8::L)
    } else if index == 6 {
        Operand::HlIndirect
    } else {
        Operand::Register(Register8::A)
    }
}

/// Entry `index` of the 16-bit register table.
pub open spec fn wide_at(index: int) -> Register16 {
    if index == 0 {
        Register16::BC
    } else if index == 1 {
        Register16::DE
    } else if index == 2 {
        Register16::HL
    } else {
        Register16::SP
    }
}

/// Entry `index` of the stack pair table.
pub open spec fn stack_at(index: int) -> StackRegister {
    if index == 0 {
        StackRegister::BC
    } else if index == 1 {
        StackRegister::DE
    } else if index == 2 {
        StackRegister::HL
    } else {
        StackRegister::AF
    }
}

/// Entry `index` of the table of indirect accumulator operands.
pub open spec fn indirect_at(index: int) -> Indirect {
    if index == 0 {
        Indirect::BC
    } else if index == 1 {
        Indirect::DE
    } else if index == 2 {
        Indirect::HlIncrement
    } else {
        Indirect::HlDecrement
    }
}

/// Entry `index` of the condition table.
pub open spec fn condition_at(index: int) -> Condition {
    if index == 0 {
        Condition::NotZero
    } else if index == 1 {
        Condition::Zero
    } else if index == 2 {
        Condition::NotCarry
    } else {
        Condition::Carry
    }
}

/// Entry `index` of the table of accumulator-and-operand operations.
pub open spec fn alu_at(index: int) -> AluOp {
    if index == 0 {
        AluOp::Add
    } else if index == 1 {
        AluOp::AddCarry
    } else if index == 2 {
        AluOp::Subtract
    } else if index == 3 {
        AluOp::SubtractCarry
    } else if index == 4 {
        AluOp::And
    } else if index == 5 {
        AluOp::Xor
    } else if index == 6 {
        AluOp::Or
    } else {
        AluOp::Compare
    }
}

/// Entry `index` of the shift table.
pub open spec fn shift_at(index: int) -> ShiftOp {
    if index == 0 {
        ShiftOp::RotateLeftCircular
    } else if index == 1 {
        ShiftOp::RotateRightCircular
    } else if index == 2 {
        ShiftOp::RotateLeft
    } else if index == 3 {
        ShiftOp::RotateRight
    } else if index == 4 {
        ShiftOp::ShiftLeft
    } else if index == 5 {
        ShiftOp::ShiftRightArithmetic
    } else if index == 6 {
        ShiftOp::Swap
    } else {
        ShiftOp::ShiftRightLogical
    }
}

/// Entry `index` of the table of accumulator operations.
pub open spec fn accumulator_at(index: int) -> AccumulatorOp {
    if index == 0 {
        AccumulatorOp::RotateLeftCircular
    } else if index == 1 {
        AccumulatorOp::RotateRightCircular
    } else if index == 2 {
        AccumulatorOp::RotateLeft
    } else if index == 3 {
        AccumulatorOp::RotateRight
    } else if index == 4 {
        AccumulatorOp::DecimalAdjust
    } else if index == 5 {
        AccumulatorOp::Complement
    } else if index == 6 {
        AccumulatorOp::SetCarry
    } else {
        AccumulatorOp::ComplementCarry
    }
}

/// The operation of the extended family that the byte after the prefix
/// selects.
pub open spec fn extended_operation(code: u8) -> Operation {
    let x = code as int / 64;
    let y = code as int / 8 % 8;
    let target = operand_at(code as int % 8);
    if x == 0 {
        Operation::Shift { op: shift_at(y), target }
    } else if x == 1 {
        Operation::TestBit { bit: y as u8, target }
    } else if x == 2 {
        Operation::ResetBit { bit: y as u8, target }
    } else {
        Operation::SetBit { bit: y as u8, target }
    }
}

/// The operation of an opcode in the first quarter of the table
/// (`x == 0`).
pub open spec fn first_quarter(y: int, z: int, low: u8, high: u8) -> Operation {
    let p = y / 2;
    let q = y % 2;
    if z == 0 {
        if y == 0 {
            Operation::Nop
        } else if y == 1 {
            Operation::StoreStackPointer { address: word_of(low, high) }
        } else if y == 2 {
            Operation::Stop
        } else if y == 3 {
            Operation::JumpRelative { condition: None, offset: low }
        } else {
            Operation::JumpRelative { condition: Some(condition_at(y - 4)), offset: low }
        }
    } else if z == 1 {
        if q == 0 {
            Operation::LoadWide { target: wide_at(p), value: word_of(low, high) }
        } else {
            Operation::AddHl { source: wide_at(p) }
        }
    } else if z == 2 {
        if q == 0 {
            Operation::StoreAccumulator { at: indirect_at(p) }
        } else {
            Operation::LoadAccumulator { from: indirect_at(p) }
        }
    } else if z == 3 {
        if q == 0 {
            Operation::IncrementWide { target: wide_at(p) }
        } else {
            Operation::DecrementWide { target: wide_at(p) }
        }
    } else if z == 4 {
        Operation::Increment { target: operand_at(y) }
    } else if z == 5 {
        Operation::Decrement { target: operand_at(y) }
    } else if z == 6 {
        Operation::LoadImmediate { target: operand_at(y), value: low }
    } else {
        Operation::Accumulator { op: accumulator_at(y) }
    }
}

/// The operation of an opcode in the last quarter of the table
/// (`x == 3`), if it has one.
pub open spec fn last_quarter(y: int, z: int, low: u8, high: u8) -> Option<Operation> {
    let p = y / 2;
    let q = y % 2;
    let address = word_of(low, high);
    if z == 0 {
        if y < 4 {
            Some(Operation::Return { condition: Some(condition_at(y)) })
        } else if y == 4 {
            Some(Operation::StoreHigh { offset: low })
        } else if y == 5 {
            Some(Operation::AddStackPointer { offset: low })
        } else if y == 6 {
            Some(Operation::LoadHigh { offset: low })
        } else {
            Some(Operation::LoadHlFromStackOffset { offset: low })
        }
    } else if z == 1 {
        if q == 0 {
            Some(Operation::Pop { target: stack_at(p) })
        } else if p == 0 {
            Some(Operation::Return { condition: None })
        } else if p == 1 {
            Some(Operation::ReturnFromInterrupt)
        } else if p == 2 {
            Some(Operation::JumpHl)
        } else {
            Some(Operation::LoadStackPointerFromHl)
        }
    } else if z == 2 {
        if y < 4 {
            Some(Operation::Jump { condition: Some(condition_at(y)), address })
        } else if y == 4 {
            Some(Operation::StoreHighC)
        } else if y == 5 {
            Some(Operation::StoreAccumulatorDirect { address })
        } else if y == 6 {
            Some(Operation::LoadHighC)
        } else {
            Some(Operation::LoadAccumulatorDirect { address })
        }
    } else if z == 3 {
        if y == 0 {
            Some(Operation::Jump { condition: None, address })
        } else if y == 1 {
            Some(extended_operation(low))
        } else if y == 6 {
            Some(Operation::DisableInterrupts)
        } else if y == 7 {
            Some(Operation::EnableInterrupts)
        } else {
            None
        }
    } else if z == 4 {
        if y < 4 {
            Some(Operation::Call { condition: Some(condition_at(y)), address })
        } else {
            None
        }
    } else if z == 5 {
        if q == 0 {
            Some(Operation::Push { source: stack_at(p) })
        } else if p == 0 {
            Some(Operation::Call { condition: None, address })
        } else {
            None
        }
    } else if z == 6 {
        Some(Operation::AluImmediate { op: alu_at(y), value: low })
    } else {
        Some(Operation::Restart { address: (y * 8) as u16 })
    }
}

/// The operation that `opcode` selects, if it has one, given the two bytes
/// that follow it. An operation that takes fewer operand bytes ignores the
/// rest.
pub open spec fn operation_of(opcode: u8, low: u8, high: u8) -> Option<Operation> {
    let x = opcode as int / 64;
    let y = opcode as int / 8 % 8;
    let z = opcode as int % 8;
    if x == 0 {
        Some(first_quarter(y, z, low, high))
    } else if x == 1 {
        if opcode == 0x76 {
            Some(Operation::Halt)
        } else {
            Some(Operation::Load { target: operand_at(y), source: operand_at(z) })
        }
    } else if x == 2 {
        Some(Operation::Alu { op: alu_at(y), source: operand_at(z) })
    } else {
        last_quarter(y, z, low, high)
    }
}

/// The opcodes without an operation.
pub open spec fn undefined_opcode(opcode: u8) -> bool {
    opcode == 0xD3 || opcode == 0xDB || opcode == 0xDD || opcode == 0xE3 || opcode == 0xE4
        || opcode == 0xEB || opcode == 0xEC || opcode == 0xED || opcode == 0xF4 || opcode == 0xFC
        || opcode == 0xFD
}

impl Operand {
    /// Whether the operand is the byte HL points at.
    pub open spec fn in_memory(self) -> bool {
        self == Operand::HlIndirect
    }

    /// Whether the operand is the byte HL points at.
    #[verifier::when_used_as_spec(in_memory)]
    pub fn is_memory(self) -> (answer: bool)
        ensures
            answer == self.in_memory(),
    {
        match self {
            Operand::HlIndirect => true,
            Operand::Register(_) => false,
        }
    }
}

impl Operation {
    /// Every bit number is one of 0 to 7, as in every decoded operation.
    pub open spec fn wf(self) -> bool {
        match self {
            Operation::TestBit { bit, .. } => bit < 8,
            Operation::ResetBit { bit, .. } => bit < 8,
            Operation::SetBit { bit, .. } => bit < 8,
            _ => true,
        }
    }

    /// The number of bytes the encoded instruction takes.
    pub open spec fn spec_length(self) -> u16 {
        match self {
            Operation::Stop
            | Operation::LoadImmediate { .. }
            | Operation::LoadHlFromStackOffset { .. }
            | Operation::AddStackPointer { .. }
            | Operation::StoreHigh { .. }
            | Operation::LoadHigh { .. }
            | Operation::AluImmediate { .. }
            | Operation::Shift { .. }
            | Operation::TestBit { .. }
            | Operation::ResetBit { .. }
            | Operation::SetBit { .. }
            | Operation::JumpRelative { .. } => 2,
            Operation::LoadWide { .. }
            | Operation::StoreStackPointer { .. }
            | Operation::StoreAccumulatorDirect { .. }
            | Operation::LoadAccumulatorDirect { .. }
            | Operation::Jump { .. }
            | Operation::Call { .. } => 3,
            _ => 1,
        }
    }

    /// The family the operation belongs to.
    pub open spec fn family(self) -> Family {
        match self {
            Operation::Load { .. }
            | Operation::LoadImmediate { .. }
            | Operation::LoadWide { .. } => Family::Load,
            Operation::StoreStackPointer { .. }
            | Operation::LoadStackPointerFromHl
            | Operation::LoadHlFromStackOffset { .. }
            | Operation::AddStackPointer { .. } => Family::StackPointer,
            Operation::StoreAccumulator { .. }
            | Operation::LoadAccumulator { .. }
            | Operation::StoreAccumulatorDirect { .. }
            | Operation::LoadAccumulatorDirect { .. } => Family::Accumulator,
            Operation::StoreHigh { .. }
            | Operation::LoadHigh { .. }
            | Operation::StoreHighC
            | Operation::LoadHighC => Family::HighPage,
            Operation::Increment { .. }
            | Operation::Decrement { .. }
            | Operation::IncrementWide { .. }
            | Operation::DecrementWide { .. } => Family::Count,
            Operation::AddHl { .. }
            | Operation::Alu { .. }
            | Operation::AluImmediate { .. }
            | Operation::Accumulator { .. } => Family::Arithmetic,
            Operation::Shift { .. }
            | Operation::TestBit { .. }
            | Operation::ResetBit { .. }
            | Operation::SetBit { .. } => Family::Bits,
            Operation::Call { .. }
            | Operation::Return { .. }
            | Operation::ReturnFromInterrupt
            | Operation::Restart { .. }
            | Operation::Push { .. }
            | Operation::Pop { .. } => Family::Stack,
            _ => Family::Jump,
        }
    }

    /// Whether the operation can set the program counter to anything but
    /// the address after the instruction: a jump, a call, a return or a
    /// restart.
    pub open spec fn transfers_control(self) -> bool {
        match self {
            Operation::JumpRelative { .. }
            | Operation::Jump { .. }
            | Operation::JumpHl
            | Operation::Call { .. }
            | Operation::Return { .. }
            | Operation::ReturnFromInterrupt
            | Operation::Restart { .. } => true,
            _ => false,
        }
    }

    /// The condition the operation tests, if it is a branch that tests one.
    pub open spec fn spec_condition(self) -> Option<Condition> {
        match self {
            Operation::JumpRelative { condition, .. } => condition,
            Operation::Jump { condition, .. } => condition,
            Operation::Call { condition, .. } => condition,
            Operation::Return { condition } => condition,
            _ => None,
        }
    }

    /// The cost in machine cycles; `taken` says whether a conditional branch
    /// is taken and has no bearing on any other operation.
    pub open spec fn spec_cycles(self, taken: bool) -> u32 {
        match self {
            Operation::Nop
            | Operation::Stop
            | Operation::Halt
            | Operation::DisableInterrupts
            | Operation::EnableInterrupts
            | Operation::Accumulator { .. }
            | Operation::JumpHl => 1,
            Operation::Load { target, source } => if target.in_memory() || source.in_memory() {
                2
            } else {
                1
            },
            Operation::LoadImmediate { target, .. } => if target.in_memory() {
                3
            } else {
                2
            },
            Operation::LoadWide { .. } => 3,
            Operation::StoreStackPointer { .. } => 5,
            Operation::LoadStackPointerFromHl => 2,
            Operation::LoadHlFromStackOffset { .. } => 3,
            Operation::AddStackPointer { .. } => 4,
            Operation::StoreAccumulator { .. } | Operation::LoadAccumulator { .. } => 2,
            Operation::StoreAccumulatorDirect { .. } | Operation::LoadAccumulatorDirect { .. } => 4,
            Operation::StoreHigh { .. } | Operation::LoadHigh { .. } => 3,
            Operation::StoreHighC | Operation::LoadHighC => 2,
            Operation::Increment { target } | Operation::Decrement { target } => if target.in_memory() {
                3
            } else {
                1
            },
            Operation::IncrementWide { .. }
            | Operation::DecrementWide { .. }
            | Operation::AddHl { .. } => 2,
            Operation::Alu { source, .. } => if source.in_memory() {
                2
            } else {
                1
            },
            Operation::AluImmediate { .. } => 2,
            Operation::Shift { target, .. }
            | Operation::ResetBit { target, .. }
            | Operation::SetBit { target, .. } => if target.in_memory() {
                4
            } else {
                2
            },
            Operation::TestBit { target, .. } => if target.in_memory() {
                3
            } else {
                2
            },
            Operation::JumpRelative { condition, .. } => if condition is Some && !taken {
                2
            } else {
                3
            },
            Operation::Jump { condition, .. } => if condition is Some && !taken {
                3
            } else {
                4
            },
            Operation::Call { condition, .. } => if condition is Some && !taken {
                3
            } else {
                6
            },
            Operation::Return { condition } => if condition is None {
                4
            } else if taken {
                5
            } else {
                2
            },
            Operation::ReturnFromInterrupt | Operation::Restart { .. } | Operation::Push { .. } => 4,
            Operation::Pop { .. } => 3,
        }
    }

    /// The family the operation belongs to.
    #[verifier::when_used_as_spec(family)]
    pub fn classify(self) -> (family: Family)
        ensures
            family == self.family(),
    {
        match self {
            Operation::Load { .. }
            | Operation::LoadImmediate { .. }
            | Operation::LoadWide { .. } => Family::Load,
            Operation::StoreStackPointer { .. }
            | Operation::LoadStackPointerFromHl
            | Operation::LoadHlFromStackOffset { .. }
            | Operation::AddStackPointer { .. } => Family::StackPointer,
            Operation::StoreAccumulator { .. }
            | Operation::LoadAccumulator { .. }
            | Operation::StoreAccumulatorDirect { .. }
            | Operation::LoadAccumulatorDirect { .. } => Family::Accumulator,
            Operation::StoreHigh { .. }
            | Operation::LoadHigh { .. }
            | Operation::StoreHighC
            | Operation::LoadHighC => Family::HighPage,
            Operation::Increment { .. }
            | Operation::Decrement { .. }
            | Operation::IncrementWide { .. }
            | Operation::DecrementWide { .. } => Family::Count,
            Operation::AddHl { .. }
            | Operation::Alu { .. }
            | Operation::AluImmediate { .. }
            | Operation::Accumulator { .. } => Family::Arithmetic,
            Operation::Shift { .. }
            | Operation::TestBit { .. }
            | Operation::ResetBit { .. }
            | Operation::SetBit { .. } => Family::Bits,
            Operation::Call { .. }
            | Operation::Return { .. }
            | Operation::ReturnFromInterrupt
            | Operation::Restart { .. }
            | Operation::Push { .. }
            | Operation::Pop { .. } => Family::Stack,
            _ => Family::Jump,
        }
    }

    /// The condition the operation tests, if it is a branch that tests one.
    #[verifier::when_used_as_spec(spec_condition)]
    pub fn condition(self) -> (condition: Option<Condition>)
        ensures
            condition == self.spec_condition(),
    {
        match self {
            Operation::JumpRelative { condition, .. } => condition,
            Operation::Jump { condition, .. } => condition,
            Operation::Call { condition, .. } => condition,
            Operation::Return { condition } => condition,
            _ => None,
        }
    }

    /// The number of bytes the encoded instruction takes.
    #[verifier::when_used_as_spec(spec_length)]
    pub fn length(self) -> (length: u16)
        ensures
            length == self.spec_length(),
    {
        match self {
            Operation::Stop
            | Operation::LoadImmediate { .. }
            | Operation::LoadHlFromStackOffset { .. }
            | Operation::AddStackPointer { .. }
            | Operation::StoreHigh { .. }
            | Operation::LoadHigh { .. }
            | Operation::AluImmediate { .. }
            | Operation::Shift { .. }
            | Operation::TestBit { .. }
            | Operation::ResetBit { .. }
            | Operation::SetBit { .. }
            | Operation::JumpRelative { .. } => 2,
            Operation::LoadWide { .. }
            | Operation::StoreStackPointer { .. }
            | Operation::StoreAccumulatorDirect { .. }
            | Operation::LoadAccumulatorDirect { .. }
            | Operation::Jump { .. }
            | Operation::Call { .. } => 3,
            _ => 1,
        }
    }

    /// The cost in machine cycles. `taken` says whether a conditional branch
    /// is taken; it has no bearing on any other operation.
    #[verifier::when_used_as_spec(spec_cycles)]
    pub fn cycles(self, taken: bool) -> (cycles: u32)
        ensures
            cycles == self.spec_cycles(taken),
    {
        match self {
            Operation::Nop
            | Operation::Stop
            | Operation::Halt
            | Operation::DisableInterrupts
            | Operation::EnableInterrupts
            | Operation::Accumulator { .. }
            | Operation::JumpHl => 1,
            Operation::Load { target, source } => if target.is_memory() || source.is_memory() {
                2
            } else {
                1
            },
            Operation::LoadImmediate { target, .. } => if target.is_memory() {
                3
            } else {
                2
            },
            Operation::LoadWide { .. } => 3,
            Operation::StoreStackPointer { .. } => 5,
            Operation::LoadStackPointerFromHl => 2,
            Operation::LoadHlFromStackOffset { .. } => 3,
            Operation::AddStackPointer { .. } => 4,
            Operation::StoreAccumulator { .. } | Operation::LoadAccumulator { .. } => 2,
            Operation::StoreAccumulatorDirect { .. } | Operation::LoadAccumulatorDirect { .. } => 4,
            Operation::StoreHigh { .. } | Operation::LoadHigh { .. } => 3,
            Operation::StoreHighC | Operation::LoadHighC => 2,
            Operation::Increment { target } | Operation::Decrement { target } => if target.is_memory() {
                3
            } else {
                1
            },
            Operation::IncrementWide { .. }
            | Operation::DecrementWide { .. }
            | Operation::AddHl { .. } => 2,
            Operation::Alu { source, .. } => if source.is_memory() {
                2
            } else {
                1
            },
            Operation::AluImmediate { .. } => 2,
            Operation::Shift { target, .. }
            | Operation::ResetBit { target, .. }
            | Operation::SetBit { target, .. } => if target.is_memory() {
                4
            } else {
                2
            },
            Operation::TestBit { target, .. } => if target.is_memory() {
                3
            } else {
                2
            },
            Operation::JumpRelative { condition, .. } => if condition.is_some() && !taken {
                2
            } else {
                3
            },
            Operation::Jump { condition, .. } => if condition.is_some() && !taken {
                3
            } else {
                4
            },
            Operation::Call { condition, .. } => if condition.is_some() && !taken {
                3
            } else {
                6
            },
            Operation::Return { condition } => if condition.is_none() {
                4
            } else if taken {
                5
            } else {
                2
            },
            Operation::ReturnFromInterrupt | Operation::Restart { .. } | Operation::Push { .. } => 4,
            Operation::Pop { .. } => 3,
        }
    }
}

/// The instruction encoded at `address` in `program`, or why there is
/// none. The result depends on nothing but the two arguments.
#[verifier::opaque]
pub open spec fn decode(address: u16, program: Seq<u8>) -> Result<Instruction, DecodeError> {
    if address as int >= program.len() {
        Err(DecodeError::OutOfRange)
    } else {
        let opcode = program[address as int];
        match operation_of(opcode, 0, 0) {
            None => Err(DecodeError::UnknownOpcode),
            Some(shape) => if address + shape.spec_length() > program.len() {
                Err(DecodeError::OutOfRange)
            } else {
                let low = if shape.spec_length() >= 2 {
                    program[address + 1]
                } else {
                    0u8
                };
                let high = if shape.spec_length() >= 3 {
                    program[address + 2]
                } else {
                    0u8
                };
                Ok(Instruction { address, operation: operation_of(opcode, low, high)->Some_0 })
            },
        }
    }
}

/// Computes [`operand_at`].
fn operand_entry(index: u8) -> (operand: Operand)
    requires
        index < 8,
    ensures
        operand == operand_at(index as int),
{
    match index {
        0 => Operand::Register(Register8::B),
        1 => Operand::Register(Register8::C),
        2 => Operand::Register(Register8::D),
        3 => Operand::Register(Register8::E),
        4 => Operand::Register(Register8::H),
        5 => Operand::Register(Register8::L),
        6 => Operand::HlIndirect,
        _ => Operand::Register(Register8::A),
    }
}

/// Computes [`wide_at`].
fn wide_entry(index: u8) -> (register: Register16)
    requires
        index < 4,
    ensures
        register == wide_at(index as int),
{
    match index {
        0 => Register16::BC,
        1 => Register16::DE,
        2 => Register16::HL,
        _ => Register16::SP,
    }
}

/// Computes [`stack_at`].
fn stack_entry(index: u8) -> (register: StackRegister)
    requires
        index < 4,
    ensures
        register == stack_at(index as int),
{
    match index {
        0 => StackRegister::BC,
        1 => StackRegister::DE,
        2 => StackRegister::HL,
        _ => StackRegister::AF,
    }
}

/// Computes [`indirect_at`].
fn indirect_entry(index: u8) -> (indirect: Indirect)
    requires
        index < 4,
    ensures
        indirect == indirect_at(index as int),
{
    match index {
        0 => Indirect::BC,
        1 => Indirect::DE,
        2 => Indirect::HlIncrement,
        _ => Indirect::HlDecrement,
    }
}

/// Computes [`condition_at`].
fn condition_entry(index: u8) -> (condition: Condition)
    requires
        index < 4,
    ensures
        condition == condition_at(index as int),
{
    match index {
        0 => Condition::NotZero,
        1 => Condition::Zero,
        2 => Condition::NotCarry,
        _ => Condition::Carry,
    }
}

/// Computes [`alu_at`].
fn alu_entry(index: u8) -> (op: AluOp)
    requires
        index < 8,
    ensures
        op == alu_at(index as int),
{
    match index {
        0 => AluOp::Add,
        1 => AluOp::AddCarry,
        2 => AluOp::Subtract,
        3 => AluOp::SubtractCarry,
        4 => AluOp::And,
        5 => AluOp::Xor,
        6 => AluOp::Or,
        _ => AluOp::Compare,
    }
}

/// Computes [`shift_at`].
fn shift_entry(index: u8) -> (op: ShiftOp)
    requires
        index < 8,
    ensures
        op == shift_at(index as int),
{
    match index {
        0 => ShiftOp::RotateLeftCircular,
        1 => ShiftOp::RotateRightCircular,
        2 => ShiftOp::RotateLeft,
        3 => ShiftOp::RotateRight,
        4 => ShiftOp::ShiftLeft,
        5 => ShiftOp::ShiftRightArithmetic,
        6 => ShiftOp::Swap,
        _ => ShiftOp::ShiftRightLogical,
    }
}

/// Computes [`accumulator_at`].
fn accumulator_entry(index: u8) -> (op: AccumulatorOp)
    requires
        index < 8,
    ensures
        op == accumulator_at(index as int),
{
    match index {
        0 => AccumulatorOp::RotateLeftCircular,
        1 => AccumulatorOp::RotateRightCircular,
        2 => AccumulatorOp::RotateLeft,
        3 => AccumulatorOp::RotateRight,
        4 => AccumulatorOp::DecimalAdjust,
        5 => AccumulatorOp::Complement,
        6 => AccumulatorOp::SetCarry,
        _ => AccumulatorOp::ComplementCarry,
    }
}

/// The three fields of an opcode byte.
struct Fields {
    x: u8,
    y: u8,
    z: u8,
}

/// Splits an opcode byte into its three fields.
fn split(code: u8) -> (fields: Fields)
    ensures
        fields.x == code as int / 64,
        fields.y == code as int / 8 % 8,
        fields.z == code as int % 8,
{
    assert(code >> 6 == code / 64) by (bit_vector);
    assert((code >> 3) & 7 == code / 8 % 8) by (bit_vector);
    assert(code & 7 == code % 8) by (bit_vector);
    Fields { x: code >> 6, y: (code >> 3) & 7, z: code & 7 }
}

/// Computes [`extended_operation`].
fn extended(code: u8) -> (operation: Operation)
    ensures
        operation == extended_operation(code),
{
    let fields = split(code);
    let target = operand_entry(fields.z);
    match fields.x {
        0 => Operation::Shift { op: shift_entry(fields.y), target },
        1 => Operation::TestBit { bit: fields.y, target },
        2 => Operation::ResetBit { bit: fields.y, target },
        _ => Operation::SetBit { bit: fields.y, target },
    }
}

/// Computes [`first_quarter`].
fn first_quarter_operation(y: u8, z: u8, low: u8, high: u8) -> (operation: Operation)
    requires
        y < 8,
        z < 8,
    ensures
        operation == first_quarter(y as int, z as int, low, high),
{
    let p: u8 = y / 2;
    let first: bool = y % 2 == 0;
    match z {
        0 => match y {
            0 => Operation::Nop,
            1 => Operation::StoreStackPointer { address: make_word(low, high) },
            2 => Operation::Stop,
            3 => Operation::JumpRelative { condition: None, offset: low },
            _ => Operation::JumpRelative { condition: Some(condition_entry(y - 4)), offset: low },
        },
        1 => if first {
            Operation::LoadWide { target: wide_entry(p), value: make_word(low, high) }
        } else {
            Operation::AddHl { source: wide_entry(p) }
        },
        2 => if first {
            Operation::StoreAccumulator { at: indirect_entry(p) }
        } else {
            Operation::LoadAccumulator { from: indirect_entry(p) }
        },
        3 => if first {
            Operation::IncrementWide { target: wide_entry(p) }
        } else {
            Operation::DecrementWide { target: wide_entry(p) }
        },
        4 => Operation::Increment { target: operand_entry(y) },
        5 => Operation::Decrement { target: operand_entry(y) },
        6 => Operation::LoadImmediate { target: operand_entry(y), value: low },
        _ => Operation::Accumulator { op: accumulator_entry(y) },
    }
}

/// Computes [`last_quarter`].
fn last_quarter_operation(y: u8, z: u8, low: u8, high: u8) -> (operation: Option<Operation>)
    requires
        y < 8,
        z < 8,
    ensures
        operation == last_quarter(y as int, z as int, low, high),
{
    let p: u8 = y / 2;
    let first: bool = y % 2 == 0;
    let address: u16 = make_word(low, high);
    match z {
        0 => match y {
            0 | 1 | 2 | 3 => Some(Operation::Return { condition: Some(condition_entry(y)) }),
            4 => Some(Operation::StoreHigh { offset: low }),
            5 => Some(Operation::AddStackPointer { offset: low }),
            6 => Some(Operation::LoadHigh { offset: low }),
            _ => Some(Operation::LoadHlFromStackOffset { offset: low }),
        },
        1 => if first {
            Some(Operation::Pop { target: stack_entry(p) })
        } else {
            match p {
                0 => Some(Operation::Return { condition: None }),
                1 => Some(Operation::ReturnFromInterrupt),
                2 => Some(Operation::JumpHl),
                _ => Some(Operation::LoadStackPointerFromHl),
            }
        },
        2 => match y {
            0 | 1 | 2 | 3 => Some(
                Operation::Jump { condition: Some(condition_entry(y)), address },
            ),
            4 => Some(Operation::StoreHighC),
            5 => Some(Operation::StoreAccumulatorDirect { address }),
            6 => Some(Operation::LoadHighC),
            _ => Some(Operation::LoadAccumulatorDirect { address }),
        },
        3 => match y {
            0 => Some(Operation::Jump { condition: None, address }),
            1 => Some(extended(low)),
            6 => Some(Operation::DisableInterrupts),
            7 => Some(Operation::EnableInterrupts),
            _ => None,
        },
        4 => if y < 4 {
            Some(Operation::Call { condition: Some(condition_entry(y)), address })
        } else {
            None
        },
        5 => if first {
            Some(Operation::Push { source: stack_entry(p) })
        } else if p == 0 {
            Some(Operation::Call { condition: None, address })
        } else {
            None
        },
        6 => Some(Operation::AluImmediate { op: alu_entry(y), value: low }),
        _ => Some(Operation::Restart { address: (y as u16) * 8 }),
    }
}

/// Computes [`operation_of`].
pub fn operation_for(opcode: u8, low: u8, high: u8) -> (operation: Option<Operation>)
    ensures
        operation == operation_of(opcode, low, high),
{
    let fields = split(opcode);
    match fields.x {
        0 => Some(first_quarter_operation(fields.y, fields.z, low, high)),
        1 => if opcode == 0x76 {
            Some(Operation::Halt)
        } else {
            Some(
                Operation::Load {
                    target: operand_entry(fields.y),
                    source: operand_entry(fields.z),
                },
            )
        },
        2 => Some(Operation::Alu { op: alu_entry(fields.y), source: operand_entry(fields.z) }),
        _ => last_quarter_operation(fields.y, fields.z, low, high),
    }
}

impl Instruction {
    /// Every bit number in the instruction is one of 0 to 7.
    pub open spec fn wf(self) -> bool {
        self.operation.wf()
    }

    /// Decodes the instruction at `address` in `program`.
    pub fn create(address: u16, program: &[u8]) -> (result: Result<Instruction, DecodeError>)
        ensures
            result == decode(address, program@),
            result is Ok ==> result->Ok_0.wf(),
    {
        reveal(decode);
        let at: usize = address as usize;
        if at >= program.len() {
            return Err(DecodeError::OutOfRange);
        }
        let opcode: u8 = program[at];
        let length: usize = match operation_for(opcode, 0, 0) {
            None => {
                return Err(DecodeError::UnknownOpcode);
            },
            Some(shape) => shape.length() as usize,
        };
        if length > program.len() - at {
            return Err(DecodeError::OutOfRange);
        }
        let low: u8 = if length >= 2 {
            program[at + 1]
        } else {
            0
        };
        let high: u8 = if length >= 3 {
            program[at + 2]
        } else {
            0
        };
        match operation_for(opcode, low, high) {
            Some(operation) => Ok(Instruction { address, operation }),
            None => Err(DecodeError::UnknownOpcode),
        }
    }

    /// The number of bytes the encoded instruction takes.
    pub fn length(&self) -> (length: u16)
        ensures
            length == self.operation.spec_length(),
    {
        self.operation.length()
    }

    /// The cost in machine cycles, for a conditional branch that is taken
    /// or not.
    pub fn cycles(&self, taken: bool) -> (cycles: u32)
        ensures
            cycles == self.operation.spec_cycles(taken),
    {
        self.operation.cycles(taken)
    }
}

/// When decoding succeeds. It fails as out of range if the opcode byte or
/// one of the operand bytes it calls for lies past the end of the program,
/// and as an unknown opcode if the opcode byte is one of the eleven
/// undefined ones; on every other input it gives the instruction at
/// `address`, well formed and wholly inside the program.
pub proof fn lemma_decode_outcomes(address: u16, program: Seq<u8>)
    ensures
        decode(address, program) == Err::<Instruction, DecodeError>(DecodeError::UnknownOpcode)
            <==> address < program.len() && undefined_opcode(program[address as int]),
        decode(address, program) == Err::<Instruction, DecodeError>(DecodeError::OutOfRange)
            <==> address >= program.len() || (!undefined_opcode(program[address as int])
            && address + operation_of(program[address as int], 0, 0)->Some_0.spec_length()
            > program.len()),
        decode(address, program) is Ok ==> {
            let instruction = decode(address, program)->Ok_0;
            &&& instruction.address == address
            &&& instruction.wf()
            &&& address + instruction.operation.spec_length() <= program.len()
            &&& instruction.operation.spec_length() == operation_of(
                program[address as int],
                0,
                0,
            )->Some_0.spec_length()
        },
{
    reveal(decode);
}

/// An opcode has an operation unless it is one of the eleven undefined
/// ones, whatever bytes follow it.
pub proof fn lemma_undefined_opcodes(opcode: u8, low: u8, high: u8)
    ensures
        operation_of(opcode, low, high) is None <==> undefined_opcode(opcode),
{
}

/// The operand bytes change the operands of an operation, never its
/// length, its cost or whether it is a conditional branch; the operation is
/// well formed, takes one to three bytes and costs one to six machine
/// cycles.
pub proof fn lemma_operation_shape(opcode: u8, low: u8, high: u8, taken: bool)
    requires
        !undefined_opcode(opcode),
    ensures
        operation_of(opcode, low, high) is Some,
        operation_of(opcode, 0, 0) is Some,
        operation_of(opcode, low, high)->Some_0.wf(),
        operation_of(opcode, low, high)->Some_0.spec_length() == operation_of(
            opcode,
            0,
            0,
        )->Some_0.spec_length(),
        1 <= operation_of(opcode, low, high)->Some_0.spec_length() <= 3,
        1 <= operation_of(opcode, low, high)->Some_0.spec_cycles(taken) <= 6,
{
}

} // verus!
