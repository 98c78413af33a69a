//! What each operation does to the registers, the interrupt master enable
//! and the bus, and what it costs. This is the reference the executable
//! engine is proved against.

use vstd::prelude::*;
use crate::alu::{
    add16, add_offset, alu, bit_set, clear_bit, dec8, decimal_adjust, inc8, raise_bit, shift,
    AluOp, AluResult, ShiftOp,
};
use crate::cpu::InterruptMasterEnableStatus;
use crate::instruction::{
    AccumulatorOp, Condition, Family, Indirect, Instruction, Operand, Operation,
};
use crate::mem_map::{Bus, BusError, Region};
use crate::memory::{high_byte, lemma_word_bytes, low_byte};
use crate::register_set::RegisterSet;

verus! {

/// `value` reduced to 16 bits.
#[verifier::opaque]
pub open spec fn wrap16(value: int) -> u16 {
    (value % 0x1_0000) as u16
}

/// Computes `base + by`, reduced to 16 bits.
pub fn forward(base: u16, by: u16) -> (moved: u16)
    ensures
        moved == wrap16(base + by),
{
    reveal(wrap16);
    base.wrapping_add(by)
}

/// Computes `base - by`, reduced to 16 bits.
pub fn back(base: u16, by: u16) -> (moved: u16)
    ensures
        moved == wrap16(base - by),
{
    reveal(wrap16);
    base.wrapping_sub(by)
}

/// Everything an instruction can read or change.
#[verifier::ext_equal]
pub struct Core {
    pub registers: RegisterSet,
    pub interrupts: InterruptMasterEnableStatus,
    pub bus: Bus,
}

/// The state an instruction leaves behind and what it reports: its cost in
/// machine cycles, or the bus error that stopped it.
#[verifier::ext_equal]
pub struct Outcome {
    pub state: Core,
    pub result: Result<u32, BusError>,
}

/// Whether `condition` holds for the flags in `registers`.
pub open spec fn condition_holds(registers: RegisterSet, condition: Condition) -> bool {
    match condition {
        Condition::NotZero => !registers.zero,
        Condition::Zero => registers.zero,
        Condition::NotCarry => !registers.carry,
        Condition::Carry => registers.carry,
    }
}

/// Whether a branch is taken: always without a condition, else when the
/// condition holds.
pub open spec fn branch_taken(registers: RegisterSet, condition: Option<Condition>) -> bool {
    match condition {
        None => true,
        Some(condition) => condition_holds(registers, condition),
    }
}

/// What `operation` costs in machine cycles when it runs on `registers`:
/// for a conditional branch the cost depends on whether the flags let it be
/// taken.
pub open spec fn cost_of(registers: RegisterSet, operation: Operation) -> u32 {
    operation.spec_cycles(branch_taken(registers, operation.spec_condition()))
}

/// The shift that an accumulator rotate performs.
pub open spec fn rotation_of(op: AccumulatorOp) -> ShiftOp {
    match op {
        AccumulatorOp::RotateLeftCircular => ShiftOp::RotateLeftCircular,
        AccumulatorOp::RotateRightCircular => ShiftOp::RotateRightCircular,
        AccumulatorOp::RotateLeft => ShiftOp::RotateLeft,
        _ => ShiftOp::RotateRight,
    }
}

/// The registers after a one-byte operation on the accumulator and flags.
#[verifier::opaque]
pub open spec fn accumulate(registers: RegisterSet, op: AccumulatorOp) -> RegisterSet {
    match op {
        AccumulatorOp::DecimalAdjust => {
            let result = decimal_adjust(
                registers.a,
                registers.subtract,
                registers.half_carry,
                registers.carry,
            );
            RegisterSet { a: result.value, ..registers }.with_flags(
                result.zero,
                registers.subtract,
                false,
                result.carry,
            )
        },
        AccumulatorOp::Complement => RegisterSet {
            a: (255 - registers.a) as u8,
            subtract: true,
            half_carry: true,
            ..registers
        },
        AccumulatorOp::SetCarry => RegisterSet {
            subtract: false,
            half_carry: false,
            carry: true,
            ..registers
        },
        AccumulatorOp::ComplementCarry => RegisterSet {
            subtract: false,
            half_carry: false,
            carry: !registers.carry,
            ..registers
        },
        _ => {
            let result = shift(rotation_of(op), registers.a, registers.carry);
            RegisterSet { a: result.value, ..registers }.with_flags(
                false,
                false,
                false,
                result.carry,
            )
        },
    }
}

/// The registers after the accumulator was combined with `operand`. A
/// comparison sets the flags and keeps the accumulator.
#[verifier::opaque]
pub open spec fn combine(registers: RegisterSet, op: AluOp, operand: u8) -> RegisterSet {
    let result = alu(op, registers.a, operand, registers.carry);
    RegisterSet {
        a: if op == AluOp::Compare {
            registers.a
        } else {
            result.value
        },
        ..registers
    }.with_flags(result.zero, result.subtract, result.half_carry, result.carry)
}

impl Core {
    /// The outcome of an instruction that completed: the program counter
    /// moves to `pc` and the cost is reported.
    pub open spec fn finish(self, pc: u16, cycles: u32) -> Outcome {
        Outcome {
            state: Core { registers: RegisterSet { pc, ..self.registers }, ..self },
            result: Ok(cycles),
        }
    }

    /// The outcome of an instruction that a bus error stopped.
    pub open spec fn fail(self, error: BusError) -> Outcome {
        Outcome { state: self, result: Err(error) }
    }

    /// Completes with the state in `written`, or fails with its error and
    /// the state of `self`.
    pub open spec fn settle(self, written: Result<Core, BusError>, pc: u16, cycles: u32) -> Outcome {
        match written {
            Ok(core) => core.finish(pc, cycles),
            Err(error) => self.fail(error),
        }
    }

    /// The value of an 8-bit operand.
    #[verifier::opaque]
    pub open spec fn read_operand(self, operand: Operand) -> Result<u8, BusError> {
        match operand {
            Operand::Register(register) => Ok(self.registers.spec_get(register)),
            Operand::HlIndirect => self.bus.read_byte(self.registers.spec_hl()),
        }
    }

    /// The state after `value` was stored in an 8-bit operand.
    #[verifier::opaque]
    pub open spec fn write_operand(self, operand: Operand, value: u8) -> Result<Core, BusError> {
        match operand {
            Operand::Register(register) => Ok(
                Core { registers: self.registers.with(register, value), ..self },
            ),
            Operand::HlIndirect => self.write_byte(self.registers.spec_hl(), value),
        }
    }

    /// The state after `value` was written to the bus at `address`.
    pub open spec fn write_byte(self, address: u16, value: u8) -> Result<Core, BusError> {
        match self.bus.write_byte(address, value) {
            Ok(bus) => Ok(Core { bus, ..self }),
            Err(error) => Err(error),
        }
    }

    /// The state with the registers replaced.
    pub open spec fn with_registers(self, registers: RegisterSet) -> Core {
        Core { registers, ..self }
    }

    /// The state with the flags of `result`.
    pub open spec fn with_result(self, result: AluResult) -> Core {
        Core {
            registers: self.registers.with_flags(
                result.zero,
                result.subtract,
                result.half_carry,
                result.carry,
            ),
            ..self
        }
    }

    /// The address an indirect accumulator operand names.
    pub open spec fn pointer(self, indirect: Indirect) -> u16 {
        match indirect {
            Indirect::BC => self.registers.spec_bc(),
            Indirect::DE => self.registers.spec_de(),
            _ => self.registers.spec_hl(),
        }
    }

    /// The registers after an indirect accumulator access: HL moves by one
    /// where the operand says so.
    #[verifier::opaque]
    pub open spec fn moved_pointer(registers: RegisterSet, indirect: Indirect) -> RegisterSet {
        match indirect {
            Indirect::HlIncrement => registers.with_hl(wrap16(registers.spec_hl() + 1)),
            Indirect::HlDecrement => registers.with_hl(wrap16(registers.spec_hl() - 1)),
            _ => registers,
        }
    }

    /// Pushes `value`: the high byte goes to `sp - 1`, the low byte to
    /// `sp - 2`, then the stack pointer moves down by two. A refused write
    /// stops the push where it stands.
    #[verifier::opaque]
    pub open spec fn push(self, value: u16) -> (Core, Result<(), BusError>) {
        let sp = self.registers.sp;
        match self.bus.write_byte(wrap16(sp - 1), high_byte(value)) {
            Err(error) => (self, Err(error)),
            Ok(first) => match first.write_byte(wrap16(sp - 2), low_byte(value)) {
                Err(error) => (Core { bus: first, ..self }, Err(error)),
                Ok(second) => (
                    Core {
                        bus: second,
                        registers: RegisterSet { sp: wrap16(sp - 2), ..self.registers },
                        ..self
                    },
                    Ok(()),
                ),
            },
        }
    }

    /// Pops a word: reads it little-endian at `sp`, then moves the stack
    /// pointer up by two.
    #[verifier::opaque]
    pub open spec fn pop(self) -> (Core, Result<u16, BusError>) {
        let sp = self.registers.sp;
        match self.bus.read_word(sp) {
            Err(error) => (self, Err(error)),
            Ok(value) => (
                Core { registers: RegisterSet { sp: wrap16(sp + 2), ..self.registers }, ..self },
                Ok(value),
            ),
        }
    }

    /// Pushes `return_to` and continues at `target`.
    pub open spec fn call(self, return_to: u16, target: u16, cycles: u32) -> Outcome {
        let (core, pushed) = self.push(return_to);
        match pushed {
            Ok(_) => core.finish(target, cycles),
            Err(error) => core.fail(error),
        }
    }

    /// Pops the address to continue at.
    pub open spec fn ret(self, cycles: u32) -> Outcome {
        let (core, popped) = self.pop();
        match popped {
            Ok(target) => core.finish(target, cycles),
            Err(error) => core.fail(error),
        }
    }

    /// Reads `target`, applies `change` to the value and the carry flag,
    /// stores the new value and takes over the flags.
    #[verifier::opaque]
    pub open spec fn modify(
        self,
        target: Operand,
        change: spec_fn(u8, bool) -> AluResult,
        pc: u16,
        cycles: u32,
    ) -> Outcome {
        match self.read_operand(target) {
            Err(error) => self.fail(error),
            Ok(value) => {
                let result = change(value, self.registers.carry);
                match self.write_operand(target, result.value) {
                    Err(error) => self.fail(error),
                    Ok(written) => written.with_result(result).finish(pc, cycles),
                }
            },
        }
    }
}

/// The outcome of a load into a register or through HL.
#[verifier::opaque]
pub open spec fn execute_load(core: Core, instruction: Instruction) -> Outcome
    recommends
        instruction.operation.family() == Family::Load,
{
    let operation = instruction.operation;
    let registers = core.registers;
    let next = wrap16(registers.pc + operation.spec_length());
    let cost = cost_of(registers, operation);
    match operation {
        Operation::Load { target, source } => match core.read_operand(source) {
            Err(error) => core.fail(error),
            Ok(value) => core.settle(core.write_operand(target, value), next, cost),
        },
        Operation::LoadImmediate { target, value } => core.settle(
            core.write_operand(target, value),
            next,
            cost,
        ),
        Operation::LoadWide { target, value } => core.with_registers(
            registers.with16(target, value),
        ).finish(next, cost),
        _ => arbitrary(),
    }
}

/// The outcome of an operation on the stack pointer.
#[verifier::opaque]
pub open spec fn execute_stack_pointer(core: Core, instruction: Instruction) -> Outcome
    recommends
        instruction.operation.family() == Family::StackPointer,
{
    let operation = instruction.operation;
    let registers = core.registers;
    let next = wrap16(registers.pc + operation.spec_length());
    let cost = cost_of(registers, operation);
    match operation {
        Operation::StoreStackPointer { address } => match core.bus.write_word(
            address,
            registers.sp,
        ) {
            Err(error) => core.fail(error),
            Ok(bus) => Core { bus, ..core }.finish(next, cost),
        },
        Operation::LoadStackPointerFromHl => core.with_registers(
            RegisterSet { sp: registers.spec_hl(), ..registers },
        ).finish(next, cost),
        Operation::LoadHlFromStackOffset { offset } => {
            let sum = add_offset(registers.sp, offset);
            core.with_registers(
                registers.with_hl(sum.value).with_flags(false, false, sum.half_carry, sum.carry),
            ).finish(next, cost)
        },
        Operation::AddStackPointer { offset } => {
            let sum = add_offset(registers.sp, offset);
            core.with_registers(
                RegisterSet { sp: sum.value, ..registers }.with_flags(
                    false,
                    false,
                    sum.half_carry,
                    sum.carry,
                ),
            ).finish(next, cost)
        },
        _ => arbitrary(),
    }
}

/// The outcome of a transfer between the accumulator and memory.
#[verifier::opaque]
pub open spec fn execute_accumulator(core: Core, instruction: Instruction) -> Outcome
    recommends
        instruction.operation.family() == Family::Accumulator,
{
    let operation = instruction.operation;
    let registers = core.registers;
    let next = wrap16(registers.pc + operation.spec_length());
    let cost = cost_of(registers, operation);
    match operation {
        Operation::StoreAccumulator { at } => match core.write_byte(core.pointer(at), registers.a) {
            Err(error) => core.fail(error),
            Ok(written) => written.with_registers(Core::moved_pointer(registers, at)).finish(
                next,
                cost,
            ),
        },
        Operation::LoadAccumulator { from } => match core.bus.read_byte(core.pointer(from)) {
            Err(error) => core.fail(error),
            Ok(value) => core.with_registers(
                Core::moved_pointer(RegisterSet { a: value, ..registers }, from),
            ).finish(next, cost),
        },
        Operation::StoreAccumulatorDirect { address } => core.settle(
            core.write_byte(address, registers.a),
            next,
            cost,
        ),
        Operation::LoadAccumulatorDirect { address } => match core.bus.read_byte(address) {
            Err(error) => core.fail(error),
            Ok(value) => core.with_registers(RegisterSet { a: value, ..registers }).finish(
                next,
                cost,
            ),
        },
        _ => arbitrary(),
    }
}

/// The outcome of a transfer between the accumulator and the page at 0xFF00.
#[verifier::opaque]
pub open spec fn execute_high_page(core: Core, instruction: Instruction) -> Outcome
    recommends
        instruction.operation.family() == Family::HighPage,
{
    let operation = instruction.operation;
    let registers = core.registers;
    let next = wrap16(registers.pc + operation.spec_length());
    let cost = cost_of(registers, operation);
    match operation {
        Operation::StoreHigh { offset } => core.settle(
            core.write_byte((0xFF00 + offset) as u16, registers.a),
            next,
            cost,
        ),
        Operation::LoadHigh { offset } => match core.bus.read_byte((0xFF00 + offset) as u16) {
            Err(error) => core.fail(error),
            Ok(value) => core.with_registers(RegisterSet { a: value, ..registers }).finish(
                next,
                cost,
            ),
        },
        Operation::StoreHighC => core.settle(
            core.write_byte((0xFF00 + registers.c) as u16, registers.a),
            next,
            cost,
        ),
        Operation::LoadHighC => match core.bus.read_byte((0xFF00 + registers.c) as u16) {
            Err(error) => core.fail(error),
            Ok(value) => core.with_registers(RegisterSet { a: value, ..registers }).finish(
                next,
                cost,
            ),
        },
        _ => arbitrary(),
    }
}

/// The outcome of an increment or a decrement.
#[verifier::opaque]
pub open spec fn execute_count(core: Core, instruction: Instruction) -> Outcome
    recommends
        instruction.operation.family() == Family::Count,
{
    let operation = instruction.operation;
    let registers = core.registers;
    let next = wrap16(registers.pc + operation.spec_length());
    let cost = cost_of(registers, operation);
    match operation {
        Operation::Increment { target } => core.modify(
            target,
            |value: u8, carry: bool| inc8(value, carry),
            next,
            cost,
        ),
        Operation::Decrement { target } => core.modify(
            target,
            |value: u8, carry: bool| dec8(value, carry),
            next,
            cost,
        ),
        Operation::IncrementWide { target } => core.with_registers(
            registers.with16(target, wrap16(registers.spec_get16(target) + 1)),
        ).finish(next, cost),
        Operation::DecrementWide { target } => core.with_registers(
            registers.with16(target, wrap16(registers.spec_get16(target) - 1)),
        ).finish(next, cost),
        _ => arbitrary(),
    }
}

/// The outcome of an arithmetic or logic operation.
#[verifier::opaque]
pub open spec fn execute_arithmetic(core: Core, instruction: Instruction) -> Outcome
    recommends
        instruction.operation.family() == Family::Arithmetic,
{
    let operation = instruction.operation;
    let registers = core.registers;
    let next = wrap16(registers.pc + operation.spec_length());
    let cost = cost_of(registers, operation);
    match operation {
        Operation::AddHl { source } => {
            let sum = add16(registers.spec_hl(), registers.spec_get16(source));
            core.with_registers(
                registers.with_hl(sum.value).with_flags(
                    registers.zero,
                    false,
                    sum.half_carry,
                    sum.carry,
                ),
            ).finish(next, cost)
        },
        Operation::Alu { op, source } => match core.read_operand(source) {
            Err(error) => core.fail(error),
            Ok(value) => core.with_registers(combine(registers, op, value)).finish(next, cost),
        },
        Operation::AluImmediate { op, value } => core.with_registers(
            combine(registers, op, value),
        ).finish(next, cost),
        Operation::Accumulator { op } => core.with_registers(accumulate(registers, op)).finish(
            next,
            cost,
        ),
        _ => arbitrary(),
    }
}

/// The outcome of a shift or an operation on one bit.
#[verifier::opaque]
pub open spec fn execute_bits(core: Core, instruction: Instruction) -> Outcome
    recommends
        instruction.operation.family() == Family::Bits,
{
    let operation = instruction.operation;
    let registers = core.registers;
    let next = wrap16(registers.pc + operation.spec_length());
    let cost = cost_of(registers, operation);
    match operation {
        Operation::Shift { op, target } => core.modify(
            target,
            |value: u8, carry: bool| shift(op, value, carry),
            next,
            cost,
        ),
        Operation::TestBit { bit, target } => match core.read_operand(target) {
            Err(error) => core.fail(error),
            Ok(value) => core.with_registers(
                registers.with_flags(!bit_set(bit, value), false, true, registers.carry),
            ).finish(next, cost),
        },
        Operation::ResetBit { bit, target } => match core.read_operand(target) {
            Err(error) => core.fail(error),
            Ok(value) => core.settle(
                core.write_operand(target, clear_bit(bit, value)),
                next,
                cost,
            ),
        },
        Operation::SetBit { bit, target } => match core.read_operand(target) {
            Err(error) => core.fail(error),
            Ok(value) => core.settle(
                core.write_operand(target, raise_bit(bit, value)),
                next,
                cost,
            ),
        },
        _ => arbitrary(),
    }
}

/// The outcome of a jump, or an operation that only moves on.
#[verifier::opaque]
pub open spec fn execute_jump(core: Core, instruction: Instruction) -> Outcome
    recommends
        instruction.operation.family() == Family::Jump,
{
    let operation = instruction.operation;
    let registers = core.registers;
    let next = wrap16(registers.pc + operation.spec_length());
    let cost = cost_of(registers, operation);
    match operation {
        Operation::Nop | Operation::Stop | Operation::Halt => core.finish(next, cost),
        Operation::DisableInterrupts => Core {
            interrupts: core.interrupts.spec_disable(),
            ..core
        }.finish(next, cost),
        Operation::EnableInterrupts => Core {
            interrupts: core.interrupts.spec_enable(),
            ..core
        }.finish(next, cost),
        Operation::JumpRelative { condition, offset } => if branch_taken(registers, condition) {
            core.finish(add_offset(next, offset).value, cost)
        } else {
            core.finish(next, cost)
        },
        Operation::Jump { condition, address } => if branch_taken(registers, condition) {
            core.finish(address, cost)
        } else {
            core.finish(next, cost)
        },
        Operation::JumpHl => core.finish(registers.spec_hl(), cost),
        _ => arbitrary(),
    }
}

/// The outcome of a call, a return, a push or a pop.
#[verifier::opaque]
pub open spec fn execute_stack(core: Core, instruction: Instruction) -> Outcome
    recommends
        instruction.operation.family() == Family::Stack,
{
    let operation = instruction.operation;
    let registers = core.registers;
    let next = wrap16(registers.pc + operation.spec_length());
    let cost = cost_of(registers, operation);
    match operation {
        Operation::Call { condition, address } => if branch_taken(registers, condition) {
            core.call(next, address, cost)
        } else {
            core.finish(next, cost)
        },
        Operation::Return { condition } => if branch_taken(registers, condition) {
            core.ret(cost)
        } else {
            core.finish(next, cost)
        },
        Operation::ReturnFromInterrupt => {
            let (popped, result) = core.pop();
            match result {
                Ok(target) => Core {
                    interrupts: popped.interrupts.spec_disable(),
                    ..popped
                }.finish(target, cost),
                Err(error) => popped.fail(error),
            }
        },
        Operation::Restart { address } => core.call(next, address, cost),
        Operation::Push { source } => {
            let (pushed, result) = core.push(registers.spec_get_stack(source));
            match result {
                Ok(_) => pushed.finish(next, cost),
                Err(error) => pushed.fail(error),
            }
        },
        Operation::Pop { target } => {
            let (popped, result) = core.pop();
            match result {
                Ok(value) => popped.with_registers(
                    popped.registers.with_stack(target, value),
                ).finish(next, cost),
                Err(error) => popped.fail(error),
            }
        },
        _ => arbitrary(),
    }
}

/// The outcome of running `instruction` on `core`.
///
/// An instruction that completes moves the program counter past its own
/// bytes unless it transfers control, and reports its cost. One that a bus
/// error stops leaves the program counter where it was.
pub open spec fn execute(core: Core, instruction: Instruction) -> Outcome {
    match instruction.operation.family() {
        Family::Load => execute_load(core, instruction),
        Family::StackPointer => execute_stack_pointer(core, instruction),
        Family::Accumulator => execute_accumulator(core, instruction),
        Family::HighPage => execute_high_page(core, instruction),
        Family::Count => execute_count(core, instruction),
        Family::Arithmetic => execute_arithmetic(core, instruction),
        Family::Bits => execute_bits(core, instruction),
        Family::Jump => execute_jump(core, instruction),
        Family::Stack => execute_stack(core, instruction),
    }
}

/// Whether a word on the stack at `address` is read back as it was pushed:
/// both its bytes lie in one region, and that region stores what is written
/// to it.
pub open spec fn keeps_words(address: u16) -> bool {
    let region = Region::of(address);
    &&& Bus::word_fits(address)
    &&& (region == Region::VideoRam || region == Region::WorkRam || region == Region::EchoRam
        || region == Region::ObjectAttributeMemory || region == Region::IoRegisters || region
        == Region::HighRam)
}

/// Stack round trip: with the stack pointer at 2 or above and the two bytes
/// below it in memory that keeps words, a push followed by a pop gives the
/// pushed value back and leaves every register, the stack pointer
/// included, as it was before the push.
pub proof fn lemma_stack_round_trip(core: Core, value: u16)
    requires
        core.bus.wf(),
        core.registers.sp >= 2,
        keeps_words((core.registers.sp - 2) as u16),
    ensures
        core.push(value).1 is Ok,
        core.push(value).0.registers.sp == core.registers.sp - 2,
        core.push(value).0.pop().1 == Ok::<u16, BusError>(value),
        core.push(value).0.pop().0.registers == core.registers,
        core.push(value).0.pop().0.bus == core.push(value).0.bus,
{
    reveal(Core::push);
    reveal(Core::pop);
    reveal(wrap16);
    reveal(Bus::write_byte);
    reveal(Bus::read_word);
    lemma_word_bytes(value, 0, 0);
}

/// What holds of the outcome of every instruction: a completed one
/// reports the cost of its operation; enabling and disabling move the
/// interrupt master enable as they say, a completed return from an interrupt
/// routine disables it, and nothing else moves it; a completed instruction
/// that does not transfer control leaves the program counter just past its
/// own bytes; and one that a bus error stops leaves the program counter at
/// the instruction.
pub open spec fn orderly(core: Core, instruction: Instruction, outcome: Outcome) -> bool {
    &&& outcome.result is Ok ==> outcome.result->Ok_0 == cost_of(
        core.registers,
        instruction.operation,
    )
    &&& outcome.state.interrupts == match instruction.operation {
        Operation::EnableInterrupts => core.interrupts.spec_enable(),
        Operation::DisableInterrupts => core.interrupts.spec_disable(),
        Operation::ReturnFromInterrupt => if outcome.result is Ok {
            core.interrupts.spec_disable()
        } else {
            core.interrupts
        },
        _ => core.interrupts,
    }
    &&& outcome.result is Ok && !instruction.operation.transfers_control()
        ==> outcome.state.registers.pc == wrap16(
        core.registers.pc + instruction.operation.spec_length(),
    )
    &&& outcome.result is Err ==> outcome.state.registers.pc == core.registers.pc
}

/// Loads are orderly.
proof fn lemma_load_orderly(core: Core, instruction: Instruction)
    requires
        instruction.operation.family() == Family::Load,
    ensures
        orderly(core, instruction, execute_load(core, instruction)),
{
    reveal(execute_load);
    reveal(Core::write_operand);
}

/// Operations on the stack pointer are orderly.
proof fn lemma_stack_pointer_orderly(core: Core, instruction: Instruction)
    requires
        instruction.operation.family() == Family::StackPointer,
    ensures
        orderly(core, instruction, execute_stack_pointer(core, instruction)),
{
    reveal(execute_stack_pointer);
}

/// Accumulator transfers are orderly.
proof fn lemma_accumulator_orderly(core: Core, instruction: Instruction)
    requires
        instruction.operation.family() == Family::Accumulator,
    ensures
        orderly(core, instruction, execute_accumulator(core, instruction)),
{
    reveal(execute_accumulator);
}

/// Transfers with the page at 0xFF00 are orderly.
proof fn lemma_high_page_orderly(core: Core, instruction: Instruction)
    requires
        instruction.operation.family() == Family::HighPage,
    ensures
        orderly(core, instruction, execute_high_page(core, instruction)),
{
    reveal(execute_high_page);
}

/// Increments and decrements are orderly.
proof fn lemma_count_orderly(core: Core, instruction: Instruction)
    requires
        instruction.operation.family() == Family::Count,
    ensures
        orderly(core, instruction, execute_count(core, instruction)),
{
    reveal(execute_count);
    reveal(Core::modify);
    reveal(Core::write_operand);
}

/// Arithmetic and logic operations are orderly.
proof fn lemma_arithmetic_orderly(core: Core, instruction: Instruction)
    requires
        instruction.operation.family() == Family::Arithmetic,
    ensures
        orderly(core, instruction, execute_arithmetic(core, instruction)),
{
    reveal(execute_arithmetic);
}

/// Shifts and bit operations are orderly.
proof fn lemma_bits_orderly(core: Core, instruction: Instruction)
    requires
        instruction.operation.family() == Family::Bits,
    ensures
        orderly(core, instruction, execute_bits(core, instruction)),
{
    reveal(execute_bits);
    reveal(Core::modify);
    reveal(Core::write_operand);
}

/// Jumps and operations that only move on are orderly.
proof fn lemma_jump_orderly(core: Core, instruction: Instruction)
    requires
        instruction.operation.family() == Family::Jump,
    ensures
        orderly(core, instruction, execute_jump(core, instruction)),
{
    reveal(execute_jump);
}

/// Calls, returns, pushes and pops are orderly.
proof fn lemma_stack_orderly(core: Core, instruction: Instruction)
    requires
        instruction.operation.family() == Family::Stack,
    ensures
        orderly(core, instruction, execute_stack(core, instruction)),
{
    reveal(execute_stack);
    reveal(Core::push);
    reveal(Core::pop);
}

/// Every instruction is orderly.
pub proof fn lemma_execute_orderly(core: Core, instruction: Instruction)
    ensures
        orderly(core, instruction, execute(core, instruction)),
{
    match instruction.operation.family() {
        Family::Load => lemma_load_orderly(core, instruction),
        Family::StackPointer => lemma_stack_pointer_orderly(core, instruction),
        Family::Accumulator => lemma_accumulator_orderly(core, instruction),
        Family::HighPage => lemma_high_page_orderly(core, instruction),
        Family::Count => lemma_count_orderly(core, instruction),
        Family::Arithmetic => lemma_arithmetic_orderly(core, instruction),
        Family::Bits => lemma_bits_orderly(core, instruction),
        Family::Jump => lemma_jump_orderly(core, instruction),
        Family::Stack => lemma_stack_orderly(core, instruction),
    }
}

/// No instruction moves the interrupt master enable in any way but these:
/// it stays, goes from disabled to enabling, or goes to disabled. In
/// particular none moves it from enabled back to enabling.
pub proof fn lemma_instruction_keeps_lifecycle(core: Core, instruction: Instruction)
    ensures
        core.interrupts.may_become(execute(core, instruction).state.interrupts),
{
    lemma_execute_orderly(core, instruction);
}

} // verus!
