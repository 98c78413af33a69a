//! The processor: registers, the interrupt master enable, and the engine
//! that runs one instruction at a time and keeps count of the machine
//! cycles each one occupies.

use vstd::prelude::*;
use crate::alu::{
    add_signed_offset, add_words, adjust_decimal, apply, decrement, increment, offset_address,
    reset_bit, set_bit, shift_byte, test_bit, AluOp, AluResult, ShiftOp,
};
use crate::instruction::{
    decode, AccumulatorOp, Condition, DecodeError, Indirect, Instruction, Operand, Operation,
    Family,
};
use crate::io_registers::TIMER_DIVIDER;
use crate::mem_map::{Bus, BusError, MemMap};
use crate::memory::{word_high, word_low};
use crate::register_set::RegisterSet;
use crate::semantics::{
    accumulate, back, branch_taken, combine, condition_holds, cost_of, execute,
    execute_accumulator, execute_arithmetic, execute_bits, execute_count, execute_high_page,
    execute_jump, execute_load, execute_stack, execute_stack_pointer, forward,
    lemma_execute_orderly, Core,
};

verus! {

/// Raw clock ticks per second.
pub const CPU_FREQUENCY: u64 = 4_194_304;

/// The master switch that gates interrupt service. It starts disabled,
/// passes through the enabling state for one fetch when it is switched on,
/// and goes to disabled at once when it is switched off.
#[derive(Clone, Copy, Debug, PartialEq, Eq, Structural)]
pub enum InterruptMasterEnableStatus {
    /// Pending interrupts may be served.
    Enabled,
    /// The switch was set; it is enabled from the next fetch on.
    Enabling,
    /// No interrupt is served.
    Disabled,
}

impl InterruptMasterEnableStatus {
    /// The status after the enabling instruction.
    pub open spec fn spec_enable(self) -> InterruptMasterEnableStatus {
        match self {
            InterruptMasterEnableStatus::Disabled => InterruptMasterEnableStatus::Enabling,
            other => other,
        }
    }

    /// The status after an explicit disable.
    pub open spec fn spec_disable(self) -> InterruptMasterEnableStatus {
        InterruptMasterEnableStatus::Disabled
    }

    /// The status after a fetch boundary.
    pub open spec fn spec_advance(self) -> InterruptMasterEnableStatus {
        match self {
            InterruptMasterEnableStatus::Enabling => InterruptMasterEnableStatus::Enabled,
            other => other,
        }
    }

    /// Whether the switch may go from `self` to `next` in one move: it
    /// stays, goes from disabled to enabling, from enabling to enabled, or
    /// from anywhere to disabled.
    pub open spec fn may_become(self, next: InterruptMasterEnableStatus) -> bool {
        ||| next == self
        ||| next == InterruptMasterEnableStatus::Disabled
        ||| (self == InterruptMasterEnableStatus::Disabled && next
            == InterruptMasterEnableStatus::Enabling)
        ||| (self == InterruptMasterEnableStatus::Enabling && next
            == InterruptMasterEnableStatus::Enabled)
    }

    /// The status after the enabling instruction: a disabled switch starts
    /// enabling; one that is enabling or enabled stays as it is.
    #[verifier::when_used_as_spec(spec_enable)]
    pub fn enable(self) -> (next: InterruptMasterEnableStatus)
        ensures
            next == self.spec_enable(),
    {
        match self {
            InterruptMasterEnableStatus::Disabled => InterruptMasterEnableStatus::Enabling,
            other => other,
        }
    }

    /// The status after an explicit disable: disabled, whatever it was.
    #[verifier::when_used_as_spec(spec_disable)]
    pub fn disable(self) -> (next: InterruptMasterEnableStatus)
        ensures
            next == self.spec_disable(),
    {
        InterruptMasterEnableStatus::Disabled
    }

    /// The status after a fetch boundary: a switch that was enabling is
    /// enabled; any other stays as it is.
    #[verifier::when_used_as_spec(spec_advance)]
    pub fn advance(self) -> (next: InterruptMasterEnableStatus)
        ensures
            next == self.spec_advance(),
    {
        match self {
            InterruptMasterEnableStatus::Enabling => InterruptMasterEnableStatus::Enabled,
            other => other,
        }
    }
}

/// The life of the interrupt master enable: from disabled, enabling leads
/// to the enabling state and one fetch boundary later to enabled; a disable
/// leads to disabled from every state; and no move leads from enabled back
/// to enabling.
pub proof fn lemma_interrupt_lifecycle(status: InterruptMasterEnableStatus)
    ensures
        InterruptMasterEnableStatus::Disabled.spec_enable()
            == InterruptMasterEnableStatus::Enabling,
        InterruptMasterEnableStatus::Enabling.spec_advance()
            == InterruptMasterEnableStatus::Enabled,
        InterruptMasterEnableStatus::Disabled.spec_enable().spec_advance()
            == InterruptMasterEnableStatus::Enabled,
        status.spec_disable() == InterruptMasterEnableStatus::Disabled,
        status.may_become(status.spec_enable()),
        status.may_become(status.spec_disable()),
        status.may_become(status.spec_advance()),
        !InterruptMasterEnableStatus::Enabled.may_become(InterruptMasterEnableStatus::Enabling),
        InterruptMasterEnableStatus::Enabled.spec_enable() == InterruptMasterEnableStatus::Enabled,
        InterruptMasterEnableStatus::Enabled.spec_advance()
            == InterruptMasterEnableStatus::Enabled,
{
}

/// Why the processor stopped.
#[allow(inconsistent_fields)]
#[derive(Clone, Copy, Debug, PartialEq, Eq, Structural)]
pub enum Fault {
    /// No instruction could be decoded at `address`.
    Decode { address: u16, error: DecodeError },
    /// The bus refused an access that `instruction` made.
    Access { instruction: Instruction, error: BusError },
}

/// The state of the processor.
pub struct CpuView {
    pub registers: RegisterSet,
    pub interrupts: InterruptMasterEnableStatus,
    /// Raw clock ticks seen so far, modulo 256.
    pub counter: u8,
    /// Machine cycles still to pass before the next fetch.
    pub occupied: u32,
    /// The instruction fetched last.
    pub current: Option<Instruction>,
}

impl CpuView {
    /// The processor at power-on.
    pub open spec fn power_on() -> CpuView {
        CpuView {
            registers: RegisterSet::power_on(),
            interrupts: InterruptMasterEnableStatus::Disabled,
            counter: 0,
            occupied: 0,
            current: None,
        }
    }

    /// What an instruction sees of the processor, together with `bus`.
    pub open spec fn with_bus(self, bus: Bus) -> Core {
        Core { registers: self.registers, interrupts: self.interrupts, bus }
    }

    /// The processor with the registers and the interrupt status of
    /// `core`.
    pub open spec fn with_core(self, core: Core) -> CpuView {
        CpuView { registers: core.registers, interrupts: core.interrupts, ..self }
    }
}

/// Whether the processor `cpu` and the bus `bus` are what `before` and its
/// bus become when an instruction leaves `state` behind.
pub open spec fn reached(before: CpuView, cpu: CpuView, bus: Bus, state: Core) -> bool {
    cpu == before.with_core(state) && bus == state.bus
}

/// Whether running `instruction` on the processor `before` and the bus
/// `before_bus` gives the processor `cpu`, the bus `bus` and the report
/// `result`.
pub open spec fn ran(
    before: CpuView,
    before_bus: Bus,
    instruction: Instruction,
    cpu: CpuView,
    bus: Bus,
    result: Result<u32, BusError>,
) -> bool {
    let outcome = execute(before.with_bus(before_bus), instruction);
    result == outcome.result && reached(before, cpu, bus, outcome.state)
}

/// The processor and the bus after a piece of work, and whether a fault
/// stopped it.
#[verifier::ext_equal]
pub struct Tick {
    pub cpu: CpuView,
    pub bus: Bus,
    pub result: Result<(), Fault>,
}

/// One machine cycle. A busy processor counts one occupied cycle down.
/// An idle one passes a fetch boundary: the interrupt status advances, the
/// instruction at the program counter is decoded and run, and the
/// processor is occupied for the cycles it costs beyond this one.
pub open spec fn machine_cycle(cpu: CpuView, bus: Bus) -> Tick {
    if cpu.occupied != 0 {
        Tick { cpu: CpuView { occupied: (cpu.occupied - 1) as u32, ..cpu }, bus, result: Ok(()) }
    } else {
        let ready = CpuView { interrupts: cpu.interrupts.spec_advance(), ..cpu };
        match decode(ready.registers.pc, bus.rom) {
            Err(error) => Tick {
                cpu: ready,
                bus,
                result: Err(Fault::Decode { address: ready.registers.pc, error }),
            },
            Ok(instruction) => {
                let outcome = execute(ready.with_bus(bus), instruction);
                let after = CpuView { current: Some(instruction), ..ready.with_core(outcome.state) };
                match outcome.result {
                    Ok(cycles) => Tick {
                        cpu: CpuView { occupied: (cycles - 1) as u32, ..after },
                        bus: outcome.state.bus,
                        result: Ok(()),
                    },
                    Err(error) => Tick {
                        cpu: after,
                        bus: outcome.state.bus,
                        result: Err(Fault::Access { instruction, error }),
                    },
                }
            },
        }
    }
}

/// The processor and the bus after `cycles` machine cycles in a row, or at
/// the first of them that faults.
pub open spec fn machine_cycles(cpu: CpuView, bus: Bus, cycles: nat) -> Tick
    decreases cycles,
{
    if cycles == 0 {
        Tick { cpu, bus, result: Ok(()) }
    } else {
        let first = machine_cycle(cpu, bus);
        match first.result {
            Err(_) => first,
            Ok(_) => machine_cycles(first.cpu, first.bus, (cycles - 1) as nat),
        }
    }
}

/// Cycle accounting. When an idle processor fetches an instruction that
/// reports a cost of `C` machine cycles, the fetch and the `C - 1` machine
/// cycles after it pass without another fetch: through all of them the
/// registers, the bus and the fetched instruction stay as the instruction
/// left them and only the count of occupied cycles goes down. The processor
/// is idle again, ready for the next fetch, after exactly `C` machine cycles
/// and not before.
pub proof fn lemma_cycle_accounting(cpu: CpuView, bus: Bus, cycles: nat)
    requires
        cpu.occupied == 0,
        machine_cycle(cpu, bus).result is Ok,
        1 <= cycles <= machine_cycle(cpu, bus).cpu.occupied + 1,
    ensures
        ({
            let ready = CpuView { interrupts: cpu.interrupts.spec_advance(), ..cpu };
            let instruction = decode(cpu.registers.pc, bus.rom)->Ok_0;
            let outcome = execute(ready.with_bus(bus), instruction);
            let cost = outcome.result->Ok_0;
            &&& decode(cpu.registers.pc, bus.rom) is Ok
            &&& outcome.result is Ok
            &&& 1 <= cost <= 6
            &&& machine_cycle(cpu, bus).cpu.occupied == cost - 1
            &&& machine_cycles(cpu, bus, cycles).result is Ok
            &&& machine_cycles(cpu, bus, cycles).bus == outcome.state.bus
            &&& machine_cycles(cpu, bus, cycles).cpu == (CpuView {
                occupied: (cost - cycles) as u32,
                current: Some(instruction),
                ..ready.with_core(outcome.state)
            })
            &&& machine_cycles(cpu, bus, cycles).cpu.occupied == 0 <==> cycles == cost
        }),
    decreases cycles,
{
    let ready = CpuView { interrupts: cpu.interrupts.spec_advance(), ..cpu };
    let instruction = decode(cpu.registers.pc, bus.rom)->Ok_0;
    lemma_execute_cost(ready.with_bus(bus), instruction);
    let first = machine_cycle(cpu, bus);
    if cycles == 1 {
        assert(machine_cycles(first.cpu, first.bus, 0) == (Tick {
            cpu: first.cpu,
            bus: first.bus,
            result: Ok(()),
        }));
    } else {
        lemma_cycle_accounting(cpu, bus, (cycles - 1) as nat);
        lemma_machine_cycles_extend(cpu, bus, (cycles - 1) as nat);
    }
}

/// Running one more machine cycle after `cycles` of them is running
/// `cycles + 1`.
proof fn lemma_machine_cycles_extend(cpu: CpuView, bus: Bus, cycles: nat)
    requires
        machine_cycles(cpu, bus, cycles).result is Ok,
    ensures
        machine_cycles(cpu, bus, cycles + 1) == machine_cycle(
            machine_cycles(cpu, bus, cycles).cpu,
            machine_cycles(cpu, bus, cycles).bus,
        ),
    decreases cycles,
{
    if cycles == 0 {
        let first = machine_cycle(cpu, bus);
        assert(machine_cycles(cpu, bus, 1) == match first.result {
            Err(_) => first,
            Ok(_) => machine_cycles(first.cpu, first.bus, 0),
        });
        assert(machine_cycles(first.cpu, first.bus, 0) == (Tick {
            cpu: first.cpu,
            bus: first.bus,
            result: Ok(()),
        }));
    } else {
        let first = machine_cycle(cpu, bus);
        lemma_machine_cycles_extend(first.cpu, first.bus, (cycles - 1) as nat);
    }
}

/// The tick counter after one more raw clock tick.
pub open spec fn next_counter(counter: u8) -> u8 {
    if counter == 255 {
        0
    } else {
        (counter + 1) as u8
    }
}

/// One raw clock tick. The tick counter advances; when it wraps to zero
/// the timer divider advances; when it reaches a multiple of four a
/// machine cycle runs.
pub open spec fn clock_tick(cpu: CpuView, bus: Bus) -> Tick {
    let counter = next_counter(cpu.counter);
    let ticked = CpuView { counter, ..cpu };
    let bus = if counter == 0 {
        bus.inc_timer_div()
    } else {
        bus
    };
    if counter % 4 == 0 {
        machine_cycle(ticked, bus)
    } else {
        Tick { cpu: ticked, bus, result: Ok(()) }
    }
}

/// The tick counter `ticks` raw clock ticks after it stood at `counter`.
pub open spec fn counter_after(counter: u8, ticks: nat) -> u8 {
    ((counter + ticks) % 256) as u8
}

/// Whether the raw clock tick that follows a tick counter of `counter`
/// advances the timer divider.
pub open spec fn divider_due(counter: u8) -> bool {
    next_counter(counter) == 0
}

/// The timer divider advances exactly once in every 256 raw clock ticks,
/// whatever the processor does meanwhile: every tick moves the tick counter
/// on by one, fault or no fault; the divider is due on the tick on which the
/// counter wraps to zero, and of 256 ticks in a row that is exactly one. On
/// a due tick on which no instruction runs the divider register reads one
/// more than before, wrapping from 255 to 0; on any other such tick the bus
/// is left alone.
pub proof fn lemma_divider_period(cpu: CpuView, bus: Bus, ticks: nat)
    requires
        ticks < 256,
    ensures
        clock_tick(cpu, bus).cpu.counter == next_counter(cpu.counter),
        next_counter(cpu.counter) == counter_after(cpu.counter, 1),
        divider_due(counter_after(cpu.counter, ticks)) <==> ticks == 255 - cpu.counter,
        cpu.occupied != 0 || next_counter(cpu.counter) % 4 != 0 ==> clock_tick(cpu, bus).bus == (
        if divider_due(cpu.counter) {
            bus.inc_timer_div()
        } else {
            bus
        }),
        bus.io.wf() ==> bus.inc_timer_div().io.read(TIMER_DIVIDER) == (bus.io.read(TIMER_DIVIDER)
            + 1) % 256,
{
}

/// The enabling state lasts for one fetch: a machine cycle that fetches
/// with the master enable in the enabling state runs the instruction with
/// the master enable enabled, and leaves it enabled unless that instruction
/// disables it. A machine cycle of a busy processor leaves it as it is.
pub proof fn lemma_enabling_lasts_one_fetch(cpu: CpuView, bus: Bus)
    requires
        cpu.interrupts == InterruptMasterEnableStatus::Enabling,
    ensures
        cpu.occupied != 0 ==> machine_cycle(cpu, bus).cpu.interrupts
            == InterruptMasterEnableStatus::Enabling,
        cpu.occupied == 0 ==> machine_cycle(cpu, bus).cpu.interrupts
            != InterruptMasterEnableStatus::Enabling,
        cpu.occupied == 0 && machine_cycle(cpu, bus).cpu.interrupts
            != InterruptMasterEnableStatus::Enabled ==> machine_cycle(cpu, bus).cpu.interrupts
            == InterruptMasterEnableStatus::Disabled && machine_cycle(cpu, bus).cpu.current
            is Some && ({
            let operation = machine_cycle(cpu, bus).cpu.current->Some_0.operation;
            operation == Operation::DisableInterrupts || operation
                == Operation::ReturnFromInterrupt
        }),
{
    if cpu.occupied == 0 {
        let ready = CpuView { interrupts: cpu.interrupts.spec_advance(), ..cpu };
        match decode(ready.registers.pc, bus.rom) {
            Err(_) => {},
            Ok(instruction) => {
                lemma_execute_orderly(ready.with_bus(bus), instruction);
            },
        }
    }
}

/// Every operation costs between one and six machine cycles, taken or
/// not.
pub proof fn lemma_cost_bounds(operation: Operation, taken: bool)
    ensures
        1 <= operation.spec_cycles(taken) <= 6,
        1 <= operation.spec_length() <= 3,
{
}

/// An instruction that completes reports the cost of its operation, which
/// for a conditional branch depends on whether it was taken, and which is
/// between one and six machine cycles.
pub proof fn lemma_execute_cost(core: Core, instruction: Instruction)
    ensures
        execute(core, instruction).result is Ok ==> {
            &&& execute(core, instruction).result->Ok_0 == cost_of(
                core.registers,
                instruction.operation,
            )
            &&& 1 <= execute(core, instruction).result->Ok_0 <= 6
        },
{
    lemma_execute_orderly(core, instruction);
}

/// The processor.
pub struct CPU {
    register_set: RegisterSet,
    current_instruction: Option<Instruction>,
    interrupt_master_enable: InterruptMasterEnableStatus,
    cycle_counter: u8,
    occupied_cycles: u32,
}

impl CPU {
    /// The state of the processor.
    pub closed spec fn view(&self) -> CpuView {
        CpuView {
            registers: self.register_set,
            interrupts: self.interrupt_master_enable,
            counter: self.cycle_counter,
            occupied: self.occupied_cycles,
            current: self.current_instruction,
        }
    }

    /// A processor at power-on: registers at their reset values,
    /// interrupts disabled, nothing fetched and nothing pending.
    pub fn new() -> (cpu: CPU)
        ensures
            cpu@ == CpuView::power_on(),
    {
        let register_set = RegisterSet::default();
        CPU {
            register_set,
            interrupt_master_enable: InterruptMasterEnableStatus::Disabled,
            cycle_counter: 0,
            occupied_cycles: 0,
            current_instruction: None,
        }
    }

    /// The registers.
    pub fn registers(&self) -> (registers: &RegisterSet)
        ensures
            *registers == self@.registers,
    {
        &self.register_set
    }

    /// Replaces the registers.
    pub fn set_registers(&mut self, registers: RegisterSet)
        ensures
            final(self)@ == (CpuView { registers, ..old(self)@ }),
    {
        self.register_set = registers;
    }

    /// The interrupt master enable.
    pub fn interrupt_master_enable(&self) -> (status: InterruptMasterEnableStatus)
        ensures
            status == self@.interrupts,
    {
        self.interrupt_master_enable
    }

    /// The instruction fetched last, if any was.
    pub fn current_instruction(&self) -> (instruction: Option<Instruction>)
        ensures
            instruction == self@.current,
    {
        self.current_instruction
    }

    /// Raw clock ticks seen so far, modulo 256.
    pub fn cycle_counter(&self) -> (counter: u8)
        ensures
            counter == self@.counter,
    {
        self.cycle_counter
    }

    /// Machine cycles still to pass before the next fetch.
    pub fn occupied_cycles(&self) -> (occupied: u32)
        ensures
            occupied == self@.occupied,
    {
        self.occupied_cycles
    }

    /// Whether the processor is still occupied by the instruction it ran
    /// last.
    pub fn is_busy(&self) -> (busy: bool)
        ensures
            busy == (self@.occupied != 0),
    {
        self.occupied_cycles != 0
    }

    /// Passes a fetch boundary: a master enable that was enabling becomes
    /// enabled.
    pub fn check_interrupts(&mut self)
        ensures
            final(self)@ == (CpuView {
                interrupts: old(self)@.interrupts.spec_advance(),
                ..old(self)@
            }),
    {
        match self.interrupt_master_enable {
            InterruptMasterEnableStatus::Enabled => {},
            InterruptMasterEnableStatus::Enabling => {
                self.interrupt_master_enable = InterruptMasterEnableStatus::Enabled
            },
            InterruptMasterEnableStatus::Disabled => {},
        }
    }

    /// Whether `condition` holds for the flags.
    fn holds(&self, condition: Condition) -> (answer: bool)
        ensures
            answer == condition_holds(self@.registers, condition),
    {
        match condition {
            Condition::NotZero => !self.register_set.zero,
            Condition::Zero => self.register_set.zero,
            Condition::NotCarry => !self.register_set.carry,
            Condition::Carry => self.register_set.carry,
        }
    }

    /// What `operation` costs on the flags as they stand.
    fn cost(&self, operation: Operation) -> (cost: u32)
        ensures
            cost == cost_of(self@.registers, operation),
    {
        operation.cycles(self.takes(operation.condition()))
    }

    /// Whether a branch with `condition` is taken.
    fn takes(&self, condition: Option<Condition>) -> (answer: bool)
        ensures
            answer == branch_taken(self@.registers, condition),
    {
        match condition {
            None => true,
            Some(condition) => self.holds(condition),
        }
    }

    /// Reads an 8-bit operand.
    fn read_operand(&self, mem_map: &MemMap, operand: Operand) -> (result: Result<u8, BusError>)
        ensures
            result == self@.with_bus(mem_map@).read_operand(operand),
    {
        reveal(Core::read_operand);
        match operand {
            Operand::Register(register) => Ok(self.register_set.get(register)),
            Operand::HlIndirect => mem_map.read_byte(self.register_set.hl()),
        }
    }

    /// Stores `value` in an 8-bit operand. A refused write changes nothing.
    fn write_operand(&mut self, mem_map: &mut MemMap, operand: Operand, value: u8) -> (result:
        Result<(), BusError>)
        ensures
            match old(self)@.with_bus(old(mem_map)@).write_operand(operand, value) {
                Ok(state) => result is Ok && reached(
                    old(self)@,
                    final(self)@,
                    final(mem_map)@,
                    state,
                ),
                Err(error) => result == Err::<(), BusError>(error) && final(self)@ == old(self)@
                    && final(mem_map)@ == old(mem_map)@,
            },
    {
        reveal(Core::write_operand);
        match operand {
            Operand::Register(register) => {
                self.register_set.set(register, value);
                Ok(())
            },
            Operand::HlIndirect => mem_map.write_byte(self.register_set.hl(), value),
        }
    }

    /// The address an indirect accumulator operand names.
    fn pointer(&self, indirect: Indirect) -> (address: u16)
        ensures
            forall|bus: Bus| address == #[trigger] self@.with_bus(bus).pointer(indirect),
    {
        match indirect {
            Indirect::BC => self.register_set.bc(),
            Indirect::DE => self.register_set.de(),
            _ => self.register_set.hl(),
        }
    }

    /// Moves HL by one where the operand says so.
    fn move_pointer(&mut self, indirect: Indirect)
        ensures
            final(self)@ == (CpuView {
                registers: Core::moved_pointer(old(self)@.registers, indirect),
                ..old(self)@
            }),
    {
        reveal(Core::moved_pointer);
        match indirect {
            Indirect::HlIncrement => {
                let hl: u16 = self.register_set.hl();
                self.register_set.set_hl(forward(hl, 1));
            },
            Indirect::HlDecrement => {
                let hl: u16 = self.register_set.hl();
                self.register_set.set_hl(back(hl, 1));
            },
            _ => {},
        }
    }

    /// Takes over the flags of `result`.
    fn set_result(&mut self, result: AluResult)
        ensures
            final(self)@ == (CpuView {
                registers: old(self)@.registers.with_flags(
                    result.zero,
                    result.subtract,
                    result.half_carry,
                    result.carry,
                ),
                ..old(self)@
            }),
    {
        self.register_set.set_flags(
            result.zero,
            result.subtract,
            result.half_carry,
            result.carry,
        );
    }

    /// Runs a one-byte operation on the accumulator and the flags.
    fn accumulate(&mut self, op: AccumulatorOp)
        ensures
            final(self)@ == (CpuView {
                registers: accumulate(old(self)@.registers, op),
                ..old(self)@
            }),
    {
        reveal(accumulate);
        let a: u8 = self.register_set.a;
        let carry: bool = self.register_set.carry;
        match op {
            AccumulatorOp::DecimalAdjust => {
                let subtract: bool = self.register_set.subtract;
                let result = adjust_decimal(a, subtract, self.register_set.half_carry, carry);
                self.register_set.a = result.value;
                self.register_set.set_flags(result.zero, subtract, false, result.carry);
            },
            AccumulatorOp::Complement => {
                self.register_set.a = 255 - a;
                self.register_set.subtract = true;
                self.register_set.half_carry = true;
            },
            AccumulatorOp::SetCarry => {
                self.register_set.subtract = false;
                self.register_set.half_carry = false;
                self.register_set.carry = true;
            },
            AccumulatorOp::ComplementCarry => {
                self.register_set.subtract = false;
                self.register_set.half_carry = false;
                self.register_set.carry = !carry;
            },
            AccumulatorOp::RotateLeftCircular => {
                let result = shift_byte(ShiftOp::RotateLeftCircular, a, carry);
                self.register_set.a = result.value;
                self.register_set.set_flags(false, false, false, result.carry);
            },
            AccumulatorOp::RotateRightCircular => {
                let result = shift_byte(ShiftOp::RotateRightCircular, a, carry);
                self.register_set.a = result.value;
                self.register_set.set_flags(false, false, false, result.carry);
            },
            AccumulatorOp::RotateLeft => {
                let result = shift_byte(ShiftOp::RotateLeft, a, carry);
                self.register_set.a = result.value;
                self.register_set.set_flags(false, false, false, result.carry);
            },
            AccumulatorOp::RotateRight => {
                let result = shift_byte(ShiftOp::RotateRight, a, carry);
                self.register_set.a = result.value;
                self.register_set.set_flags(false, false, false, result.carry);
            },
        }
    }

    /// Combines the accumulator with `operand`.
    fn combine(&mut self, op: AluOp, operand: u8)
        ensures
            final(self)@ == (CpuView {
                registers: combine(old(self)@.registers, op, operand),
                ..old(self)@
            }),
    {
        reveal(combine);
        let result = apply(op, self.register_set.a, operand, self.register_set.carry);
        match op {
            AluOp::Compare => {},
            _ => {
                self.register_set.a = result.value;
            },
        }
        self.set_result(result);
    }

    /// Pushes `value` to the stack.
    pub fn push_to_stack(&mut self, mem_map: &mut MemMap, value: u16) -> (result: Result<
        (),
        BusError,
    >)
        ensures
            result == old(self)@.with_bus(old(mem_map)@).push(value).1,
            final(self)@ == old(self)@.with_core(old(self)@.with_bus(old(mem_map)@).push(value).0),
            final(mem_map)@ == old(self)@.with_bus(old(mem_map)@).push(value).0.bus,
    {
        reveal(Core::push);
        let sp: u16 = self.register_set.sp();
        mem_map.write_byte(back(sp, 1), word_high(value))?;
        mem_map.write_byte(back(sp, 2), word_low(value))?;
        self.register_set.set_sp(back(sp, 2));
        Ok(())
    }

    /// Pops a word from the stack.
    pub fn pop_from_stack(&mut self, mem_map: &MemMap) -> (result: Result<u16, BusError>)
        ensures
            result == old(self)@.with_bus(mem_map@).pop().1,
            final(self)@ == old(self)@.with_core(old(self)@.with_bus(mem_map@).pop().0),
            mem_map@ == old(self)@.with_bus(mem_map@).pop().0.bus,
    {
        reveal(Core::pop);
        let sp: u16 = self.register_set.sp();
        let value: u16 = mem_map.read_word(sp)?;
        self.register_set.set_sp(forward(sp, 2));
        Ok(value)
    }
    /// Runs a load into a register or through HL.
    fn run_load(&mut self, mem_map: &mut MemMap, instruction: &Instruction) -> (result: Result<
        u32,
        BusError,
    >)
        requires
            instruction.operation.family() == Family::Load,
        ensures
            ran(old(self)@, old(mem_map)@, *instruction, final(self)@, final(mem_map)@, result),
    {
        reveal(execute_load);
        let operation = instruction.operation;
        let next: u16 = forward(self.register_set.pc(), operation.length());
        let cost: u32 = self.cost(operation);
        match operation {
            Operation::Load { target, source } => {
                let value: u8 = self.read_operand(mem_map, source)?;
                self.write_operand(mem_map, target, value)?;
            },
            Operation::LoadImmediate { target, value } => {
                self.write_operand(mem_map, target, value)?;
            },
            Operation::LoadWide { target, value } => {
                self.register_set.set16(target, value);
            },
            _ => {},
        }
        self.register_set.set_pc(next);
        Ok(cost)
    }

    /// Runs an operation on the stack pointer.
    fn run_stack_pointer(&mut self, mem_map: &mut MemMap, instruction: &Instruction) -> (result: Result<
        u32,
        BusError,
    >)
        requires
            instruction.operation.family() == Family::StackPointer,
        ensures
            ran(old(self)@, old(mem_map)@, *instruction, final(self)@, final(mem_map)@, result),
    {
        reveal(execute_stack_pointer);
        let operation = instruction.operation;
        let next: u16 = forward(self.register_set.pc(), operation.length());
        let cost: u32 = self.cost(operation);
        match operation {
            Operation::StoreStackPointer { address } => {
                mem_map.write_word(address, self.register_set.sp())?;
            },
            Operation::LoadStackPointerFromHl => {
                let hl: u16 = self.register_set.hl();
                self.register_set.set_sp(hl);
            },
            Operation::LoadHlFromStackOffset { offset } => {
                let sum = add_signed_offset(self.register_set.sp(), offset);
                self.register_set.set_hl(sum.value);
                self.register_set.set_flags(false, false, sum.half_carry, sum.carry);
            },
            Operation::AddStackPointer { offset } => {
                let sum = add_signed_offset(self.register_set.sp(), offset);
                self.register_set.set_sp(sum.value);
                self.register_set.set_flags(false, false, sum.half_carry, sum.carry);
            },
            _ => {},
        }
        self.register_set.set_pc(next);
        Ok(cost)
    }

    /// Runs a transfer between the accumulator and memory.
    fn run_accumulator(&mut self, mem_map: &mut MemMap, instruction: &Instruction) -> (result: Result<
        u32,
        BusError,
    >)
        requires
            instruction.operation.family() == Family::Accumulator,
        ensures
            ran(old(self)@, old(mem_map)@, *instruction, final(self)@, final(mem_map)@, result),
    {
        reveal(execute_accumulator);
        let operation = instruction.operation;
        let next: u16 = forward(self.register_set.pc(), operation.length());
        let cost: u32 = self.cost(operation);
        match operation {
            Operation::StoreAccumulator { at } => {
                mem_map.write_byte(self.pointer(at), self.register_set.a)?;
                self.move_pointer(at);
            },
            Operation::LoadAccumulator { from } => {
                let value: u8 = mem_map.read_byte(self.pointer(from))?;
                self.register_set.a = value;
                self.move_pointer(from);
            },
            Operation::StoreAccumulatorDirect { address } => {
                mem_map.write_byte(address, self.register_set.a)?;
            },
            Operation::LoadAccumulatorDirect { address } => {
                let value: u8 = mem_map.read_byte(address)?;
                self.register_set.a = value;
            },
            _ => {},
        }
        self.register_set.set_pc(next);
        Ok(cost)
    }

    /// Runs a transfer between the accumulator and the page at 0xFF00.
    fn run_high_page(&mut self, mem_map: &mut MemMap, instruction: &Instruction) -> (result: Result<
        u32,
        BusError,
    >)
        requires
            instruction.operation.family() == Family::HighPage,
        ensures
            ran(old(self)@, old(mem_map)@, *instruction, final(self)@, final(mem_map)@, result),
    {
        reveal(execute_high_page);
        let operation = instruction.operation;
        let next: u16 = forward(self.register_set.pc(), operation.length());
        let cost: u32 = self.cost(operation);
        match operation {
            Operation::StoreHigh { offset } => {
                mem_map.write_byte(0xFF00 + offset as u16, self.register_set.a)?;
            },
            Operation::LoadHigh { offset } => {
                let value: u8 = mem_map.read_byte(0xFF00 + offset as u16)?;
                self.register_set.a = value;
            },
            Operation::StoreHighC => {
                mem_map.write_byte(0xFF00 + self.register_set.c as u16, self.register_set.a)?;
            },
            Operation::LoadHighC => {
                let value: u8 = mem_map.read_byte(0xFF00 + self.register_set.c as u16)?;
                self.register_set.a = value;
            },
            _ => {},
        }
        self.register_set.set_pc(next);
        Ok(cost)
    }

    /// Runs an increment or a decrement.
    fn run_count(&mut self, mem_map: &mut MemMap, instruction: &Instruction) -> (result: Result<
        u32,
        BusError,
    >)
        requires
            instruction.operation.family() == Family::Count,
        ensures
            ran(old(self)@, old(mem_map)@, *instruction, final(self)@, final(mem_map)@, result),
    {
        reveal(execute_count);
        reveal(Core::modify);
        let operation = instruction.operation;
        let next: u16 = forward(self.register_set.pc(), operation.length());
        let cost: u32 = self.cost(operation);
        match operation {
            Operation::Increment { target } => {
                let value: u8 = self.read_operand(mem_map, target)?;
                let result = increment(value, self.register_set.carry);
                self.write_operand(mem_map, target, result.value)?;
                self.set_result(result);
            },
            Operation::Decrement { target } => {
                let value: u8 = self.read_operand(mem_map, target)?;
                let result = decrement(value, self.register_set.carry);
                self.write_operand(mem_map, target, result.value)?;
                self.set_result(result);
            },
            Operation::IncrementWide { target } => {
                let value: u16 = self.register_set.get16(target);
                self.register_set.set16(target, forward(value, 1));
            },
            Operation::DecrementWide { target } => {
                let value: u16 = self.register_set.get16(target);
                self.register_set.set16(target, back(value, 1));
            },
            _ => {},
        }
        self.register_set.set_pc(next);
        Ok(cost)
    }

    /// Runs an arithmetic or logic operation.
    fn run_arithmetic(&mut self, mem_map: &mut MemMap, instruction: &Instruction) -> (result: Result<
        u32,
        BusError,
    >)
        requires
            instruction.operation.family() == Family::Arithmetic,
        ensures
            ran(old(self)@, old(mem_map)@, *instruction, final(self)@, final(mem_map)@, result),
    {
        reveal(execute_arithmetic);
        let operation = instruction.operation;
        let next: u16 = forward(self.register_set.pc(), operation.length());
        let cost: u32 = self.cost(operation);
        match operation {
            Operation::AddHl { source } => {
                let sum = add_words(self.register_set.hl(), self.register_set.get16(source));
                let zero: bool = self.register_set.zero;
                self.register_set.set_hl(sum.value);
                self.register_set.set_flags(zero, false, sum.half_carry, sum.carry);
            },
            Operation::Alu { op, source } => {
                let value: u8 = self.read_operand(mem_map, source)?;
                self.combine(op, value);
            },
            Operation::AluImmediate { op, value } => {
                self.combine(op, value);
            },
            Operation::Accumulator { op } => {
                self.accumulate(op);
            },
            _ => {},
        }
        self.register_set.set_pc(next);
        Ok(cost)
    }

    /// Runs a shift or an operation on one bit.
    fn run_bits(&mut self, mem_map: &mut MemMap, instruction: &Instruction) -> (result: Result<
        u32,
        BusError,
    >)
        requires
            instruction.operation.family() == Family::Bits,
        ensures
            ran(old(self)@, old(mem_map)@, *instruction, final(self)@, final(mem_map)@, result),
    {
        reveal(execute_bits);
        reveal(Core::modify);
        let operation = instruction.operation;
        let next: u16 = forward(self.register_set.pc(), operation.length());
        let cost: u32 = self.cost(operation);
        match operation {
            Operation::Shift { op, target } => {
                let value: u8 = self.read_operand(mem_map, target)?;
                let result = shift_byte(op, value, self.register_set.carry);
                self.write_operand(mem_map, target, result.value)?;
                self.set_result(result);
            },
            Operation::TestBit { bit, target } => {
                let value: u8 = self.read_operand(mem_map, target)?;
                let carry: bool = self.register_set.carry;
                self.register_set.set_flags(!test_bit(bit, value), false, true, carry);
            },
            Operation::ResetBit { bit, target } => {
                let value: u8 = self.read_operand(mem_map, target)?;
                self.write_operand(mem_map, target, reset_bit(bit, value))?;
            },
            Operation::SetBit { bit, target } => {
                let value: u8 = self.read_operand(mem_map, target)?;
                self.write_operand(mem_map, target, set_bit(bit, value))?;
            },
            _ => {},
        }
        self.register_set.set_pc(next);
        Ok(cost)
    }

    /// Runs a jump, or an operation that only moves on.
    fn run_jump(&mut self, mem_map: &mut MemMap, instruction: &Instruction) -> (result: Result<
        u32,
        BusError,
    >)
        requires
            instruction.operation.family() == Family::Jump,
        ensures
            ran(old(self)@, old(mem_map)@, *instruction, final(self)@, final(mem_map)@, result),
    {
        reveal(execute_jump);
        let operation = instruction.operation;
        let next: u16 = forward(self.register_set.pc(), operation.length());
        let taken: bool = self.takes(operation.condition());
        let cost: u32 = operation.cycles(taken);
        let mut target: u16 = next;
        match operation {
            Operation::Nop | Operation::Stop | Operation::Halt => {},
            Operation::DisableInterrupts => {
                self.interrupt_master_enable = self.interrupt_master_enable.disable();
            },
            Operation::EnableInterrupts => {
                self.interrupt_master_enable = self.interrupt_master_enable.enable();
            },
            Operation::JumpRelative { offset, .. } => {
                if taken {
                    target = offset_address(next, offset);
                }
            },
            Operation::Jump { address, .. } => {
                if taken {
                    target = address;
                }
            },
            Operation::JumpHl => {
                target = self.register_set.hl();
            },
            _ => {},
        }
        self.register_set.set_pc(target);
        Ok(cost)
    }

    /// Runs a call, a return, a push or a pop.
    fn run_stack(&mut self, mem_map: &mut MemMap, instruction: &Instruction) -> (result: Result<
        u32,
        BusError,
    >)
        requires
            instruction.operation.family() == Family::Stack,
        ensures
            ran(old(self)@, old(mem_map)@, *instruction, final(self)@, final(mem_map)@, result),
    {
        reveal(execute_stack);
        let operation = instruction.operation;
        let next: u16 = forward(self.register_set.pc(), operation.length());
        let taken: bool = self.takes(operation.condition());
        let cost: u32 = operation.cycles(taken);
        let mut target: u16 = next;
        match operation {
            Operation::Call { address, .. } => {
                if taken {
                    self.push_to_stack(mem_map, next)?;
                    target = address;
                }
            },
            Operation::Return { .. } => {
                if taken {
                    target = self.pop_from_stack(mem_map)?;
                }
            },
            Operation::ReturnFromInterrupt => {
                target = self.pop_from_stack(mem_map)?;
                self.interrupt_master_enable = self.interrupt_master_enable.disable();
            },
            Operation::Restart { address } => {
                self.push_to_stack(mem_map, next)?;
                target = address;
            },
            Operation::Push { source } => {
                let value: u16 = self.register_set.get_stack(source);
                self.push_to_stack(mem_map, value)?;
            },
            Operation::Pop { target: pair } => {
                let value: u16 = self.pop_from_stack(mem_map)?;
                self.register_set.set_stack(pair, value);
            },
            _ => {},
        }
        self.register_set.set_pc(target);
        Ok(cost)
    }

    /// Runs `instruction`: carries out its effect on the registers, the
    /// interrupt master enable and the bus, moves the program counter and
    /// reports the cost in machine cycles. A bus error stops the
    /// instruction where it stands and leaves the program counter at it.
    pub fn run(&mut self, mem_map: &mut MemMap, instruction: &Instruction) -> (result: Result<
        u32,
        BusError,
    >)
        ensures
            ran(old(self)@, old(mem_map)@, *instruction, final(self)@, final(mem_map)@, result),
            result is Ok ==> 1 <= result->Ok_0 <= 6,
    {
        proof {
            lemma_execute_cost(self@.with_bus(mem_map@), *instruction);
        }
        match instruction.operation.classify() {
            Family::Load => self.run_load(mem_map, instruction),
            Family::StackPointer => self.run_stack_pointer(mem_map, instruction),
            Family::Accumulator => self.run_accumulator(mem_map, instruction),
            Family::HighPage => self.run_high_page(mem_map, instruction),
            Family::Count => self.run_count(mem_map, instruction),
            Family::Arithmetic => self.run_arithmetic(mem_map, instruction),
            Family::Bits => self.run_bits(mem_map, instruction),
            Family::Jump => self.run_jump(mem_map, instruction),
            Family::Stack => self.run_stack(mem_map, instruction),
        }
    }

    /// One machine cycle. A busy processor counts one occupied cycle down.
    /// An idle one passes a fetch boundary, decodes the instruction at the
    /// program counter from the cartridge's program bytes, runs it and stays
    /// occupied for the cycles it costs beyond this one.
    pub fn m_cycle(&mut self, mem_map: &mut MemMap) -> (result: Result<(), Fault>)
        ensures
            final(self)@ == machine_cycle(old(self)@, old(mem_map)@).cpu,
            final(mem_map)@ == machine_cycle(old(self)@, old(mem_map)@).bus,
            result == machine_cycle(old(self)@, old(mem_map)@).result,
    {
        if self.occupied_cycles != 0 {
            self.occupied_cycles -= 1;
            return Ok(());
        }
        self.check_interrupts();
        let address: u16 = self.register_set.pc();
        let instruction = match Instruction::create(
            address,
            mem_map.cartridge().data.as_slice(),
        ) {
            Ok(instruction) => instruction,
            Err(error) => {
                return Err(Fault::Decode { address, error });
            },
        };
        self.current_instruction = Some(instruction);
        match self.run(mem_map, &instruction) {
            Ok(cycles) => {
                self.occupied_cycles = cycles - 1;
                Ok(())
            },
            Err(error) => Err(Fault::Access { instruction, error }),
        }
    }

    /// One raw clock tick. The tick counter advances; every 256th tick the
    /// timer divider advances; every fourth tick a machine cycle runs.
    pub fn cycle(&mut self, mem_map: &mut MemMap) -> (result: Result<(), Fault>)
        ensures
            final(self)@ == clock_tick(old(self)@, old(mem_map)@).cpu,
            final(mem_map)@ == clock_tick(old(self)@, old(mem_map)@).bus,
            result == clock_tick(old(self)@, old(mem_map)@).result,
    {
        self.cycle_counter = self.cycle_counter.wrapping_add(1);
        if self.cycle_counter == 0 {
            mem_map.inc_timer_div();
        }
        let counter: u8 = self.cycle_counter;
        assert(counter & 0b11 == counter % 4) by (bit_vector);
        if (self.cycle_counter & 0b11) == 0 {
            self.m_cycle(mem_map)
        } else {
            Ok(())
        }
    }
}

} // verus!
