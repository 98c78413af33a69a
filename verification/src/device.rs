//! The device: the processor and the bus driven in lockstep by the raw
//! clock, the run and pause flag, the breakpoint and the serial output.
//!
//! An instruction step goes in rounds of four raw clock ticks and ends with
//! the first round that leaves the processor idle; the serial port is
//! polled after its last tick. A step counts its rounds from its own first
//! tick, wherever the tick counter stands.
//!
//! The device does every tick's work but leaves two things to its driver:
//! ticking the display, which each tick reports as due or not, and pacing
//! the ticks against the wall clock. A driver that paces ticks itself goes
//! through a step with [`Device::step_tick`].

use vstd::prelude::*;
use crate::cartridge::{Cartridge, CartridgeType};
use crate::cpu::{clock_tick, lemma_execute_cost, next_counter, CpuView, Fault, CPU};
use crate::instruction::decode;
use crate::io_registers::{SERIAL_CONTROL, SERIAL_DATA};
use crate::mem_map::{Bus, BusError, MemMap};
use crate::register_set::RegisterSet;
use crate::semantics::execute;

verus! {

/// The value of the serial control register that asks for a transfer.
pub const SERIAL_TRANSFER_REQUEST: u8 = 0x81;

/// What one raw clock tick of an instruction step asks of the driver and
/// tells it.
#[derive(Clone, Copy, Debug, PartialEq, Eq, Structural)]
pub struct StepTick {
    /// The display hardware is switched on: the display is due one tick.
    pub display: bool,
    /// The tick completed the step.
    pub step_complete: bool,
    /// The byte the serial port sent as the step completed, if it sent one.
    pub serial: Option<u8>,
}

/// How far an instruction step has come: the raw ticks done in the round of
/// four that is under way.
#[derive(Clone, Copy, Debug)]
pub struct StepProgress {
    phase: u8,
}

impl StepProgress {
    /// Raw ticks done in the round under way, from 0 to 3.
    pub closed spec fn view(&self) -> nat {
        (self.phase % 4) as nat
    }

    /// The progress of a step that is about to begin.
    pub fn new() -> (progress: StepProgress)
        ensures
            progress@ == 0,
    {
        StepProgress { phase: 0 }
    }
}

/// What one instruction step took and produced.
#[derive(Clone, Copy, Debug, PartialEq, Eq, Structural)]
pub struct StepReport {
    /// Raw clock ticks the step took.
    pub ticks: u64,
    /// The byte the serial port sent as the step completed, if it sent one.
    pub serial: Option<u8>,
}

/// A snapshot for an observer, taken between two steps.
#[derive(Clone, Copy, Debug, PartialEq, Eq, Structural)]
pub struct CPUState {
    /// Registers and flags.
    pub registers: RegisterSet,
    /// The byte waiting in the serial data register.
    pub serial_data: u8,
}

/// The state of the device.
#[verifier::ext_equal]
pub struct Machine {
    pub cpu: CpuView,
    pub bus: Bus,
    /// The run loop goes on while this is set.
    pub running: bool,
    /// Every byte the serial port has sent, oldest first.
    pub serial: Seq<u8>,
    /// The address at which the run loop pauses, if one is set.
    pub breakpoint: Option<u16>,
}

/// Raw ticks from a tick counter of `counter` up to and including the next
/// machine cycle.
pub open spec fn ticks_to_boundary(counter: u8) -> int {
    4 - counter % 4
}

impl Machine {
    /// The device at power-on with the given cartridge: paused, without a
    /// breakpoint, nothing sent.
    pub open spec fn power_on(rom: Seq<u8>, cartridge_type: CartridgeType) -> Machine {
        Machine {
            cpu: CpuView::power_on(),
            bus: Bus::power_on(rom, cartridge_type),
            running: false,
            serial: Seq::empty(),
            breakpoint: None,
        }
    }

    /// The device after a poll of the serial port, and the byte sent. A
    /// control register that holds the transfer request sends the data
    /// register's byte and is cleared; any other value sends nothing.
    pub open spec fn poll_serial(self) -> (Machine, Option<u8>) {
        if self.bus.io.read(SERIAL_CONTROL) == SERIAL_TRANSFER_REQUEST {
            let data = self.bus.io.read(SERIAL_DATA);
            (
                Machine {
                    bus: Bus { io: self.bus.io.write(SERIAL_CONTROL, 0), ..self.bus },
                    serial: self.serial.push(data),
                    ..self
                },
                Some(data),
            )
        } else {
            (self, None)
        }
    }

    /// Whether the device stands where a step of a device driven by steps
    /// alone begins and ends: the tick counter is at a machine cycle and the
    /// processor is idle.
    pub open spec fn between_steps(self) -> bool {
        self.cpu.counter % 4 == 0 && self.cpu.occupied == 0
    }

    /// Whether the program counter is at the breakpoint.
    pub open spec fn at_breakpoint(self) -> bool {
        self.breakpoint == Some(self.cpu.registers.pc)
    }

    /// The device after the check that comes before each step of the run
    /// loop: at the breakpoint the run flag is cleared; nothing else ever
    /// changes.
    pub open spec fn check_breakpoint(self) -> Machine {
        if self.at_breakpoint() {
            Machine { running: false, ..self }
        } else {
            self
        }
    }

    /// The device after one raw clock tick, and whether the display is due
    /// a tick. A fault clears the run flag.
    #[verifier::opaque]
    pub open spec fn tick(self) -> (Machine, Result<bool, Fault>) {
        let tick = clock_tick(self.cpu, self.bus);
        let ticked = Machine { cpu: tick.cpu, bus: tick.bus, ..self };
        match tick.result {
            Err(fault) => (Machine { running: false, ..ticked }, Err(fault)),
            Ok(_) => (ticked, Ok(ticked.bus.io.lcd_enabled())),
        }
    }

    /// The device after one raw clock tick of an instruction step of which
    /// `done` ticks have passed, and what the tick reports. A step goes in
    /// rounds of four ticks: the tick that ends a round completes the step
    /// if it leaves the processor idle, and the serial port is polled then.
    pub open spec fn step_tick(self, done: nat) -> (Machine, Result<StepTick, Fault>) {
        let (ticked, result) = self.tick();
        match result {
            Err(fault) => (ticked, Err(fault)),
            Ok(display) => if done % 4 == 3 && ticked.cpu.occupied == 0 {
                let (polled, serial) = ticked.poll_serial();
                (polled, Ok(StepTick { display, step_complete: true, serial }))
            } else {
                (ticked, Ok(StepTick { display, step_complete: false, serial: None }))
            },
        }
    }

    /// An upper bound on the raw ticks still to go in a step of which `done`
    /// ticks have passed: the rest of the round under way, and four for
    /// every round the processor will still be occupied after it.
    pub open spec fn remaining(self, done: nat) -> int {
        let round = 4 - done % 4;
        let rounds = if ticks_to_boundary(self.cpu.counter) <= round {
            if self.cpu.occupied == 0 {
                5
            } else {
                self.cpu.occupied - 1
            }
        } else {
            self.cpu.occupied as int
        };
        round + 4 * rounds
    }

    /// The device after the rest of an instruction step of which `done` raw
    /// ticks have passed, and the report of the whole step, as a driver
    /// reaches it tick by tick: raw ticks follow one another until one
    /// faults or completes the step.
    pub open spec fn finish_step(self, done: nat) -> (Machine, Result<StepReport, Fault>)
        decreases self.remaining(done),
        via Self::finish_step_decreases
    {
        let (next, result) = self.step_tick(done);
        match result {
            Err(fault) => (next, Err(fault)),
            Ok(report) => if report.step_complete {
                (next, Ok(StepReport { ticks: (done + 1) as u64, serial: report.serial }))
            } else {
                next.finish_step(done + 1)
            },
        }
    }

    #[via_fn]
    proof fn finish_step_decreases(self, done: nat) {
        lemma_tick_progress(self, done);
    }

    /// The device after `ticks` raw ticks, at most 256, through which the
    /// processor only waited, with `occupied` machine cycles left to wait at
    /// the end: the tick counter has moved on, and the timer divider too if
    /// the counter wrapped.
    pub open spec fn coast(self, ticks: int, occupied: u32) -> Machine
        recommends
            0 <= ticks <= 256,
    {
        Machine {
            cpu: CpuView {
                counter: ((self.cpu.counter + ticks) % 256) as u8,
                occupied,
                ..self.cpu
            },
            bus: if self.cpu.counter + ticks >= 256 {
                self.bus.inc_timer_div()
            } else {
                self.bus
            },
            ..self
        }
    }

    /// The device after one round of a step: four raw clock ticks, or
    /// fewer where one of them faults.
    pub open spec fn round(self) -> (Machine, Result<(), Fault>) {
        let (first, first_result) = self.tick();
        let (second, second_result) = first.tick();
        let (third, third_result) = second.tick();
        let (fourth, fourth_result) = third.tick();
        if first_result is Err {
            (first, Err(first_result->Err_0))
        } else if second_result is Err {
            (second, Err(second_result->Err_0))
        } else if third_result is Err {
            (third, Err(third_result->Err_0))
        } else if fourth_result is Err {
            (fourth, Err(fourth_result->Err_0))
        } else {
            (fourth, Ok(()))
        }
    }

    /// An upper bound on the rounds still to go in a step.
    pub open spec fn rounds_left(self) -> int {
        if self.cpu.occupied == 0 {
            6
        } else {
            self.cpu.occupied as int
        }
    }

    /// The device after the rest of an instruction step of which `rounds`
    /// rounds have passed, and the report of the whole step. Rounds of four
    /// raw ticks follow one another. A fault ends the step at once. The
    /// first round that leaves the processor idle ends it too, and the
    /// serial port is polled then.
    pub open spec fn step_rounds(self, rounds: nat) -> (Machine, Result<StepReport, Fault>)
        decreases self.rounds_left(),
        via Self::step_rounds_decreases
    {
        let (next, result) = self.round();
        match result {
            Err(fault) => (next, Err(fault)),
            Ok(_) => if next.cpu.occupied == 0 {
                let (polled, serial) = next.poll_serial();
                (polled, Ok(StepReport { ticks: (4 * (rounds + 1)) as u64, serial }))
            } else {
                next.step_rounds(rounds + 1)
            },
        }
    }

    #[via_fn]
    proof fn step_rounds_decreases(self, rounds: nat) {
        lemma_round_progress(self);
    }

    /// The device after one instruction step, and the report of the step.
    pub open spec fn step(self) -> (Machine, Result<StepReport, Fault>) {
        self.step_rounds(0)
    }

    /// The device after `count` instruction steps in a row, or at the first
    /// of them that faults.
    pub open spec fn steps(self, count: nat) -> (Machine, Result<(), Fault>)
        decreases count,
    {
        if count == 0 {
            (self, Ok(()))
        } else {
            let (next, result) = self.step();
            match result {
                Err(fault) => (next, Err(fault)),
                Ok(_) => next.steps((count - 1) as nat),
            }
        }
    }

    /// Whether stepping from here reaches the breakpoint after exactly
    /// `count` steps and at no step boundary before: the program counter is
    /// off the breakpoint before each of the `count` steps, each of them
    /// completes, and the program counter is at the breakpoint after the
    /// last.
    pub open spec fn first_at_breakpoint_after(self, count: nat) -> bool
        decreases count,
    {
        if count == 0 {
            self.at_breakpoint()
        } else {
            !self.at_breakpoint() && self.step().1 is Ok && self.step().0.first_at_breakpoint_after(
                (count - 1) as nat,
            )
        }
    }

    /// The device after the run loop went on for at most `budget` more
    /// steps, having done `steps` already, and the number of steps done in
    /// all. Before each step the loop pauses if the program counter is at
    /// the breakpoint, and ends if the device is paused.
    pub open spec fn run_loop(self, budget: nat, steps: nat) -> (Machine, Result<u64, Fault>)
        decreases budget,
    {
        let checked = self.check_breakpoint();
        if !checked.running || budget == 0 {
            (checked, Ok(steps as u64))
        } else {
            let (next, result) = checked.step();
            match result {
                Err(fault) => (next, Err(fault)),
                Ok(_) => next.run_loop((budget - 1) as nat, steps + 1),
            }
        }
    }
}

/// The device.
pub struct Device {
    cpu: CPU,
    mem_map: MemMap,
    running: bool,
    serial_buffer: Vec<u8>,
    breakpoint: Option<u16>,
}

impl Device {
    /// The state of the device.
    pub closed spec fn view(&self) -> Machine {
        Machine {
            cpu: self.cpu@,
            bus: self.mem_map@,
            running: self.running,
            serial: self.serial_buffer@,
            breakpoint: self.breakpoint,
        }
    }

    /// A device at power-on around `cartridge`.
    pub fn new(cartridge: Cartridge) -> (device: Device)
        ensures
            device@ == Machine::power_on(cartridge.data@, cartridge.cartridge_type),
    {
        let mem_map = MemMap::new(cartridge);
        let cpu = CPU::new();
        let running = false;
        let serial_buffer = Vec::new();
        Device { cpu, mem_map, running, serial_buffer, breakpoint: None }
    }

    /// The processor.
    pub fn cpu(&self) -> (cpu: &CPU)
        ensures
            cpu@ == self@.cpu,
    {
        &self.cpu
    }

    /// The bus.
    pub fn mem_map(&self) -> (mem_map: &MemMap)
        ensures
            mem_map@ == self@.bus,
    {
        &self.mem_map
    }

    /// The bus, for a collaborator that works on it between two ticks.
    pub fn mem_map_mut(&mut self) -> (mem_map: &mut MemMap)
        ensures
            mem_map@ == old(self)@.bus,
            final(self)@ == (Machine { bus: final(mem_map)@, ..old(self)@ }),
    {
        &mut self.mem_map
    }

    /// Whether the run loop is to go on.
    pub fn running(&self) -> (running: bool)
        ensures
            running == self@.running,
    {
        self.running
    }

    /// Sets or clears the run flag. The run loop sees the change before
    /// its next step.
    pub fn set_running(&mut self, running: bool)
        ensures
            final(self)@ == (Machine { running, ..old(self)@ }),
    {
        self.running = running;
    }

    /// The breakpoint, if one is set.
    pub fn breakpoint(&self) -> (breakpoint: Option<u16>)
        ensures
            breakpoint == self@.breakpoint,
    {
        self.breakpoint
    }

    /// Every byte the serial port has sent, oldest first.
    pub fn serial_buffer(&self) -> (buffer: &Vec<u8>)
        ensures
            buffer@ == self@.serial,
    {
        &self.serial_buffer
    }

    /// Replaces the registers of the processor.
    pub fn set_registers(&mut self, registers: RegisterSet)
        ensures
            final(self)@ == (Machine {
                cpu: CpuView { registers, ..old(self)@.cpu },
                ..old(self)@
            }),
    {
        self.cpu.set_registers(registers);
    }

    /// Reads a byte through the bus.
    pub fn read_byte(&self, address: u16) -> (result: Result<u8, BusError>)
        ensures
            result == self@.bus.read_byte(address),
    {
        self.mem_map.read_byte(address)
    }

    /// Writes a byte through the bus. A refused write changes nothing.
    pub fn write_byte(&mut self, address: u16, value: u8) -> (result: Result<(), BusError>)
        ensures
            match old(self)@.bus.write_byte(address, value) {
                Ok(bus) => result is Ok && final(self)@ == (Machine { bus, ..old(self)@ }),
                Err(error) => result == Err::<(), BusError>(error) && final(self)@ == old(self)@,
            },
    {
        self.mem_map.write_byte(address, value)
    }

    /// Sets the breakpoint at `addr`, or clears it if it is there already.
    pub fn toggle_breakpoint(&mut self, addr: u16)
        ensures
            final(self)@ == (Machine {
                breakpoint: if old(self)@.breakpoint == Some(addr) {
                    None
                } else {
                    Some(addr)
                },
                ..old(self)@
            }),
    {
        match self.breakpoint {
            Some(breakpoint) if breakpoint == addr => {
                self.breakpoint = None;
            },
            _ => {
                self.breakpoint = Some(addr);
            },
        }
    }

    /// Whether the display hardware is switched on.
    pub fn ppu_enabled(&self) -> (enabled: bool)
        ensures
            enabled == self@.bus.io.lcd_enabled(),
    {
        self.mem_map.io().lcd_enabled()
    }

    /// A snapshot of the registers and the waiting serial byte.
    pub fn cpu_state(&self) -> (state: CPUState)
        ensures
            state.registers == self@.cpu.registers,
            state.serial_data == self@.bus.io.read(SERIAL_DATA),
    {
        CPUState {
            registers: *self.cpu.registers(),
            serial_data: self.mem_map.io().read_byte(SERIAL_DATA),
        }
    }

    /// Polls the serial port: a pending transfer request sends the byte in
    /// the data register to the serial buffer and clears the request.
    pub fn check_serial(&mut self) -> (sent: Option<u8>)
        ensures
            final(self)@ == old(self)@.poll_serial().0,
            sent == old(self)@.poll_serial().1,
    {
        if self.mem_map.io().read_byte(SERIAL_CONTROL) == SERIAL_TRANSFER_REQUEST {
            let data: u8 = self.mem_map.io().read_byte(SERIAL_DATA);
            self.serial_buffer.push(data);
            self.mem_map.write_io(SERIAL_CONTROL, 0x00);
            Some(data)
        } else {
            None
        }
    }

    /// The check that comes before each step of the run loop: pauses the
    /// device if the program counter is at the breakpoint, and says whether
    /// the loop is to go on.
    pub fn keep_running(&mut self) -> (go: bool)
        ensures
            final(self)@ == old(self)@.check_breakpoint(),
            go == final(self)@.running,
    {
        if let Some(addr) = self.breakpoint {
            if self.cpu.registers().pc() == addr {
                self.running = false;
            }
        }
        self.running
    }

    /// One raw clock tick of the processor and the bus. Returns whether the
    /// display is due a tick. A fault pauses the device.
    pub fn cycle(&mut self) -> (result: Result<bool, Fault>)
        ensures
            final(self)@ == old(self)@.tick().0,
            result == old(self)@.tick().1,
    {
        reveal(Machine::tick);
        match self.cpu.cycle(&mut self.mem_map) {
            Err(fault) => {
                self.running = false;
                Err(fault)
            },
            Ok(_) => Ok(self.ppu_enabled()),
        }
    }

    /// One raw clock tick of an instruction step, for a driver that paces
    /// the ticks itself. `progress` starts at [`StepProgress::new`] and
    /// moves on by one tick. The tick that ends a round of four and leaves
    /// the processor idle completes the step and polls the serial port.
    pub fn step_tick(&mut self, progress: &mut StepProgress) -> (result: Result<StepTick, Fault>)
        ensures
            final(self)@ == old(self)@.step_tick(old(progress)@).0,
            result == old(self)@.step_tick(old(progress)@).1,
            final(progress)@ == (old(progress)@ + 1) % 4,
    {
        let ends_round: bool = progress.phase % 4 == 3;
        progress.phase = (progress.phase % 4 + 1) % 4;
        let display: bool = match self.cycle() {
            Ok(display) => display,
            Err(fault) => {
                return Err(fault);
            },
        };
        if ends_round && !self.cpu.is_busy() {
            let serial: Option<u8> = self.check_serial();
            Ok(StepTick { display, step_complete: true, serial })
        } else {
            Ok(StepTick { display, step_complete: false, serial: None })
        }
    }

    /// One instruction step: rounds of four raw ticks follow one another
    /// until a round leaves the processor idle. Then the serial port is
    /// polled. A fault ends the step at once.
    pub fn step(&mut self) -> (result: Result<StepReport, Fault>)
        ensures
            final(self)@ == old(self)@.step().0,
            result == old(self)@.step().1,
    {
        let ghost start = self@;
        let mut rounds: u64 = 0;
        loop
            invariant
                start == old(self)@,
                self@.step_rounds(rounds as nat) == start.step_rounds(0),
                rounds + self@.rounds_left() <= start.rounds_left(),
            decreases self@.rounds_left(),
        {
            proof {
                lemma_round_progress(self@);
            }
            if let Err(fault) = self.cycle() {
                return Err(fault);
            }
            if let Err(fault) = self.cycle() {
                return Err(fault);
            }
            if let Err(fault) = self.cycle() {
                return Err(fault);
            }
            if let Err(fault) = self.cycle() {
                return Err(fault);
            }
            rounds = rounds + 1;
            if !self.cpu.is_busy() {
                let serial: Option<u8> = self.check_serial();
                return Ok(StepReport { ticks: 4 * rounds, serial });
            }
        }
    }

    /// Sets the run flag and runs the loop for at most `max_steps` steps.
    pub fn run(&mut self, max_steps: u64) -> (result: Result<u64, Fault>)
        ensures
            final(self)@ == (Machine { running: true, ..old(self)@ }).run_loop(
                max_steps as nat,
                0,
            ).0,
            result == (Machine { running: true, ..old(self)@ }).run_loop(max_steps as nat, 0).1,
    {
        self.running = true;
        self.run_loop(max_steps)
    }

    /// The run loop: steps follow one another until the device is paused,
    /// the program counter is at the breakpoint, a fault stops the
    /// processor, or `max_steps` steps are done. Returns the number of steps
    /// done.
    pub fn run_loop(&mut self, max_steps: u64) -> (result: Result<u64, Fault>)
        ensures
            final(self)@ == old(self)@.run_loop(max_steps as nat, 0).0,
            result == old(self)@.run_loop(max_steps as nat, 0).1,
    {
        let ghost start = self@;
        let mut steps: u64 = 0;
        loop
            invariant
                start == old(self)@,
                steps <= max_steps,
                self@.run_loop((max_steps - steps) as nat, steps as nat) == start.run_loop(
                    max_steps as nat,
                    0,
                ),
            decreases max_steps - steps,
        {
            let ghost before = self@;
            if !self.keep_running() || steps == max_steps {
                assert(before.run_loop((max_steps - steps) as nat, steps as nat) == (
                    self@,
                    Ok::<u64, Fault>(steps),
                ));
                return Ok(steps);
            }
            let ghost checked = self@;
            match self.step() {
                Ok(_) => {},
                Err(fault) => {
                    assert(before.run_loop((max_steps - steps) as nat, steps as nat) == (
                        self@,
                        Err::<u64, Fault>(fault),
                    ));
                    return Err(fault);
                },
            }
            assert(before.run_loop((max_steps - steps) as nat, steps as nat) == self@.run_loop(
                (max_steps - steps - 1) as nat,
                (steps + 1) as nat,
            ));
            steps = steps + 1;
        }
    }
}

/// A raw tick leaves the tick counter one further, whatever else it does,
/// and a tick of a step that neither faults nor completes the step brings
/// the end of the step nearer.
pub proof fn lemma_tick_progress(machine: Machine, done: nat)
    ensures
        machine.tick().0.cpu.counter == next_counter(machine.cpu.counter),
        0 < machine.remaining(done),
        machine.step_tick(done).1 is Ok && !machine.step_tick(done).1->Ok_0.step_complete
            ==> machine.step_tick(done).0.remaining(done + 1) < machine.remaining(done),
{
    reveal(Machine::tick);
    let counter = next_counter(machine.cpu.counter);
    let ticked = CpuView { counter, ..machine.cpu };
    let bus = if counter == 0 {
        machine.bus.inc_timer_div()
    } else {
        machine.bus
    };
    if counter % 4 == 0 && ticked.occupied == 0 {
        let ready = CpuView { interrupts: ticked.interrupts.spec_advance(), ..ticked };
        match decode(ready.registers.pc, bus.rom) {
            Err(_) => {},
            Ok(instruction) => {
                lemma_execute_cost(ready.with_bus(bus), instruction);
            },
        }
    }
}

/// A raw tick that does not fault moves the tick counter on by one. If it
/// reaches a machine cycle, a busy processor is occupied for one cycle less
/// after it and an idle one for at most five; if it reaches none, the
/// processor is as occupied as before.
proof fn lemma_tick_effect(machine: Machine)
    ensures
        machine.tick().1 is Ok ==> {
            let after = machine.tick().0.cpu;
            &&& after.counter == next_counter(machine.cpu.counter)
            &&& after.counter % 4 != 0 ==> after.occupied == machine.cpu.occupied
            &&& after.counter % 4 == 0 && machine.cpu.occupied > 0 ==> after.occupied
                == machine.cpu.occupied - 1
            &&& after.counter % 4 == 0 && machine.cpu.occupied == 0 ==> after.occupied <= 5
        },
{
    reveal(Machine::tick);
    let counter = next_counter(machine.cpu.counter);
    let ticked = CpuView { counter, ..machine.cpu };
    let bus = if counter == 0 {
        machine.bus.inc_timer_div()
    } else {
        machine.bus
    };
    if counter % 4 == 0 && ticked.occupied == 0 {
        let ready = CpuView { interrupts: ticked.interrupts.spec_advance(), ..ticked };
        match decode(ready.registers.pc, bus.rom) {
            Err(_) => {},
            Ok(instruction) => {
                lemma_execute_cost(ready.with_bus(bus), instruction);
            },
        }
    }
}

/// Every round holds exactly one machine cycle: a round that does not
/// fault leaves a busy processor occupied for one cycle less, and an idle
/// one for at most five.
pub proof fn lemma_round_progress(machine: Machine)
    ensures
        machine.round().1 is Ok ==> {
            &&& machine.cpu.occupied > 0 ==> machine.round().0.cpu.occupied
                == machine.cpu.occupied - 1
            &&& machine.cpu.occupied == 0 ==> machine.round().0.cpu.occupied <= 5
            &&& machine.round().0.rounds_left() < machine.rounds_left()
                || machine.round().0.cpu.occupied == 0
        },
{
    let first = machine.tick().0;
    let second = first.tick().0;
    let third = second.tick().0;
    lemma_tick_effect(machine);
    lemma_tick_effect(first);
    lemma_tick_effect(second);
    lemma_tick_effect(third);
}

/// Going through a step tick by tick is going through it round by round:
/// from the start of a round, the ticks of a driver end the step where the
/// rounds do, with the same report.
pub proof fn lemma_ticks_make_rounds(machine: Machine, rounds: nat)
    ensures
        machine.finish_step(4 * rounds) == machine.step_rounds(rounds),
    decreases machine.rounds_left(),
{
    let done = 4 * rounds;
    let first = machine.tick().0;
    let second = first.tick().0;
    let third = second.tick().0;
    let fourth = third.tick().0;
    lemma_round_progress(machine);
    if machine.tick().1 is Ok {
        assert(machine.finish_step(done) == first.finish_step(done + 1));
        if first.tick().1 is Ok {
            assert(first.finish_step(done + 1) == second.finish_step(done + 2));
            if second.tick().1 is Ok {
                assert(second.finish_step(done + 2) == third.finish_step(done + 3));
                if third.tick().1 is Ok && fourth.cpu.occupied != 0 {
                    assert(third.finish_step(done + 3) == fourth.finish_step(done + 4));
                    lemma_ticks_make_rounds(fourth, rounds + 1);
                }
            }
        }
    }
}

/// A raw tick that reaches no machine cycle moves the tick counter and
/// nothing else.
proof fn lemma_waiting_tick(machine: Machine)
    requires
        next_counter(machine.cpu.counter) % 4 != 0,
    ensures
        machine.tick().0 == machine.coast(1, machine.cpu.occupied),
        machine.tick().1 == Ok::<bool, Fault>(machine.bus.io.lcd_enabled()),
{
    reveal(Machine::tick);
}

/// A raw tick that reaches a machine cycle of a busy processor counts one
/// occupied cycle down.
proof fn lemma_busy_tick(machine: Machine)
    requires
        next_counter(machine.cpu.counter) % 4 == 0,
        machine.cpu.occupied > 0,
    ensures
        machine.tick().0 == machine.coast(1, (machine.cpu.occupied - 1) as u32),
        machine.tick().1 is Ok,
{
    reveal(Machine::tick);
}

/// A raw tick that reaches a machine cycle of an idle processor fetches and
/// runs one instruction.
proof fn lemma_fetch_tick(machine: Machine)
    requires
        next_counter(machine.cpu.counter) % 4 == 0,
        machine.cpu.occupied == 0,
    ensures
        ({
            let fetch = machine.coast(1, 0);
            let ready = CpuView { interrupts: fetch.cpu.interrupts.spec_advance(), ..fetch.cpu };
            match decode(ready.registers.pc, fetch.bus.rom) {
                Err(error) => machine.tick().1 == Err::<bool, Fault>(
                    Fault::Decode { address: ready.registers.pc, error },
                ),
                Ok(instruction) => {
                    let outcome = execute(ready.with_bus(fetch.bus), instruction);
                    match outcome.result {
                        Err(error) => machine.tick().1 == Err::<bool, Fault>(
                            Fault::Access { instruction, error },
                        ),
                        Ok(cost) => {
                            &&& 1 <= cost <= 6
                            &&& machine.tick().1 is Ok
                            &&& machine.tick().0 == (Machine {
                                cpu: CpuView {
                                    occupied: (cost - 1) as u32,
                                    current: Some(instruction),
                                    ..ready.with_core(outcome.state)
                                },
                                bus: outcome.state.bus,
                                ..machine
                            })
                        },
                    }
                },
            }
        }),
{
    reveal(Machine::tick);
    let fetch = machine.coast(1, 0);
    let ready = CpuView { interrupts: fetch.cpu.interrupts.spec_advance(), ..fetch.cpu };
    match decode(ready.registers.pc, fetch.bus.rom) {
        Err(error) => {},
        Ok(instruction) => {
            lemma_execute_cost(ready.with_bus(fetch.bus), instruction);
        },
    }
}

/// A processor that is occupied for `k` machine cycles, with the tick
/// counter at a machine cycle and a round of the step about to begin,
/// completes the step after exactly `4 * k` raw ticks through which it only
/// waits.
proof fn lemma_countdown(machine: Machine, done: nat)
    requires
        1 <= machine.cpu.occupied <= 6,
        machine.cpu.counter % 4 == 0,
        done % 4 == 0,
    ensures
        machine.finish_step(done).0 == machine.coast(4 * machine.cpu.occupied, 0).poll_serial().0,
        machine.finish_step(done).1 == Ok::<StepReport, Fault>(
            StepReport {
                ticks: (done + 4 * machine.cpu.occupied) as u64,
                serial: machine.coast(4 * machine.cpu.occupied, 0).poll_serial().1,
            },
        ),
    decreases machine.cpu.occupied,
{
    let occupied = machine.cpu.occupied;
    let first = machine.coast(1, occupied);
    let second = machine.coast(2, occupied);
    let third = machine.coast(3, occupied);
    lemma_waiting_tick(machine);
    lemma_waiting_tick(first);
    lemma_waiting_tick(second);
    lemma_busy_tick(third);
    assert(machine.finish_step(done) == first.finish_step(done + 1));
    assert(first.finish_step(done + 1) == second.finish_step(done + 2));
    assert(second.finish_step(done + 2) == third.finish_step(done + 3));
    if occupied > 1 {
        let fourth = machine.coast(4, (occupied - 1) as u32);
        assert(third.finish_step(done + 3) == fourth.finish_step(done + 4));
        lemma_countdown(fourth, done + 4);
    }
}

/// Cycle accounting. From a device that stands between two steps, a step
/// passes the three raw ticks up to the next machine cycle, fetches there
/// and runs one instruction, and, where that instruction reports a cost of
/// `C` machine cycles, ends after exactly `4 * C` raw ticks: the fetch and
/// `C - 1` machine cycles through which the processor only waits. Nothing
/// is fetched in between: the registers at the end of the step are those
/// the one instruction left, and the device again stands between two steps.
pub proof fn lemma_step_accounting(machine: Machine)
    requires
        machine.between_steps(),
    ensures
        ({
            let fetch = machine.coast(4, 0);
            let ready = CpuView { interrupts: fetch.cpu.interrupts.spec_advance(), ..fetch.cpu };
            match decode(ready.registers.pc, fetch.bus.rom) {
                Err(error) => machine.step().1 == Err::<StepReport, Fault>(
                    Fault::Decode { address: ready.registers.pc, error },
                ),
                Ok(instruction) => {
                    let outcome = execute(ready.with_bus(fetch.bus), instruction);
                    match outcome.result {
                        Err(error) => machine.step().1 == Err::<StepReport, Fault>(
                            Fault::Access { instruction, error },
                        ),
                        Ok(cost) => {
                            let ran = Machine {
                                cpu: CpuView {
                                    occupied: (cost - 1) as u32,
                                    current: Some(instruction),
                                    ..ready.with_core(outcome.state)
                                },
                                bus: outcome.state.bus,
                                ..machine
                            };
                            let end = ran.coast(4 * (cost - 1), 0);
                            &&& 1 <= cost <= 6
                            &&& machine.step().0 == end.poll_serial().0
                            &&& machine.step().1 == Ok::<StepReport, Fault>(
                                StepReport {
                                    ticks: (4 * cost) as u64,
                                    serial: end.poll_serial().1,
                                },
                            )
                            &&& end.cpu.registers == outcome.state.registers
                            &&& machine.step().0.between_steps()
                        },
                    }
                },
            }
        }),
{
    lemma_ticks_make_rounds(machine, 0);
    let first = machine.coast(1, 0);
    let second = machine.coast(2, 0);
    let third = machine.coast(3, 0);
    let fetch = machine.coast(4, 0);
    lemma_waiting_tick(machine);
    lemma_waiting_tick(first);
    lemma_waiting_tick(second);
    lemma_fetch_tick(third);
    assert(machine.finish_step(0) == first.finish_step(1));
    assert(first.finish_step(1) == second.finish_step(2));
    assert(second.finish_step(2) == third.finish_step(3));
    let ready = CpuView { interrupts: fetch.cpu.interrupts.spec_advance(), ..fetch.cpu };
    match decode(ready.registers.pc, fetch.bus.rom) {
        Err(error) => {},
        Ok(instruction) => {
            let outcome = execute(ready.with_bus(fetch.bus), instruction);
            match outcome.result {
                Err(error) => {},
                Ok(cost) => {
                    let ran = Machine {
                        cpu: CpuView {
                            occupied: (cost - 1) as u32,
                            current: Some(instruction),
                            ..ready.with_core(outcome.state)
                        },
                        bus: outcome.state.bus,
                        ..machine
                    };
                    if cost > 1 {
                        assert(third.finish_step(3) == ran.finish_step(4));
                        lemma_countdown(ran, 4);
                    } else {
                        assert(ran.coast(0, 0) == ran);
                    }
                },
            }
        },
    }
}

/// A step never moves the breakpoint; one that completes leaves the run
/// flag as it was, and one that faults clears it.
pub proof fn lemma_step_keeps_flags(machine: Machine, done: nat)
    ensures
        machine.finish_step(done).0.breakpoint == machine.breakpoint,
        machine.finish_step(done).1 is Ok ==> machine.finish_step(done).0.running
            == machine.running,
        machine.finish_step(done).1 is Err ==> !machine.finish_step(done).0.running,
    decreases machine.remaining(done),
{
    reveal(Machine::tick);
    lemma_tick_progress(machine, done);
    let (next, result) = machine.step_tick(done);
    if result is Ok && !result->Ok_0.step_complete {
        lemma_step_keeps_flags(next, done + 1);
    }
}

/// A step goes in rounds of four raw ticks: one that completes has taken a
/// positive multiple of four ticks and leaves the processor idle. The
/// serial port is polled once, with the tick that completes the step: the
/// serial output grows by the byte the step reports, if it reports one, and
/// a step that faults sends nothing.
pub proof fn lemma_step_rounds(machine: Machine)
    ensures
        machine.step().1 is Ok ==> {
            &&& machine.step().1->Ok_0.ticks > 0
            &&& machine.step().1->Ok_0.ticks % 4 == 0
            &&& machine.step().0.cpu.occupied == 0
            &&& machine.step().0.serial == match machine.step().1->Ok_0.serial {
                Some(byte) => machine.serial.push(byte),
                None => machine.serial,
            }
        },
        machine.step().1 is Err ==> machine.step().0.serial == machine.serial,
{
    lemma_ticks_make_rounds(machine, 0);
    lemma_finish_rounds(machine, 0);
}

/// The rest of a step ends with the round under way or a later one, and
/// sends nothing before its last tick.
proof fn lemma_finish_rounds(machine: Machine, done: nat)
    requires
        done + machine.remaining(done) <= u64::MAX,
    ensures
        machine.finish_step(done).1 is Ok ==> {
            &&& done < machine.finish_step(done).1->Ok_0.ticks <= done + machine.remaining(done)
            &&& machine.finish_step(done).1->Ok_0.ticks % 4 == 0
            &&& machine.finish_step(done).0.cpu.occupied == 0
            &&& machine.finish_step(done).0.serial == match machine.finish_step(
                done,
            ).1->Ok_0.serial {
                Some(byte) => machine.serial.push(byte),
                None => machine.serial,
            }
        },
        machine.finish_step(done).1 is Err ==> machine.finish_step(done).0.serial
            == machine.serial,
    decreases machine.remaining(done),
{
    reveal(Machine::tick);
    lemma_tick_progress(machine, done);
    let (next, result) = machine.step_tick(done);
    if result is Ok && !result->Ok_0.step_complete {
        lemma_finish_rounds(next, done + 1);
    }
}

/// Breakpoint. A run loop that finds the program counter at the breakpoint
/// before a step ends there: it clears the run flag, does not run the
/// instruction at the breakpoint, and changes nothing else, however large
/// the budget.
pub proof fn lemma_breakpoint_stops_run(machine: Machine, budget: nat, steps: nat)
    requires
        machine.at_breakpoint(),
    ensures
        machine.run_loop(budget, steps).0 == (Machine { running: false, ..machine }),
        machine.run_loop(budget, steps).1 == Ok::<u64, Fault>(steps as u64),
{
}

/// Breakpoint, in general. A running device whose program counter first
/// comes to the breakpoint after `count` steps, with a budget of at least
/// that many, runs exactly those `count` steps and ends there: with the
/// program counter at the breakpoint, the run flag cleared, the instruction
/// at the breakpoint not run, and everything else as the `count` steps left
/// it.
pub proof fn lemma_run_stops_at_first_breakpoint(
    machine: Machine,
    count: nat,
    budget: nat,
    steps: nat,
)
    requires
        machine.running,
        machine.first_at_breakpoint_after(count),
        count <= budget,
    ensures
        machine.steps(count).1 is Ok,
        machine.steps(count).0.at_breakpoint(),
        machine.run_loop(budget, steps).0 == (Machine {
            running: false,
            ..machine.steps(count).0
        }),
        machine.run_loop(budget, steps).1 == Ok::<u64, Fault>((steps + count) as u64),
    decreases count,
{
    if count > 0 {
        lemma_ticks_make_rounds(machine, 0);
        lemma_step_keeps_flags(machine, 0);
        let (next, result) = machine.step();
        lemma_run_stops_at_first_breakpoint(
            next,
            (count - 1) as nat,
            (budget - 1) as nat,
            steps + 1,
        );
    }
}

/// However a run loop ends, it never leaves the device running at the
/// breakpoint or after a fault, it never moves the breakpoint, and if it
/// ends with the device still running it has used up its budget.
pub proof fn lemma_run_ends_paused(machine: Machine, budget: nat, steps: nat)
    ensures
        machine.run_loop(budget, steps).0.breakpoint == machine.breakpoint,
        machine.run_loop(budget, steps).0.at_breakpoint() ==> !machine.run_loop(
            budget,
            steps,
        ).0.running,
        machine.run_loop(budget, steps).1 is Err ==> !machine.run_loop(budget, steps).0.running,
        machine.run_loop(budget, steps).1 is Ok && machine.run_loop(budget, steps).0.running
            ==> machine.run_loop(budget, steps).1 == Ok::<u64, Fault>((steps + budget) as u64),
    decreases budget,
{
    let checked = machine.check_breakpoint();
    if checked.running && budget > 0 {
        lemma_ticks_make_rounds(checked, 0);
        lemma_step_keeps_flags(checked, 0);
        let (next, result) = checked.step();
        if result is Ok {
            lemma_run_ends_paused(next, (budget - 1) as nat, steps + 1);
        }
    }
}

} // verus!
