//! A cycle-accurate model of a handheld console's processor core: register
//! set, memory bus, instruction engine, interrupt master switch and the
//! clock that drives them.
//!
//! The modules, leaf first:
//!
//! - [`memory`], [`cartridge`], [`io_registers`]: the stores behind the bus.
//! - [`mem_map`]: the bus, which decodes the 16-bit address space.
//! - [`register_set`], [`alu`]: registers, flags and arithmetic.
//! - [`instruction`]: the instruction encoding and its decoder.
//! - [`semantics`]: what each operation does, as a specification.
//! - [`cpu`]: the engine, proved against the specification, and the
//!   machine-cycle and clock-tick functions around it.
//! - [`device`]: processor and bus in lockstep, instruction steps, the run
//!   loop, the breakpoint and the serial output.
//!
//! Every executable function states what it returns or changes over a
//! model of the state: a [`mem_map::Bus`] for the bus, a [`cpu::CpuView`]
//! for the processor, a [`device::Machine`] for the device. The larger
//! specification functions are opaque, so that a proof meets their
//! definitions only where it asks for them with `reveal`.

pub mod alu;
pub mod cartridge;
pub mod cpu;
pub mod device;
pub mod instruction;
pub mod io_registers;
pub mod mem_map;
pub mod memory;
pub mod register_set;
pub mod semantics;
