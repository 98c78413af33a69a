use myboy::cartridge::{Cartridge, CartridgeType};
use myboy::cpu::{Fault, InterruptMasterEnableStatus, CPU};
use myboy::instruction::{DecodeError, Instruction, Operation};
use myboy::mem_map::{BusError, MemMap};
use myboy::register_set::RegisterSet;

struct Rig {
    cpu: CPU,
    bus: MemMap,
    program: Vec<u8>,
}

impl Rig {
    fn new(program: &[u8]) -> Rig {
        let cartridge = Cartridge::new(program.to_vec(), CartridgeType::RomOnly);
        Rig { cpu: CPU::new(), bus: MemMap::new(cartridge), program: program.to_vec() }
    }

    fn registers(&self) -> RegisterSet {
        *self.cpu.registers()
    }

    fn set(&mut self, change: impl FnOnce(&mut RegisterSet)) {
        let mut registers = self.registers();
        change(&mut registers);
        self.cpu.set_registers(registers);
    }

    /// Decodes at the program counter and runs the instruction.
    fn run(&mut self) -> Result<u32, BusError> {
        let instruction = Instruction::create(self.registers().pc(), &self.program).unwrap();
        self.cpu.run(&mut self.bus, &instruction)
    }

    fn flags(&self) -> (bool, bool, bool, bool) {
        let registers = self.registers();
        (registers.zero, registers.subtract, registers.half_carry, registers.carry)
    }
}

#[test]
fn new_processor_is_idle_with_interrupts_disabled() {
    let cpu = CPU::new();
    assert_eq!(*cpu.registers(), RegisterSet::default());
    assert_eq!(cpu.interrupt_master_enable(), InterruptMasterEnableStatus::Disabled);
    assert_eq!(cpu.cycle_counter(), 0);
    assert_eq!(cpu.occupied_cycles(), 0);
    assert!(!cpu.is_busy());
    assert_eq!(cpu.current_instruction(), None);
}

#[test]
fn interrupt_master_enable_takes_one_fetch_to_switch_on() {
    let disabled = InterruptMasterEnableStatus::Disabled;
    let enabling = InterruptMasterEnableStatus::Enabling;
    let enabled = InterruptMasterEnableStatus::Enabled;
    assert_eq!(disabled.enable(), enabling);
    assert_eq!(enabling.advance(), enabled);
    assert_eq!(disabled.advance(), disabled);
    assert_eq!(enabled.advance(), enabled);
    assert_eq!(enabling.enable(), enabling);
    assert_eq!(enabled.enable(), enabled);
    for status in [disabled, enabling, enabled] {
        assert_eq!(status.disable(), disabled);
    }
}

#[test]
fn check_interrupts_completes_enabling() {
    let mut rig = Rig::new(&[0xFB, 0x00, 0xF3]);
    rig.cpu.check_interrupts();
    assert_eq!(rig.cpu.interrupt_master_enable(), InterruptMasterEnableStatus::Disabled);
    assert_eq!(rig.run(), Ok(1));
    assert_eq!(rig.cpu.interrupt_master_enable(), InterruptMasterEnableStatus::Enabling);
    rig.cpu.check_interrupts();
    assert_eq!(rig.cpu.interrupt_master_enable(), InterruptMasterEnableStatus::Enabled);
    rig.cpu.check_interrupts();
    assert_eq!(rig.cpu.interrupt_master_enable(), InterruptMasterEnableStatus::Enabled);
    assert_eq!(rig.run(), Ok(1));
    assert_eq!(rig.run(), Ok(1));
    assert_eq!(rig.cpu.interrupt_master_enable(), InterruptMasterEnableStatus::Disabled);
    assert_eq!(rig.registers().pc(), 3);
}

#[test]
fn machine_cycles_enable_interrupts_at_the_next_fetch() {
    let mut rig = Rig::new(&[0xFB, 0x00, 0x00, 0xF3]);
    assert_eq!(rig.cpu.m_cycle(&mut rig.bus), Ok(()));
    assert_eq!(rig.cpu.interrupt_master_enable(), InterruptMasterEnableStatus::Enabling);
    assert_eq!(rig.cpu.m_cycle(&mut rig.bus), Ok(()));
    assert_eq!(rig.cpu.interrupt_master_enable(), InterruptMasterEnableStatus::Enabled);
    assert_eq!(rig.cpu.m_cycle(&mut rig.bus), Ok(()));
    assert_eq!(rig.cpu.interrupt_master_enable(), InterruptMasterEnableStatus::Enabled);
    assert_eq!(rig.cpu.m_cycle(&mut rig.bus), Ok(()));
    assert_eq!(rig.cpu.interrupt_master_enable(), InterruptMasterEnableStatus::Disabled);
}

#[test]
fn stack_push_stores_high_byte_above_low_byte() {
    let mut rig = Rig::new(&[]);
    rig.set(|registers| registers.set_sp(0xD000));
    assert_eq!(rig.cpu.push_to_stack(&mut rig.bus, 0xBEEF), Ok(()));
    assert_eq!(rig.registers().sp(), 0xCFFE);
    assert_eq!(rig.bus.read_byte(0xCFFF), Ok(0xBE));
    assert_eq!(rig.bus.read_byte(0xCFFE), Ok(0xEF));
    assert_eq!(rig.bus.read_byte(0xD000), Ok(0x00));
}

#[test]
fn stack_round_trip_restores_value_and_pointer() {
    for sp in [0xFFFEu16, 0xFF82, 0xE000, 0xDFFF, 0xC002, 0xFDFF, 0xFEA0, 0xFE02, 0xA000, 0x8002] {
        for value in [0x0000u16, 0x1234, 0xBEEF, 0xFFFF, 0x00FF, 0xFF00] {
            let mut rig = Rig::new(&[]);
            rig.set(|registers| registers.set_sp(sp));
            let before = rig.registers();
            assert_eq!(rig.cpu.push_to_stack(&mut rig.bus, value), Ok(()));
            assert_eq!(rig.registers().sp(), sp - 2);
            assert_eq!(rig.cpu.pop_from_stack(&rig.bus), Ok(value));
            assert_eq!(rig.registers(), before);
        }
    }
}

#[test]
fn stack_in_program_memory_does_not_hold_what_is_pushed() {
    let mut rig = Rig::new(&[0x11, 0x22, 0x33, 0x44]);
    rig.set(|registers| registers.set_sp(0x0004));
    assert_eq!(rig.cpu.push_to_stack(&mut rig.bus, 0xBEEF), Ok(()));
    assert_eq!(rig.registers().sp(), 0x0002);
    assert_eq!(rig.cpu.pop_from_stack(&rig.bus), Ok(0x4433));
    assert_eq!(rig.registers().sp(), 0x0004);
}

#[test]
fn refused_push_stops_where_it_stands() {
    let mut rig = Rig::new(&[]);
    rig.set(|registers| registers.set_sp(0xC000));
    assert_eq!(rig.cpu.push_to_stack(&mut rig.bus, 0x1234), Err(BusError::UnimplementedAccess));
    assert_eq!(rig.registers().sp(), 0xC000);
    rig.set(|registers| registers.set_sp(0xC001));
    assert_eq!(rig.cpu.push_to_stack(&mut rig.bus, 0x1234), Err(BusError::UnimplementedAccess));
    assert_eq!(rig.registers().sp(), 0xC001);
    assert_eq!(rig.bus.read_byte(0xC000), Ok(0x12));
}

#[test]
fn pop_across_the_top_of_memory_fails() {
    let mut rig = Rig::new(&[]);
    assert_eq!(rig.registers().sp(), 0xFFFE);
    assert_eq!(rig.cpu.pop_from_stack(&rig.bus), Err(BusError::AddressOutOfRange));
    assert_eq!(rig.registers().sp(), 0xFFFE);
    rig.set(|registers| registers.set_sp(0xFFFF));
    assert_eq!(rig.cpu.pop_from_stack(&rig.bus), Err(BusError::UnimplementedAccess));
}

#[test]
fn stack_pointer_wraps_at_zero() {
    let mut rig = Rig::new(&[0x00]);
    rig.set(|registers| registers.set_sp(0x0001));
    assert_eq!(rig.cpu.push_to_stack(&mut rig.bus, 0xABCD), Ok(()));
    assert_eq!(rig.registers().sp(), 0xFFFF);
    assert_eq!(rig.bus.read_byte(0xFFFF), Ok(0xCD));
    assert_eq!(rig.bus.read_byte(0x0000), Ok(0x00));
    let mut rig = Rig::new(&[]);
    rig.set(|registers| registers.set_sp(0x0000));
    assert_eq!(rig.cpu.push_to_stack(&mut rig.bus, 0xABCD), Ok(()));
    assert_eq!(rig.registers().sp(), 0xFFFE);
    assert_eq!(rig.bus.read_byte(0xFFFF), Ok(0xAB));
    assert_eq!(rig.bus.read_byte(0xFFFE), Ok(0xCD));
}

#[test]
fn loads_move_bytes_between_registers_and_memory() {
    let mut rig = Rig::new(&[0x06, 0x12, 0x48, 0x21, 0x00, 0xC0, 0x71, 0x7E, 0x36, 0x99, 0x56]);
    assert_eq!(rig.run(), Ok(2));
    assert_eq!(rig.registers().b, 0x12);
    assert_eq!(rig.run(), Ok(1));
    assert_eq!(rig.registers().c, 0x12);
    assert_eq!(rig.run(), Ok(3));
    assert_eq!(rig.registers().hl(), 0xC000);
    assert_eq!(rig.run(), Ok(2));
    assert_eq!(rig.bus.read_byte(0xC000), Ok(0x12));
    assert_eq!(rig.run(), Ok(2));
    assert_eq!(rig.registers().a, 0x12);
    assert_eq!(rig.run(), Ok(3));
    assert_eq!(rig.bus.read_byte(0xC000), Ok(0x99));
    assert_eq!(rig.run(), Ok(2));
    assert_eq!(rig.registers().d, 0x99);
    assert_eq!(rig.registers().pc(), 11);
    assert_eq!(rig.flags(), (false, false, false, false));
}

#[test]
fn accumulator_transfers_move_the_pointer() {
    let mut rig = Rig::new(&[0x22, 0x32, 0x2A, 0x3A, 0x02, 0x1A, 0xEA, 0x10, 0xC0, 0xFA, 0x00, 0xC0]);
    rig.set(|registers| {
        registers.a = 0x55;
        registers.set_hl(0xC000);
        registers.set_bc(0xC005);
        registers.set_de(0xC000);
    });
    assert_eq!(rig.run(), Ok(2));
    assert_eq!(rig.registers().hl(), 0xC001);
    assert_eq!(rig.bus.read_byte(0xC000), Ok(0x55));
    rig.set(|registers| registers.a = 0x66);
    assert_eq!(rig.run(), Ok(2));
    assert_eq!(rig.registers().hl(), 0xC000);
    assert_eq!(rig.bus.read_byte(0xC001), Ok(0x66));
    assert_eq!(rig.run(), Ok(2));
    assert_eq!(rig.registers().a, 0x55);
    assert_eq!(rig.registers().hl(), 0xC001);
    assert_eq!(rig.run(), Ok(2));
    assert_eq!(rig.registers().a, 0x66);
    assert_eq!(rig.registers().hl(), 0xC000);
    assert_eq!(rig.run(), Ok(2));
    assert_eq!(rig.bus.read_byte(0xC005), Ok(0x66));
    assert_eq!(rig.run(), Ok(2));
    assert_eq!(rig.registers().a, 0x55);
    assert_eq!(rig.run(), Ok(4));
    assert_eq!(rig.bus.read_byte(0xC010), Ok(0x55));
    rig.set(|registers| registers.a = 0);
    assert_eq!(rig.run(), Ok(4));
    assert_eq!(rig.registers().a, 0x55);
    assert_eq!(rig.registers().pc(), 12);
}

#[test]
fn pointer_wraps_when_it_moves_past_either_end() {
    let mut rig = Rig::new(&[0x3A, 0x2A]);
    rig.set(|registers| registers.set_hl(0x0000));
    assert_eq!(rig.run(), Ok(2));
    assert_eq!(rig.registers().hl(), 0xFFFF);
    assert_eq!(rig.registers().a, 0x3A);
    assert_eq!(rig.run(), Ok(2));
    assert_eq!(rig.registers().hl(), 0x0000);
}

#[test]
fn high_page_transfers_reach_the_io_bank() {
    let mut rig = Rig::new(&[0xE0, 0x01, 0xF0, 0x01, 0xE2, 0xF2]);
    rig.set(|registers| {
        registers.a = 0x41;
        registers.c = 0x80;
    });
    assert_eq!(rig.run(), Ok(3));
    assert_eq!(rig.bus.read_byte(0xFF01), Ok(0x41));
    rig.set(|registers| registers.a = 0);
    assert_eq!(rig.run(), Ok(3));
    assert_eq!(rig.registers().a, 0x41);
    assert_eq!(rig.run(), Ok(2));
    assert_eq!(rig.bus.read_byte(0xFF80), Ok(0x41));
    rig.set(|registers| registers.a = 0);
    assert_eq!(rig.run(), Ok(2));
    assert_eq!(rig.registers().a, 0x41);
}

#[test]
fn stack_pointer_operations_set_carries_of_the_low_byte() {
    let mut rig = Rig::new(&[0x31, 0xF8, 0xFF, 0xF8, 0x02, 0xE8, 0x08, 0xE8, 0xFF, 0xF9, 0x08, 0x00, 0xC1]);
    assert_eq!(rig.run(), Ok(3));
    assert_eq!(rig.registers().sp(), 0xFFF8);
    rig.set(|registers| registers.set_flags(true, true, true, true));
    assert_eq!(rig.run(), Ok(3));
    assert_eq!(rig.registers().hl(), 0xFFFA);
    assert_eq!(rig.flags(), (false, false, false, false));
    assert_eq!(rig.run(), Ok(4));
    assert_eq!(rig.registers().sp(), 0x0000);
    assert_eq!(rig.flags(), (false, false, true, true));
    assert_eq!(rig.run(), Ok(4));
    assert_eq!(rig.registers().sp(), 0xFFFF);
    assert_eq!(rig.flags(), (false, false, false, false));
    assert_eq!(rig.run(), Ok(2));
    assert_eq!(rig.registers().sp(), 0xFFFA);
    assert_eq!(rig.run(), Ok(5));
    assert_eq!(rig.bus.read_word(0xC100), Ok(0xFFFA));
    assert_eq!(rig.registers().pc(), 13);
}

#[test]
fn arithmetic_updates_accumulator_and_flags() {
    let mut rig = Rig::new(&[0xC6, 0xC6, 0xCE, 0x0F, 0xD6, 0x11, 0xDE, 0x00, 0xE6, 0xF0, 0xF6, 0x0F, 0xEE, 0xFF, 0xFE, 0x01, 0x80, 0x96]);
    rig.set(|registers| registers.a = 0x3A);
    assert_eq!(rig.run(), Ok(2));
    assert_eq!(rig.registers().a, 0x00);
    assert_eq!(rig.flags(), (true, false, true, true));
    assert_eq!(rig.run(), Ok(2));
    assert_eq!(rig.registers().a, 0x10);
    assert_eq!(rig.flags(), (false, false, true, false));
    assert_eq!(rig.run(), Ok(2));
    assert_eq!(rig.registers().a, 0xFF);
    assert_eq!(rig.flags(), (false, true, true, true));
    assert_eq!(rig.run(), Ok(2));
    assert_eq!(rig.registers().a, 0xFE);
    assert_eq!(rig.flags(), (false, true, false, false));
    assert_eq!(rig.run(), Ok(2));
    assert_eq!(rig.registers().a, 0xF0);
    assert_eq!(rig.flags(), (false, false, true, false));
    assert_eq!(rig.run(), Ok(2));
    assert_eq!(rig.registers().a, 0xFF);
    assert_eq!(rig.flags(), (false, false, false, false));
    assert_eq!(rig.run(), Ok(2));
    assert_eq!(rig.registers().a, 0x00);
    assert_eq!(rig.flags(), (true, false, false, false));
    assert_eq!(rig.run(), Ok(2));
    assert_eq!(rig.registers().a, 0x00);
    assert_eq!(rig.flags(), (false, true, true, true));
    rig.set(|registers| {
        registers.a = 0x01;
        registers.b = 0x02;
        registers.set_hl(0xC000);
    });
    assert_eq!(rig.bus.write_byte(0xC000, 0x03), Ok(()));
    assert_eq!(rig.run(), Ok(1));
    assert_eq!(rig.registers().a, 0x03);
    assert_eq!(rig.run(), Ok(2));
    assert_eq!(rig.registers().a, 0x00);
    assert_eq!(rig.flags(), (true, true, false, false));
}

#[test]
fn counting_keeps_the_carry_flag() {
    let mut rig = Rig::new(&[0x3C, 0x3D, 0x34, 0x35, 0x03, 0x0B, 0x0B, 0x33]);
    rig.set(|registers| {
        registers.a = 0xFF;
        registers.carry = true;
        registers.set_hl(0xC000);
    });
    assert_eq!(rig.run(), Ok(1));
    assert_eq!(rig.registers().a, 0x00);
    assert_eq!(rig.flags(), (true, false, true, true));
    assert_eq!(rig.run(), Ok(1));
    assert_eq!(rig.registers().a, 0xFF);
    assert_eq!(rig.flags(), (false, true, true, true));
    assert_eq!(rig.bus.write_byte(0xC000, 0x0F), Ok(()));
    assert_eq!(rig.run(), Ok(3));
    assert_eq!(rig.bus.read_byte(0xC000), Ok(0x10));
    assert_eq!(rig.flags(), (false, false, true, true));
    assert_eq!(rig.run(), Ok(3));
    assert_eq!(rig.bus.read_byte(0xC000), Ok(0x0F));
    assert_eq!(rig.flags(), (false, true, true, true));
    assert_eq!(rig.run(), Ok(2));
    assert_eq!(rig.registers().bc(), 0x0001);
    assert_eq!(rig.run(), Ok(2));
    assert_eq!(rig.run(), Ok(2));
    assert_eq!(rig.registers().bc(), 0xFFFF);
    assert_eq!(rig.flags(), (false, true, true, true));
    rig.set(|registers| registers.set_sp(0xFFFF));
    assert_eq!(rig.run(), Ok(2));
    assert_eq!(rig.registers().sp(), 0x0000);
}

#[test]
fn word_addition_keeps_the_zero_flag() {
    let mut rig = Rig::new(&[0x09, 0x29, 0x39]);
    rig.set(|registers| {
        registers.set_hl(0x8A23);
        registers.set_bc(0x0605);
        registers.set_sp(0x0001);
        registers.zero = true;
        registers.subtract = true;
    });
    assert_eq!(rig.run(), Ok(2));
    assert_eq!(rig.registers().hl(), 0x9028);
    assert_eq!(rig.flags(), (true, false, true, false));
    assert_eq!(rig.run(), Ok(2));
    assert_eq!(rig.registers().hl(), 0x2050);
    assert_eq!(rig.flags(), (true, false, false, true));
    assert_eq!(rig.run(), Ok(2));
    assert_eq!(rig.registers().hl(), 0x2051);
    assert_eq!(rig.flags(), (true, false, false, false));
}

#[test]
fn accumulator_operations_follow_their_names() {
    let mut rig = Rig::new(&[0x07, 0x0F, 0x17, 0x1F, 0x2F, 0x37, 0x3F, 0x3F, 0x27]);
    rig.set(|registers| {
        registers.a = 0x85;
        registers.zero = true;
    });
    assert_eq!(rig.run(), Ok(1));
    assert_eq!(rig.registers().a, 0x0B);
    assert_eq!(rig.flags(), (false, false, false, true));
    assert_eq!(rig.run(), Ok(1));
    assert_eq!(rig.registers().a, 0x85);
    assert_eq!(rig.flags(), (false, false, false, true));
    assert_eq!(rig.run(), Ok(1));
    assert_eq!(rig.registers().a, 0x0B);
    assert_eq!(rig.flags(), (false, false, false, true));
    assert_eq!(rig.run(), Ok(1));
    assert_eq!(rig.registers().a, 0x85);
    assert_eq!(rig.flags(), (false, false, false, true));
    rig.set(|registers| registers.zero = true);
    assert_eq!(rig.run(), Ok(1));
    assert_eq!(rig.registers().a, 0x7A);
    assert_eq!(rig.flags(), (true, true, true, true));
    rig.set(|registers| registers.carry = false);
    assert_eq!(rig.run(), Ok(1));
    assert_eq!(rig.flags(), (true, false, false, true));
    assert_eq!(rig.run(), Ok(1));
    assert_eq!(rig.flags(), (true, false, false, false));
    assert_eq!(rig.run(), Ok(1));
    assert_eq!(rig.flags(), (true, false, false, true));
    rig.set(|registers| {
        registers.a = 0x7D;
        registers.set_flags(false, false, false, false);
    });
    assert_eq!(rig.run(), Ok(1));
    assert_eq!(rig.registers().a, 0x83);
    assert_eq!(rig.flags(), (false, false, false, false));
    assert_eq!(rig.registers().pc(), 9);
}

#[test]
fn bit_operations_work_on_registers_and_memory() {
    let mut rig = Rig::new(&[0xCB, 0x37, 0xCB, 0x7F, 0xCB, 0x47, 0xCB, 0xC6, 0xCB, 0x86, 0xCB, 0xFE, 0xCB, 0x7E, 0xCB, 0x16, 0xCB, 0x2F]);
    rig.set(|registers| {
        registers.a = 0xF1;
        registers.carry = true;
        registers.set_hl(0xC000);
    });
    assert_eq!(rig.run(), Ok(2));
    assert_eq!(rig.registers().a, 0x1F);
    assert_eq!(rig.flags(), (false, false, false, false));
    rig.set(|registers| registers.carry = true);
    assert_eq!(rig.run(), Ok(2));
    assert_eq!(rig.flags(), (true, false, true, true));
    assert_eq!(rig.run(), Ok(2));
    assert_eq!(rig.flags(), (false, false, true, true));
    assert_eq!(rig.run(), Ok(4));
    assert_eq!(rig.bus.read_byte(0xC000), Ok(0x01));
    assert_eq!(rig.run(), Ok(4));
    assert_eq!(rig.bus.read_byte(0xC000), Ok(0x00));
    assert_eq!(rig.run(), Ok(4));
    assert_eq!(rig.bus.read_byte(0xC000), Ok(0x80));
    assert_eq!(rig.flags(), (false, false, true, true));
    assert_eq!(rig.run(), Ok(3));
    assert_eq!(rig.flags(), (false, false, true, true));
    assert_eq!(rig.run(), Ok(4));
    assert_eq!(rig.bus.read_byte(0xC000), Ok(0x01));
    assert_eq!(rig.flags(), (false, false, false, true));
    rig.set(|registers| registers.a = 0x81);
    assert_eq!(rig.run(), Ok(2));
    assert_eq!(rig.registers().a, 0xC0);
    assert_eq!(rig.flags(), (false, false, false, true));
    assert_eq!(rig.registers().pc(), 18);
}

#[test]
fn relative_jumps_count_from_the_next_instruction() {
    let mut rig = Rig::new(&[0x18, 0x02, 0x00, 0x00, 0x18, 0xFA, 0x20, 0x10, 0x28, 0x10]);
    assert_eq!(rig.run(), Ok(3));
    assert_eq!(rig.registers().pc(), 4);
    assert_eq!(rig.run(), Ok(3));
    assert_eq!(rig.registers().pc(), 0);
    rig.set(|registers| {
        registers.set_pc(6);
        registers.zero = true;
    });
    assert_eq!(rig.run(), Ok(2));
    assert_eq!(rig.registers().pc(), 8);
    assert_eq!(rig.run(), Ok(3));
    assert_eq!(rig.registers().pc(), 0x1A);
}

#[test]
fn relative_jump_wraps_around_the_address_space() {
    let mut rig = Rig::new(&[0x18, 0xFC]);
    assert_eq!(rig.run(), Ok(3));
    assert_eq!(rig.registers().pc(), 0xFFFE);
}

#[test]
fn absolute_jumps_test_their_condition() {
    let mut rig = Rig::new(&[0xC3, 0x04, 0x00, 0x00, 0xDA, 0x00, 0x10, 0xD2, 0x0B, 0x00, 0x00, 0xE9]);
    assert_eq!(rig.run(), Ok(4));
    assert_eq!(rig.registers().pc(), 4);
    assert_eq!(rig.run(), Ok(3));
    assert_eq!(rig.registers().pc(), 7);
    assert_eq!(rig.run(), Ok(4));
    assert_eq!(rig.registers().pc(), 11);
    rig.set(|registers| registers.set_hl(0x1234));
    assert_eq!(rig.run(), Ok(1));
    assert_eq!(rig.registers().pc(), 0x1234);
}

#[test]
fn calls_push_the_return_address() {
    let mut rig = Rig::new(&[0xCD, 0x06, 0x00, 0x00, 0x00, 0x00, 0xC9, 0xC4, 0x00, 0x10, 0xCC, 0x00, 0x10, 0xC0, 0xC8]);
    assert_eq!(rig.run(), Ok(6));
    assert_eq!(rig.registers().pc(), 6);
    assert_eq!(rig.registers().sp(), 0xFFFC);
    assert_eq!(rig.bus.read_word(0xFFFC), Ok(0x0003));
    assert_eq!(rig.run(), Ok(4));
    assert_eq!(rig.registers().pc(), 3);
    assert_eq!(rig.registers().sp(), 0xFFFE);
    rig.set(|registers| {
        registers.set_pc(7);
        registers.zero = true;
    });
    assert_eq!(rig.run(), Ok(3));
    assert_eq!(rig.registers().pc(), 10);
    assert_eq!(rig.registers().sp(), 0xFFFE);
    assert_eq!(rig.run(), Ok(6));
    assert_eq!(rig.registers().pc(), 0x1000);
    assert_eq!(rig.bus.read_word(0xFFFC), Ok(0x000D));
    rig.set(|registers| registers.set_pc(13));
    assert_eq!(rig.run(), Ok(2));
    assert_eq!(rig.registers().pc(), 14);
    assert_eq!(rig.run(), Ok(5));
    assert_eq!(rig.registers().pc(), 0x000D);
    assert_eq!(rig.registers().sp(), 0xFFFE);
}

#[test]
fn restart_calls_a_fixed_address() {
    for y in 0..8u8 {
        let mut rig = Rig::new(&[0x00, 0xC7 + 8 * y]);
        rig.set(|registers| registers.set_pc(1));
        assert_eq!(rig.run(), Ok(4));
        assert_eq!(rig.registers().pc(), 8 * y as u16);
        assert_eq!(rig.bus.read_word(0xFFFC), Ok(0x0002));
    }
}

#[test]
fn return_from_interrupt_disables_the_master_enable() {
    let mut rig = Rig::new(&[0xFB, 0xCD, 0x05, 0x00, 0x00, 0xD9]);
    assert_eq!(rig.run(), Ok(1));
    rig.cpu.check_interrupts();
    assert_eq!(rig.cpu.interrupt_master_enable(), InterruptMasterEnableStatus::Enabled);
    assert_eq!(rig.run(), Ok(6));
    assert_eq!(rig.run(), Ok(4));
    assert_eq!(rig.registers().pc(), 4);
    assert_eq!(rig.cpu.interrupt_master_enable(), InterruptMasterEnableStatus::Disabled);
}

#[test]
fn push_and_pop_move_register_pairs() {
    let mut rig = Rig::new(&[0xC5, 0xD1, 0xF5, 0xE1, 0xE5, 0xF1]);
    rig.set(|registers| {
        registers.set_bc(0x1234);
        registers.a = 0xAB;
        registers.set_flags(true, false, true, false);
    });
    assert_eq!(rig.run(), Ok(4));
    assert_eq!(rig.registers().sp(), 0xFFFC);
    assert_eq!(rig.run(), Ok(3));
    assert_eq!(rig.registers().de(), 0x1234);
    assert_eq!(rig.registers().sp(), 0xFFFE);
    assert_eq!(rig.run(), Ok(4));
    assert_eq!(rig.run(), Ok(3));
    assert_eq!(rig.registers().hl(), 0xABA0);
    rig.set(|registers| registers.set_hl(0x12FF));
    assert_eq!(rig.run(), Ok(4));
    assert_eq!(rig.run(), Ok(3));
    assert_eq!(rig.registers().af(), 0x12F0);
    assert_eq!(rig.flags(), (true, true, true, true));
    assert_eq!(rig.registers().pc(), 6);
}

#[test]
fn halt_and_stop_move_on_like_a_nop() {
    let mut rig = Rig::new(&[0x76, 0x10, 0x00, 0x00]);
    let before = rig.registers();
    assert_eq!(rig.run(), Ok(1));
    assert_eq!(rig.registers().pc(), 1);
    assert_eq!(rig.run(), Ok(1));
    assert_eq!(rig.registers().pc(), 3);
    assert_eq!(rig.run(), Ok(1));
    let mut expected = before;
    expected.set_pc(4);
    assert_eq!(rig.registers(), expected);
}

#[test]
fn bus_error_leaves_the_program_counter_at_the_instruction() {
    let mut rig = Rig::new(&[0xEA, 0x00, 0xA0, 0x34, 0x08, 0x00, 0xFF, 0xC9]);
    rig.set(|registers| registers.a = 0x11);
    let before = rig.registers();
    assert_eq!(rig.run(), Err(BusError::UnimplementedAccess));
    assert_eq!(rig.registers(), before);
    rig.set(|registers| {
        registers.set_pc(3);
        registers.set_hl(0xA000);
    });
    let before = rig.registers();
    assert_eq!(rig.run(), Err(BusError::UnimplementedAccess));
    assert_eq!(rig.registers(), before);
    rig.set(|registers| registers.set_pc(4));
    assert_eq!(rig.run(), Err(BusError::UnimplementedAccess));
    assert_eq!(rig.registers().pc(), 4);
    rig.set(|registers| registers.set_pc(7));
    assert_eq!(rig.run(), Err(BusError::AddressOutOfRange));
    assert_eq!(rig.registers().pc(), 7);
    assert_eq!(rig.registers().sp(), 0xFFFE);
}

#[test]
fn machine_cycle_occupies_the_processor_for_the_cost() {
    let mut rig = Rig::new(&[0xCD, 0x04, 0x00, 0x00, 0x00]);
    assert_eq!(rig.cpu.m_cycle(&mut rig.bus), Ok(()));
    assert_eq!(rig.registers().pc(), 4);
    assert_eq!(rig.cpu.occupied_cycles(), 5);
    assert!(rig.cpu.is_busy());
    assert_eq!(
        rig.cpu.current_instruction().map(|instruction| instruction.operation),
        Some(Operation::Call { condition: None, address: 0x0004 })
    );
    for left in (0..5).rev() {
        assert_eq!(rig.cpu.m_cycle(&mut rig.bus), Ok(()));
        assert_eq!(rig.cpu.occupied_cycles(), left);
        assert_eq!(rig.registers().pc(), 4);
    }
    assert!(!rig.cpu.is_busy());
    assert_eq!(rig.cpu.m_cycle(&mut rig.bus), Ok(()));
    assert_eq!(rig.registers().pc(), 5);
    assert_eq!(rig.cpu.occupied_cycles(), 0);
}

#[test]
fn machine_cycle_reports_faults() {
    let mut rig = Rig::new(&[0x00, 0xD3]);
    assert_eq!(rig.cpu.m_cycle(&mut rig.bus), Ok(()));
    assert_eq!(
        rig.cpu.m_cycle(&mut rig.bus),
        Err(Fault::Decode { address: 1, error: DecodeError::UnknownOpcode })
    );
    assert_eq!(rig.registers().pc(), 1);
    rig.set(|registers| registers.set_pc(2));
    assert_eq!(
        rig.cpu.m_cycle(&mut rig.bus),
        Err(Fault::Decode { address: 2, error: DecodeError::OutOfRange })
    );
    let mut rig = Rig::new(&[0x36, 0x01]);
    rig.set(|registers| registers.set_hl(0xB000));
    let instruction = Instruction::create(0, &[0x36, 0x01]).unwrap();
    assert_eq!(
        rig.cpu.m_cycle(&mut rig.bus),
        Err(Fault::Access { instruction, error: BusError::UnimplementedAccess })
    );
    assert_eq!(rig.cpu.current_instruction(), Some(instruction));
    assert_eq!(rig.cpu.occupied_cycles(), 0);
}

#[test]
fn clock_runs_a_machine_cycle_every_fourth_tick() {
    let mut rig = Rig::new(&[0x00, 0x00, 0x00]);
    for tick in 1..=12u8 {
        assert_eq!(rig.cpu.cycle(&mut rig.bus), Ok(()));
        assert_eq!(rig.cpu.cycle_counter(), tick);
        assert_eq!(rig.registers().pc(), (tick / 4) as u16);
    }
}

#[test]
fn clock_advances_the_divider_when_the_counter_wraps() {
    let mut program = vec![0x18u8, 0xFE];
    program.resize(4, 0);
    let mut rig = Rig::new(&program);
    for tick in 1..=1024u32 {
        assert_eq!(rig.cpu.cycle(&mut rig.bus), Ok(()));
        assert_eq!(rig.cpu.cycle_counter(), (tick % 256) as u8);
        assert_eq!(rig.bus.read_byte(0xFF04), Ok((tick / 256) as u8));
    }
}
