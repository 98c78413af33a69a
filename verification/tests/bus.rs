use myboy::cartridge::{Cartridge, CartridgeType};
use myboy::mem_map::{BusError, MemMap, Region};

fn rom_only(data: Vec<u8>) -> MemMap {
    MemMap::new(Cartridge::new(data, CartridgeType::RomOnly))
}

fn full_rom() -> Vec<u8> {
    let mut data = vec![0u8; 0x8000];
    for (index, byte) in data.iter_mut().enumerate() {
        *byte = (index % 251) as u8;
    }
    data
}

#[test]
fn every_address_decodes_to_the_region_of_the_table() {
    let table: [(u16, u16, Region); 10] = [
        (0x0000, 0x7FFF, Region::CartridgeRom),
        (0x8000, 0x9FFF, Region::VideoRam),
        (0xA000, 0xBFFF, Region::ExternalRam),
        (0xC000, 0xDFFF, Region::WorkRam),
        (0xE000, 0xFDFF, Region::EchoRam),
        (0xFE00, 0xFE9F, Region::ObjectAttributeMemory),
        (0xFEA0, 0xFEFF, Region::Unusable),
        (0xFF00, 0xFF7F, Region::IoRegisters),
        (0xFF80, 0xFFFE, Region::HighRam),
        (0xFFFF, 0xFFFF, Region::InterruptEnable),
    ];
    for address in 0..=0xFFFFu16 {
        let region = Region::decode(address);
        let owners: Vec<&(u16, u16, Region)> =
            table.iter().filter(|row| row.0 <= address && address <= row.1).collect();
        assert_eq!(owners.len(), 1);
        assert_eq!(owners[0].2, region);
        assert_eq!(Region::last_address(region), owners[0].1);
    }
}

#[test]
fn every_byte_read_is_defined() {
    let bus = rom_only(full_rom());
    for address in 0..=0xFFFFu16 {
        let expected = if address < 0x8000 { (address as usize % 251) as u8 } else { 0 };
        assert_eq!(bus.read_byte(address), Ok(expected));
    }
}

#[test]
fn rom_read_past_the_program_is_out_of_range() {
    let bus = rom_only(vec![0x11, 0x22]);
    assert_eq!(bus.read_byte(0x0000), Ok(0x11));
    assert_eq!(bus.read_byte(0x0001), Ok(0x22));
    assert_eq!(bus.read_byte(0x0002), Err(BusError::AddressOutOfRange));
    assert_eq!(bus.read_byte(0x7FFF), Err(BusError::AddressOutOfRange));
    assert_eq!(bus.read_word(0x0000), Ok(0x2211));
    assert_eq!(bus.read_word(0x0001), Err(BusError::AddressOutOfRange));
}

#[test]
fn rom_writes_are_ignored_without_cartridge_ram() {
    let mut bus = rom_only(vec![0x11, 0x22, 0x33]);
    assert_eq!(bus.write_byte(0x0001, 0xFF), Ok(()));
    assert_eq!(bus.write_word(0x0001, 0xFFFF), Ok(()));
    assert_eq!(bus.read_byte(0x0001), Ok(0x22));
    assert_eq!(bus.read_byte(0x0002), Ok(0x33));
}

#[test]
fn rom_writes_fail_with_cartridge_ram() {
    let with_ram = [
        CartridgeType::RomRam,
        CartridgeType::RomRamBattery,
        CartridgeType::Mbc1Ram,
        CartridgeType::Mbc1RamBattery,
        CartridgeType::Mmm01Ram,
        CartridgeType::Mmm01RamBattery,
        CartridgeType::Mbc3Ram,
        CartridgeType::Mbc3RamBattery,
        CartridgeType::Mbc3TimerRamBattery,
        CartridgeType::Mbc5Ram,
        CartridgeType::Mbc5RamBattery,
        CartridgeType::Mbc5RumbleRam,
        CartridgeType::Mbc5RumbleRamBattery,
        CartridgeType::Mbc7SensorRumbleRamBattery,
        CartridgeType::HuC1RamBattery,
    ];
    for kind in with_ram {
        assert!(kind.supports_ram());
        let mut bus = MemMap::new(Cartridge::new(vec![0x11, 0x22], kind));
        assert_eq!(bus.write_byte(0x0000, 0xFF), Err(BusError::UnimplementedAccess));
        assert_eq!(bus.write_word(0x7FFF, 0xFFFF), Err(BusError::UnimplementedAccess));
        assert_eq!(bus.read_byte(0x0000), Ok(0x11));
    }
    let without_ram = [
        CartridgeType::RomOnly,
        CartridgeType::Mbc1,
        CartridgeType::Mbc2,
        CartridgeType::Mbc2Battery,
        CartridgeType::Mmm01,
        CartridgeType::Mbc3,
        CartridgeType::Mbc3TimerBattery,
        CartridgeType::Mbc5,
        CartridgeType::Mbc5Rumble,
        CartridgeType::Mbc6,
        CartridgeType::PocketCamera,
        CartridgeType::BandaiTama5,
        CartridgeType::HuC3,
    ];
    for kind in without_ram {
        assert!(!kind.supports_ram());
        let mut bus = MemMap::new(Cartridge::new(vec![0x11, 0x22], kind));
        assert_eq!(bus.write_byte(0x0000, 0xFF), Ok(()));
        assert_eq!(bus.read_byte(0x0000), Ok(0x11));
    }
}

#[test]
fn ram_regions_store_bytes_at_their_edges() {
    let mut bus = rom_only(vec![]);
    let edges: [u16; 10] =
        [0x8000, 0x9FFF, 0xC000, 0xDFFF, 0xFE00, 0xFE9F, 0xFF00, 0xFF7F, 0xFF80, 0xFFFE];
    for (index, address) in edges.iter().enumerate() {
        assert_eq!(bus.write_byte(*address, 0x10 + index as u8), Ok(()));
    }
    for (index, address) in edges.iter().enumerate() {
        assert_eq!(bus.read_byte(*address), Ok(0x10 + index as u8));
    }
}

#[test]
fn words_are_little_endian() {
    let mut bus = rom_only(vec![]);
    assert_eq!(bus.write_word(0xC100, 0xABCD), Ok(()));
    assert_eq!(bus.read_byte(0xC100), Ok(0xCD));
    assert_eq!(bus.read_byte(0xC101), Ok(0xAB));
    assert_eq!(bus.read_word(0xC100), Ok(0xABCD));
    assert_eq!(bus.write_byte(0x8000, 0x34), Ok(()));
    assert_eq!(bus.write_byte(0x8001, 0x12), Ok(()));
    assert_eq!(bus.read_word(0x8000), Ok(0x1234));
    assert_eq!(bus.write_word(0xFE10, 0x0102), Ok(()));
    assert_eq!(bus.read_word(0xFE10), Ok(0x0102));
    assert_eq!(bus.write_word(0xFF80, 0xBEEF), Ok(()));
    assert_eq!(bus.read_word(0xFF80), Ok(0xBEEF));
    assert_eq!(bus.write_word(0xFFFD, 0x5566), Ok(()));
    assert_eq!(bus.read_byte(0xFFFE), Ok(0x55));
}

#[test]
fn echo_mirrors_work_memory() {
    let mut bus = rom_only(vec![]);
    for offset in 0..0x1E00u16 {
        let value = (offset % 253) as u8;
        if offset % 2 == 0 {
            assert_eq!(bus.write_byte(0xC000 + offset, value), Ok(()));
        } else {
            assert_eq!(bus.write_byte(0xE000 + offset, value), Ok(()));
        }
    }
    for offset in 0..0x1E00u16 {
        let value = (offset % 253) as u8;
        assert_eq!(bus.read_byte(0xC000 + offset), Ok(value));
        assert_eq!(bus.read_byte(0xE000 + offset), Ok(value));
        assert_eq!(bus.read_word(0xE000 + offset), bus.read_word(0xC000 + offset));
    }
    assert_eq!(bus.write_word(0xFDFF, 0xA1B2), Ok(()));
    assert_eq!(bus.read_byte(0xDDFF), Ok(0xB2));
    assert_eq!(bus.read_byte(0xDE00), Ok(0xA1));
    assert_eq!(bus.read_word(0xFDFF), Ok(0xA1B2));
    assert_eq!(bus.read_byte(0xDE01), Ok(0x00));
}

#[test]
fn external_ram_reads_zero_and_refuses_writes() {
    let mut bus = rom_only(vec![]);
    for address in [0xA000u16, 0xA123, 0xBFFF] {
        assert_eq!(bus.read_byte(address), Ok(0));
        assert_eq!(bus.read_word(address), Ok(0));
        assert_eq!(bus.write_byte(address, 1), Err(BusError::UnimplementedAccess));
        assert_eq!(bus.write_word(address, 1), Err(BusError::UnimplementedAccess));
        assert_eq!(bus.read_byte(address), Ok(0));
    }
}

#[test]
fn unusable_region_reads_zero_and_ignores_writes() {
    let mut bus = rom_only(vec![]);
    for address in [0xFEA0u16, 0xFEC0, 0xFEFF] {
        assert_eq!(bus.write_byte(address, 0x77), Ok(()));
        assert_eq!(bus.write_word(address, 0x7788), Ok(()));
        assert_eq!(bus.read_byte(address), Ok(0));
        assert_eq!(bus.read_word(address), Ok(0));
    }
    assert_eq!(bus.read_byte(0xFF00), Ok(0));
    assert_eq!(bus.read_byte(0xFE9F), Ok(0));
}

#[test]
fn io_bank_reads_words_from_two_bytes_and_refuses_word_writes() {
    let mut bus = rom_only(vec![]);
    assert_eq!(bus.write_byte(0xFF10, 0x34), Ok(()));
    assert_eq!(bus.write_byte(0xFF11, 0x12), Ok(()));
    assert_eq!(bus.read_word(0xFF10), Ok(0x1234));
    assert_eq!(bus.write_word(0xFF10, 0xFFFF), Err(BusError::UnimplementedAccess));
    assert_eq!(bus.read_word(0xFF10), Ok(0x1234));
    assert_eq!(bus.write_word(0xFF7F, 0xFFFF), Err(BusError::UnimplementedAccess));
    assert_eq!(bus.read_word(0xFF7E), Ok(0x0000));
    assert_eq!(bus.read_word(0xFF7F), Err(BusError::AddressOutOfRange));
}

#[test]
fn interrupt_enable_register_takes_bytes_only() {
    let mut bus = rom_only(vec![]);
    assert_eq!(bus.read_byte(0xFFFF), Ok(0));
    assert_eq!(bus.write_byte(0xFFFF, 0x1F), Ok(()));
    assert_eq!(bus.read_byte(0xFFFF), Ok(0x1F));
    assert_eq!(bus.read_word(0xFFFF), Err(BusError::UnimplementedAccess));
    assert_eq!(bus.write_word(0xFFFF, 0x0000), Err(BusError::UnimplementedAccess));
    assert_eq!(bus.read_byte(0xFFFF), Ok(0x1F));
    assert_eq!(bus.read_byte(0xFFFE), Ok(0));
}

#[test]
fn word_across_the_end_of_a_region_is_out_of_range() {
    let mut bus = rom_only(full_rom());
    for address in [0x7FFFu16, 0x9FFF, 0xDFFF, 0xFE9F, 0xFFFE] {
        assert_eq!(bus.read_word(address), Err(BusError::AddressOutOfRange));
    }
    for address in [0x9FFFu16, 0xDFFF, 0xFE9F, 0xFFFE] {
        assert_eq!(bus.write_word(address, 0x1234), Err(BusError::AddressOutOfRange));
        assert_eq!(bus.read_byte(address), Ok(0));
    }
    assert_eq!(bus.read_byte(0xE000), Ok(0));
    assert_eq!(bus.read_byte(0xFFFF), Ok(0));
}

#[test]
fn a_write_leaves_every_other_cell_alone() {
    let mut bus = rom_only(vec![]);
    assert_eq!(bus.write_byte(0xC010, 0xAA), Ok(()));
    for address in 0x8000..=0xFFFFu16 {
        let expected = if address == 0xC010 || address == 0xE010 { 0xAA } else { 0 };
        assert_eq!(bus.read_byte(address), Ok(expected));
    }
}

#[test]
fn timer_divider_wraps_at_256() {
    let mut bus = rom_only(vec![]);
    for expected in 1..=255u8 {
        bus.inc_timer_div();
        assert_eq!(bus.read_byte(0xFF04), Ok(expected));
    }
    bus.inc_timer_div();
    assert_eq!(bus.read_byte(0xFF04), Ok(0));
}

#[test]
fn io_accessor_sees_what_the_bus_wrote() {
    let mut bus = rom_only(vec![]);
    assert!(!bus.io().lcd_enabled());
    assert_eq!(bus.write_byte(0xFF40, 0x80), Ok(()));
    assert!(bus.io().lcd_enabled());
    assert_eq!(bus.io().read_byte(0xFF40), 0x80);
    bus.write_io(0xFF40, 0x7F);
    assert!(!bus.io().lcd_enabled());
    assert_eq!(bus.read_byte(0xFF40), Ok(0x7F));
    assert_eq!(bus.cartridge().get_cartridge_type(), CartridgeType::RomOnly);
}
