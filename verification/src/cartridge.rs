//! The cartridge as the bus sees it: raw program bytes and the mapper
//! classification.

use vstd::prelude::*;

verus! {

/// Mapper classification of a cartridge.
#[derive(Clone, Copy, Debug, PartialEq, Eq, Structural)]
pub enum CartridgeType {
    RomOnly,
    Mbc1,
    Mbc1Ram,
    Mbc1RamBattery,
    Mbc2,
    Mbc2Battery,
    RomRam,
    RomRamBattery,
    Mmm01,
    Mmm01Ram,
    Mmm01RamBattery,
    Mbc3TimerBattery,
    Mbc3TimerRamBattery,
    Mbc3,
    Mbc3Ram,
    Mbc3RamBattery,
    Mbc5,
    Mbc5Ram,
    Mbc5RamBattery,
    Mbc5Rumble,
    Mbc5RumbleRam,
    Mbc5RumbleRamBattery,
    Mbc6,
    Mbc7SensorRumbleRamBattery,
    PocketCamera,
    BandaiTama5,
    HuC3,
    HuC1RamBattery,
}

impl CartridgeType {
    /// Whether the classification says the cartridge carries RAM of its own.
    pub open spec fn has_ram(self) -> bool {
        self == CartridgeType::Mbc1Ram || self == CartridgeType::Mbc1RamBattery
            || self == CartridgeType::RomRam || self == CartridgeType::RomRamBattery
            || self == CartridgeType::Mmm01Ram || self == CartridgeType::Mmm01RamBattery
            || self == CartridgeType::Mbc3TimerRamBattery || self == CartridgeType::Mbc3Ram
            || self == CartridgeType::Mbc3RamBattery || self == CartridgeType::Mbc5Ram
            || self == CartridgeType::Mbc5RamBattery || self == CartridgeType::Mbc5RumbleRam
            || self == CartridgeType::Mbc5RumbleRamBattery
            || self == CartridgeType::Mbc7SensorRumbleRamBattery
            || self == CartridgeType::HuC1RamBattery
    }

    /// Executable form of [`CartridgeType::has_ram`].
    pub fn supports_ram(&self) -> (answer: bool)
        ensures
            answer == self.has_ram(),
    {
        match self {
            CartridgeType::Mbc1Ram
            | CartridgeType::Mbc1RamBattery
            | CartridgeType::RomRam
            | CartridgeType::RomRamBattery
            | CartridgeType::Mmm01Ram
            | CartridgeType::Mmm01RamBattery
            | CartridgeType::Mbc3TimerRamBattery
            | CartridgeType::Mbc3Ram
            | CartridgeType::Mbc3RamBattery
            | CartridgeType::Mbc5Ram
            | CartridgeType::Mbc5RamBattery
            | CartridgeType::Mbc5RumbleRam
            | CartridgeType::Mbc5RumbleRamBattery
            | CartridgeType::Mbc7SensorRumbleRamBattery
            | CartridgeType::HuC1RamBattery => true,
            _ => false,
        }
    }
}

/// A loaded cartridge. It does not change for the length of a session.
pub struct Cartridge {
    /// Raw program bytes, indexed by address.
    pub data: Vec<u8>,
    /// Mapper classification taken from the cartridge header.
    pub cartridge_type: CartridgeType,
}

impl Cartridge {
    /// Wraps program bytes and their classification.
    pub fn new(data: Vec<u8>, cartridge_type: CartridgeType) -> (cartridge: Cartridge)
        ensures
            cartridge.data@ == data@,
            cartridge.cartridge_type == cartridge_type,
    {
        Cartridge { data, cartridge_type }
    }

    /// The classification this cartridge was loaded with.
    pub fn get_cartridge_type(&self) -> (kind: CartridgeType)
        ensures
            kind == self.cartridge_type,
    {
        self.cartridge_type
    }

    /// The program byte at `address`, if the program is that long.
    pub fn read_byte(&self, address: u16) -> (value: Option<u8>)
        ensures
            value == if (address as int) < self.data@.len() {
                Some(self.data@[address as int])
            } else {
                None
            },
    {
        if (address as usize) < self.data.len() {
            Some(self.data[address as usize])
        } else {
            None
        }
    }
}

} // verus!
