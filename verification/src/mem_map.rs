//! The memory bus: decodes the flat 16-bit address space into regions and
//! routes every byte and word access to the store that owns it.
//!
//! | Range       | Region                     |
//! |-------------|----------------------------|
//! | 0000 - 7FFF | cartridge ROM              |
//! | 8000 - 9FFF | video memory               |
//! | A000 - BFFF | external cartridge RAM     |
//! | C000 - DFFF | work memory                |
//! | E000 - FDFF | echo of work memory        |
//! | FE00 - FE9F | object attribute memory    |
//! | FEA0 - FEFF | unusable                   |
//! | FF00 - FF7F | I/O registers              |
//! | FF80 - FFFE | high memory                |
//! | FFFF        | interrupt-enable register  |

use vstd::prelude::*;
use crate::cartridge::{Cartridge, CartridgeType};
use crate::io_registers::{IORegisters, IoBank};
use crate::memory::{high_byte, low_byte, make_word, word_of, HRAM, OAM, VRAM, WRAM};

verus! {

/// The regions of the address space.
#[derive(Clone, Copy, Debug, PartialEq, Eq, Structural)]
pub enum Region {
    CartridgeRom,
    VideoRam,
    ExternalRam,
    WorkRam,
    EchoRam,
    ObjectAttributeMemory,
    Unusable,
    IoRegisters,
    HighRam,
    InterruptEnable,
}

impl Region {
    /// First address of the region.
    pub open spec fn first(self) -> u16 {
        match self {
            Region::CartridgeRom => 0x0000,
            Region::VideoRam => 0x8000,
            Region::ExternalRam => 0xA000,
            Region::WorkRam => 0xC000,
            Region::EchoRam => 0xE000,
            Region::ObjectAttributeMemory => 0xFE00,
            Region::Unusable => 0xFEA0,
            Region::IoRegisters => 0xFF00,
            Region::HighRam => 0xFF80,
            Region::InterruptEnable => 0xFFFF,
        }
    }

    /// Last address of the region.
    pub open spec fn last(self) -> u16 {
        match self {
            Region::CartridgeRom => 0x7FFF,
            Region::VideoRam => 0x9FFF,
            Region::ExternalRam => 0xBFFF,
            Region::WorkRam => 0xDFFF,
            Region::EchoRam => 0xFDFF,
            Region::ObjectAttributeMemory => 0xFE9F,
            Region::Unusable => 0xFEFF,
            Region::IoRegisters => 0xFF7F,
            Region::HighRam => 0xFFFE,
            Region::InterruptEnable => 0xFFFF,
        }
    }

    /// Whether `address` lies between the region's first and last address.
    pub open spec fn covers(self, address: u16) -> bool {
        self.first() <= address <= self.last()
    }

    /// The region that owns `address`.
    pub open spec fn of(address: u16) -> Region {
        if address <= 0x7FFF {
            Region::CartridgeRom
        } else if address <= 0x9FFF {
            Region::VideoRam
        } else if address <= 0xBFFF {
            Region::ExternalRam
        } else if address <= 0xDFFF {
            Region::WorkRam
        } else if address <= 0xFDFF {
            Region::EchoRam
        } else if address <= 0xFE9F {
            Region::ObjectAttributeMemory
        } else if address <= 0xFEFF {
            Region::Unusable
        } else if address <= 0xFF7F {
            Region::IoRegisters
        } else if address <= 0xFFFE {
            Region::HighRam
        } else {
            Region::InterruptEnable
        }
    }

    /// Executable form of [`Region::last`].
    pub fn last_address(region: Region) -> (address: u16)
        ensures
            address == region.last(),
    {
        match region {
            Region::CartridgeRom => 0x7FFF,
            Region::VideoRam => 0x9FFF,
            Region::ExternalRam => 0xBFFF,
            Region::WorkRam => 0xDFFF,
            Region::EchoRam => 0xFDFF,
            Region::ObjectAttributeMemory => 0xFE9F,
            Region::Unusable => 0xFEFF,
            Region::IoRegisters => 0xFF7F,
            Region::HighRam => 0xFFFE,
            Region::InterruptEnable => 0xFFFF,
        }
    }

    /// Finds the region that owns `address`.
    pub fn decode(address: u16) -> (region: Region)
        ensures
            region == Region::of(address),
            region.covers(address),
    {
        match address {
            0x0000..=0x7FFF => Region::CartridgeRom,
            0x8000..=0x9FFF => Region::VideoRam,
            0xA000..=0xBFFF => Region::ExternalRam,
            0xC000..=0xDFFF => Region::WorkRam,
            0xE000..=0xFDFF => Region::EchoRam,
            0xFE00..=0xFE9F => Region::ObjectAttributeMemory,
            0xFEA0..=0xFEFF => Region::Unusable,
            0xFF00..=0xFF7F => Region::IoRegisters,
            0xFF80..=0xFFFE => Region::HighRam,
            0xFFFF => Region::InterruptEnable,
        }
    }
}

/// Every address belongs to exactly one region: a region covers an address
/// if and only if it is the one the decoder names for it.
pub proof fn lemma_region_unique(address: u16, region: Region)
    ensures
        region.covers(address) <==> region == Region::of(address),
{
}

/// Why the bus refused an access.
#[derive(Clone, Copy, Debug, PartialEq, Eq, Structural)]
pub enum BusError {
    /// The access is one the bus does not carry out: a write that needs
    /// cartridge RAM, a word write to the I/O bank, or a word access to the
    /// interrupt-enable register.
    UnimplementedAccess,
    /// No byte is stored for the address: a read past the end of the
    /// program bytes, or a word whose second byte falls outside the region
    /// of its first.
    AddressOutOfRange,
}

/// What the bus holds: the bytes of every store.
#[verifier::ext_equal]
pub struct Bus {
    /// Program bytes of the cartridge.
    pub rom: Seq<u8>,
    /// Mapper classification of the cartridge.
    pub cartridge_type: CartridgeType,
    /// Video memory, 8000 - 9FFF.
    pub video_ram: Seq<u8>,
    /// Work memory, C000 - DFFF.
    pub work_ram: Seq<u8>,
    /// Object attribute memory, FE00 - FE9F.
    pub object_attributes: Seq<u8>,
    /// I/O registers and the interrupt-enable register.
    pub io: IoBank,
    /// High memory, FF80 - FFFE.
    pub high_ram: Seq<u8>,
}

impl Bus {
    /// Every store has the size of its region.
    pub open spec fn wf(self) -> bool {
        &&& self.video_ram.len() == 0x2000
        &&& self.work_ram.len() == 0x2000
        &&& self.object_attributes.len() == 0xA0
        &&& self.io.wf()
        &&& self.high_ram.len() == 0x7F
    }

    /// The bus at power-on: the given cartridge and every store at zero.
    pub open spec fn power_on(rom: Seq<u8>, cartridge_type: CartridgeType) -> Bus {
        Bus {
            rom,
            cartridge_type,
            video_ram: Seq::new(0x2000, |i: int| 0u8),
            work_ram: Seq::new(0x2000, |i: int| 0u8),
            object_attributes: Seq::new(0xA0, |i: int| 0u8),
            io: IoBank { bytes: Seq::new(0x80, |i: int| 0u8), interrupt_enable: 0 },
            high_ram: Seq::new(0x7F, |i: int| 0u8),
        }
    }

    /// The address of the cell that `address` names: an address in the echo
    /// region names the cell of work memory 0x2000 below it, any other
    /// address a cell of its own.
    pub open spec fn cell(address: u16) -> int {
        if Region::of(address) == Region::EchoRam {
            address - 0x2000
        } else {
            address as int
        }
    }

    /// Whether the word at `address` lies within the region of its first
    /// byte.
    pub open spec fn word_fits(address: u16) -> bool {
        address < Region::of(address).last()
    }

    /// The result of reading the byte at `address`.
    #[verifier::opaque]
    pub open spec fn read_byte(self, address: u16) -> Result<u8, BusError> {
        match Region::of(address) {
            Region::CartridgeRom => if (address as int) < self.rom.len() {
                Ok(self.rom[address as int])
            } else {
                Err(BusError::AddressOutOfRange)
            },
            Region::VideoRam => Ok(self.video_ram[address - 0x8000]),
            Region::ExternalRam => Ok(0u8),
            Region::WorkRam => Ok(self.work_ram[address - 0xC000]),
            Region::EchoRam => Ok(self.work_ram[address - 0xE000]),
            Region::ObjectAttributeMemory => Ok(self.object_attributes[address - 0xFE00]),
            Region::Unusable => Ok(0u8),
            Region::IoRegisters => Ok(self.io.read(address)),
            Region::HighRam => Ok(self.high_ram[address - 0xFF80]),
            Region::InterruptEnable => Ok(self.io.read(address)),
        }
    }

    /// The result of reading the little-endian word at `address`.
    #[verifier::opaque]
    pub open spec fn read_word(self, address: u16) -> Result<u16, BusError> {
        match Region::of(address) {
            Region::CartridgeRom => if Bus::word_fits(address) && address + 1 < self.rom.len() {
                Ok(word_of(self.rom[address as int], self.rom[address + 1]))
            } else {
                Err(BusError::AddressOutOfRange)
            },
            Region::VideoRam => if Bus::word_fits(address) {
                Ok(word_of(self.video_ram[address - 0x8000], self.video_ram[address - 0x8000 + 1]))
            } else {
                Err(BusError::AddressOutOfRange)
            },
            Region::ExternalRam => Ok(0u16),
            Region::WorkRam => if Bus::word_fits(address) {
                Ok(word_of(self.work_ram[address - 0xC000], self.work_ram[address - 0xC000 + 1]))
            } else {
                Err(BusError::AddressOutOfRange)
            },
            Region::EchoRam => Ok(
                word_of(self.work_ram[address - 0xE000], self.work_ram[address - 0xE000 + 1]),
            ),
            Region::ObjectAttributeMemory => if Bus::word_fits(address) {
                Ok(
                    word_of(
                        self.object_attributes[address - 0xFE00],
                        self.object_attributes[address - 0xFE00 + 1],
                    ),
                )
            } else {
                Err(BusError::AddressOutOfRange)
            },
            Region::Unusable => Ok(0u16),
            Region::IoRegisters => if Bus::word_fits(address) {
                Ok(word_of(self.io.read(address), self.io.read((address + 1) as u16)))
            } else {
                Err(BusError::AddressOutOfRange)
            },
            Region::HighRam => if Bus::word_fits(address) {
                Ok(word_of(self.high_ram[address - 0xFF80], self.high_ram[address - 0xFF80 + 1]))
            } else {
                Err(BusError::AddressOutOfRange)
            },
            Region::InterruptEnable => Err(BusError::UnimplementedAccess),
        }
    }

    /// The bus after writing `value` at `address`, or why the write is
    /// refused.
    #[verifier::opaque]
    pub open spec fn write_byte(self, address: u16, value: u8) -> Result<Bus, BusError> {
        match Region::of(address) {
            Region::CartridgeRom => if self.cartridge_type.has_ram() {
                Err(BusError::UnimplementedAccess)
            } else {
                Ok(self)
            },
            Region::VideoRam => Ok(
                Bus { video_ram: self.video_ram.update(address - 0x8000, value), ..self },
            ),
            Region::ExternalRam => Err(BusError::UnimplementedAccess),
            Region::WorkRam => Ok(
                Bus { work_ram: self.work_ram.update(address - 0xC000, value), ..self },
            ),
            Region::EchoRam => Ok(
                Bus { work_ram: self.work_ram.update(address - 0xE000, value), ..self },
            ),
            Region::ObjectAttributeMemory => Ok(
                Bus {
                    object_attributes: self.object_attributes.update(address - 0xFE00, value),
                    ..self
                },
            ),
            Region::Unusable => Ok(self),
            Region::IoRegisters => Ok(Bus { io: self.io.write(address, value), ..self }),
            Region::HighRam => Ok(
                Bus { high_ram: self.high_ram.update(address - 0xFF80, value), ..self },
            ),
            Region::InterruptEnable => Ok(Bus { io: self.io.write(address, value), ..self }),
        }
    }

    /// The bus after writing `value` little-endian at `address`, or why the
    /// write is refused.
    #[verifier::opaque]
    pub open spec fn write_word(self, address: u16, value: u16) -> Result<Bus, BusError> {
        let low = low_byte(value);
        let high = high_byte(value);
        match Region::of(address) {
            Region::CartridgeRom => if self.cartridge_type.has_ram() {
                Err(BusError::UnimplementedAccess)
            } else {
                Ok(self)
            },
            Region::VideoRam => if Bus::word_fits(address) {
                Ok(
                    Bus {
                        video_ram: self.video_ram.update(address - 0x8000, low).update(
                            address - 0x8000 + 1,
                            high,
                        ),
                        ..self
                    },
                )
            } else {
                Err(BusError::AddressOutOfRange)
            },
            Region::ExternalRam => Err(BusError::UnimplementedAccess),
            Region::WorkRam => if Bus::word_fits(address) {
                Ok(
                    Bus {
                        work_ram: self.work_ram.update(address - 0xC000, low).update(
                            address - 0xC000 + 1,
                            high,
                        ),
                        ..self
                    },
                )
            } else {
                Err(BusError::AddressOutOfRange)
            },
            Region::EchoRam => Ok(
                Bus {
                    work_ram: self.work_ram.update(address - 0xE000, low).update(
                        address - 0xE000 + 1,
                        high,
                    ),
                    ..self
                },
            ),
            Region::ObjectAttributeMemory => if Bus::word_fits(address) {
                Ok(
                    Bus {
                        object_attributes: self.object_attributes.update(
                            address - 0xFE00,
                            low,
                        ).update(address - 0xFE00 + 1, high),
                        ..self
                    },
                )
            } else {
                Err(BusError::AddressOutOfRange)
            },
            Region::Unusable => Ok(self),
            Region::IoRegisters => Err(BusError::UnimplementedAccess),
            Region::HighRam => if Bus::word_fits(address) {
                Ok(
                    Bus {
                        high_ram: self.high_ram.update(address - 0xFF80, low).update(
                            address - 0xFF80 + 1,
                            high,
                        ),
                        ..self
                    },
                )
            } else {
                Err(BusError::AddressOutOfRange)
            },
            Region::InterruptEnable => Err(BusError::UnimplementedAccess),
        }
    }

    /// The bus after the timer divider advanced by one.
    pub open spec fn inc_timer_div(self) -> Bus {
        Bus { io: self.io.inc_timer_div(), ..self }
    }
}

/// When the bus refuses an access. A byte read fails only past the end of
/// the program bytes. A byte write fails only where it would need cartridge
/// RAM. A word read fails where the word does not fit its region or the
/// program bytes, and at the interrupt-enable register. A word write fails
/// where it would need cartridge RAM, at the I/O bank and the
/// interrupt-enable register, and where the word does not fit a region
/// that stores.
pub proof fn lemma_bus_refusals(bus: Bus, address: u16, byte: u8, word: u16)
    ensures
        bus.read_byte(address) is Err <==> Region::of(address) == Region::CartridgeRom
            && address >= bus.rom.len(),
        bus.read_byte(address) is Err ==> bus.read_byte(address) == Err::<u8, BusError>(
            BusError::AddressOutOfRange,
        ),
        bus.write_byte(address, byte) is Err <==> (Region::of(address) == Region::CartridgeRom
            && bus.cartridge_type.has_ram()) || Region::of(address) == Region::ExternalRam,
        bus.write_byte(address, byte) is Err ==> bus.write_byte(address, byte) == Err::<
            Bus,
            BusError,
        >(BusError::UnimplementedAccess),
        bus.read_word(address) == Err::<u16, BusError>(BusError::UnimplementedAccess)
            <==> Region::of(address) == Region::InterruptEnable,
        bus.read_word(address) == Err::<u16, BusError>(BusError::AddressOutOfRange) <==> {
            ||| Region::of(address) == Region::CartridgeRom && (!Bus::word_fits(address)
                || address + 1 >= bus.rom.len())
            ||| !Bus::word_fits(address) && (Region::of(address) == Region::VideoRam
                || Region::of(address) == Region::WorkRam || Region::of(address)
                == Region::ObjectAttributeMemory || Region::of(address) == Region::IoRegisters
                || Region::of(address) == Region::HighRam)
        },
        bus.write_word(address, word) == Err::<Bus, BusError>(BusError::UnimplementedAccess) <==> {
            ||| Region::of(address) == Region::CartridgeRom && bus.cartridge_type.has_ram()
            ||| Region::of(address) == Region::ExternalRam
            ||| Region::of(address) == Region::IoRegisters
            ||| Region::of(address) == Region::InterruptEnable
        },
        bus.write_word(address, word) == Err::<Bus, BusError>(BusError::AddressOutOfRange)
            <==> !Bus::word_fits(address) && (Region::of(address) == Region::VideoRam
            || Region::of(address) == Region::WorkRam || Region::of(address)
            == Region::ObjectAttributeMemory || Region::of(address) == Region::HighRam),
{
    reveal(Bus::read_byte);
    reveal(Bus::read_word);
    reveal(Bus::write_byte);
    reveal(Bus::write_word);
}

/// The echo region mirrors work memory: every access to an address from
/// E000 to FDFF gives what the same access gives 0x2000 below it.
pub proof fn lemma_echo_mirrors_work_ram(bus: Bus, address: u16, byte: u8, word: u16)
    requires
        Region::of(address) == Region::EchoRam,
    ensures
        Region::of((address - 0x2000) as u16) == Region::WorkRam,
        bus.read_byte(address) == bus.read_byte((address - 0x2000) as u16),
        bus.read_word(address) == bus.read_word((address - 0x2000) as u16),
        bus.write_byte(address, byte) == bus.write_byte((address - 0x2000) as u16, byte),
        bus.write_word(address, word) == bus.write_word((address - 0x2000) as u16, word),
{
    reveal(Bus::read_byte);
    reveal(Bus::read_word);
    reveal(Bus::write_byte);
    reveal(Bus::write_word);
}

/// A byte written to video, work, echo, object attribute or high memory,
/// to an I/O register or to the interrupt-enable register is the byte
/// read back from the same address.
pub proof fn lemma_read_after_write(bus: Bus, address: u16, value: u8)
    requires
        bus.wf(),
        Region::of(address) != Region::CartridgeRom,
        Region::of(address) != Region::ExternalRam,
        Region::of(address) != Region::Unusable,
    ensures
        bus.write_byte(address, value) is Ok,
        bus.write_byte(address, value)->Ok_0.wf(),
        bus.write_byte(address, value)->Ok_0.read_byte(address) == Ok::<u8, BusError>(value),
{
    reveal(Bus::read_byte);
    reveal(Bus::write_byte);
}

/// A byte write reaches the one cell that its address names and no other:
/// what is read at any address that names another cell is what was read
/// there before.
pub proof fn lemma_write_leaves_others(bus: Bus, written: u16, other: u16, value: u8)
    requires
        bus.wf(),
        bus.write_byte(written, value) is Ok,
        Bus::cell(written) != Bus::cell(other),
    ensures
        bus.write_byte(written, value)->Ok_0.read_byte(other) == bus.read_byte(other),
{
    reveal(Bus::read_byte);
    reveal(Bus::write_byte);
}

/// A write never changes the size of a store.
pub proof fn lemma_write_keeps_wf(bus: Bus, address: u16, byte: u8, word: u16)
    requires
        bus.wf(),
    ensures
        bus.write_byte(address, byte) is Ok ==> bus.write_byte(address, byte)->Ok_0.wf(),
        bus.write_word(address, word) is Ok ==> bus.write_word(address, word)->Ok_0.wf(),
        bus.inc_timer_div().wf(),
{
    reveal(Bus::write_byte);
    reveal(Bus::write_word);
}

/// The memory bus. It owns the cartridge and the five stores behind the
/// address space.
pub struct MemMap {
    cartridge: Cartridge,
    working_ram: WRAM,
    video_ram: VRAM,
    io_registers: IORegisters,
    object_attribute_memory: OAM,
    hram: HRAM,
}

impl MemMap {
    /// The bytes of every store.
    pub closed spec fn view(&self) -> Bus {
        Bus {
            rom: self.cartridge.data@,
            cartridge_type: self.cartridge.cartridge_type,
            video_ram: self.video_ram@,
            work_ram: self.working_ram@,
            object_attributes: self.object_attribute_memory@,
            io: self.io_registers@,
            high_ram: self.hram@,
        }
    }

    /// Every store has the size of its region.
    pub proof fn lemma_stores_sized(&self)
        ensures
            self@.wf(),
    {
        self.video_ram.lemma_size();
        self.working_ram.lemma_size();
        self.object_attribute_memory.lemma_size();
        self.hram.lemma_size();
        self.io_registers.lemma_complete();
    }

    /// A bus around `cartridge` with every store at zero.
    pub fn new(cartridge: Cartridge) -> (mem_map: MemMap)
        ensures
            mem_map@ == Bus::power_on(cartridge.data@, cartridge.cartridge_type),
    {
        let working_ram = WRAM::new();
        let video_ram = VRAM::new();
        let io_registers = IORegisters::new();
        let object_attribute_memory = OAM::new();
        let hram = HRAM::new();
        MemMap {
            cartridge,
            working_ram,
            video_ram,
            io_registers,
            object_attribute_memory,
            hram,
        }
    }

    /// The I/O register bank.
    pub fn io(&self) -> (io: &IORegisters)
        ensures
            io@ == self@.io,
    {
        &self.io_registers
    }

    /// The cartridge the bus was built around.
    pub fn cartridge(&self) -> (cartridge: &Cartridge)
        ensures
            cartridge.data@ == self@.rom,
            cartridge.cartridge_type == self@.cartridge_type,
    {
        &self.cartridge
    }

    /// Reads the byte at `address`.
    pub fn read_byte(&self, address: u16) -> (result: Result<u8, BusError>)
        ensures
            result == self@.read_byte(address),
    {
        reveal(Bus::read_byte);
        match Region::decode(address) {
            Region::CartridgeRom => match self.cartridge.read_byte(address) {
                Some(value) => Ok(value),
                None => Err(BusError::AddressOutOfRange),
            },
            Region::VideoRam => Ok(self.video_ram.read_byte(address)),
            Region::ExternalRam => Ok(0x00),
            Region::WorkRam => Ok(self.working_ram.read_byte(address)),
            Region::EchoRam => Ok(self.working_ram.read_byte(address - 0x2000)),
            Region::ObjectAttributeMemory => Ok(self.object_attribute_memory.read_byte(address)),
            Region::Unusable => Ok(0x00),
            Region::IoRegisters => Ok(self.io_registers.read_byte(address)),
            Region::HighRam => Ok(self.hram.read_byte(address)),
            Region::InterruptEnable => Ok(self.io_registers.read_byte(address)),
        }
    }

    /// Reads the little-endian word at `address`.
    pub fn read_word(&self, address: u16) -> (result: Result<u16, BusError>)
        ensures
            result == self@.read_word(address),
    {
        reveal(Bus::read_word);
        let region = Region::decode(address);
        match region {
            Region::ExternalRam | Region::Unusable => {
                return Ok(0x0000);
            },
            Region::InterruptEnable => {
                return Err(BusError::UnimplementedAccess);
            },
            Region::EchoRam => {
                return Ok(self.working_ram.read_word(address - 0x2000));
            },
            _ => {},
        }
        if address == Region::last_address(region) {
            return Err(BusError::AddressOutOfRange);
        }
        match region {
            Region::CartridgeRom => {
                let low = self.cartridge.read_byte(address);
                let high = self.cartridge.read_byte(address + 1);
                match (low, high) {
                    (Some(low), Some(high)) => Ok(make_word(low, high)),
                    _ => Err(BusError::AddressOutOfRange),
                }
            },
            Region::VideoRam => Ok(self.video_ram.read_word(address)),
            Region::WorkRam => Ok(self.working_ram.read_word(address)),
            Region::ObjectAttributeMemory => Ok(self.object_attribute_memory.read_word(address)),
            Region::IoRegisters => Ok(
                make_word(
                    self.io_registers.read_byte(address),
                    self.io_registers.read_byte(address + 1),
                ),
            ),
            _ => Ok(self.hram.read_word(address)),
        }
    }

    /// Writes `value` at `address`. A refused write leaves the bus as it
    /// was.
    pub fn write_byte(&mut self, address: u16, value: u8) -> (result: Result<(), BusError>)
        ensures
            match old(self)@.write_byte(address, value) {
                Ok(bus) => result is Ok && final(self)@ == bus,
                Err(error) => result == Err::<(), BusError>(error) && final(self)@ == old(self)@,
            },
    {
        reveal(Bus::write_byte);
        match Region::decode(address) {
            Region::CartridgeRom => {
                if self.cartridge.get_cartridge_type().supports_ram() {
                    return Err(BusError::UnimplementedAccess);
                }
            },
            Region::VideoRam => self.video_ram.write_byte(address, value),
            Region::ExternalRam => {
                return Err(BusError::UnimplementedAccess);
            },
            Region::WorkRam => self.working_ram.write_byte(address, value),
            Region::EchoRam => self.working_ram.write_byte(address - 0x2000, value),
            Region::ObjectAttributeMemory => self.object_attribute_memory.write_byte(
                address,
                value,
            ),
            Region::Unusable => {},
            Region::IoRegisters => self.io_registers.write_byte(address, value),
            Region::HighRam => self.hram.write_byte(address, value),
            Region::InterruptEnable => self.io_registers.write_byte(address, value),
        }
        Ok(())
    }

    /// Writes `value` little-endian at `address`. A refused write leaves the
    /// bus as it was.
    pub fn write_word(&mut self, address: u16, value: u16) -> (result: Result<(), BusError>)
        ensures
            match old(self)@.write_word(address, value) {
                Ok(bus) => result is Ok && final(self)@ == bus,
                Err(error) => result == Err::<(), BusError>(error) && final(self)@ == old(self)@,
            },
    {
        reveal(Bus::write_word);
        let region = Region::decode(address);
        match region {
            Region::CartridgeRom => {
                if self.cartridge.get_cartridge_type().supports_ram() {
                    return Err(BusError::UnimplementedAccess);
                }
                return Ok(());
            },
            Region::Unusable => {
                return Ok(());
            },
            Region::ExternalRam | Region::IoRegisters | Region::InterruptEnable => {
                return Err(BusError::UnimplementedAccess);
            },
            Region::EchoRam => {
                self.working_ram.write_word(address - 0x2000, value);
                return Ok(());
            },
            _ => {},
        }
        if address == Region::last_address(region) {
            return Err(BusError::AddressOutOfRange);
        }
        match region {
            Region::VideoRam => self.video_ram.write_word(address, value),
            Region::WorkRam => self.working_ram.write_word(address, value),
            Region::ObjectAttributeMemory => self.object_attribute_memory.write_word(
                address,
                value,
            ),
            _ => self.hram.write_word(address, value),
        }
        Ok(())
    }

    /// Writes the I/O register at `address` directly, without decoding.
    pub fn write_io(&mut self, address: u16, value: u8)
        requires
            IoBank::serves(address),
        ensures
            final(self)@ == (Bus { io: old(self)@.io.write(address, value), ..old(self)@ }),
    {
        self.io_registers.write_byte(address, value);
    }

    /// Advances the timer divider by one.
    pub fn inc_timer_div(&mut self)
        ensures
            final(self)@ == old(self)@.inc_timer_div(),
    {
        self.io_registers.inc_timer_div();
    }
}

} // verus!
