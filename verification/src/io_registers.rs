//! The bank of memory-mapped I/O registers, together with the
//! interrupt-enable register that lives at the top of the address space.

use vstd::prelude::*;
use crate::alu::{bit_set, test_bit};

verus! {

/// First address of the I/O register bank.
pub const IO_FIRST: u16 = 0xFF00;

/// Last address of the I/O register bank.
pub const IO_LAST: u16 = 0xFF7F;

/// Serial transfer data register.
pub const SERIAL_DATA: u16 = 0xFF01;

/// Serial transfer control register.
pub const SERIAL_CONTROL: u16 = 0xFF02;

/// Timer divider register.
pub const TIMER_DIVIDER: u16 = 0xFF04;

/// Display control register.
pub const LCD_CONTROL: u16 = 0xFF40;

/// Interrupt-enable register.
pub const INTERRUPT_ENABLE: u16 = 0xFFFF;

/// The five interrupt lines, by the bit that enables each in the
/// interrupt-enable register.
#[derive(Clone, Copy, Debug, PartialEq, Eq, Structural)]
pub enum InterruptSource {
    VBlank,
    LcdStat,
    Timer,
    Serial,
    Joypad,
}

impl InterruptSource {
    /// The number of the bit.
    pub open spec fn spec_bit(self) -> u8 {
        match self {
            InterruptSource::VBlank => 0,
            InterruptSource::LcdStat => 1,
            InterruptSource::Timer => 2,
            InterruptSource::Serial => 3,
            InterruptSource::Joypad => 4,
        }
    }

    /// The number of the bit that enables this line.
    #[verifier::when_used_as_spec(spec_bit)]
    pub fn bit(self) -> (bit: u8)
        ensures
            bit == self.spec_bit(),
    {
        match self {
            InterruptSource::VBlank => 0,
            InterruptSource::LcdStat => 1,
            InterruptSource::Timer => 2,
            InterruptSource::Serial => 3,
            InterruptSource::Joypad => 4,
        }
    }
}

/// The fields of the display control register, by bit number.
#[derive(Clone, Copy, Debug, PartialEq, Eq, Structural)]
pub enum LcdControlBit {
    BackgroundAndWindowEnabled,
    ObjectsEnabled,
    ObjectSize,
    BackgroundTileMap,
    TileData,
    WindowEnabled,
    WindowTileMap,
    LcdEnabled,
}

impl LcdControlBit {
    /// The number of the bit.
    pub open spec fn spec_bit(self) -> u8 {
        match self {
            LcdControlBit::BackgroundAndWindowEnabled => 0,
            LcdControlBit::ObjectsEnabled => 1,
            LcdControlBit::ObjectSize => 2,
            LcdControlBit::BackgroundTileMap => 3,
            LcdControlBit::TileData => 4,
            LcdControlBit::WindowEnabled => 5,
            LcdControlBit::WindowTileMap => 6,
            LcdControlBit::LcdEnabled => 7,
        }
    }

    /// The number of the bit that holds this field.
    #[verifier::when_used_as_spec(spec_bit)]
    pub fn bit(self) -> (bit: u8)
        ensures
            bit == self.spec_bit(),
    {
        match self {
            LcdControlBit::BackgroundAndWindowEnabled => 0,
            LcdControlBit::ObjectsEnabled => 1,
            LcdControlBit::ObjectSize => 2,
            LcdControlBit::BackgroundTileMap => 3,
            LcdControlBit::TileData => 4,
            LcdControlBit::WindowEnabled => 5,
            LcdControlBit::WindowTileMap => 6,
            LcdControlBit::LcdEnabled => 7,
        }
    }
}

/// What the I/O bank holds: 128 register bytes and the interrupt-enable
/// register.
#[verifier::ext_equal]
pub struct IoBank {
    /// Register bytes; index 0 is the register at `IO_FIRST`.
    pub bytes: Seq<u8>,
    /// The interrupt-enable register.
    pub interrupt_enable: u8,
}

impl IoBank {
    /// The bank has one byte for each address from `IO_FIRST` to `IO_LAST`.
    pub open spec fn wf(self) -> bool {
        self.bytes.len() == 0x80
    }

    /// Whether the bank answers for `address`.
    pub open spec fn serves(address: u16) -> bool {
        IO_FIRST <= address <= IO_LAST || address == INTERRUPT_ENABLE
    }

    /// The byte read at `address`.
    pub open spec fn read(self, address: u16) -> u8 {
        if address == INTERRUPT_ENABLE {
            self.interrupt_enable
        } else {
            self.bytes[address as int - IO_FIRST as int]
        }
    }

    /// The bank after `value` was written at `address`.
    pub open spec fn write(self, address: u16, value: u8) -> IoBank {
        if address == INTERRUPT_ENABLE {
            IoBank { interrupt_enable: value, ..self }
        } else {
            IoBank { bytes: self.bytes.update(address as int - IO_FIRST as int, value), ..self }
        }
    }

    /// The bank after the timer divider advanced by one, wrapping from 255
    /// to 0.
    pub open spec fn inc_timer_div(self) -> IoBank {
        self.write(TIMER_DIVIDER, ((self.read(TIMER_DIVIDER) as int + 1) % 256) as u8)
    }

    /// Whether the display hardware is switched on: bit 7 of the display
    /// control register.
    pub open spec fn lcd_enabled(self) -> bool {
        self.read(LCD_CONTROL) >= 0x80
    }

    /// Whether a field of the display control register is set.
    pub open spec fn lcd_control(self, field: LcdControlBit) -> bool {
        bit_set(field.spec_bit(), self.read(LCD_CONTROL))
    }

    /// Whether the interrupt-enable register enables the line `source`.
    pub open spec fn interrupt_enabled(self, source: InterruptSource) -> bool {
        bit_set(source.spec_bit(), self.interrupt_enable)
    }
}

/// The display is switched on exactly when the field of that name is set
/// in the display control register.
pub proof fn lemma_lcd_enabled_is_bit_seven(bank: IoBank)
    ensures
        bank.lcd_enabled() == bank.lcd_control(LcdControlBit::LcdEnabled),
{
    reveal(bit_set);
}

/// The I/O register bank.
pub struct IORegisters {
    bytes: [u8; 0x80],
    ie_register: u8,
}

impl IORegisters {
    /// The contents of the bank.
    pub closed spec fn view(&self) -> IoBank {
        IoBank { bytes: self.bytes@, interrupt_enable: self.ie_register }
    }

    /// The bank is complete.
    pub proof fn lemma_complete(&self)
        ensures
            self@.wf(),
    {
    }

    /// A bank with every register, the interrupt-enable register included,
    /// at zero.
    pub fn new() -> (io: IORegisters)
        ensures
            io@.interrupt_enable == 0,
            io@.bytes == Seq::new(0x80, |i: int| 0u8),
    {
        let io = IORegisters { bytes: [0u8; 0x80], ie_register: 0 };
        assert(io.bytes@ =~= Seq::new(0x80, |i: int| 0u8));
        io
    }

    /// Reads the register at `address`.
    pub fn read_byte(&self, address: u16) -> (value: u8)
        requires
            IoBank::serves(address),
        ensures
            value == self@.read(address),
    {
        if address == INTERRUPT_ENABLE {
            self.ie_register
        } else {
            self.bytes[(address - IO_FIRST) as usize]
        }
    }

    /// Writes the register at `address`.
    pub fn write_byte(&mut self, address: u16, value: u8)
        requires
            IoBank::serves(address),
        ensures
            final(self)@ == old(self)@.write(address, value),
    {
        if address == INTERRUPT_ENABLE {
            self.ie_register = value;
        } else {
            let index: usize = (address - IO_FIRST) as usize;
            self.bytes[index] = value;
        }
    }

    /// Advances the timer divider by one, wrapping from 255 to 0.
    pub fn inc_timer_div(&mut self)
        ensures
            final(self)@ == old(self)@.inc_timer_div(),
    {
        let divider: u8 = self.read_byte(TIMER_DIVIDER);
        self.write_byte(TIMER_DIVIDER, divider.wrapping_add(1));
    }

    /// Whether a field of the display control register is set.
    pub fn lcd_control(&self, field: LcdControlBit) -> (set: bool)
        ensures
            set == self@.lcd_control(field),
    {
        test_bit(field.bit(), self.read_byte(LCD_CONTROL))
    }

    /// Whether the interrupt-enable register enables the line `source`.
    pub fn interrupt_enabled(&self, source: InterruptSource) -> (enabled: bool)
        ensures
            enabled == self@.interrupt_enabled(source),
    {
        test_bit(source.bit(), self.ie_register)
    }

    /// Whether the display hardware is switched on.
    pub fn lcd_enabled(&self) -> (enabled: bool)
        ensures
            enabled == self@.lcd_enabled(),
    {
        self.read_byte(LCD_CONTROL) >= 0x80
    }
}

} // verus!
