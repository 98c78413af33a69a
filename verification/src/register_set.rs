//! The processor's registers and flags.

use vstd::prelude::*;
use vstd::string::StringExecFns;
use crate::memory::{
    high_byte, lemma_word_bytes, low_byte, make_word, word_high, word_low, word_of,
};

verus! {

/// The four condition flags.
#[derive(Clone, Copy, Debug, PartialEq, Eq, Structural)]
pub enum Flag {
    Zero,
    Subtract,
    HalfCarry,
    Carry,
}

/// The seven general 8-bit registers.
#[derive(Clone, Copy, Debug, PartialEq, Eq, Structural)]
pub enum Register8 {
    A,
    B,
    C,
    D,
    E,
    H,
    L,
}

/// The 16-bit registers an instruction can name: three register pairs and
/// the stack pointer.
#[derive(Clone, Copy, Debug, PartialEq, Eq, Structural)]
pub enum Register16 {
    BC,
    DE,
    HL,
    SP,
}

/// The register pairs that can be pushed to and popped from the stack.
#[derive(Clone, Copy, Debug, PartialEq, Eq, Structural)]
pub enum StackRegister {
    BC,
    DE,
    HL,
    AF,
}

/// Program counter after power-on.
pub const RESET_PC: u16 = 0x0000;

/// Stack pointer after power-on: the top of high memory.
pub const RESET_SP: u16 = 0xFFFE;

/// Registers and flags. The 16-bit pairs are views of their 8-bit halves
/// and have no storage of their own; the flag register is a view of the
/// four flags.
#[derive(Clone, Copy, Debug, PartialEq, Eq, Structural)]
pub struct RegisterSet {
    pub a: u8,
    pub b: u8,
    pub c: u8,
    pub d: u8,
    pub e: u8,
    pub h: u8,
    pub l: u8,
    pub zero: bool,
    pub subtract: bool,
    pub half_carry: bool,
    pub carry: bool,
    pub pc: u16,
    pub sp: u16,
}

/// The flag register byte for the given flags: bits 7 to 4 hold zero,
/// subtract, half carry and carry; bits 3 to 0 are always clear.
#[verifier::opaque]
pub open spec fn flags_byte(zero: bool, subtract: bool, half_carry: bool, carry: bool) -> u8 {
    ((if zero { 128int } else { 0 }) + (if subtract { 64int } else { 0 }) + (if half_carry {
        32int
    } else {
        0
    }) + (if carry { 16int } else { 0 })) as u8
}

/// The text that names the flags that are set: for each one a space and its
/// letter, in the order Z, N, H, C.
pub open spec fn flag_letters(zero: bool, subtract: bool, half_carry: bool, carry: bool) -> Seq<
    char,
> {
    (if zero {
        seq![' ', 'Z']
    } else {
        seq![]
    }) + (if subtract {
        seq![' ', 'N']
    } else {
        seq![]
    }) + (if half_carry {
        seq![' ', 'H']
    } else {
        seq![]
    }) + (if carry {
        seq![' ', 'C']
    } else {
        seq![]
    })
}

impl RegisterSet {
    /// The registers at power-on.
    pub open spec fn power_on() -> RegisterSet {
        RegisterSet {
            a: 0,
            b: 0,
            c: 0,
            d: 0,
            e: 0,
            h: 0,
            l: 0,
            zero: false,
            subtract: false,
            half_carry: false,
            carry: false,
            pc: RESET_PC,
            sp: RESET_SP,
        }
    }

    /// Whether `flag` is set.
    pub open spec fn spec_flag(&self, flag: Flag) -> bool {
        match flag {
            Flag::Zero => self.zero,
            Flag::Subtract => self.subtract,
            Flag::HalfCarry => self.half_carry,
            Flag::Carry => self.carry,
        }
    }

    /// The registers with `flag` set to `value`.
    pub open spec fn with_flag(self, flag: Flag, value: bool) -> RegisterSet {
        match flag {
            Flag::Zero => RegisterSet { zero: value, ..self },
            Flag::Subtract => RegisterSet { subtract: value, ..self },
            Flag::HalfCarry => RegisterSet { half_carry: value, ..self },
            Flag::Carry => RegisterSet { carry: value, ..self },
        }
    }

    /// The registers with all four flags replaced.
    pub open spec fn with_flags(
        self,
        zero: bool,
        subtract: bool,
        half_carry: bool,
        carry: bool,
    ) -> RegisterSet {
        RegisterSet { zero, subtract, half_carry, carry, ..self }
    }

    /// The flag register.
    pub open spec fn spec_f(&self) -> u8 {
        flags_byte(self.zero, self.subtract, self.half_carry, self.carry)
    }

    /// The registers with the flags taken from bits 7 to 4 of `value`.
    #[verifier::opaque]
    pub open spec fn with_f(self, value: u8) -> RegisterSet {
        RegisterSet {
            zero: value / 128 % 2 == 1,
            subtract: value / 64 % 2 == 1,
            half_carry: value / 32 % 2 == 1,
            carry: value / 16 % 2 == 1,
            ..self
        }
    }

    /// The value of an 8-bit register.
    pub open spec fn spec_get(&self, register: Register8) -> u8 {
        match register {
            Register8::A => self.a,
            Register8::B => self.b,
            Register8::C => self.c,
            Register8::D => self.d,
            Register8::E => self.e,
            Register8::H => self.h,
            Register8::L => self.l,
        }
    }

    /// The registers with `register` holding `value`.
    pub open spec fn with(self, register: Register8, value: u8) -> RegisterSet {
        match register {
            Register8::A => RegisterSet { a: value, ..self },
            Register8::B => RegisterSet { b: value, ..self },
            Register8::C => RegisterSet { c: value, ..self },
            Register8::D => RegisterSet { d: value, ..self },
            Register8::E => RegisterSet { e: value, ..self },
            Register8::H => RegisterSet { h: value, ..self },
            Register8::L => RegisterSet { l: value, ..self },
        }
    }

    /// The pair AF: the accumulator above the flag register.
    pub open spec fn spec_af(&self) -> u16 {
        word_of(self.spec_f(), self.a)
    }

    /// The pair BC.
    pub open spec fn spec_bc(&self) -> u16 {
        word_of(self.c, self.b)
    }

    /// The pair DE.
    pub open spec fn spec_de(&self) -> u16 {
        word_of(self.e, self.d)
    }

    /// The pair HL.
    pub open spec fn spec_hl(&self) -> u16 {
        word_of(self.l, self.h)
    }

    /// The registers with the pair AF holding `value`; the low four bits of
    /// `value` are dropped.
    pub open spec fn with_af(self, value: u16) -> RegisterSet {
        RegisterSet { a: high_byte(value), ..self }.with_f(low_byte(value))
    }

    /// The registers with the pair BC holding `value`.
    pub open spec fn with_bc(self, value: u16) -> RegisterSet {
        RegisterSet { b: high_byte(value), c: low_byte(value), ..self }
    }

    /// The registers with the pair DE holding `value`.
    pub open spec fn with_de(self, value: u16) -> RegisterSet {
        RegisterSet { d: high_byte(value), e: low_byte(value), ..self }
    }

    /// The registers with the pair HL holding `value`.
    pub open spec fn with_hl(self, value: u16) -> RegisterSet {
        RegisterSet { h: high_byte(value), l: low_byte(value), ..self }
    }

    /// The value of a 16-bit register.
    pub open spec fn spec_get16(&self, register: Register16) -> u16 {
        match register {
            Register16::BC => self.spec_bc(),
            Register16::DE => self.spec_de(),
            Register16::HL => self.spec_hl(),
            Register16::SP => self.sp,
        }
    }

    /// The registers with `register` holding `value`.
    pub open spec fn with16(self, register: Register16, value: u16) -> RegisterSet {
        match register {
            Register16::BC => self.with_bc(value),
            Register16::DE => self.with_de(value),
            Register16::HL => self.with_hl(value),
            Register16::SP => RegisterSet { sp: value, ..self },
        }
    }

    /// The value of a stack pair.
    pub open spec fn spec_get_stack(&self, register: StackRegister) -> u16 {
        match register {
            StackRegister::BC => self.spec_bc(),
            StackRegister::DE => self.spec_de(),
            StackRegister::HL => self.spec_hl(),
            StackRegister::AF => self.spec_af(),
        }
    }

    /// The registers with the stack pair `register` holding `value`.
    pub open spec fn with_stack(self, register: StackRegister, value: u16) -> RegisterSet {
        match register {
            StackRegister::BC => self.with_bc(value),
            StackRegister::DE => self.with_de(value),
            StackRegister::HL => self.with_hl(value),
            StackRegister::AF => self.with_af(value),
        }
    }

    /// The program counter.
    pub fn pc(&self) -> (pc: u16)
        ensures
            pc == self.pc,
    {
        self.pc
    }

    /// Moves the program counter to `value`.
    pub fn set_pc(&mut self, value: u16)
        ensures
            *final(self) == (RegisterSet { pc: value, ..*old(self) }),
    {
        self.pc = value;
    }

    /// The stack pointer.
    pub fn sp(&self) -> (sp: u16)
        ensures
            sp == self.sp,
    {
        self.sp
    }

    /// Moves the stack pointer to `value`.
    pub fn set_sp(&mut self, value: u16)
        ensures
            *final(self) == (RegisterSet { sp: value, ..*old(self) }),
    {
        self.sp = value;
    }

    /// Whether `flag` is set.
    #[verifier::when_used_as_spec(spec_flag)]
    pub fn get_flag(&self, flag: Flag) -> (set: bool)
        ensures
            set == self.spec_flag(flag),
    {
        match flag {
            Flag::Zero => self.zero,
            Flag::Subtract => self.subtract,
            Flag::HalfCarry => self.half_carry,
            Flag::Carry => self.carry,
        }
    }

    /// Sets or clears `flag`.
    pub fn set_flag(&mut self, flag: Flag, value: bool)
        ensures
            *final(self) == old(self).with_flag(flag, value),
    {
        match flag {
            Flag::Zero => self.zero = value,
            Flag::Subtract => self.subtract = value,
            Flag::HalfCarry => self.half_carry = value,
            Flag::Carry => self.carry = value,
        }
    }

    /// Replaces all four flags.
    pub fn set_flags(&mut self, zero: bool, subtract: bool, half_carry: bool, carry: bool)
        ensures
            *final(self) == old(self).with_flags(zero, subtract, half_carry, carry),
    {
        self.zero = zero;
        self.subtract = subtract;
        self.half_carry = half_carry;
        self.carry = carry;
    }

    /// The letters of the flags that are set, each after a space, in the
    /// order Z, N, H, C.
    pub fn flags_text(&self) -> (text: String)
        ensures
            text@ == flag_letters(self.zero, self.subtract, self.half_carry, self.carry),
    {
        proof {
            reveal_strlit(" Z");
            reveal_strlit(" N");
            reveal_strlit(" H");
            reveal_strlit(" C");
        }
        let mut flags = String::new();
        if self.zero {
            flags.append(" Z");
        }
        if self.subtract {
            flags.append(" N");
        }
        if self.half_carry {
            flags.append(" H");
        }
        if self.carry {
            flags.append(" C");
        }
        flags
    }

    /// The flag register.
    #[verifier::when_used_as_spec(spec_f)]
    pub fn f(&self) -> (value: u8)
        ensures
            value == self.spec_f(),
    {
        reveal(flags_byte);
        let zero: u8 = if self.zero { 0x80 } else { 0 };
        let subtract: u8 = if self.subtract { 0x40 } else { 0 };
        let half_carry: u8 = if self.half_carry { 0x20 } else { 0 };
        let carry: u8 = if self.carry { 0x10 } else { 0 };
        zero + subtract + half_carry + carry
    }

    /// Loads the flags from bits 7 to 4 of `value`.
    pub fn set_f(&mut self, value: u8)
        ensures
            *final(self) == old(self).with_f(value),
    {
        reveal(RegisterSet::with_f);
        self.zero = value / 128 % 2 == 1;
        self.subtract = value / 64 % 2 == 1;
        self.half_carry = value / 32 % 2 == 1;
        self.carry = value / 16 % 2 == 1;
    }

    /// The value of an 8-bit register.
    #[verifier::when_used_as_spec(spec_get)]
    pub fn get(&self, register: Register8) -> (value: u8)
        ensures
            value == self.spec_get(register),
    {
        match register {
            Register8::A => self.a,
            Register8::B => self.b,
            Register8::C => self.c,
            Register8::D => self.d,
            Register8::E => self.e,
            Register8::H => self.h,
            Register8::L => self.l,
        }
    }

    /// Stores `value` in an 8-bit register.
    pub fn set(&mut self, register: Register8, value: u8)
        ensures
            *final(self) == old(self).with(register, value),
    {
        match register {
            Register8::A => self.a = value,
            Register8::B => self.b = value,
            Register8::C => self.c = value,
            Register8::D => self.d = value,
            Register8::E => self.e = value,
            Register8::H => self.h = value,
            Register8::L => self.l = value,
        }
    }

    /// The pair AF: the accumulator above the flag register.
    #[verifier::when_used_as_spec(spec_af)]
    pub fn af(&self) -> (value: u16)
        ensures
            value == self.spec_af(),
    {
        make_word(self.f(), self.a)
    }

    /// The pair BC.
    #[verifier::when_used_as_spec(spec_bc)]
    pub fn bc(&self) -> (value: u16)
        ensures
            value == self.spec_bc(),
    {
        make_word(self.c, self.b)
    }

    /// The pair DE.
    #[verifier::when_used_as_spec(spec_de)]
    pub fn de(&self) -> (value: u16)
        ensures
            value == self.spec_de(),
    {
        make_word(self.e, self.d)
    }

    /// The pair HL.
    #[verifier::when_used_as_spec(spec_hl)]
    pub fn hl(&self) -> (value: u16)
        ensures
            value == self.spec_hl(),
    {
        make_word(self.l, self.h)
    }

    /// Stores `value` in the pair AF; its low four bits are dropped.
    pub fn set_af(&mut self, value: u16)
        ensures
            *final(self) == old(self).with_af(value),
    {
        self.a = word_high(value);
        self.set_f(word_low(value));
    }

    /// Stores `value` in the pair BC.
    pub fn set_bc(&mut self, value: u16)
        ensures
            *final(self) == old(self).with_bc(value),
    {
        self.b = word_high(value);
        self.c = word_low(value);
    }

    /// Stores `value` in the pair DE.
    pub fn set_de(&mut self, value: u16)
        ensures
            *final(self) == old(self).with_de(value),
    {
        self.d = word_high(value);
        self.e = word_low(value);
    }

    /// Stores `value` in the pair HL.
    pub fn set_hl(&mut self, value: u16)
        ensures
            *final(self) == old(self).with_hl(value),
    {
        self.h = word_high(value);
        self.l = word_low(value);
    }

    /// The value of a 16-bit register.
    #[verifier::when_used_as_spec(spec_get16)]
    pub fn get16(&self, register: Register16) -> (value: u16)
        ensures
            value == self.spec_get16(register),
    {
        match register {
            Register16::BC => self.bc(),
            Register16::DE => self.de(),
            Register16::HL => self.hl(),
            Register16::SP => self.sp,
        }
    }

    /// Stores `value` in a 16-bit register.
    pub fn set16(&mut self, register: Register16, value: u16)
        ensures
            *final(self) == old(self).with16(register, value),
    {
        match register {
            Register16::BC => self.set_bc(value),
            Register16::DE => self.set_de(value),
            Register16::HL => self.set_hl(value),
            Register16::SP => self.sp = value,
        }
    }

    /// The value of a stack pair.
    #[verifier::when_used_as_spec(spec_get_stack)]
    pub fn get_stack(&self, register: StackRegister) -> (value: u16)
        ensures
            value == self.spec_get_stack(register),
    {
        match register {
            StackRegister::BC => self.bc(),
            StackRegister::DE => self.de(),
            StackRegister::HL => self.hl(),
            StackRegister::AF => self.af(),
        }
    }

    /// Stores `value` in a stack pair.
    pub fn set_stack(&mut self, register: StackRegister, value: u16)
        ensures
            *final(self) == old(self).with_stack(register, value),
    {
        match register {
            StackRegister::BC => self.set_bc(value),
            StackRegister::DE => self.set_de(value),
            StackRegister::HL => self.set_hl(value),
            StackRegister::AF => self.set_af(value),
        }
    }
}

impl Default for RegisterSet {
    /// The registers at power-on.
    fn default() -> (registers: RegisterSet)
        ensures
            registers == RegisterSet::power_on(),
    {
        RegisterSet {
            a: 0,
            b: 0,
            c: 0,
            d: 0,
            e: 0,
            h: 0,
            l: 0,
            zero: false,
            subtract: false,
            half_carry: false,
            carry: false,
            pc: RESET_PC,
            sp: RESET_SP,
        }
    }
}

/// A register pair always shows the bits of its two halves: storing a word
/// in a pair and reading the pair gives the word back, and the halves hold
/// its high and low byte.
pub proof fn lemma_pairs_follow_halves(registers: RegisterSet, value: u16)
    ensures
        registers.with_bc(value).spec_bc() == value,
        registers.with_bc(value).b == high_byte(value),
        registers.with_bc(value).c == low_byte(value),
        registers.with_de(value).spec_de() == value,
        registers.with_de(value).d == high_byte(value),
        registers.with_de(value).e == low_byte(value),
        registers.with_hl(value).spec_hl() == value,
        registers.with_hl(value).h == high_byte(value),
        registers.with_hl(value).l == low_byte(value),
        registers.with(Register8::B, high_byte(value)).with(
            Register8::C,
            low_byte(value),
        ).spec_bc() == value,
{
    lemma_word_bytes(value, 0, 0);
}

/// The flag register holds the four flags in its high bits and nothing in
/// its low four: loading the flags from it gives the same flags back.
pub proof fn lemma_flag_register(registers: RegisterSet)
    ensures
        registers.spec_f() % 16 == 0,
        registers.with_f(registers.spec_f()) == registers,
{
    reveal(flags_byte);
    reveal(RegisterSet::with_f);
}

/// The pair AF keeps the high twelve bits of what was stored in it: the low
/// four bits always read as zero.
pub proof fn lemma_af_drops_low_bits(registers: RegisterSet, value: u16)
    ensures
        registers.with_af(value).spec_af() == value - value % 16,
{
    reveal(flags_byte);
    reveal(RegisterSet::with_f);
    reveal(word_of);
    reveal(low_byte);
    reveal(high_byte);
    let low = (value as int % 256) as u8;
    let high = (value as int / 256) as u8;
    let kept = flags_byte(low / 128 % 2 == 1, low / 64 % 2 == 1, low / 32 % 2 == 1, low / 16 % 2 == 1);
    assert(kept == low - low % 16) by {
        lemma_upper_nibble(low);
    }
    assert(registers.with_af(value).a == high);
    assert(registers.with_af(value).spec_f() == kept);
}

/// The four flag bits read from a byte weigh what the byte weighs
/// without its low four bits.
proof fn lemma_upper_nibble(low: u8)
    ensures
        (if low / 128 % 2 == 1 {
            128int
        } else {
            0
        }) + (if low / 64 % 2 == 1 {
            64int
        } else {
            0
        }) + (if low / 32 % 2 == 1 {
            32int
        } else {
            0
        }) + (if low / 16 % 2 == 1 {
            16int
        } else {
            0
        }) == low - low % 16,
{
    assert(low / 16 == (low / 128) * 8 + (low / 64 % 2) * 4 + (low / 32 % 2) * 2 + low / 16 % 2);
    assert(low / 128 % 2 == low / 128);
}

} // verus!
