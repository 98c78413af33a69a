//! Arithmetic and logic on register values, with the flags each operation
//! produces. Every result is stated over integers; the executable forms
//! work on machine words.

use vstd::prelude::*;

verus! {

/// An 8-bit result together with the four flags that go with it.
#[derive(Clone, Copy, Debug, PartialEq, Eq, Structural)]
pub struct AluResult {
    pub value: u8,
    pub zero: bool,
    pub subtract: bool,
    pub half_carry: bool,
    pub carry: bool,
}

/// A 16-bit result together with the half-carry and carry it produces.
#[derive(Clone, Copy, Debug, PartialEq, Eq, Structural)]
pub struct WideResult {
    pub value: u16,
    pub half_carry: bool,
    pub carry: bool,
}

/// The shifts and rotates of the extended instruction family.
#[derive(Clone, Copy, Debug, PartialEq, Eq, Structural)]
pub enum ShiftOp {
    /// Rotate left; bit 7 goes to bit 0 and to carry.
    RotateLeftCircular,
    /// Rotate right; bit 0 goes to bit 7 and to carry.
    RotateRightCircular,
    /// Rotate left through carry.
    RotateLeft,
    /// Rotate right through carry.
    RotateRight,
    /// Shift left; bit 0 becomes 0.
    ShiftLeft,
    /// Shift right; bit 7 keeps its value.
    ShiftRightArithmetic,
    /// Exchange the two nibbles.
    Swap,
    /// Shift right; bit 7 becomes 0.
    ShiftRightLogical,
}

/// The eight operations between the accumulator and an operand.
#[derive(Clone, Copy, Debug, PartialEq, Eq, Structural)]
pub enum AluOp {
    Add,
    AddCarry,
    Subtract,
    SubtractCarry,
    And,
    Xor,
    Or,
    Compare,
}

/// 1 for a set carry, 0 for a clear one.
pub open spec fn bit_of(flag: bool) -> int {
    if flag {
        1
    } else {
        0
    }
}

/// The value of an offset byte read as a two's complement number.
pub open spec fn signed(offset: u8) -> int {
    if offset < 128 {
        offset as int
    } else {
        offset as int - 256
    }
}

/// `a + b + carry_in`, reduced to 8 bits.
#[verifier::opaque]
pub open spec fn add8(a: u8, b: u8, carry_in: bool) -> AluResult {
    let sum = a as int + b as int + bit_of(carry_in);
    AluResult {
        value: (sum % 256) as u8,
        zero: sum % 256 == 0,
        subtract: false,
        half_carry: a as int % 16 + b as int % 16 + bit_of(carry_in) > 15,
        carry: sum > 255,
    }
}

/// `a - b - borrow_in`, reduced to 8 bits.
#[verifier::opaque]
pub open spec fn sub8(a: u8, b: u8, borrow_in: bool) -> AluResult {
    let difference = a as int - b as int - bit_of(borrow_in);
    AluResult {
        value: (difference % 256) as u8,
        zero: difference % 256 == 0,
        subtract: true,
        half_carry: (a as int % 16) < b as int % 16 + bit_of(borrow_in),
        carry: (a as int) < b as int + bit_of(borrow_in),
    }
}

/// Bitwise and.
pub open spec fn and8(a: u8, b: u8) -> AluResult {
    AluResult { value: a & b, zero: a & b == 0, subtract: false, half_carry: true, carry: false }
}

/// Bitwise exclusive or.
pub open spec fn xor8(a: u8, b: u8) -> AluResult {
    AluResult { value: a ^ b, zero: a ^ b == 0, subtract: false, half_carry: false, carry: false }
}

/// Bitwise or.
pub open spec fn or8(a: u8, b: u8) -> AluResult {
    AluResult { value: a | b, zero: a | b == 0, subtract: false, half_carry: false, carry: false }
}

/// The result of `op` on the accumulator `a` and the operand `b`. For a
/// comparison the value is that of the subtraction; the caller discards it.
pub open spec fn alu(op: AluOp, a: u8, b: u8, carry: bool) -> AluResult {
    match op {
        AluOp::Add => add8(a, b, false),
        AluOp::AddCarry => add8(a, b, carry),
        AluOp::Subtract => sub8(a, b, false),
        AluOp::SubtractCarry => sub8(a, b, carry),
        AluOp::And => and8(a, b),
        AluOp::Xor => xor8(a, b),
        AluOp::Or => or8(a, b),
        AluOp::Compare => sub8(a, b, false),
    }
}

/// `value + 1`, reduced to 8 bits. The carry flag passes through.
#[verifier::opaque]
pub open spec fn inc8(value: u8, carry: bool) -> AluResult {
    AluResult {
        value: ((value + 1) % 256) as u8,
        zero: value == 255,
        subtract: false,
        half_carry: value % 16 == 15,
        carry,
    }
}

/// `value - 1`, reduced to 8 bits. The carry flag passes through.
#[verifier::opaque]
pub open spec fn dec8(value: u8, carry: bool) -> AluResult {
    AluResult {
        value: ((value - 1) % 256) as u8,
        zero: value == 1,
        subtract: true,
        half_carry: value % 16 == 0,
        carry,
    }
}

/// The shifted or rotated value, before any flag is derived from it.
pub open spec fn shifted(op: ShiftOp, value: u8, carry: bool) -> int {
    let value = value as int;
    match op {
        ShiftOp::RotateLeftCircular => (value * 2) % 256 + value / 128,
        ShiftOp::RotateRightCircular => value / 2 + 128 * (value % 2),
        ShiftOp::RotateLeft => (value * 2) % 256 + bit_of(carry),
        ShiftOp::RotateRight => value / 2 + 128 * bit_of(carry),
        ShiftOp::ShiftLeft => (value * 2) % 256,
        ShiftOp::ShiftRightArithmetic => value / 2 + 128 * (value / 128),
        ShiftOp::Swap => (value % 16) * 16 + value / 16,
        ShiftOp::ShiftRightLogical => value / 2,
    }
}

/// The bit that a shift or rotate moves into the carry flag.
pub open spec fn shifted_out(op: ShiftOp, value: u8) -> bool {
    match op {
        ShiftOp::RotateLeftCircular | ShiftOp::RotateLeft | ShiftOp::ShiftLeft => value >= 128,
        ShiftOp::Swap => false,
        _ => value % 2 == 1,
    }
}

/// The result of a shift or rotate of the extended family.
#[verifier::opaque]
pub open spec fn shift(op: ShiftOp, value: u8, carry: bool) -> AluResult {
    AluResult {
        value: shifted(op, value, carry) as u8,
        zero: shifted(op, value, carry) == 0,
        subtract: false,
        half_carry: false,
        carry: shifted_out(op, value),
    }
}

/// 2 to the power `bit`. A bit number above 7 counts as its remainder
/// modulo 8.
pub open spec fn bit_weight(bit: u8) -> int {
    let bit = bit % 8;
    if bit == 0 {
        1
    } else if bit == 1 {
        2
    } else if bit == 2 {
        4
    } else if bit == 3 {
        8
    } else if bit == 4 {
        16
    } else if bit == 5 {
        32
    } else if bit == 6 {
        64
    } else {
        128
    }
}

/// Whether bit number `bit` of `value` is set.
#[verifier::opaque]
pub open spec fn bit_set(bit: u8, value: u8) -> bool {
    (value as int / bit_weight(bit)) % 2 == 1
}

/// `value` with bit number `bit` cleared.
#[verifier::opaque]
pub open spec fn clear_bit(bit: u8, value: u8) -> u8 {
    if bit_set(bit, value) {
        (value - bit_weight(bit)) as u8
    } else {
        value
    }
}

/// `value` with bit number `bit` set.
#[verifier::opaque]
pub open spec fn raise_bit(bit: u8, value: u8) -> u8 {
    if bit_set(bit, value) {
        value
    } else {
        (value + bit_weight(bit)) as u8
    }
}

/// The accumulator after decimal adjustment, so that it holds two decimal
/// digits after an addition or subtraction of two-digit decimal numbers.
#[verifier::opaque]
pub open spec fn decimal_adjust(a: u8, subtract: bool, half_carry: bool, carry: bool) -> AluResult {
    let low = if half_carry || (!subtract && a % 16 > 9) {
        6int
    } else {
        0int
    };
    let high = if carry || (!subtract && a > 0x99) {
        0x60int
    } else {
        0int
    };
    let adjusted = if subtract {
        (a - low - high) % 256
    } else {
        (a + low + high) % 256
    };
    AluResult {
        value: adjusted as u8,
        zero: adjusted == 0,
        subtract,
        half_carry: false,
        carry: high != 0,
    }
}

/// `a + b`, reduced to 16 bits, with the carries out of bit 11 and bit 15.
#[verifier::opaque]
pub open spec fn add16(a: u16, b: u16) -> WideResult {
    WideResult {
        value: ((a + b) % 0x1_0000) as u16,
        half_carry: a % 0x1000 + b % 0x1000 > 0xFFF,
        carry: a + b > 0xFFFF,
    }
}

/// `base` moved by the signed `offset`, reduced to 16 bits, with the
/// carries out of bit 3 and bit 7 of the unsigned addition of the low bytes.
#[verifier::opaque]
pub open spec fn add_offset(base: u16, offset: u8) -> WideResult {
    WideResult {
        value: ((base + signed(offset)) % 0x1_0000) as u16,
        half_carry: base % 16 + offset % 16 > 15,
        carry: base % 256 + offset > 255,
    }
}

/// A mask of 0x0F keeps the value modulo 16.
proof fn lemma_nibbles(a: u8, b: u8)
    by (bit_vector)
    ensures
        a & 0x0F == a % 16,
        (a & 0x0F) + (b & 0x0F) < 32,
{
}

/// Computes [`add8`].
pub fn add_bytes(a: u8, b: u8, carry_in: bool) -> (result: AluResult)
    ensures
        result == add8(a, b, carry_in),
{
    reveal(add8);
    let carry: u8 = if carry_in { 1 } else { 0 };
    let value: u8 = a.wrapping_add(b).wrapping_add(carry);
    proof {
        lemma_nibbles(a, b);
        lemma_nibbles(b, a);
    }
    AluResult {
        value,
        zero: value == 0,
        subtract: false,
        half_carry: (a & 0x0F) + (b & 0x0F) + carry > 0x0F,
        carry: (a as u16) + (b as u16) + (carry as u16) > 0xFF,
    }
}

/// Computes [`sub8`].
pub fn subtract_bytes(a: u8, b: u8, borrow_in: bool) -> (result: AluResult)
    ensures
        result == sub8(a, b, borrow_in),
{
    reveal(sub8);
    let borrow: u8 = if borrow_in { 1 } else { 0 };
    let value: u8 = a.wrapping_sub(b).wrapping_sub(borrow);
    proof {
        lemma_nibbles(a, b);
        lemma_nibbles(b, a);
    }
    AluResult {
        value,
        zero: value == 0,
        subtract: true,
        half_carry: (a & 0x0F) < (b & 0x0F) + borrow,
        carry: (a as u16) < (b as u16) + (borrow as u16),
    }
}

/// Computes [`alu`].
pub fn apply(op: AluOp, a: u8, b: u8, carry: bool) -> (result: AluResult)
    ensures
        result == alu(op, a, b, carry),
{
    match op {
        AluOp::Add => add_bytes(a, b, false),
        AluOp::AddCarry => add_bytes(a, b, carry),
        AluOp::Subtract => subtract_bytes(a, b, false),
        AluOp::SubtractCarry => subtract_bytes(a, b, carry),
        AluOp::And => AluResult {
            value: a & b,
            zero: a & b == 0,
            subtract: false,
            half_carry: true,
            carry: false,
        },
        AluOp::Xor => AluResult {
            value: a ^ b,
            zero: a ^ b == 0,
            subtract: false,
            half_carry: false,
            carry: false,
        },
        AluOp::Or => AluResult {
            value: a | b,
            zero: a | b == 0,
            subtract: false,
            half_carry: false,
            carry: false,
        },
        AluOp::Compare => subtract_bytes(a, b, false),
    }
}

/// Computes [`inc8`].
pub fn increment(value: u8, carry: bool) -> (result: AluResult)
    ensures
        result == inc8(value, carry),
{
    reveal(inc8);
    let next: u8 = value.wrapping_add(1);
    proof {
        lemma_nibbles(value, value);
    }
    AluResult {
        value: next,
        zero: next == 0,
        subtract: false,
        half_carry: value & 0x0F == 0x0F,
        carry,
    }
}

/// Computes [`dec8`].
pub fn decrement(value: u8, carry: bool) -> (result: AluResult)
    ensures
        result == dec8(value, carry),
{
    reveal(dec8);
    let next: u8 = value.wrapping_sub(1);
    proof {
        lemma_nibbles(value, value);
    }
    AluResult {
        value: next,
        zero: next == 0,
        subtract: true,
        half_carry: value & 0x0F == 0,
        carry,
    }
}

/// Each shift and rotate, written with bit operations, is the arithmetic that
/// [`shifted`] and [`shifted_out`] give.
proof fn lemma_shifts(value: u8)
    ensures
        (value << 1) | (value >> 7) == (value * 2) % 256 + value / 128,
        (value >> 1) | (value << 7) == value / 2 + 128 * (value % 2),
        (value << 1) | 1 == (value * 2) % 256 + 1,
        (value >> 1) | 0x80 == value / 2 + 128,
        value << 1 == (value * 2) % 256,
        (value >> 1) | (value & 0x80) == value / 2 + 128 * (value / 128),
        (value << 4) | (value >> 4) == (value % 16) * 16 + value / 16,
        value >> 1 == value / 2,
        (value & 0x80 != 0) == (value >= 128),
        (value & 0x01 != 0) == (value % 2 == 1),
{
    assert((value << 1) | (value >> 7) == (value * 2) % 256 + value / 128) by (bit_vector);
    assert((value >> 1) | (value << 7) == value / 2 + (value % 2) * 128) by (bit_vector);
    assert((value << 1) | 1 == (value * 2) % 256 + 1) by (bit_vector);
    assert((value >> 1) | 0x80 == value / 2 + 128) by (bit_vector);
    assert(value << 1 == (value * 2) % 256) by (bit_vector);
    assert((value >> 1) | (value & 0x80) == value / 2 + (value / 128) * 128) by (bit_vector);
    assert((value << 4) | (value >> 4) == (value % 16) * 16 + value / 16) by (bit_vector);
    assert(value >> 1 == value / 2) by (bit_vector);
    assert((value & 0x80 != 0) == (value >= 128)) by (bit_vector);
    assert((value & 0x01 != 0) == (value % 2 == 1)) by (bit_vector);
}

/// Computes [`shift`].
pub fn shift_byte(op: ShiftOp, value: u8, carry: bool) -> (result: AluResult)
    ensures
        result == shift(op, value, carry),
{
    reveal(shift);
    proof {
        lemma_shifts(value);
    }
    let moved: u8 = match op {
        ShiftOp::RotateLeftCircular => (value << 1) | (value >> 7),
        ShiftOp::RotateRightCircular => (value >> 1) | (value << 7),
        ShiftOp::RotateLeft => if carry {
            (value << 1) | 1
        } else {
            value << 1
        },
        ShiftOp::RotateRight => if carry {
            (value >> 1) | 0x80
        } else {
            value >> 1
        },
        ShiftOp::ShiftLeft => value << 1,
        ShiftOp::ShiftRightArithmetic => (value >> 1) | (value & 0x80),
        ShiftOp::Swap => (value << 4) | (value >> 4),
        ShiftOp::ShiftRightLogical => value >> 1,
    };
    let out: bool = match op {
        ShiftOp::RotateLeftCircular | ShiftOp::RotateLeft | ShiftOp::ShiftLeft => value & 0x80
            != 0,
        ShiftOp::Swap => false,
        _ => value & 0x01 != 0,
    };
    AluResult { value: moved, zero: moved == 0, subtract: false, half_carry: false, carry: out }
}

/// Testing, clearing and setting one bit with a mask agree with
/// [`bit_set`], [`clear_bit`] and [`raise_bit`].
proof fn lemma_bit_mask(bit: u8, value: u8)
    ensures
        (1u8 << (bit % 8)) == bit_weight(bit),
        (value & (1u8 << (bit % 8)) != 0) == bit_set(bit, value),
        value & !(1u8 << (bit % 8)) == clear_bit(bit, value),
        value | (1u8 << (bit % 8)) == raise_bit(bit, value),
{
    reveal(bit_set);
    reveal(clear_bit);
    reveal(raise_bit);
    let index = bit % 8;
    let mask = 1u8 << index;
    assert(mask == (if index == 0 {
        1u8
    } else if index == 1 {
        2u8
    } else if index == 2 {
        4u8
    } else if index == 3 {
        8u8
    } else if index == 4 {
        16u8
    } else if index == 5 {
        32u8
    } else if index == 6 {
        64u8
    } else {
        128u8
    })) by (bit_vector)
        requires
            index < 8,
            mask == 1u8 << index,
    ;
    assert((value & mask != 0) == ((value / mask) % 2 == 1)) by (bit_vector)
        requires
            index < 8,
            mask == 1u8 << index,
    ;
    assert(value & mask != 0 ==> value & !mask == value - mask) by (bit_vector)
        requires
            index < 8,
            mask == 1u8 << index,
    ;
    assert(value & mask == 0 ==> value & !mask == value && value | mask == value + mask)
        by (bit_vector)
        requires
            index < 8,
            mask == 1u8 << index,
    ;
    assert(value & mask != 0 ==> value | mask == value) by (bit_vector)
        requires
            index < 8,
            mask == 1u8 << index,
    ;
}

/// Computes [`bit_set`].
pub fn test_bit(bit: u8, value: u8) -> (set: bool)
    ensures
        set == bit_set(bit, value),
{
    proof {
        lemma_bit_mask(bit, value);
    }
    value & (1u8 << (bit % 8)) != 0
}

/// Computes [`clear_bit`].
pub fn reset_bit(bit: u8, value: u8) -> (cleared: u8)
    ensures
        cleared == clear_bit(bit, value),
{
    proof {
        lemma_bit_mask(bit, value);
    }
    value & !(1u8 << (bit % 8))
}

/// Computes [`raise_bit`].
pub fn set_bit(bit: u8, value: u8) -> (raised: u8)
    ensures
        raised == raise_bit(bit, value),
{
    proof {
        lemma_bit_mask(bit, value);
    }
    value | (1u8 << (bit % 8))
}

/// Computes [`decimal_adjust`].
pub fn adjust_decimal(a: u8, subtract: bool, half_carry: bool, carry: bool) -> (result:
    AluResult)
    ensures
        result == decimal_adjust(a, subtract, half_carry, carry),
{
    reveal(decimal_adjust);
    proof {
        lemma_nibbles(a, a);
    }
    let mut correction: u8 = 0;
    let mut carry_out: bool = false;
    if half_carry || (!subtract && (a & 0x0F) > 0x09) {
        correction = correction + 0x06;
    }
    if carry || (!subtract && a > 0x99) {
        correction = correction + 0x60;
        carry_out = true;
    }
    let value: u8 = if subtract {
        a.wrapping_sub(correction)
    } else {
        a.wrapping_add(correction)
    };
    AluResult { value, zero: value == 0, subtract, half_carry: false, carry: carry_out }
}

/// Masks of the low 4, 8 and 12 bits keep the value modulo 16, 256 and
/// 4096.
proof fn lemma_low_bits(a: u16)
    ensures
        a & 0x0FFF == a % 0x1000,
        a & 0x000F == a % 16,
        a & 0x00FF == a % 256,
{
    assert(a & 0x0FFF == a % 0x1000) by (bit_vector);
    assert(a & 0x000F == a % 16) by (bit_vector);
    assert(a & 0x00FF == a % 256) by (bit_vector);
}

/// Computes [`add16`].
pub fn add_words(a: u16, b: u16) -> (result: WideResult)
    ensures
        result == add16(a, b),
{
    reveal(add16);
    proof {
        lemma_low_bits(a);
        lemma_low_bits(b);
    }
    WideResult {
        value: a.wrapping_add(b),
        half_carry: (a & 0x0FFF) + (b & 0x0FFF) > 0x0FFF,
        carry: (a as u32) + (b as u32) > 0xFFFF,
    }
}

/// Computes `base` moved by the signed `offset`, reduced to 16 bits.
pub fn offset_address(base: u16, offset: u8) -> (address: u16)
    ensures
        address == add_offset(base, offset).value,
{
    reveal(add_offset);
    if offset < 128 {
        base.wrapping_add(offset as u16)
    } else {
        base.wrapping_sub(256 - offset as u16)
    }
}

/// Computes [`add_offset`].
pub fn add_signed_offset(base: u16, offset: u8) -> (result: WideResult)
    ensures
        result == add_offset(base, offset),
{
    reveal(add_offset);
    proof {
        lemma_low_bits(base);
    }
    WideResult {
        value: offset_address(base, offset),
        half_carry: (base & 0x000F) + (offset as u16 % 16) > 0x000F,
        carry: (base & 0x00FF) + (offset as u16) > 0x00FF,
    }
}

} // verus!
