//! Taking a float apart for the fast power function.
//!
//! The function that raises a gamma-coded value to the power 2.4 never
//! computes a general power. It reads the binary exponent and the top three
//! bits of the mantissa from the float's bit pattern, looks both up in small
//! tables, and is left with a value so close to 1 that a short polynomial
//! finishes the work. This module is the part of it that works on bits.

use vstd::prelude::*;

verus! {

/// The exponent field of a bit pattern together with its sign bit: the
/// pattern without its 23 mantissa bits.
pub open spec fn exponent_field(bits: u32) -> int {
    bits as int / 0x80_0000
}

/// The 23 mantissa bits of a bit pattern.
pub open spec fn mantissa_field(bits: u32) -> int {
    bits as int % 0x80_0000
}

/// Whether the pattern is that of a positive float from 2^-4 up to, but not
/// including, 2^4: the values for which the tables have entries.
pub open spec fn in_table_range(bits: u32) -> bool {
    123 <= exponent_field(bits) <= 130
}

/// What the fast power function reads from a float's bit pattern.
#[derive(Copy, Clone, Debug, PartialEq, Eq, Structural)]
pub struct PowParts {
    /// Index into the table of powers of two: the binary exponent plus 4.
    pub exponent_slot: usize,
    /// Index into the tables of truncated mantissas: the top three mantissa
    /// bits.
    pub mantissa_slot: usize,
    /// Bit pattern of the float with its exponent set to zero: a value from
    /// 1 up to, but not including, 2, with the mantissa unchanged.
    pub unit_bits: u32,
}

/// Splits the bit pattern of a float into the two table indices and the
/// pattern of its mantissa as a value between 1 and 2. Patterns outside the
/// range of the tables have no parts.
pub fn pow_2_4_parts(bits: u32) -> (parts: Option<PowParts>)
    ensures
        parts.is_some() <==> in_table_range(bits),
        parts.is_some() ==> {
            &&& parts.unwrap().exponent_slot == exponent_field(bits) - 123
            &&& parts.unwrap().mantissa_slot == mantissa_field(bits) / 0x10_0000
            &&& parts.unwrap().unit_bits == 0x3f80_0000 + mantissa_field(bits)
        },
{
    let field: u32 = bits >> 23;
    assert(bits >> 23 == bits / 0x80_0000) by (bit_vector);
    if field < 123 || field > 130 {
        return None;
    }
    let unit_bits: u32 = (bits & 0x807f_ffff) | 0x3f80_0000;
    let fraction: u32 = (bits >> 20) & 7;
    assert(((bits & 0x807f_ffff) | 0x3f80_0000) == 0x3f80_0000 + bits % 0x80_0000)
        by (bit_vector)
        requires
            bits / 0x80_0000 <= 130,
    ;
    assert((bits >> 20) & 7 == (bits % 0x80_0000) / 0x10_0000) by (bit_vector);
    Some(PowParts {
        exponent_slot: (field - 123) as usize,
        mantissa_slot: fraction as usize,
        unit_bits,
    })
}

/// Bit pattern of the power of two that the table of powers holds at
/// `exponent_slot`: two to the power `exponent_slot - 4`.
pub fn power_of_two_bits(exponent_slot: usize) -> (bits: u32)
    requires
        exponent_slot < 8,
    ensures
        bits == (exponent_slot + 123) * 0x80_0000,
        exponent_field(bits) == exponent_slot + 123,
        mantissa_field(bits) == 0,
{
    let field: u32 = exponent_slot as u32 + 123;
    assert(field << 23 == field * 0x80_0000) by (bit_vector)
        requires
            field <= 130,
    ;
    field << 23
}

/// Bit pattern of the value in the middle of the eighth of the range from 1
/// to 2 that the tables hold at `mantissa_slot`: one plus `mantissa_slot`
/// eighths plus one sixteenth.
pub fn bucket_middle_bits(mantissa_slot: usize) -> (bits: u32)
    requires
        mantissa_slot < 8,
    ensures
        bits == 0x3f80_0000 + mantissa_slot * 0x10_0000 + 0x8_0000,
{
    let slot: u32 = mantissa_slot as u32;
    assert(0x3f80_0000u32 | (slot << 20) | 0x8_0000u32 == 0x3f80_0000 + slot * 0x10_0000
        + 0x8_0000) by (bit_vector)
        requires
            slot < 8,
    ;
    0x3f80_0000u32 | (slot << 20) | 0x8_0000u32
}

/// The parts of a pattern determine it: the exponent slot gives back the
/// exponent field, the unit pattern gives back the mantissa, and the mantissa
/// slot names the eighth of the range from 1 to 2 in which the mantissa lies.
pub proof fn lemma_parts_determine_bits(bits: u32, parts: PowParts)
    requires
        in_table_range(bits),
        parts.exponent_slot == exponent_field(bits) - 123,
        parts.mantissa_slot == mantissa_field(bits) / 0x10_0000,
        parts.unit_bits == 0x3f80_0000 + mantissa_field(bits),
    ensures
        bits == (parts.exponent_slot + 123) * 0x80_0000 + (parts.unit_bits - 0x3f80_0000),
        parts.exponent_slot < 8,
        parts.mantissa_slot < 8,
        0x3f80_0000 + parts.mantissa_slot * 0x10_0000 <= parts.unit_bits < 0x3f80_0000 + (
        parts.mantissa_slot + 1) * 0x10_0000,
{
}

/// The pattern with its exponent removed is never further than one sixteenth
/// from the middle of its eighth, which is what lets a short series finish
/// the power.
pub proof fn lemma_unit_near_bucket_middle(bits: u32, parts: PowParts)
    requires
        in_table_range(bits),
        parts.mantissa_slot == mantissa_field(bits) / 0x10_0000,
        parts.unit_bits == 0x3f80_0000 + mantissa_field(bits),
    ensures
        ({
            let middle = 0x3f80_0000 + parts.mantissa_slot * 0x10_0000 + 0x8_0000;
            middle - 0x8_0000 <= parts.unit_bits < middle + 0x8_0000
        }),
{
}

} // verus!
