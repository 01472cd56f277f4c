//! Bit-level utilities: sign extension and field extraction for the
//! immediate, offset, and register fields of an instruction word; and two
//! small builders for machines bound to in-memory byte streams.

use vstd::prelude::*;

use crate::hardware::{Hardware, fresh_vm};
use vstd::string::StringSliceAdditionalSpecFns;

verus! {

/// Sign extension of the low `w` bits of `v` to 16 bits by replicating
/// bit `w - 1`. For `w == 16` the value is already full width.
pub open spec fn sext(v: u16, w: u16) -> u16
    recommends
        1 <= w <= 16,
{
    if w >= 16 {
        v
    } else if (v >> ((w - 1) as u16)) & 1 == 1 {
        v | (0xFFFFu16 << w)
    } else {
        v
    }
}

/// 16-bit wraparound addition: all LC-3 address arithmetic is modulo 2^16.
pub open spec fn add16(a: u16, b: u16) -> u16 {
    ((a + b) % 0x10000) as u16
}

/// The three-bit register field of `v` that starts at bit `at`.
pub open spec fn spec_register_at(v: u16, at: u16) -> u16 {
    (v >> at) & 0x7
}

/// The `imm5` field: bits [4:0], sign-extended.
pub open spec fn spec_imm5(v: u16) -> u16 {
    sext(v & 0x1F, 5)
}

/// The `offset6` field: bits [5:0], sign-extended.
pub open spec fn spec_offset6(v: u16) -> u16 {
    sext(v & 0x3F, 6)
}

/// The `pcoffset9` field: bits [8:0], sign-extended.
pub open spec fn spec_pcoffset9(v: u16) -> u16 {
    sext(v & 0x1FF, 9)
}

/// The `pcoffset11` field: bits [10:0], sign-extended.
pub open spec fn spec_pcoffset11(v: u16) -> u16 {
    sext(v & 0x7FF, 11)
}

/// Sign-extend the low `bit_count` bits of `value` to 16 bits.
pub fn sign_extend(value: u16, bit_count: u8) -> (r: u16)
    requires
        1 <= bit_count <= 16,
    ensures
        r == sext(value, bit_count as u16),
{
    if bit_count == 16 {
        value
    } else if (value >> ((bit_count - 1) as u16)) & 1 == 1 {
        value | (0xFFFFu16 << (bit_count as u16))
    } else {
        value
    }
}

/// Wraparound addition of two 16-bit words.
pub fn wrap_add(a: u16, b: u16) -> (r: u16)
    ensures
        r == add16(a, b),
{
    let sum: u32 = a as u32 + b as u32;
    if sum >= 0x10000 {
        (sum - 0x10000) as u16
    } else {
        sum as u16
    }
}

/// The sign-extended `imm5` field of an instruction word.
pub fn imm5(value: u16) -> (r: u16)
    ensures
        r == spec_imm5(value),
{
    sign_extend(value & 0b0000_0000_0001_1111, 5)
}

/// The sign-extended `offset6` field of an instruction word.
pub fn offset6(value: u16) -> (r: u16)
    ensures
        r == spec_offset6(value),
{
    sign_extend(value & 0b0000_0000_0011_1111, 6)
}

/// The sign-extended `pcoffset9` field of an instruction word.
pub fn pcoffset9(value: u16) -> (r: u16)
    ensures
        r == spec_pcoffset9(value),
{
    sign_extend(value & 0b0000_0001_1111_1111, 9)
}

/// The sign-extended `pcoffset11` field of an instruction word.
pub fn pcoffset11(value: u16) -> (r: u16)
    ensures
        r == spec_pcoffset11(value),
{
    sign_extend(value & 0b0000_0111_1111_1111, 11)
}

/// The three-bit register field of `value` that starts at bit `at`.
/// Register fields are never sign-extended, and always name one of the
/// eight general-purpose registers.
pub fn register_at(value: u16, at: u16) -> (r: u16)
    requires
        at < 16,
    ensures
        r == spec_register_at(value, at),
        r < 8,
{
    let r = (value >> at) & 0b0000_0000_0000_0111;
    proof {
        assert((value >> at) & 0x7 < 8) by (bit_vector);
    }
    r
}

/// A fresh machine whose input and output are both empty buffers.
pub fn setup_default_test() -> (r: Hardware)
    ensures
        r.wf(),
        r@ == fresh_vm(Seq::<u8>::empty(), Seq::<u8>::empty()),
{
    Hardware::default_with_io((Vec::new(), Vec::new()))
}

/// A fresh machine whose input buffer holds the bytes of `input` and whose
/// output is an empty buffer.
pub fn setup_test_with_input(input: &str) -> (r: Hardware)
    ensures
        r.wf(),
        r@ == fresh_vm(input.spec_bytes(), Seq::<u8>::empty()),
{
    let bytes = vstd::slice::slice_to_vec(input.as_bytes());
    Hardware::default_with_io((bytes, Vec::new()))
}

} // verus!
