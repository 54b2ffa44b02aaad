//! Single-bit reads and writes on the fixed-width integers that the
//! hardware structures in this crate are packed into.
//!
//! Every register and table entry in the crate is an integer whose meaning
//! is fixed by the processor bit by bit.  The functions here are the one
//! place that turns "bit `i` of `v`" into shifts and masks; the rest of the
//! crate states its contracts through the spec functions of this module.

use vstd::prelude::*;

verus! {

/// Bit `i` of the 64-bit value `v`.
pub open spec fn bit64(v: u64, i: u64) -> bool {
    v & (1u64 << i) != 0
}

/// `v` with bit `i` set to `b`, all other bits unchanged.
pub open spec fn bit64_with(v: u64, i: u64, b: bool) -> u64 {
    if b {
        v | (1u64 << i)
    } else {
        v & !(1u64 << i)
    }
}

/// Bit `i` of the 32-bit value `v`.
pub open spec fn bit32(v: u32, i: u32) -> bool {
    v & (1u32 << i) != 0
}

/// `v` with bit `i` set to `b`, all other bits unchanged.
pub open spec fn bit32_with(v: u32, i: u32, b: bool) -> u32 {
    if b {
        v | (1u32 << i)
    } else {
        v & !(1u32 << i)
    }
}

/// Bit `i` of the 16-bit value `v`.
pub open spec fn bit16(v: u16, i: u16) -> bool {
    v & (1u16 << i) != 0
}

/// `v` with bit `i` set to `b`, all other bits unchanged.
pub open spec fn bit16_with(v: u16, i: u16, b: bool) -> u16 {
    if b {
        v | (1u16 << i)
    } else {
        v & !(1u16 << i)
    }
}

/// Bit `i` of the byte `v`.
pub open spec fn bit8(v: u8, i: u8) -> bool {
    v & (1u8 << i) != 0
}

/// `v` with bit `i` set to `b`, all other bits unchanged.
pub open spec fn bit8_with(v: u8, i: u8, b: bool) -> u8 {
    if b {
        v | (1u8 << i)
    } else {
        v & !(1u8 << i)
    }
}

/// Reads bit `i` of `v`.
pub fn bit64_read(v: u64, i: u64) -> (r: bool)
    requires
        i < 64,
    ensures
        r == bit64(v, i),
{
    v & (1u64 << i) != 0
}

/// Returns `v` with bit `i` set to `b`.
pub fn bit64_write(v: u64, i: u64, b: bool) -> (r: u64)
    requires
        i < 64,
    ensures
        r == bit64_with(v, i, b),
{
    if b {
        v | (1u64 << i)
    } else {
        v & !(1u64 << i)
    }
}

/// Reads bit `i` of `v`.
pub fn bit32_read(v: u32, i: u32) -> (r: bool)
    requires
        i < 32,
    ensures
        r == bit32(v, i),
{
    v & (1u32 << i) != 0
}

/// Returns `v` with bit `i` set to `b`.
pub fn bit32_write(v: u32, i: u32, b: bool) -> (r: u32)
    requires
        i < 32,
    ensures
        r == bit32_with(v, i, b),
{
    if b {
        v | (1u32 << i)
    } else {
        v & !(1u32 << i)
    }
}

/// Reads bit `i` of `v`.
pub fn bit16_read(v: u16, i: u16) -> (r: bool)
    requires
        i < 16,
    ensures
        r == bit16(v, i),
{
    v & (1u16 << i) != 0
}

/// Returns `v` with bit `i` set to `b`.
pub fn bit16_write(v: u16, i: u16, b: bool) -> (r: u16)
    requires
        i < 16,
    ensures
        r == bit16_with(v, i, b),
{
    if b {
        v | (1u16 << i)
    } else {
        v & !(1u16 << i)
    }
}

/// Reads bit `i` of `v`.
pub fn bit8_read(v: u8, i: u8) -> (r: bool)
    requires
        i < 8,
    ensures
        r == bit8(v, i),
{
    v & (1u8 << i) != 0
}

/// Returns `v` with bit `i` set to `b`.
pub fn bit8_write(v: u8, i: u8, b: bool) -> (r: u8)
    requires
        i < 8,
    ensures
        r == bit8_with(v, i, b),
{
    if b {
        v | (1u8 << i)
    } else {
        v & !(1u8 << i)
    }
}

/// A value masked to nine bits is an index below 512, and the cast of such
/// an index down to 16 bits and back loses nothing.
pub proof fn lemma_index9(v: u64, s: u64)
    by (bit_vector)
    ensures
        (v >> s) & 0x1ff < 512,
        (((v >> s) & 0x1ff) as u16) as u64 == (v >> s) & 0x1ff,
{
}

/// A value masked to twelve bits is an offset below 4096, and the cast of
/// such an offset down to 16 bits and back loses nothing.
pub proof fn lemma_offset12(v: u64)
    by (bit_vector)
    ensures
        v & 0xfff < 4096,
        ((v & 0xfff) as u16) as u64 == v & 0xfff,
{
}

/// For a power of two `a`, the masked check `v & (a - 1) == 0` agrees with
/// divisibility by `a`.  Proved by halving `a` down to 1: each step peels
/// the lowest bit off both the mask test and the remainder.
pub proof fn lemma_power_of_two_alignment(v: u64, a: u64)
    requires
        a != 0,
        a & ((a - 1) as u64) == 0,
    ensures
        (v & ((a - 1) as u64) == 0) == (v % a == 0),
    decreases a,
{
    if a == 1 {
        assert(v & 0 == 0) by (bit_vector);
    } else {
        let h = a / 2;
        assert(a >> 1 == h && v >> 1 == v / 2 && h != 0 && h & ((h - 1) as u64) == 0 && a == 2 * h
            && ((v & ((a - 1) as u64) == 0) == (v % 2 == 0 && (v >> 1) & ((h - 1) as u64) == 0)))
            by (bit_vector)
            requires
                a != 0,
                a != 1,
                a & ((a - 1) as u64) == 0,
                h == a / 2,
        ;
        lemma_power_of_two_alignment(v / 2, h);
        vstd::arithmetic::div_mod::lemma_mod_breakdown(v as int, 2, h as int);
    }
}

} // verus!
