//! Big-endian interpretation of byte sequences, and the two's-complement
//! correspondence between unsigned and signed fixed-width values.

use vstd::prelude::*;

verus! {

/// The unsigned big-endian value of two bytes.
pub open spec fn be16(s: Seq<u8>) -> nat
    recommends
        s.len() == 2,
{
    (s[0] * 0x100 + s[1]) as nat
}

/// The unsigned big-endian value of four bytes.
pub open spec fn be32(s: Seq<u8>) -> nat
    recommends
        s.len() == 4,
{
    (s[0] * 0x100_0000 + s[1] * 0x1_0000 + s[2] * 0x100 + s[3]) as nat
}

/// The unsigned big-endian value of eight bytes.
pub open spec fn be64(s: Seq<u8>) -> nat
    recommends
        s.len() == 8,
{
    (s[0] * 0x100_0000_0000_0000 + s[1] * 0x1_0000_0000_0000 + s[2] * 0x100_0000_0000 + s[3]
        * 0x1_0000_0000 + s[4] * 0x100_0000 + s[5] * 0x1_0000 + s[6] * 0x100 + s[7]) as nat
}

/// The signed value whose 8-bit two's-complement representation is `n`.
pub open spec fn signed8(n: nat) -> int {
    if n < 0x80 {
        n as int
    } else {
        n - 0x100
    }
}

/// The signed value whose 16-bit two's-complement representation is `n`.
pub open spec fn signed16(n: nat) -> int {
    if n < 0x8000 {
        n as int
    } else {
        n - 0x1_0000
    }
}

/// The signed value whose 32-bit two's-complement representation is `n`.
pub open spec fn signed32(n: nat) -> int {
    if n < 0x8000_0000 {
        n as int
    } else {
        n - 0x1_0000_0000
    }
}

/// The signed value whose 64-bit two's-complement representation is `n`.
pub open spec fn signed64(n: nat) -> int {
    if n < 0x8000_0000_0000_0000 {
        n as int
    } else {
        n - 0x1_0000_0000_0000_0000
    }
}

/// The 8-bit two's-complement representation of a signed value.
pub open spec fn repr8(i: int) -> nat
    recommends
        i8::MIN <= i <= i8::MAX,
{
    if i >= 0 {
        i as nat
    } else {
        (i + 0x100) as nat
    }
}

/// The 16-bit two's-complement representation of a signed value.
pub open spec fn repr16(i: int) -> nat
    recommends
        i16::MIN <= i <= i16::MAX,
{
    if i >= 0 {
        i as nat
    } else {
        (i + 0x1_0000) as nat
    }
}

/// The 32-bit two's-complement representation of a signed value.
pub open spec fn repr32(i: int) -> nat
    recommends
        i32::MIN <= i <= i32::MAX,
{
    if i >= 0 {
        i as nat
    } else {
        (i + 0x1_0000_0000) as nat
    }
}

/// The 64-bit two's-complement representation of a signed value.
pub open spec fn repr64(i: int) -> nat
    recommends
        i64::MIN <= i <= i64::MAX,
{
    if i >= 0 {
        i as nat
    } else {
        (i + 0x1_0000_0000_0000_0000) as nat
    }
}

/// The signed reading of an 8-bit representation inverts `repr8`.
pub proof fn lemma_signed8_repr8(i: int)
    requires
        i8::MIN <= i <= i8::MAX,
    ensures
        signed8(repr8(i)) == i,
{
}

/// The signed reading of a 16-bit representation inverts `repr16`.
pub proof fn lemma_signed16_repr16(i: int)
    requires
        i16::MIN <= i <= i16::MAX,
    ensures
        signed16(repr16(i)) == i,
{
}

/// The signed reading of a 32-bit representation inverts `repr32`.
pub proof fn lemma_signed32_repr32(i: int)
    requires
        i32::MIN <= i <= i32::MAX,
    ensures
        signed32(repr32(i)) == i,
{
}

/// The signed reading of a 64-bit representation inverts `repr64`.
pub proof fn lemma_signed64_repr64(i: int)
    requires
        i64::MIN <= i <= i64::MAX,
    ensures
        signed64(repr64(i)) == i,
{
}

/// The signed value of an 8-bit representation, computed.
pub fn to_signed8(u: u8) -> (r: i8)
    ensures
        r as int == signed8(u as nat),
{
    if u < 0x80 {
        u as i8
    } else {
        ((u - 0x80) as i8) + i8::MIN
    }
}

/// The signed value of a 16-bit representation, computed.
pub fn to_signed16(u: u16) -> (r: i16)
    ensures
        r as int == signed16(u as nat),
{
    if u < 0x8000 {
        u as i16
    } else {
        ((u - 0x8000) as i16) + i16::MIN
    }
}

/// The signed value of a 32-bit representation, computed.
pub fn to_signed32(u: u32) -> (r: i32)
    ensures
        r as int == signed32(u as nat),
{
    if u < 0x8000_0000 {
        u as i32
    } else {
        ((u - 0x8000_0000) as i32) + i32::MIN
    }
}

/// The signed value of a 64-bit representation, computed.
pub fn to_signed64(u: u64) -> (r: i64)
    ensures
        r as int == signed64(u as nat),
{
    if u < 0x8000_0000_0000_0000 {
        u as i64
    } else {
        ((u - 0x8000_0000_0000_0000) as i64) + i64::MIN
    }
}

/// The 8-bit representation of a signed value, computed.
pub fn to_repr8(i: i8) -> (r: u8)
    ensures
        r as nat == repr8(i as int),
{
    if i >= 0 {
        i as u8
    } else {
        ((i - i8::MIN) as u8) + 0x80
    }
}

/// The 16-bit representation of a signed value, computed.
pub fn to_repr16(i: i16) -> (r: u16)
    ensures
        r as nat == repr16(i as int),
{
    if i >= 0 {
        i as u16
    } else {
        ((i - i16::MIN) as u16) + 0x8000
    }
}

/// The 32-bit representation of a signed value, computed.
pub fn to_repr32(i: i32) -> (r: u32)
    ensures
        r as nat == repr32(i as int),
{
    if i >= 0 {
        i as u32
    } else {
        ((i - i32::MIN) as u32) + 0x8000_0000
    }
}

/// The 64-bit representation of a signed value, computed.
pub fn to_repr64(i: i64) -> (r: u64)
    ensures
        r as nat == repr64(i as int),
{
    if i >= 0 {
        i as u64
    } else {
        ((i - i64::MIN) as u64) + 0x8000_0000_0000_0000
    }
}

} // verus!
