//! A byte-sequence builder for constructing wire fixtures: named tags,
//! length-prefixed names, and big-endian payloads, appended in order to
//! one growing buffer.

use vstd::prelude::*;
use vstd::slice::slice_index_get;
use vstd::string::StringSliceAdditionalSpecFns;

use crate::be::{be16, be32, be64, lemma_signed16_repr16, lemma_signed32_repr32,
    lemma_signed64_repr64, lemma_signed8_repr8, repr16, repr32, repr64, repr8, signed16, signed32,
    signed64, signed8, to_repr16, to_repr32, to_repr64, to_repr8};
use crate::tag::{spec_code_of, Tag};
use vstd::arithmetic::div_mod::{lemma_div_denominator, lemma_fundamental_div_mod};

verus! {

/// The big-endian bytes of a 16-bit value.
pub open spec fn be16_of(v: nat) -> Seq<u8>
    recommends
        v < 0x1_0000,
{
    seq![(v / 0x100) as u8, (v % 0x100) as u8]
}

/// The big-endian bytes of a 32-bit value.
pub open spec fn be32_of(v: nat) -> Seq<u8>
    recommends
        v < 0x1_0000_0000,
{
    seq![
        (v / 0x100_0000) as u8,
        ((v / 0x1_0000) % 0x100) as u8,
        ((v / 0x100) % 0x100) as u8,
        (v % 0x100) as u8,
    ]
}

/// The big-endian bytes of a 64-bit value.
pub open spec fn be64_of(v: nat) -> Seq<u8>
    recommends
        v < 0x1_0000_0000_0000_0000,
{
    seq![
        (v / 0x100_0000_0000_0000) as u8,
        ((v / 0x1_0000_0000_0000) % 0x100) as u8,
        ((v / 0x100_0000_0000) % 0x100) as u8,
        ((v / 0x1_0000_0000) % 0x100) as u8,
        ((v / 0x100_0000) % 0x100) as u8,
        ((v / 0x1_0000) % 0x100) as u8,
        ((v / 0x100) % 0x100) as u8,
        (v % 0x100) as u8,
    ]
}

/// The wire form of a name: its byte length as a big-endian 16-bit
/// prefix, then its bytes.
pub open spec fn spec_name_bytes(s: &str) -> Seq<u8>
    recommends
        s.spec_bytes().len() <= u16::MAX,
{
    be16_of(s.spec_bytes().len() as nat) + s.spec_bytes()
}

/// The two's-complement bytes of a run of byte elements.
pub open spec fn repr8_seq(s: Seq<i8>) -> Seq<u8> {
    s.map(|i: int, b: i8| repr8(b as int) as u8)
}

/// The concatenated big-endian bytes of a run of int elements.
pub open spec fn be32_concat(s: Seq<i32>) -> Seq<u8>
    decreases s.len(),
{
    if s.len() == 0 {
        Seq::empty()
    } else {
        be32_concat(s.drop_last()) + be32_of(repr32(s.last() as int))
    }
}

/// The concatenated big-endian bytes of a run of long elements.
pub open spec fn be64_concat(s: Seq<i64>) -> Seq<u8>
    decreases s.len(),
{
    if s.len() == 0 {
        Seq::empty()
    } else {
        be64_concat(s.drop_last()) + be64_of(repr64(s.last() as int))
    }
}

/// A builder that appends wire bytes to one growing buffer. Its view is
/// the byte sequence built so far.
#[derive(Debug)]
pub struct Builder {
    payload: Vec<u8>,
}

impl View for Builder {
    type V = Seq<u8>;

    closed spec fn view(&self) -> Seq<u8> {
        self.payload@
    }
}

impl Builder {
    /// An empty builder.
    pub fn new() -> (r: Self)
        ensures
            r@ == Seq::<u8>::empty(),
    {
        Builder { payload: Vec::new() }
    }

    /// Append a tag byte.
    pub fn tag(self, t: Tag) -> (r: Self)
        ensures
            r@ == self@.push(spec_code_of(t)),
    {
        let mut b = self;
        b.payload.push(t.code());
        b
    }

    /// Append a length-prefixed name.
    pub fn name(self, name: &str) -> (r: Self)
        requires
            name.spec_bytes().len() <= u16::MAX,
        ensures
            r@ == self@ + spec_name_bytes(name),
    {
        let mut b = self;
        let ghost orig = b.payload@;
        let bs = name.as_bytes();
        let len: u16 = bs.len() as u16;
        b.payload.push((len / 0x100) as u8);
        b.payload.push((len % 0x100) as u8);
        proof {
            assert(b.payload@ =~= orig + be16_of(bs@.len() as nat) + bs@.subrange(0, 0));
        }
        let mut i: usize = 0;
        while i < bs.len()
            invariant
                i <= bs.len(),
                bs@ == name.spec_bytes(),
                bs@.len() <= u16::MAX,
                b.payload@ == orig + be16_of(bs@.len() as nat) + bs@.subrange(0, i as int),
            decreases bs.len() - i,
        {
            b.payload.push(*slice_index_get(bs, i));
            proof {
                assert(bs@.subrange(0, i + 1) =~= bs@.subrange(0, i as int).push(bs@[i as int]));
            }
            i = i + 1;
        }
        proof {
            assert(bs@.subrange(0, bs@.len() as int) =~= bs@);
        }
        b
    }

    /// Append a compound tag and its name, opening a compound.
    pub fn start_compound(self, name: &str) -> (r: Self)
        requires
            name.spec_bytes().len() <= u16::MAX,
        ensures
            r@ == self@.push(spec_code_of(Tag::Compound)) + spec_name_bytes(name),
    {
        self.tag(Tag::Compound).name(name)
    }

    /// Append the end tag, closing a compound.
    pub fn end_compound(self) -> (r: Self)
        ensures
            r@ == self@.push(spec_code_of(Tag::End)),
    {
        self.tag(Tag::End)
    }

    /// Append a list header: the list tag, its name, the element tag and
    /// the declared element count.
    pub fn start_list(self, name: &str, element_tag: Tag, size: i32) -> (r: Self)
        requires
            name.spec_bytes().len() <= u16::MAX,
        ensures
            r@ == self@.push(spec_code_of(Tag::List)) + spec_name_bytes(name) + seq![
                spec_code_of(element_tag),
            ] + be32_of(repr32(size as int)),
    {
        self.tag(Tag::List).name(name).tag(element_tag).int_payload(size)
    }

    /// Append a named byte value.
    pub fn byte(self, name: &str, b: i8) -> (r: Self)
        requires
            name.spec_bytes().len() <= u16::MAX,
        ensures
            r@ == self@.push(spec_code_of(Tag::Byte)) + spec_name_bytes(name) + seq![
                repr8(b as int) as u8,
            ],
    {
        self.tag(Tag::Byte).name(name).byte_payload(b)
    }

    /// Append a named short value.
    pub fn short(self, name: &str, b: i16) -> (r: Self)
        requires
            name.spec_bytes().len() <= u16::MAX,
        ensures
            r@ == self@.push(spec_code_of(Tag::Short)) + spec_name_bytes(name) + be16_of(
                repr16(b as int),
            ),
    {
        self.tag(Tag::Short).name(name).short_payload(b)
    }

    /// Append a named int value.
    pub fn int32(self, name: &str, b: i32) -> (r: Self)
        requires
            name.spec_bytes().len() <= u16::MAX,
        ensures
            r@ == self@.push(spec_code_of(Tag::Int)) + spec_name_bytes(name) + be32_of(
                repr32(b as int),
            ),
    {
        self.tag(Tag::Int).name(name).int_payload(b)
    }

    /// Append a named long value.
    pub fn long(self, name: &str, b: i64) -> (r: Self)
        requires
            name.spec_bytes().len() <= u16::MAX,
        ensures
            r@ == self@.push(spec_code_of(Tag::Long)) + spec_name_bytes(name) + be64_of(
                repr64(b as int),
            ),
    {
        self.tag(Tag::Long).name(name).long_payload(b)
    }

    /// Append a named string value.
    pub fn string(self, name: &str, s: &str) -> (r: Self)
        requires
            name.spec_bytes().len() <= u16::MAX,
            s.spec_bytes().len() <= u16::MAX,
        ensures
            r@ == self@.push(spec_code_of(Tag::String)) + spec_name_bytes(name) + spec_name_bytes(
                s,
            ),
    {
        self.tag(Tag::String).name(name).string_payload(s)
    }

    /// Append a named byte array: tag, name, declared count, payload.
    pub fn byte_array(self, name: &str, bs: &[i8]) -> (r: Self)
        requires
            name.spec_bytes().len() <= u16::MAX,
            bs@.len() <= i32::MAX,
        ensures
            r@ == self@.push(spec_code_of(Tag::ByteArray)) + spec_name_bytes(name) + be32_of(
                repr32(bs@.len() as int),
            ) + repr8_seq(bs@),
    {
        self.tag(Tag::ByteArray).name(name).int_payload(bs.len() as i32).byte_array_payload(bs)
    }

    /// Append a string payload: length prefix, then bytes.
    pub fn string_payload(self, s: &str) -> (r: Self)
        requires
            s.spec_bytes().len() <= u16::MAX,
        ensures
            r@ == self@ + spec_name_bytes(s),
    {
        self.name(s)
    }

    /// Append one byte element.
    pub fn byte_payload(self, b: i8) -> (r: Self)
        ensures
            r@ == self@.push(repr8(b as int) as u8),
    {
        let mut r = self;
        r.payload.push(to_repr8(b));
        r
    }

    /// Append the payload bytes of a run of byte elements.
    pub fn byte_array_payload(self, bs: &[i8]) -> (r: Self)
        ensures
            r@ == self@ + repr8_seq(bs@),
    {
        let mut b = self;
        let ghost orig = b.payload@;
        let mut i: usize = 0;
        while i < bs.len()
            invariant
                i <= bs.len(),
                b.payload@ == orig + repr8_seq(bs@.subrange(0, i as int)),
            decreases bs.len() - i,
        {
            b.payload.push(to_repr8(*slice_index_get(bs, i)));
            proof {
                assert(repr8_seq(bs@.subrange(0, i + 1)) =~= repr8_seq(
                    bs@.subrange(0, i as int),
                ).push(repr8(bs@[i as int] as int) as u8));
            }
            i = i + 1;
        }
        proof {
            assert(bs@.subrange(0, bs@.len() as int) =~= bs@);
        }
        b
    }

    /// Append the big-endian bytes of one short element.
    pub fn short_payload(self, i: i16) -> (r: Self)
        ensures
            r@ == self@ + be16_of(repr16(i as int)),
    {
        let mut b = self;
        let ghost orig = b.payload@;
        let u = to_repr16(i);
        b.payload.push((u / 0x100) as u8);
        b.payload.push((u % 0x100) as u8);
        proof {
            assert(b.payload@ =~= orig + be16_of(repr16(i as int)));
        }
        b
    }

    /// Append the big-endian bytes of one int element.
    pub fn int_payload(self, i: i32) -> (r: Self)
        ensures
            r@ == self@ + be32_of(repr32(i as int)),
    {
        let mut b = self;
        let ghost orig = b.payload@;
        let u = to_repr32(i);
        b.payload.push((u / 0x100_0000) as u8);
        b.payload.push(((u / 0x1_0000) % 0x100) as u8);
        b.payload.push(((u / 0x100) % 0x100) as u8);
        b.payload.push((u % 0x100) as u8);
        proof {
            assert(b.payload@ =~= orig + be32_of(repr32(i as int)));
        }
        b
    }

    /// Append the payload bytes of a run of int elements.
    pub fn int_array_payload(self, is: &[i32]) -> (r: Self)
        ensures
            r@ == self@ + be32_concat(is@),
    {
        let mut b = self;
        let ghost orig = b@;
        let mut i: usize = 0;
        while i < is.len()
            invariant
                i <= is.len(),
                b@ == orig + be32_concat(is@.subrange(0, i as int)),
            decreases is.len() - i,
        {
            b = b.int_payload(*slice_index_get(is, i));
            proof {
                assert(is@.subrange(0, i + 1).drop_last() =~= is@.subrange(0, i as int));
            }
            i = i + 1;
        }
        proof {
            assert(is@.subrange(0, is@.len() as int) =~= is@);
        }
        b
    }

    /// Append the big-endian bytes of one long element.
    pub fn long_payload(self, i: i64) -> (r: Self)
        ensures
            r@ == self@ + be64_of(repr64(i as int)),
    {
        let mut b = self;
        let ghost orig = b.payload@;
        let u = to_repr64(i);
        b.payload.push((u / 0x100_0000_0000_0000) as u8);
        b.payload.push(((u / 0x1_0000_0000_0000) % 0x100) as u8);
        b.payload.push(((u / 0x100_0000_0000) % 0x100) as u8);
        b.payload.push(((u / 0x1_0000_0000) % 0x100) as u8);
        b.payload.push(((u / 0x100_0000) % 0x100) as u8);
        b.payload.push(((u / 0x1_0000) % 0x100) as u8);
        b.payload.push(((u / 0x100) % 0x100) as u8);
        b.payload.push((u % 0x100) as u8);
        proof {
            assert(b.payload@ =~= orig + be64_of(repr64(i as int)));
        }
        b
    }

    /// Append the payload bytes of a run of long elements.
    pub fn long_array_payload(self, is: &[i64]) -> (r: Self)
        ensures
            r@ == self@ + be64_concat(is@),
    {
        let mut b = self;
        let ghost orig = b@;
        let mut i: usize = 0;
        while i < is.len()
            invariant
                i <= is.len(),
                b@ == orig + be64_concat(is@.subrange(0, i as int)),
            decreases is.len() - i,
        {
            b = b.long_payload(*slice_index_get(is, i));
            proof {
                assert(is@.subrange(0, i + 1).drop_last() =~= is@.subrange(0, i as int));
            }
            i = i + 1;
        }
        proof {
            assert(is@.subrange(0, is@.len() as int) =~= is@);
        }
        b
    }

    /// The bytes built so far.
    pub fn build(self) -> (r: Vec<u8>)
        ensures
            r@ == self@,
    {
        self.payload
    }
}

/// Reading back the big-endian bytes of a 16-bit value yields the value.
pub proof fn lemma_be16_round_trip(v: nat)
    requires
        v < 0x1_0000,
    ensures
        be16(be16_of(v)) == v,
{
    lemma_fundamental_div_mod(v as int, 0x100);
}

/// Reading back the big-endian bytes of a 32-bit value yields the value.
pub proof fn lemma_be32_round_trip(v: nat)
    requires
        v < 0x1_0000_0000,
    ensures
        be32(be32_of(v)) == v,
{
    let x = v as int;
    lemma_div_denominator(x, 0x100, 0x100);
    lemma_div_denominator(x, 0x1_0000, 0x100);
    lemma_fundamental_div_mod(x, 0x100);
    lemma_fundamental_div_mod(x / 0x100, 0x100);
    lemma_fundamental_div_mod(x / 0x1_0000, 0x100);
}

/// Reading back the big-endian bytes of a 64-bit value yields the value.
pub proof fn lemma_be64_round_trip(v: nat)
    requires
        v < 0x1_0000_0000_0000_0000,
    ensures
        be64(be64_of(v)) == v,
{
    let x = v as int;
    lemma_div_denominator(x, 0x100, 0x100);
    lemma_div_denominator(x, 0x1_0000, 0x100);
    lemma_div_denominator(x, 0x100_0000, 0x100);
    lemma_div_denominator(x, 0x1_0000_0000, 0x100);
    lemma_div_denominator(x, 0x100_0000_0000, 0x100);
    lemma_div_denominator(x, 0x1_0000_0000_0000, 0x100);
    lemma_fundamental_div_mod(x, 0x100);
    lemma_fundamental_div_mod(x / 0x100, 0x100);
    lemma_fundamental_div_mod(x / 0x1_0000, 0x100);
    lemma_fundamental_div_mod(x / 0x100_0000, 0x100);
    lemma_fundamental_div_mod(x / 0x1_0000_0000, 0x100);
    lemma_fundamental_div_mod(x / 0x100_0000_0000, 0x100);
    lemma_fundamental_div_mod(x / 0x1_0000_0000_0000, 0x100);
}

/// The byte a byte element appends reads back as the same value.
pub proof fn lemma_byte_payload_round_trip(b: i8)
    ensures
        signed8(repr8(b as int)) == b as int,
{
    lemma_signed8_repr8(b as int);
}

/// The bytes a short element appends read back as the same value.
pub proof fn lemma_short_payload_round_trip(i: i16)
    ensures
        signed16(be16(be16_of(repr16(i as int)))) == i as int,
{
    lemma_be16_round_trip(repr16(i as int));
    lemma_signed16_repr16(i as int);
}

/// The bytes an int element appends read back as the same value.
pub proof fn lemma_int_payload_round_trip(i: i32)
    ensures
        signed32(be32(be32_of(repr32(i as int)))) == i as int,
{
    lemma_be32_round_trip(repr32(i as int));
    lemma_signed32_repr32(i as int);
}

/// The bytes a long element appends read back as the same value.
pub proof fn lemma_long_payload_round_trip(i: i64)
    ensures
        signed64(be64(be64_of(repr64(i as int)))) == i as int,
{
    lemma_be64_round_trip(repr64(i as int));
    lemma_signed64_repr64(i as int);
}

} // verus!
