//! A driver that fully decodes one typed-array value through the record
//! adapter: it pulls the `"tag"` and `"data"` fields in order and drains
//! the element sequence, so that a whole array record is consumed in one
//! call.
//!
//! Decoding and fully consuming the synthetic record yields the array's
//! tag code unchanged and a data vector of length exactly the declared
//! count, each element equal to the big-endian interpretation of its byte
//! slice; that statement is this module's `ensures`.

use vstd::prelude::*;

use crate::adapter::{ArrayRecordAdapter, FieldValue};
use crate::be::{be32, be64, signed32, signed64, signed8};
use crate::cursor::Cursor;
use crate::elements::ElementSeq;
use crate::error::Error;
use crate::tag::{spec_code_of, spec_element_kind, spec_is_array_tag, Tag};

verus! {

/// The fully-decoded payload of one typed array.
#[derive(Clone, Debug, PartialEq)]
pub enum ArrayValues {
    Bytes(Vec<i8>),
    Ints(Vec<i32>),
    Longs(Vec<i64>),
}

/// Drain a byte-element sequence into a vector.
///
/// Produces exactly the remaining declared count of elements, each the
/// signed reading of one payload byte, or fails with
/// [`Error::TruncatedInput`] once the buffer runs out, with no partial
/// vector returned.
pub fn collect_bytes(seq: &mut ElementSeq, cur: &mut Cursor) -> (r: Result<Vec<i8>, Error>)
    requires
        old(seq).elem == Tag::Byte,
        old(cur).wf(),
    ensures
        final(cur).wf(),
        final(cur).data@ == old(cur).data@,
        final(seq).elem == Tag::Byte,
        match r {
            Ok(v) => {
                &&& old(cur).spec_remaining() >= old(seq).remaining
                &&& v@.len() == old(seq).remaining
                &&& final(seq).remaining == 0
                &&& final(cur).pos == old(cur).pos + old(seq).remaining
                &&& forall|i: int|
                    0 <= i < v@.len() ==> v@[i] as int == signed8(
                        old(cur).data@[old(cur).pos + i] as nat,
                    )
            },
            Err(e) => {
                &&& e == Error::TruncatedInput
                &&& old(cur).spec_remaining() < old(seq).remaining
                &&& final(seq).remaining > 0
                &&& final(cur).spec_remaining() == 0
                &&& final(cur).pos == old(cur).pos + (old(seq).remaining - final(seq).remaining)
            },
        },
{
    let mut out: Vec<i8> = Vec::new();
    while seq.remaining > 0
        invariant
            cur.wf(),
            cur.data@ == old(cur).data@,
            seq.elem == Tag::Byte,
            seq.remaining <= old(seq).remaining,
            out@.len() == old(seq).remaining - seq.remaining,
            cur.pos == old(cur).pos + out@.len(),
            forall|i: int|
                0 <= i < out@.len() ==> out@[i] as int == signed8(
                    old(cur).data@[old(cur).pos + i] as nat,
                ),
        decreases seq.remaining,
    {
        match seq.next(cur) {
            Ok(Some(e)) => match e {
                crate::elements::Elem::Byte(v) => out.push(v),
                _ => {
                    return Err(Error::ProtocolMisuse);
                },
            },
            Ok(None) => {
                return Err(Error::ProtocolMisuse);
            },
            Err(e) => {
                return Err(e);
            },
        }
    }
    Ok(out)
}

/// Drain an int-element sequence into a vector.
///
/// Produces exactly the remaining declared count of elements, each the
/// signed big-endian reading of its four-byte slice, or fails with
/// [`Error::TruncatedInput`] once the buffer runs out, with no partial
/// vector returned.
pub fn collect_ints(seq: &mut ElementSeq, cur: &mut Cursor) -> (r: Result<Vec<i32>, Error>)
    requires
        old(seq).elem == Tag::Int,
        old(cur).wf(),
    ensures
        final(cur).wf(),
        final(cur).data@ == old(cur).data@,
        final(seq).elem == Tag::Int,
        match r {
            Ok(v) => {
                &&& old(cur).spec_remaining() >= 4 * old(seq).remaining
                &&& v@.len() == old(seq).remaining
                &&& final(seq).remaining == 0
                &&& final(cur).pos == old(cur).pos + 4 * old(seq).remaining
                &&& forall|i: int|
                    0 <= i < v@.len() ==> v@[i] as int == signed32(
                        be32(
                            old(cur).data@.subrange(
                                old(cur).pos + 4 * i,
                                old(cur).pos + 4 * i + 4,
                            ),
                        ),
                    )
            },
            Err(e) => {
                &&& e == Error::TruncatedInput
                &&& old(cur).spec_remaining() < 4 * old(seq).remaining
                &&& final(seq).remaining > 0
                &&& final(cur).spec_remaining() < 4
                &&& final(cur).pos == old(cur).pos + 4 * (old(seq).remaining - final(seq).remaining)
            },
        },
{
    let mut out: Vec<i32> = Vec::new();
    while seq.remaining > 0
        invariant
            cur.wf(),
            cur.data@ == old(cur).data@,
            seq.elem == Tag::Int,
            seq.remaining <= old(seq).remaining,
            out@.len() == old(seq).remaining - seq.remaining,
            cur.pos == old(cur).pos + 4 * out@.len(),
            forall|i: int|
                0 <= i < out@.len() ==> out@[i] as int == signed32(
                    be32(old(cur).data@.subrange(old(cur).pos + 4 * i, old(cur).pos + 4 * i + 4)),
                ),
        decreases seq.remaining,
    {
        match seq.next(cur) {
            Ok(Some(e)) => match e {
                crate::elements::Elem::Int(v) => out.push(v),
                _ => {
                    return Err(Error::ProtocolMisuse);
                },
            },
            Ok(None) => {
                return Err(Error::ProtocolMisuse);
            },
            Err(e) => {
                return Err(e);
            },
        }
    }
    Ok(out)
}

/// Drain a long-element sequence into a vector.
///
/// Produces exactly the remaining declared count of elements, each the
/// signed big-endian reading of its eight-byte slice, or fails with
/// [`Error::TruncatedInput`] once the buffer runs out, with no partial
/// vector returned.
pub fn collect_longs(seq: &mut ElementSeq, cur: &mut Cursor) -> (r: Result<Vec<i64>, Error>)
    requires
        old(seq).elem == Tag::Long,
        old(cur).wf(),
    ensures
        final(cur).wf(),
        final(cur).data@ == old(cur).data@,
        final(seq).elem == Tag::Long,
        match r {
            Ok(v) => {
                &&& old(cur).spec_remaining() >= 8 * old(seq).remaining
                &&& v@.len() == old(seq).remaining
                &&& final(seq).remaining == 0
                &&& final(cur).pos == old(cur).pos + 8 * old(seq).remaining
                &&& forall|i: int|
                    0 <= i < v@.len() ==> v@[i] as int == signed64(
                        be64(
                            old(cur).data@.subrange(
                                old(cur).pos + 8 * i,
                                old(cur).pos + 8 * i + 8,
                            ),
                        ),
                    )
            },
            Err(e) => {
                &&& e == Error::TruncatedInput
                &&& old(cur).spec_remaining() < 8 * old(seq).remaining
                &&& final(seq).remaining > 0
                &&& final(cur).spec_remaining() < 8
                &&& final(cur).pos == old(cur).pos + 8 * (old(seq).remaining - final(seq).remaining)
            },
        },
{
    let mut out: Vec<i64> = Vec::new();
    while seq.remaining > 0
        invariant
            cur.wf(),
            cur.data@ == old(cur).data@,
            seq.elem == Tag::Long,
            seq.remaining <= old(seq).remaining,
            out@.len() == old(seq).remaining - seq.remaining,
            cur.pos == old(cur).pos + 8 * out@.len(),
            forall|i: int|
                0 <= i < out@.len() ==> out@[i] as int == signed64(
                    be64(old(cur).data@.subrange(old(cur).pos + 8 * i, old(cur).pos + 8 * i + 8)),
                ),
        decreases seq.remaining,
    {
        match seq.next(cur) {
            Ok(Some(e)) => match e {
                crate::elements::Elem::Long(v) => out.push(v),
                _ => {
                    return Err(Error::ProtocolMisuse);
                },
            },
            Ok(None) => {
                return Err(Error::ProtocolMisuse);
            },
            Err(e) => {
                return Err(e);
            },
        }
    }
    Ok(out)
}

/// Decode one typed-array value by pulling the synthetic record whole:
/// the `"tag"` field, then the `"data"` field, then every element.
///
/// For every valid input — a typed-array tag, a non-negative declared
/// count, and at least `count` elements' worth of bytes at the cursor —
/// this returns the array's tag code unchanged together with a data
/// vector of length exactly `count`, each element equal to the big-endian
/// interpretation of its byte slice. A negative count fails with
/// [`Error::MalformedLength`] before any element byte is read and leaves
/// the cursor untouched; a buffer that runs out mid-payload fails with
/// [`Error::TruncatedInput`] after the full elements read up to there.
pub fn decode_typed_array(cur: &mut Cursor, tag: Tag, count: i32) -> (r: Result<
    (u8, ArrayValues),
    Error,
>)
    requires
        spec_is_array_tag(tag),
        old(cur).wf(),
    ensures
        final(cur).wf(),
        final(cur).data@ == old(cur).data@,
        ({
            let data = old(cur).data@;
            let pos = old(cur).pos as int;
            let width = crate::elements::spec_scalar_width(spec_element_kind(tag)) as int;
            match r {
                Ok((code, vals)) => {
                    &&& count >= 0
                    &&& code == spec_code_of(tag)
                    &&& old(cur).spec_remaining() >= width * count
                    &&& final(cur).pos == pos + width * count
                    &&& match vals {
                        ArrayValues::Bytes(v) => tag == Tag::ByteArray && v@.len() == count
                            && forall|i: int|
                            0 <= i < count ==> v@[i] as int == signed8(data[pos + i] as nat),
                        ArrayValues::Ints(v) => tag == Tag::IntArray && v@.len() == count
                            && forall|i: int|
                            0 <= i < count ==> v@[i] as int == signed32(
                                be32(data.subrange(pos + 4 * i, pos + 4 * i + 4)),
                            ),
                        ArrayValues::Longs(v) => tag == Tag::LongArray && v@.len() == count
                            && forall|i: int|
                            0 <= i < count ==> v@[i] as int == signed64(
                                be64(data.subrange(pos + 8 * i, pos + 8 * i + 8)),
                            ),
                    }
                },
                Err(Error::MalformedLength) => count < 0 && *final(cur) == *old(cur),
                Err(Error::TruncatedInput) => {
                    &&& count >= 0
                    &&& old(cur).spec_remaining() < width * count
                    &&& final(cur).spec_remaining() < width
                    &&& (final(cur).pos - pos) % width == 0
                    &&& pos <= final(cur).pos < pos + width * count
                },
                Err(_) => false,
            }
        }),
{
    let mut record = ArrayRecordAdapter::new(tag, count);
    match record.next_field_name() {
        Ok(Some(_)) => (),
        _ => {
            return Err(Error::ProtocolMisuse);
        },
    }
    let code = match record.next_field_value() {
        Ok(FieldValue::TagCode(c)) => c,
        _ => {
            return Err(Error::ProtocolMisuse);
        },
    };
    match record.next_field_name() {
        Ok(Some(_)) => (),
        _ => {
            return Err(Error::ProtocolMisuse);
        },
    }
    let mut seq = match record.next_field_value() {
        Ok(FieldValue::Data(s)) => s,
        Err(e) => {
            return Err(e);
        },
        Ok(FieldValue::TagCode(_)) => {
            return Err(Error::ProtocolMisuse);
        },
    };
    match tag {
        Tag::ByteArray => match collect_bytes(&mut seq, cur) {
            Ok(v) => Ok((code, ArrayValues::Bytes(v))),
            Err(e) => Err(e),
        },
        Tag::IntArray => match collect_ints(&mut seq, cur) {
            Ok(v) => Ok((code, ArrayValues::Ints(v))),
            Err(e) => Err(e),
        },
        Tag::LongArray => match collect_longs(&mut seq, cur) {
            Ok(v) => Ok((code, ArrayValues::Longs(v))),
            Err(e) => Err(e),
        },
        _ => {
            return Err(Error::ProtocolMisuse);
        },
    }
}

} // verus!
