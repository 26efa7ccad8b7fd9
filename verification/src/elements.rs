//! A lazily-decoded, counted run of array or list elements.
//!
//! An [`ElementSeq`] holds the declared element tag and the remaining
//! count; elements are decoded one at a time, on demand, from the cursor
//! the caller passes in. Exactly `declared count` successful productions
//! occur before exhaustion, unless a read fails first, in which case the
//! failure propagates and no partial element is returned.

use vstd::prelude::*;

use crate::adapter::{ArrayRecordAdapter, Stage};
use crate::be::{be16, be32, be64, signed16, signed32, signed64, signed8};
use crate::cursor::Cursor;
use crate::error::Error;
use crate::tag::{spec_is_array_tag, spec_tag_of_code, Tag};

verus! {

/// A counted run of elements of one declared tag, decoded lazily.
#[derive(Clone, Copy, Debug, PartialEq, Eq, Structural)]
pub struct ElementSeq {
    pub elem: Tag,
    pub remaining: u32,
}

/// One produced element.
///
/// Scalars carry their decoded value; float and double elements carry the
/// raw big-endian bit pattern, for the consumer to interpret. A nested
/// typed array is handed back as a fresh [`ArrayRecordAdapter`], a nested
/// list as a fresh [`ElementSeq`]; the consumer must drain (or explicitly
/// skip) the nested value before pulling from this sequence again, since
/// both read from the one shared cursor.
#[derive(Clone, Copy, Debug, PartialEq, Eq, Structural)]
pub enum Elem {
    Byte(i8),
    Short(i16),
    Int(i32),
    Long(i64),
    FloatBits(u32),
    DoubleBits(u64),
    Array(ArrayRecordAdapter),
    Nested(ElementSeq),
}

/// True of the element tags this sequence can produce by itself: scalars,
/// typed arrays and lists. End, strings and compounds belong to the outer
/// document decoder; pulling one here is a protocol misuse.
pub open spec fn spec_supported_elem(t: Tag) -> bool {
    t != Tag::End && t != Tag::String && t != Tag::Compound
}

/// True of the fixed-width scalar element tags.
pub open spec fn spec_is_scalar(t: Tag) -> bool {
    t == Tag::Byte || t == Tag::Short || t == Tag::Int || t == Tag::Long || t == Tag::Float || t
        == Tag::Double
}

/// The wire width of a fixed-width scalar element.
pub open spec fn spec_scalar_width(t: Tag) -> nat {
    match t {
        Tag::Byte => 1,
        Tag::Short => 2,
        Tag::Int => 4,
        Tag::Long => 8,
        Tag::Float => 4,
        Tag::Double => 8,
        _ => 0,
    }
}

/// The scalar element decoded from `data` at `pos`.
pub open spec fn spec_scalar_elem(t: Tag, data: Seq<u8>, pos: int) -> Elem
    recommends
        spec_is_scalar(t),
        0 <= pos,
        pos + spec_scalar_width(t) <= data.len(),
{
    match t {
        Tag::Byte => Elem::Byte(signed8(data[pos] as nat) as i8),
        Tag::Short => Elem::Short(signed16(be16(data.subrange(pos, pos + 2))) as i16),
        Tag::Int => Elem::Int(signed32(be32(data.subrange(pos, pos + 4))) as i32),
        Tag::Long => Elem::Long(signed64(be64(data.subrange(pos, pos + 8))) as i64),
        Tag::Float => Elem::FloatBits(be32(data.subrange(pos, pos + 4)) as u32),
        Tag::Double => Elem::DoubleBits(be64(data.subrange(pos, pos + 8)) as u64),
        _ => Elem::Byte(0),
    }
}

/// The bytes of the wire header that `next` consumes before producing an
/// element: a scalar's own bytes, a nested array's count, or a nested
/// list's element tag and count.
pub open spec fn spec_header_width(t: Tag) -> nat {
    if spec_is_scalar(t) {
        spec_scalar_width(t)
    } else if spec_is_array_tag(t) {
        4
    } else {
        5
    }
}

impl ElementSeq {
    /// A sequence of `count` elements of tag `elem`. A negative declared
    /// count is malformed, and is rejected here, before any element byte
    /// is read. A count of zero is valid regardless of the element tag.
    pub fn new(elem: Tag, count: i32) -> (r: Result<ElementSeq, Error>)
        ensures
            match r {
                Ok(s) => count >= 0 && s.elem == elem && s.remaining == count,
                Err(e) => e == Error::MalformedLength && count < 0,
            },
    {
        if count >= 0 {
            Ok(ElementSeq { elem, remaining: count as u32 })
        } else {
            Err(Error::MalformedLength)
        }
    }

    /// The remaining declared count, usable by the consumer to
    /// preallocate.
    pub fn size_hint(&self) -> (r: usize)
        ensures
            r == self.remaining,
    {
        self.remaining as usize
    }

    /// Produce the next element, or `None` once the declared count is
    /// exhausted.
    ///
    /// On `None` and on every error, no partial element is produced and
    /// the remaining count is unchanged. A failed or refused read leaves
    /// the cursor untouched; a malformed nested header (bad tag code or
    /// negative count) is detected after its five header bytes were
    /// consumed, before any element byte.
    pub fn next(&mut self, cur: &mut Cursor) -> (r: Result<Option<Elem>, Error>)
        requires
            old(cur).wf(),
        ensures
            final(cur).wf(),
            final(cur).data@ == old(cur).data@,
            final(self).elem == old(self).elem,
            match r {
                Ok(Some(e)) => {
                    let data = old(cur).data@;
                    let pos = old(cur).pos as int;
                    &&& old(self).remaining > 0
                    &&& final(self).remaining == old(self).remaining - 1
                    &&& old(cur).spec_remaining() >= spec_header_width(old(self).elem)
                    &&& final(cur).pos == pos + spec_header_width(old(self).elem)
                    &&& if spec_is_scalar(old(self).elem) {
                        e == spec_scalar_elem(old(self).elem, data, pos)
                    } else if spec_is_array_tag(old(self).elem) {
                        e == Elem::Array(
                            (ArrayRecordAdapter {
                                tag: old(self).elem,
                                count: signed32(be32(data.subrange(pos, pos + 4))) as i32,
                                stage: Stage::AwaitingTagName,
                            }),
                        )
                    } else {
                        &&& old(self).elem == Tag::List
                        &&& spec_tag_of_code(data[pos]) matches Some(t2) && signed32(
                            be32(data.subrange(pos + 1, pos + 5)),
                        ) >= 0 && e == Elem::Nested(
                            (ElementSeq {
                                elem: t2,
                                remaining: signed32(be32(data.subrange(pos + 1, pos + 5))) as u32,
                            }),
                        )
                    }
                },
                Ok(None) => old(self).remaining == 0 && *final(self) == *old(self) && *final(cur)
                    == *old(cur),
                Err(e) => {
                    let data = old(cur).data@;
                    let pos = old(cur).pos as int;
                    &&& old(self).remaining > 0
                    &&& final(self).remaining == old(self).remaining
                    &&& match e {
                        Error::ProtocolMisuse => !spec_supported_elem(old(self).elem) && *final(cur)
                            == *old(cur),
                        Error::TruncatedInput => spec_supported_elem(old(self).elem) && old(cur).spec_remaining() < spec_header_width(old(self).elem) && *final(cur)
                            == *old(cur),
                        Error::InvalidTag => old(self).elem == Tag::List && old(cur).spec_remaining() >= 5 && spec_tag_of_code(data[pos]) is None && final(cur).pos == pos + 5,
                        Error::MalformedLength => old(self).elem == Tag::List && old(cur).spec_remaining() >= 5 && spec_tag_of_code(data[pos]) is Some && signed32(
                            be32(data.subrange(pos + 1, pos + 5)),
                        ) < 0 && final(cur).pos == pos + 5,
                    }
                },
            },
    {
        if self.remaining == 0 {
            return Ok(None);
        }
        let out = match self.elem {
            Tag::Byte => match cur.read_i8() {
                Ok(v) => Elem::Byte(v),
                Err(e) => {
                    return Err(e);
                },
            },
            Tag::Short => match cur.read_i16() {
                Ok(v) => Elem::Short(v),
                Err(e) => {
                    return Err(e);
                },
            },
            Tag::Int => match cur.read_i32() {
                Ok(v) => Elem::Int(v),
                Err(e) => {
                    return Err(e);
                },
            },
            Tag::Long => match cur.read_i64() {
                Ok(v) => Elem::Long(v),
                Err(e) => {
                    return Err(e);
                },
            },
            Tag::Float => match cur.read_u32() {
                Ok(v) => Elem::FloatBits(v),
                Err(e) => {
                    return Err(e);
                },
            },
            Tag::Double => match cur.read_u64() {
                Ok(v) => Elem::DoubleBits(v),
                Err(e) => {
                    return Err(e);
                },
            },
            Tag::ByteArray | Tag::IntArray | Tag::LongArray => match cur.read_i32() {
                Ok(count) => Elem::Array(ArrayRecordAdapter::new(self.elem, count)),
                Err(e) => {
                    return Err(e);
                },
            },
            Tag::List => {
                if cur.remaining() < 5 {
                    return Err(Error::TruncatedInput);
                }
                let code = match cur.read_u8() {
                    Ok(c) => c,
                    Err(e) => {
                        return Err(e);
                    },
                };
                let count = match cur.read_i32() {
                    Ok(n) => n,
                    Err(e) => {
                        return Err(e);
                    },
                };
                match Tag::from_code(code) {
                    Some(t2) => match ElementSeq::new(t2, count) {
                        Ok(s) => Elem::Nested(s),
                        Err(e) => {
                            return Err(e);
                        },
                    },
                    None => {
                        return Err(Error::InvalidTag);
                    },
                }
            },
            Tag::End | Tag::String | Tag::Compound => {
                return Err(Error::ProtocolMisuse);
            },
        };
        self.remaining = self.remaining - 1;
        Ok(Some(out))
    }
}

} // verus!
