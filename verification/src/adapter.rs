//! The array record adapter: presents a typed-array value as a synthetic
//! two-field ordered record.
//!
//! The format encodes a typed numeric array as `(count, count x element)`,
//! a shape with no native representation in a generic map/sequence/
//! primitive consumer protocol. This adapter manufactures an ordered
//! two-field record — `"tag"`, the array's numeric tag code, then
//! `"data"`, a size-hinted element sequence — so a consumer that can walk
//! an arbitrary map can reconstruct both the element type and the payload.
//! The fixed tag-before-data order lets the consumer learn the element
//! width before it interprets the raw data bytes.

use vstd::prelude::*;

use crate::elements::ElementSeq;
use crate::error::Error;
use crate::tag::{spec_code_of, spec_element_kind, spec_is_array_tag, Tag};

verus! {

/// Where the adapter stands in handing out its two fields, strictly
/// linear: each field's name, then its value, then exhaustion. Illegal
/// orders (a value before its name, data before tag) are unrepresentable.
#[derive(Clone, Copy, Debug, PartialEq, Eq, Structural)]
pub enum Stage {
    AwaitingTagName,
    AwaitingTagValue,
    AwaitingDataName,
    AwaitingDataValue,
    Exhausted,
}

/// One field value of the synthetic record.
#[derive(Clone, Copy, Debug, PartialEq, Eq, Structural)]
pub enum FieldValue {
    /// The numeric tag code of the array's declared type.
    TagCode(u8),
    /// The payload, as a lazily-decoded element sequence sized to the
    /// declared count.
    Data(ElementSeq),
}

/// An ephemeral adapter for one encountered typed-array value. The outer
/// decoder reads the declared count and constructs this with the array's
/// tag; the consumer then pulls the two fields in order. The cursor is
/// untouched until the consumer iterates the data field's elements.
#[derive(Clone, Copy, Debug, PartialEq, Eq, Structural)]
pub struct ArrayRecordAdapter {
    pub tag: Tag,
    pub count: i32,
    pub stage: Stage,
}

impl ArrayRecordAdapter {
    /// An adapter for a typed array of tag `tag` with declared element
    /// count `count`, ready to hand out the `"tag"` field. A negative
    /// count is rejected when the `"data"` field is pulled, before any
    /// element byte is read.
    pub fn new(tag: Tag, count: i32) -> (r: ArrayRecordAdapter)
        requires
            spec_is_array_tag(tag),
        ensures
            r == (ArrayRecordAdapter { tag, count, stage: Stage::AwaitingTagName }),
    {
        ArrayRecordAdapter { tag, count, stage: Stage::AwaitingTagName }
    }

    /// The name of the next field: `"tag"`, then `"data"`, then `None`
    /// once the record is exhausted. Asking for a name again before the
    /// pending field's value was pulled is a contract violation by the
    /// consumer, reported as [`Error::ProtocolMisuse`]; the adapter is
    /// left unchanged and no cursor is touched.
    pub fn next_field_name(&mut self) -> (r: Result<Option<&'static str>, Error>)
        ensures
            final(self).tag == old(self).tag,
            final(self).count == old(self).count,
            match old(self).stage {
                Stage::AwaitingTagName => (r matches Ok(Some(s)) && s@ == "tag"@) && final(self).stage == Stage::AwaitingTagValue,
                Stage::AwaitingDataName => (r matches Ok(Some(s)) && s@ == "data"@) && final(self).stage == Stage::AwaitingDataValue,
                Stage::AwaitingTagValue | Stage::AwaitingDataValue => r == Err::<
                    Option<&'static str>,
                    Error,
                >(Error::ProtocolMisuse) && *final(self) == *old(self),
                Stage::Exhausted => r == Ok::<Option<&'static str>, Error>(None) && *final(self)
                    == *old(self),
            },
    {
        match self.stage {
            Stage::AwaitingTagName => {
                self.stage = Stage::AwaitingTagValue;
                Ok(Some("tag"))
            },
            Stage::AwaitingDataName => {
                self.stage = Stage::AwaitingDataValue;
                Ok(Some("data"))
            },
            Stage::AwaitingTagValue | Stage::AwaitingDataValue => Err(Error::ProtocolMisuse),
            Stage::Exhausted => Ok(None),
        }
    }

    /// The value of the field whose name was just handed out: the array's
    /// tag code for `"tag"`, an element sequence sized to the declared
    /// count for `"data"`. A call without a pending field name, or past
    /// exhaustion, is a contract violation by the consumer, reported as
    /// [`Error::ProtocolMisuse`]. A negative declared count fails with
    /// [`Error::MalformedLength`] here, before any element byte is read.
    pub fn next_field_value(&mut self) -> (r: Result<FieldValue, Error>)
        ensures
            final(self).tag == old(self).tag,
            final(self).count == old(self).count,
            match old(self).stage {
                Stage::AwaitingTagValue => r == Ok::<FieldValue, Error>(
                    FieldValue::TagCode(spec_code_of(old(self).tag)),
                ) && final(self).stage == Stage::AwaitingDataName,
                Stage::AwaitingDataValue => final(self).stage == Stage::Exhausted && (if old(self).count >= 0 {
                    r == Ok::<FieldValue, Error>(
                        FieldValue::Data(
                            (ElementSeq {
                                elem: spec_element_kind(old(self).tag),
                                remaining: old(self).count as u32,
                            }),
                        ),
                    )
                } else {
                    r == Err::<FieldValue, Error>(Error::MalformedLength)
                }),
                Stage::AwaitingTagName | Stage::AwaitingDataName | Stage::Exhausted => r == Err::<
                    FieldValue,
                    Error,
                >(Error::ProtocolMisuse) && *final(self) == *old(self),
            },
    {
        match self.stage {
            Stage::AwaitingTagValue => {
                self.stage = Stage::AwaitingDataName;
                Ok(FieldValue::TagCode(self.tag.code()))
            },
            Stage::AwaitingDataValue => {
                self.stage = Stage::Exhausted;
                match ElementSeq::new(self.tag.element_kind(), self.count) {
                    Ok(s) => Ok(FieldValue::Data(s)),
                    Err(e) => Err(e),
                }
            },
            Stage::AwaitingTagName | Stage::AwaitingDataName | Stage::Exhausted => Err(
                Error::ProtocolMisuse,
            ),
        }
    }
}

} // verus!
