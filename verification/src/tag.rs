//! The closed, one-byte tag enumeration of the wire format.
//!
//! A tag code uniquely fixes the element width and payload grammar of the
//! value that follows it.

use vstd::prelude::*;

verus! {

/// The thirteen tags of the format, one byte each on the wire.
#[derive(Clone, Copy, Debug, PartialEq, Eq, Structural)]
pub enum Tag {
    End,
    Byte,
    Short,
    Int,
    Long,
    Float,
    Double,
    ByteArray,
    String,
    List,
    Compound,
    IntArray,
    LongArray,
}

/// The wire code of a tag.
pub open spec fn spec_code_of(t: Tag) -> u8 {
    match t {
        Tag::End => 0,
        Tag::Byte => 1,
        Tag::Short => 2,
        Tag::Int => 3,
        Tag::Long => 4,
        Tag::Float => 5,
        Tag::Double => 6,
        Tag::ByteArray => 7,
        Tag::String => 8,
        Tag::List => 9,
        Tag::Compound => 10,
        Tag::IntArray => 11,
        Tag::LongArray => 12,
    }
}

/// The tag a wire code stands for, if any.
pub open spec fn spec_tag_of_code(c: u8) -> Option<Tag> {
    if c == 0 {
        Some(Tag::End)
    } else if c == 1 {
        Some(Tag::Byte)
    } else if c == 2 {
        Some(Tag::Short)
    } else if c == 3 {
        Some(Tag::Int)
    } else if c == 4 {
        Some(Tag::Long)
    } else if c == 5 {
        Some(Tag::Float)
    } else if c == 6 {
        Some(Tag::Double)
    } else if c == 7 {
        Some(Tag::ByteArray)
    } else if c == 8 {
        Some(Tag::String)
    } else if c == 9 {
        Some(Tag::List)
    } else if c == 10 {
        Some(Tag::Compound)
    } else if c == 11 {
        Some(Tag::IntArray)
    } else if c == 12 {
        Some(Tag::LongArray)
    } else {
        None
    }
}

/// True of the three typed-array tags.
pub open spec fn spec_is_array_tag(t: Tag) -> bool {
    t == Tag::ByteArray || t == Tag::IntArray || t == Tag::LongArray
}

/// The scalar element tag of a typed-array tag; other tags map to
/// themselves.
pub open spec fn spec_element_kind(t: Tag) -> Tag {
    match t {
        Tag::ByteArray => Tag::Byte,
        Tag::IntArray => Tag::Int,
        Tag::LongArray => Tag::Long,
        _ => t,
    }
}

impl Tag {
    /// The wire code of this tag.
    pub fn code(self) -> (r: u8)
        ensures
            r == spec_code_of(self),
    {
        match self {
            Tag::End => 0,
            Tag::Byte => 1,
            Tag::Short => 2,
            Tag::Int => 3,
            Tag::Long => 4,
            Tag::Float => 5,
            Tag::Double => 6,
            Tag::ByteArray => 7,
            Tag::String => 8,
            Tag::List => 9,
            Tag::Compound => 10,
            Tag::IntArray => 11,
            Tag::LongArray => 12,
        }
    }

    /// The tag a wire code stands for, or `None` for a byte outside the
    /// closed enumeration.
    pub fn from_code(c: u8) -> (r: Option<Tag>)
        ensures
            r == spec_tag_of_code(c),
    {
        if c == 0 {
            Some(Tag::End)
        } else if c == 1 {
            Some(Tag::Byte)
        } else if c == 2 {
            Some(Tag::Short)
        } else if c == 3 {
            Some(Tag::Int)
        } else if c == 4 {
            Some(Tag::Long)
        } else if c == 5 {
            Some(Tag::Float)
        } else if c == 6 {
            Some(Tag::Double)
        } else if c == 7 {
            Some(Tag::ByteArray)
        } else if c == 8 {
            Some(Tag::String)
        } else if c == 9 {
            Some(Tag::List)
        } else if c == 10 {
            Some(Tag::Compound)
        } else if c == 11 {
            Some(Tag::IntArray)
        } else if c == 12 {
            Some(Tag::LongArray)
        } else {
            None
        }
    }

    /// True of the three typed-array tags.
    pub fn is_array_tag(self) -> (r: bool)
        ensures
            r == spec_is_array_tag(self),
    {
        match self {
            Tag::ByteArray | Tag::IntArray | Tag::LongArray => true,
            _ => false,
        }
    }

    /// The scalar element tag of a typed-array tag.
    pub fn element_kind(self) -> (r: Tag)
        ensures
            r == spec_element_kind(self),
    {
        match self {
            Tag::ByteArray => Tag::Byte,
            Tag::IntArray => Tag::Int,
            Tag::LongArray => Tag::Long,
            _ => self,
        }
    }
}

/// Codes and tags are inverse to each other.
pub proof fn lemma_tag_code_round_trip(t: Tag)
    ensures
        spec_tag_of_code(spec_code_of(t)) == Some(t),
{
}

} // verus!
