//! Decoder core for a self-describing, tag-prefixed binary format with
//! big-endian payloads.
//!
//! The format encodes typed numeric arrays as `(element count, count x
//! fixed-width element)` and generic lists as `(element tag, element count,
//! count x element)`. This crate reads such values from a shared,
//! forward-only cursor over an in-memory byte buffer and presents them to a
//! generic consumer through small pull-based objects:
//!
//! - [`cursor::Cursor`]: the single read position, with fixed-width
//!   big-endian scalar reads.
//! - [`elements::ElementSeq`]: a counted, lazily-decoded run of array or
//!   list elements.
//! - [`adapter::ArrayRecordAdapter`]: presents a typed array as a synthetic
//!   two-field ordered record (`"tag"`, then `"data"`) via a strict linear
//!   state machine.
//! - [`record`]: a driver that fully decodes a typed array through the
//!   adapter.
//! - [`builder::Builder`]: a byte-sequence builder for constructing wire
//!   fixtures.

pub mod adapter;
pub mod be;
pub mod builder;
pub mod cursor;
pub mod elements;
pub mod error;
pub mod record;
pub mod tag;
