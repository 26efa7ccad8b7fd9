use nbtdec::adapter::{ArrayRecordAdapter, FieldValue};
use nbtdec::builder::Builder;
use nbtdec::cursor::Cursor;
use nbtdec::elements::{Elem, ElementSeq};
use nbtdec::error::Error;
use nbtdec::record::{collect_ints, decode_typed_array, ArrayValues};
use nbtdec::tag::Tag;

#[test]
fn int_array_decodes_to_tag_and_data() {
    // count 3, then payload bytes for [1, -2, 300]: 16 payload bytes total.
    let bytes = Builder::new()
        .int_payload(3)
        .int_array_payload(&[1, -2, 300])
        .build();
    assert_eq!(bytes.len(), 16);
    let mut cur = Cursor::new(&bytes);
    let count = cur.read_i32().unwrap();
    assert_eq!(count, 3);
    let (code, vals) = decode_typed_array(&mut cur, Tag::IntArray, count).unwrap();
    assert_eq!(code, 11);
    match vals {
        ArrayValues::Ints(v) => assert_eq!(v, vec![1, -2, 300]),
        _ => panic!("wrong payload kind"),
    }
    assert_eq!(cur.remaining(), 0);
}

#[test]
fn full_record_walk_in_order() {
    let bytes = Builder::new().int_array_payload(&[5]).build();
    let mut cur = Cursor::new(&bytes);
    let mut rec = ArrayRecordAdapter::new(Tag::IntArray, 1);

    assert_eq!(rec.next_field_name().unwrap(), Some("tag"));
    match rec.next_field_value().unwrap() {
        FieldValue::TagCode(c) => assert_eq!(c, 11),
        _ => panic!("expected the tag code"),
    }
    assert_eq!(rec.next_field_name().unwrap(), Some("data"));
    let mut seq = match rec.next_field_value().unwrap() {
        FieldValue::Data(s) => s,
        _ => panic!("expected the data sequence"),
    };
    assert_eq!(seq.size_hint(), 1);
    match seq.next(&mut cur).unwrap() {
        Some(Elem::Int(v)) => assert_eq!(v, 5),
        _ => panic!("expected one int element"),
    }
    assert!(matches!(seq.next(&mut cur), Ok(None)));
    // End of record: no further fields, and a further value pull is misuse.
    assert_eq!(rec.next_field_name().unwrap(), None);
    assert!(matches!(rec.next_field_value(), Err(Error::ProtocolMisuse)));
}

#[test]
fn size_hint_equals_declared_count() {
    let seq = ElementSeq::new(Tag::Int, 7).unwrap();
    assert_eq!(seq.size_hint(), 7);

    let bytes: Vec<u8> = Vec::new();
    let mut cur = Cursor::new(&bytes);
    let mut zero = ElementSeq::new(Tag::Int, 0).unwrap();
    assert_eq!(zero.size_hint(), 0);
    assert!(matches!(zero.next(&mut cur), Ok(None)));
    assert!(matches!(zero.next(&mut cur), Ok(None)));
    assert_eq!(cur.remaining(), 0);
}

#[test]
fn second_tag_request_is_protocol_misuse() {
    let bytes = Builder::new().int_payload(5).build();
    let cur = Cursor::new(&bytes);
    let mut rec = ArrayRecordAdapter::new(Tag::IntArray, 2);
    assert_eq!(rec.next_field_name().unwrap(), Some("tag"));
    assert!(matches!(rec.next_field_name(), Err(Error::ProtocolMisuse)));
    // The cursor was never advanced: the adapter does not touch it.
    assert_eq!(cur.remaining(), 4);
}

#[test]
fn value_before_name_is_protocol_misuse() {
    let mut rec = ArrayRecordAdapter::new(Tag::ByteArray, 1);
    assert!(matches!(rec.next_field_value(), Err(Error::ProtocolMisuse)));
    // The record is still intact: the walk can proceed in order.
    assert_eq!(rec.next_field_name().unwrap(), Some("tag"));
}

#[test]
fn truncated_byte_array_fails() {
    // Declared count 5, only 3 payload bytes present.
    let bytes = Builder::new().byte_array_payload(&[1, 2, 3]).build();
    let mut cur = Cursor::new(&bytes);
    let r = decode_typed_array(&mut cur, Tag::ByteArray, 5);
    assert!(matches!(r, Err(Error::TruncatedInput)));
}

#[test]
fn truncated_int_element_fails_without_partial_element() {
    let bytes = Builder::new().byte_payload(1).byte_payload(2).build();
    let mut cur = Cursor::new(&bytes);
    let mut seq = ElementSeq::new(Tag::Int, 1).unwrap();
    assert!(matches!(seq.next(&mut cur), Err(Error::TruncatedInput)));
    // Nothing was consumed and nothing was produced.
    assert_eq!(cur.remaining(), 2);
    assert_eq!(seq.size_hint(), 1);
}

#[test]
fn nested_lists_decode() {
    // A list with element tag List and count 2, whose two inner lists are
    // each (tag Int, count 1, value 42): decodes to [[42], [42]].
    let bytes = Builder::new()
        .tag(Tag::Int)
        .int_payload(1)
        .int_payload(42)
        .tag(Tag::Int)
        .int_payload(1)
        .int_payload(42)
        .build();
    let mut cur = Cursor::new(&bytes);
    let mut outer = ElementSeq::new(Tag::List, 2).unwrap();
    let mut collected: Vec<Vec<i32>> = Vec::new();
    loop {
        match outer.next(&mut cur).unwrap() {
            Some(Elem::Nested(mut inner)) => {
                assert_eq!(inner.size_hint(), 1);
                let mut vals: Vec<i32> = Vec::new();
                while let Some(e) = inner.next(&mut cur).unwrap() {
                    match e {
                        Elem::Int(v) => vals.push(v),
                        _ => panic!("expected int elements"),
                    }
                }
                collected.push(vals);
            }
            Some(_) => panic!("expected nested lists"),
            None => break,
        }
    }
    assert_eq!(collected, vec![vec![42], vec![42]]);
    assert_eq!(cur.remaining(), 0);
}

#[test]
fn negative_count_is_malformed() {
    assert!(matches!(
        ElementSeq::new(Tag::Int, -1),
        Err(Error::MalformedLength)
    ));

    let bytes: Vec<u8> = vec![1, 2, 3];
    let mut cur = Cursor::new(&bytes);
    let r = decode_typed_array(&mut cur, Tag::IntArray, -1);
    assert!(matches!(r, Err(Error::MalformedLength)));
    // Detected before any element byte is read.
    assert_eq!(cur.remaining(), 3);
}

#[test]
fn negative_count_is_malformed_at_the_data_field() {
    let mut rec = ArrayRecordAdapter::new(Tag::ByteArray, -1);
    assert_eq!(rec.next_field_name().unwrap(), Some("tag"));
    assert!(matches!(
        rec.next_field_value().unwrap(),
        FieldValue::TagCode(7)
    ));
    assert_eq!(rec.next_field_name().unwrap(), Some("data"));
    assert!(matches!(rec.next_field_value(), Err(Error::MalformedLength)));
}

#[test]
fn list_of_byte_arrays() {
    // One element of tag ByteArray: count 2, then two payload bytes.
    let bytes = Builder::new()
        .int_payload(2)
        .byte_array_payload(&[7, -8])
        .build();
    let mut cur = Cursor::new(&bytes);
    let mut list = ElementSeq::new(Tag::ByteArray, 1).unwrap();
    let mut rec = match list.next(&mut cur).unwrap() {
        Some(Elem::Array(a)) => a,
        _ => panic!("expected a nested array"),
    };
    assert_eq!(rec.next_field_name().unwrap(), Some("tag"));
    assert!(matches!(
        rec.next_field_value().unwrap(),
        FieldValue::TagCode(7)
    ));
    assert_eq!(rec.next_field_name().unwrap(), Some("data"));
    let mut seq = match rec.next_field_value().unwrap() {
        FieldValue::Data(s) => s,
        _ => panic!("expected the data sequence"),
    };
    assert_eq!(seq.size_hint(), 2);
    assert!(matches!(seq.next(&mut cur).unwrap(), Some(Elem::Byte(7))));
    assert!(matches!(seq.next(&mut cur).unwrap(), Some(Elem::Byte(-8))));
    assert!(matches!(seq.next(&mut cur), Ok(None)));
    assert!(matches!(list.next(&mut cur), Ok(None)));
}

#[test]
fn list_of_scalars_of_every_width() {
    let bytes = Builder::new()
        .byte_payload(-3)
        .short_payload(-300)
        .long_payload(-5_000_000_000)
        .build();
    let mut cur = Cursor::new(&bytes);

    let mut bl = ElementSeq::new(Tag::Byte, 1).unwrap();
    assert!(matches!(bl.next(&mut cur).unwrap(), Some(Elem::Byte(-3))));

    let mut sl = ElementSeq::new(Tag::Short, 1).unwrap();
    assert!(matches!(sl.next(&mut cur).unwrap(), Some(Elem::Short(-300))));

    let mut ll = ElementSeq::new(Tag::Long, 1).unwrap();
    match ll.next(&mut cur).unwrap() {
        Some(Elem::Long(v)) => assert_eq!(v, -5_000_000_000),
        _ => panic!("expected a long element"),
    }
    assert_eq!(cur.remaining(), 0);
}

#[test]
fn float_elements_carry_big_endian_bits() {
    let bytes: Vec<u8> = vec![
        0x3f, 0xc0, 0x00, 0x00, // 1.5f32
        0x40, 0x09, 0x21, 0xfb, 0x54, 0x44, 0x2d, 0x18, // ~3.141592653589793f64
    ];
    let mut cur = Cursor::new(&bytes);
    let mut fl = ElementSeq::new(Tag::Float, 1).unwrap();
    match fl.next(&mut cur).unwrap() {
        Some(Elem::FloatBits(b)) => assert_eq!(f32::from_bits(b), 1.5f32),
        _ => panic!("expected float bits"),
    }
    let mut dl = ElementSeq::new(Tag::Double, 1).unwrap();
    match dl.next(&mut cur).unwrap() {
        Some(Elem::DoubleBits(b)) => assert_eq!(f64::from_bits(b), 3.141592653589793f64),
        _ => panic!("expected double bits"),
    }
}

#[test]
fn unsupported_element_tags_fail_fast() {
    let bytes: Vec<u8> = vec![0, 1, 2, 3];
    let mut cur = Cursor::new(&bytes);
    for t in [Tag::String, Tag::Compound, Tag::End] {
        let mut seq = ElementSeq::new(t, 1).unwrap();
        assert!(matches!(seq.next(&mut cur), Err(Error::ProtocolMisuse)));
        assert_eq!(cur.remaining(), 4);
    }
    // Count 0 is valid regardless of the element tag.
    let mut empty = ElementSeq::new(Tag::Compound, 0).unwrap();
    assert!(matches!(empty.next(&mut cur), Ok(None)));
}

#[test]
fn invalid_nested_list_tag_byte() {
    let bytes: Vec<u8> = vec![99, 0, 0, 0, 0];
    let mut cur = Cursor::new(&bytes);
    let mut list = ElementSeq::new(Tag::List, 1).unwrap();
    assert!(matches!(list.next(&mut cur), Err(Error::InvalidTag)));
}

#[test]
fn negative_nested_list_count() {
    let bytes: Vec<u8> = vec![3, 0xff, 0xff, 0xff, 0xff];
    let mut cur = Cursor::new(&bytes);
    let mut list = ElementSeq::new(Tag::List, 1).unwrap();
    assert!(matches!(list.next(&mut cur), Err(Error::MalformedLength)));
}

#[test]
fn truncated_nested_list_header() {
    let bytes: Vec<u8> = vec![3, 0, 0];
    let mut cur = Cursor::new(&bytes);
    let mut list = ElementSeq::new(Tag::List, 1).unwrap();
    assert!(matches!(list.next(&mut cur), Err(Error::TruncatedInput)));
    assert_eq!(cur.remaining(), 3);
}

#[test]
fn collectors_drain_a_sequence() {
    let bytes = Builder::new().int_array_payload(&[i32::MIN, i32::MAX]).build();
    let mut cur = Cursor::new(&bytes);
    let mut seq = ElementSeq::new(Tag::Int, 2).unwrap();
    let v = collect_ints(&mut seq, &mut cur).unwrap();
    assert_eq!(v, vec![i32::MIN, i32::MAX]);
    assert_eq!(seq.size_hint(), 0);
}

#[test]
fn long_array_round_trip() {
    let vals: [i64; 3] = [1, -2, i64::MIN];
    let bytes = Builder::new().long_array_payload(&vals).build();
    let mut cur = Cursor::new(&bytes);
    let (code, decoded) = decode_typed_array(&mut cur, Tag::LongArray, 3).unwrap();
    assert_eq!(code, 12);
    match decoded {
        ArrayValues::Longs(v) => assert_eq!(v, vec![1, -2, i64::MIN]),
        _ => panic!("wrong payload kind"),
    }
}

#[test]
fn byte_array_round_trip() {
    let vals: [i8; 4] = [0, -1, i8::MIN, i8::MAX];
    let bytes = Builder::new().byte_array_payload(&vals).build();
    let mut cur = Cursor::new(&bytes);
    let (code, decoded) = decode_typed_array(&mut cur, Tag::ByteArray, 4).unwrap();
    assert_eq!(code, 7);
    match decoded {
        ArrayValues::Bytes(v) => assert_eq!(v, vec![0, -1, i8::MIN, i8::MAX]),
        _ => panic!("wrong payload kind"),
    }
}

#[test]
fn empty_array_decodes_to_empty_data() {
    let bytes: Vec<u8> = Vec::new();
    let mut cur = Cursor::new(&bytes);
    let (code, decoded) = decode_typed_array(&mut cur, Tag::IntArray, 0).unwrap();
    assert_eq!(code, 11);
    match decoded {
        ArrayValues::Ints(v) => assert!(v.is_empty()),
        _ => panic!("wrong payload kind"),
    }
}
