use nbtdec::builder::Builder;
use nbtdec::tag::Tag;

#[test]
fn empty_builder_builds_nothing() {
    assert_eq!(Builder::new().build(), Vec::<u8>::new());
}

#[test]
fn tag_appends_one_code_byte() {
    assert_eq!(Builder::new().tag(Tag::ByteArray).build(), vec![7]);
    assert_eq!(Builder::new().tag(Tag::End).build(), vec![0]);
}

#[test]
fn name_is_length_prefixed() {
    assert_eq!(Builder::new().name("ab").build(), vec![0, 2, 0x61, 0x62]);
    assert_eq!(Builder::new().name("").build(), vec![0, 0]);
}

#[test]
fn named_scalars() {
    assert_eq!(
        Builder::new().byte("b", -1).build(),
        vec![1, 0, 1, 0x62, 0xff]
    );
    assert_eq!(
        Builder::new().short("s", -2).build(),
        vec![2, 0, 1, 0x73, 0xff, 0xfe]
    );
    assert_eq!(
        Builder::new().int32("i", 300).build(),
        vec![3, 0, 1, 0x69, 0, 0, 1, 44]
    );
    assert_eq!(
        Builder::new().long("l", -1).build(),
        vec![4, 0, 1, 0x6c, 0xff, 0xff, 0xff, 0xff, 0xff, 0xff, 0xff, 0xff]
    );
    assert_eq!(
        Builder::new().string("n", "xy").build(),
        vec![8, 0, 1, 0x6e, 0, 2, 0x78, 0x79]
    );
}

#[test]
fn compound_frame() {
    assert_eq!(
        Builder::new().start_compound("a").end_compound().build(),
        vec![10, 0, 1, 0x61, 0]
    );
}

#[test]
fn list_header() {
    assert_eq!(
        Builder::new().start_list("L", Tag::Int, 2).build(),
        vec![9, 0, 1, 0x4c, 3, 0, 0, 0, 2]
    );
}

#[test]
fn named_byte_array_has_count_then_payload() {
    assert_eq!(
        Builder::new().byte_array("b", &[-1, 2]).build(),
        vec![7, 0, 1, 0x62, 0, 0, 0, 2, 0xff, 2]
    );
}

#[test]
fn scalar_payloads_are_big_endian_twos_complement() {
    assert_eq!(Builder::new().byte_payload(-128).build(), vec![0x80]);
    assert_eq!(Builder::new().short_payload(-1).build(), vec![0xff, 0xff]);
    assert_eq!(
        Builder::new().int_payload(-2).build(),
        vec![0xff, 0xff, 0xff, 0xfe]
    );
    assert_eq!(
        Builder::new().long_payload(1).build(),
        vec![0, 0, 0, 0, 0, 0, 0, 1]
    );
    assert_eq!(
        Builder::new().string_payload("hi").build(),
        vec![0, 2, 0x68, 0x69]
    );
}

#[test]
fn array_payloads_concatenate_elements() {
    assert_eq!(
        Builder::new().int_array_payload(&[1, -2, 300]).build(),
        vec![0, 0, 0, 1, 0xff, 0xff, 0xff, 0xfe, 0, 0, 1, 44]
    );
    assert_eq!(
        Builder::new().long_array_payload(&[i64::MIN]).build(),
        vec![0x80, 0, 0, 0, 0, 0, 0, 0]
    );
    assert_eq!(
        Builder::new().byte_array_payload(&[1, -1]).build(),
        vec![1, 0xff]
    );
}

#[test]
fn appends_compose_in_order() {
    let b = Builder::new()
        .start_compound("root")
        .byte("flag", 1)
        .end_compound()
        .build();
    assert_eq!(
        b,
        vec![10, 0, 4, 0x72, 0x6f, 0x6f, 0x74, 1, 0, 4, 0x66, 0x6c, 0x61, 0x67, 1, 0]
    );
}
