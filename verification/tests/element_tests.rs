use bson_doc::element::ElementType;

#[test]
fn from_byte_canonical_tags() {
    assert_eq!(ElementType::from(0x01), Some(ElementType::Float64));
    assert_eq!(ElementType::from(0x02), Some(ElementType::String));
    assert_eq!(ElementType::from(0x03), Some(ElementType::Bson));
    assert_eq!(ElementType::from(0x04), Some(ElementType::Array));
    assert_eq!(ElementType::from(0x05), Some(ElementType::Binary));
    assert_eq!(ElementType::from(0x06), Some(ElementType::Undefined));
    assert_eq!(ElementType::from(0x07), Some(ElementType::ObjectId));
    assert_eq!(ElementType::from(0x08), Some(ElementType::Bool));
    assert_eq!(ElementType::from(0x09), Some(ElementType::Date));
    assert_eq!(ElementType::from(0x0A), Some(ElementType::Null));
    assert_eq!(ElementType::from(0x0B), Some(ElementType::RegEx));
    assert_eq!(ElementType::from(0x0C), Some(ElementType::DBPointer));
    assert_eq!(ElementType::from(0x0D), Some(ElementType::Code));
    assert_eq!(ElementType::from(0x0E), Some(ElementType::Symbol));
    assert_eq!(ElementType::from(0x0F), Some(ElementType::CodeWScope));
    assert_eq!(ElementType::from(0x10), Some(ElementType::Int32));
    assert_eq!(ElementType::from(0x11), Some(ElementType::Timestamp));
    assert_eq!(ElementType::from(0x12), Some(ElementType::Int64));
    assert_eq!(ElementType::from(0x64), Some(ElementType::Decimal));
    assert_eq!(ElementType::from(0x7F), Some(ElementType::MaxKey));
    assert_eq!(ElementType::from(0xFF), Some(ElementType::MinKey));
}

#[test]
fn tag_round_trips_through_from_byte() {
    let variants = [
        ElementType::Float64,
        ElementType::String,
        ElementType::Bson,
        ElementType::Array,
        ElementType::Binary,
        ElementType::Undefined,
        ElementType::ObjectId,
        ElementType::Bool,
        ElementType::Date,
        ElementType::Null,
        ElementType::RegEx,
        ElementType::DBPointer,
        ElementType::Code,
        ElementType::Symbol,
        ElementType::CodeWScope,
        ElementType::Int32,
        ElementType::Timestamp,
        ElementType::Int64,
        ElementType::Decimal,
        ElementType::MaxKey,
        ElementType::MinKey,
    ];
    for v in variants {
        assert_eq!(ElementType::from(v.tag()), Some(v));
    }
}

#[test]
fn from_byte_unrecognized() {
    let canonical = [
        0x01u8, 0x02, 0x03, 0x04, 0x05, 0x06, 0x07, 0x08, 0x09, 0x0A, 0x0B, 0x0C, 0x0D, 0x0E,
        0x0F, 0x10, 0x11, 0x12, 0x64, 0x7F, 0xFF,
    ];
    for b in 0u8..=0xFF {
        if canonical.contains(&b) {
            assert!(ElementType::from(b).is_some());
        } else {
            assert_eq!(ElementType::from(b), None);
        }
    }
}
