use a2a::part::{part_field_kind, Part, PartContent, PartField, PartFieldKind, PartWireError};

#[test]
fn display_text_shows_content() {
    let part = Part::text("hello world");
    assert_eq!(part.to_string(), "hello world");
}

#[test]
fn display_url_shows_url() {
    let part = Part::url("https://example.com/report.pdf");
    assert_eq!(part.to_string(), "[url: https://example.com/report.pdf]");
}

#[test]
fn display_raw_shows_byte_length() {
    let part = Part::raw(b"Hello");
    assert_eq!(part.to_string(), "[raw: 5 bytes]");
}

#[test]
fn raw_from_base64_decodes_and_stores_bytes() {
    let part = Part::raw_from_base64("SGVsbG8=").unwrap();
    assert!(
        matches!(&part.content, PartContent::Raw(b) if b.as_slice() == b"Hello"),
        "raw_from_base64 must store the decoded bytes, not the base64 string"
    );
}

#[test]
fn raw_from_base64_rejects_invalid_input() {
    let result = Part::raw_from_base64("not valid base64!!!");
    assert!(result.is_err(), "raw_from_base64 must return Err for invalid base64 input");
}

#[test]
fn display_data_shows_json() {
    let mut map = serde_json::Map::new();
    map.insert("answer".to_string(), serde_json::Value::from(42));
    let part = Part::data(serde_json::Value::Object(map));
    let display = part.to_string();
    assert!(display.starts_with("[data: "));
    assert!(display.contains("42"));
}

#[test]
fn rejects_empty_part() {
    let mut note = serde_json::Map::new();
    note.insert("note".to_string(), serde_json::Value::String("no content key".to_string()));
    let fields = vec![PartField::Metadata(serde_json::Value::Object(note))];
    assert_eq!(Part::from_wire_fields(&fields), Err(PartWireError::NoContent));
}

#[test]
fn rejects_multiple_content_keys() {
    let fields = vec![PartField::Text("hello".into()), PartField::Url("https://example.com".into())];
    assert_eq!(Part::from_wire_fields(&fields), Err(PartWireError::MultipleContent));
}

#[test]
fn repeated_key_is_rejected() {
    let fields = vec![PartField::Text("a".into()), PartField::Filename("x".into()), PartField::Filename("y".into())];
    assert_eq!(Part::from_wire_fields(&fields), Err(PartWireError::DuplicateField(PartFieldKind::Filename)));
}

#[test]
fn invalid_raw_text_is_rejected() {
    let fields = vec![PartField::Raw("%%%".into())];
    assert_eq!(Part::from_wire_fields(&fields), Err(PartWireError::InvalidBase64));
}

#[test]
fn non_object_metadata_is_rejected() {
    let fields = vec![PartField::Text("a".into()), PartField::Metadata(serde_json::Value::from(3))];
    assert_eq!(Part::from_wire_fields(&fields), Err(PartWireError::MetadataNotObject));
}

#[test]
fn unknown_keys_are_ignored() {
    let fields = vec![PartField::Other, PartField::Text("hi".into()), PartField::Other];
    assert_eq!(Part::from_wire_fields(&fields), Ok(Part::text("hi")));
}

#[test]
fn raw_part_is_written_as_standard_base64() {
    let part = Part::raw(b"Hello").with_media_type("text/plain");
    let fields = part.wire_fields();
    assert_eq!(fields, vec![PartField::Raw("SGVsbG8=".into()), PartField::MediaType("text/plain".into())]);
}

#[test]
fn url_part_fields_in_order() {
    let part = Part::url("https://example.com/doc.pdf").with_filename("doc.pdf").with_media_type("application/pdf");
    assert_eq!(
        part.wire_fields(),
        vec![
            PartField::Url("https://example.com/doc.pdf".into()),
            PartField::Filename("doc.pdf".into()),
            PartField::MediaType("application/pdf".into()),
        ]
    );
}

#[test]
fn wire_fields_read_back_to_the_same_part() {
    let mut meta = serde_json::Map::new();
    meta.insert("k".to_string(), serde_json::Value::Bool(true));
    let parts = vec![
        Part::text("hello").with_metadata(meta),
        Part::raw(&[1u8, 2, 3, 4]).with_filename("blob.bin"),
        Part::url("https://example.com").with_media_type("text/html"),
        Part::data(serde_json::Value::from(7)),
    ];
    for part in parts {
        let fields = part.wire_fields();
        assert_eq!(Part::from_wire_fields(&fields), Ok(part));
    }
}

#[test]
fn raw_from_base64_round_trips_bytes_through_the_wire_fields() {
    let part = Part::raw_from_base64("AQIDBA==").unwrap();
    let restored = Part::from_wire_fields(&part.wire_fields()).unwrap();
    assert_eq!(part, restored);
    assert!(matches!(&restored.content, PartContent::Raw(b) if b.as_slice() == b"\x01\x02\x03\x04"));
}

#[test]
fn wire_keys_are_classified() {
    assert_eq!(part_field_kind("text"), PartFieldKind::Text);
    assert_eq!(part_field_kind("raw"), PartFieldKind::Raw);
    assert_eq!(part_field_kind("url"), PartFieldKind::Url);
    assert_eq!(part_field_kind("data"), PartFieldKind::Data);
    assert_eq!(part_field_kind("metadata"), PartFieldKind::Metadata);
    assert_eq!(part_field_kind("filename"), PartFieldKind::Filename);
    assert_eq!(part_field_kind("mediaType"), PartFieldKind::MediaType);
    assert_eq!(part_field_kind("media_type"), PartFieldKind::Other);
}
