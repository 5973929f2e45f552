use a2a::part::{part_field_kind, Part, PartContent, PartField, PartFieldKind, PartWireError};

// Writes a part as its wire object, one JSON member per wire field.
fn to_json(part: &Part) -> serde_json::Value {
    let mut map = serde_json::Map::new();
    for field in part.wire_fields() {
        match field {
            PartField::Text(text) => {
                map.insert("text".to_string(), serde_json::Value::String(text));
            }
            PartField::Raw(encoded) => {
                map.insert("raw".to_string(), serde_json::Value::String(encoded));
            }
            PartField::Url(url) => {
                map.insert("url".to_string(), serde_json::Value::String(url));
            }
            PartField::Data(data) => {
                map.insert("data".to_string(), data);
            }
            PartField::Metadata(meta) => {
                map.insert("metadata".to_string(), meta);
            }
            PartField::Filename(name) => {
                map.insert("filename".to_string(), serde_json::Value::String(name));
            }
            PartField::MediaType(media_type) => {
                map.insert("mediaType".to_string(), serde_json::Value::String(media_type));
            }
            PartField::Other => {}
        }
    }
    serde_json::Value::Object(map)
}

// Reads a part from the text of its wire object, key by key.
fn from_json(text: &str) -> Result<Part, PartWireError> {
    let value: serde_json::Value = serde_json::from_str(text).unwrap();
    let object = value.as_object().unwrap();
    let mut fields = Vec::new();
    for (key, member) in object {
        let string = || member.as_str().unwrap().to_string();
        let field = match part_field_kind(key) {
            PartFieldKind::Text => PartField::Text(string()),
            PartFieldKind::Raw => PartField::Raw(string()),
            PartFieldKind::Url => PartField::Url(string()),
            PartFieldKind::Data => PartField::Data(member.clone()),
            PartFieldKind::Metadata => PartField::Metadata(member.clone()),
            PartFieldKind::Filename => PartField::Filename(string()),
            PartFieldKind::MediaType => PartField::MediaType(string()),
            PartFieldKind::Other => PartField::Other,
        };
        fields.push(field);
    }
    Part::from_wire_fields(&fields)
}

fn json(text: &str) -> serde_json::Value {
    serde_json::from_str(text).unwrap()
}

#[test]
fn text_part_wire_format() {
    let part = Part::text("hello");
    let json = to_json(&part);

    assert_eq!(json["text"], "hello");

    let obj = json.as_object().unwrap();
    assert!(!obj.contains_key("kind"), "v1.0 wire format has no kind discriminator");
    assert!(!obj.contains_key("metadata"));
    assert!(!obj.contains_key("filename"));
    assert!(!obj.contains_key("mediaType"));
}

#[test]
fn text_part_with_metadata() {
    let part = Part::text("hello").with_metadata(json(r#"{"source": "llm"}"#).as_object().unwrap().clone());
    let json = to_json(&part);

    assert_eq!(json["text"], "hello");
    assert_eq!(json["metadata"]["source"], "llm");

    let obj = json.as_object().unwrap();
    assert!(!obj.contains_key("filename"));
    assert!(!obj.contains_key("mediaType"));
}

#[test]
fn url_part_wire_format() {
    let part = Part::url("https://x.com/f.pdf").with_filename("f.pdf").with_media_type("application/pdf");
    let json = to_json(&part);

    assert_eq!(json["url"], "https://x.com/f.pdf");
    assert_eq!(json["filename"], "f.pdf");
    assert_eq!(json["mediaType"], "application/pdf");

    let obj = json.as_object().unwrap();
    assert!(!obj.contains_key("text"));
    assert!(!obj.contains_key("raw"));
    assert!(!obj.contains_key("data"));
}

#[test]
fn url_part_minimal() {
    let part = Part::url("https://example.com/doc");
    let json = to_json(&part);

    assert_eq!(json["url"], "https://example.com/doc");

    let obj = json.as_object().unwrap();
    assert!(!obj.contains_key("filename"));
    assert!(!obj.contains_key("mediaType"));
    assert!(!obj.contains_key("metadata"));
}

#[test]
fn raw_part_wire_format() {
    let part = Part::raw(b"Hello").with_media_type("text/plain");
    let json = to_json(&part);

    assert_eq!(json["raw"], "SGVsbG8=");
    assert_eq!(json["mediaType"], "text/plain");

    let obj = json.as_object().unwrap();
    assert!(!obj.contains_key("text"));
    assert!(!obj.contains_key("url"));
    assert!(!obj.contains_key("data"));
}

#[test]
fn data_part_wire_format() {
    let part = Part::data(json(r#"{"key": "val"}"#));
    let json = to_json(&part);

    assert_eq!(json["data"]["key"], "val");

    let obj = json.as_object().unwrap();
    assert!(!obj.contains_key("text"));
    assert!(!obj.contains_key("raw"));
    assert!(!obj.contains_key("url"));
}

#[test]
fn part_all_variants_round_trip() {
    let parts = vec![
        Part::text("round-trip text"),
        Part::url("https://example.com/f.pdf").with_filename("f.pdf").with_media_type("application/pdf"),
        Part::raw(b"\x01\x02\x03".as_ref()).with_media_type("application/octet-stream"),
        Part::data(json(r#"{"answer": 42}"#)),
    ];

    for part in parts {
        let json = serde_json::to_string(&to_json(&part)).unwrap();
        let back = from_json(&json).unwrap();
        assert_eq!(back, part, "round-trip failed for: {json}");
    }
}

#[test]
fn optional_fields_omitted_when_none() {
    let parts = [
        Part::text("no extras"),
        Part::url("https://example.com"),
        Part::raw(b"\x01\x02\x03".as_ref()),
        Part::data(serde_json::Value::Null),
    ];

    for part in &parts {
        let json = to_json(part);
        let obj = json.as_object().unwrap();
        assert!(!obj.contains_key("metadata"), "metadata must be absent when None");
        assert!(!obj.contains_key("filename"), "filename must be absent when None");
        assert!(!obj.contains_key("mediaType"), "mediaType must be absent when None");
    }
}

#[test]
fn part_deserialises_from_external_wire_json() {
    let text_json = r#"{"text":"what is the weather?"}"#;
    let text_part = from_json(text_json).unwrap();
    assert!(matches!(&text_part.content, PartContent::Text(t) if t == "what is the weather?"));

    let url_json = r#"{"url":"https://x.com/f.pdf","filename":"f.pdf","mediaType":"application/pdf"}"#;
    let url_part = from_json(url_json).unwrap();
    assert!(matches!(&url_part.content, PartContent::Url(u) if u == "https://x.com/f.pdf"));
    assert_eq!(url_part.filename.as_deref(), Some("f.pdf"));
    assert_eq!(url_part.media_type.as_deref(), Some("application/pdf"));

    let raw_json = r#"{"raw":"SGVsbG8=","mediaType":"text/plain"}"#;
    let raw_part = from_json(raw_json).unwrap();
    assert!(matches!(&raw_part.content, PartContent::Raw(r) if r.as_slice() == b"Hello"));
    assert_eq!(raw_part.media_type.as_deref(), Some("text/plain"));

    let data_json = r#"{"data":{"key":"val"}}"#;
    let data_part = from_json(data_json).unwrap();
    assert!(matches!(&data_part.content, PartContent::Data(d) if d["key"] == "val"));
}

#[test]
fn text_constructor_matches_expected_wire() {
    let part = Part::text("hello world");
    assert_eq!(to_json(&part), json(r#"{"text": "hello world"}"#));
}

#[test]
fn url_constructor_with_filename_and_media_type() {
    let part = Part::url("https://example.com/doc.pdf").with_filename("doc.pdf").with_media_type("application/pdf");
    assert_eq!(
        to_json(&part),
        json(r#"{"url": "https://example.com/doc.pdf", "filename": "doc.pdf", "mediaType": "application/pdf"}"#)
    );
}

#[test]
fn raw_constructor_with_media_type() {
    let part = Part::raw(b"Hello").with_media_type("text/plain");
    assert_eq!(to_json(&part), json(r#"{"raw": "SGVsbG8=", "mediaType": "text/plain"}"#));
}

#[test]
fn raw_from_base64_round_trips_bytes() {
    let original_encoded = "AQIDBA==";
    let part = Part::raw_from_base64(original_encoded).unwrap();

    let wire = serde_json::to_string(&to_json(&part)).unwrap();
    let restored = from_json(&wire).unwrap();

    assert_eq!(part, restored, "bytes must survive serialize→deserialize intact");
    assert!(matches!(&restored.content, PartContent::Raw(b) if b.as_slice() == b"\x01\x02\x03\x04"));
}

#[test]
fn part_with_metadata_round_trips_through_the_wire_object() {
    let part = Part::data(json("[1, 2]"))
        .with_metadata(json(r#"{"k": {"nested": true}}"#).as_object().unwrap().clone())
        .with_filename("x.json");
    let back = from_json(&serde_json::to_string(&to_json(&part)).unwrap()).unwrap();
    assert_eq!(back, part);
}
