//! Parts: the content units of messages and artifacts.
//!
//! On the wire a part is a flat JSON object in which exactly one content key
//! ("text", "raw", "url", "data") is present, next to the optional keys
//! "metadata", "filename" and "mediaType". This module holds the rules that
//! turn the keys of such an object into a `Part` (`Part::from_wire_fields`)
//! and a `Part` into its keys (`Part::wire_fields`).

use vstd::prelude::*;

use crate::codec::{base64_standard_decoded, standard_decode, standard_encode};
use crate::json::{display_text, into_object, json_display_text, json_object_of, object_value};
use crate::text::{decimal_digits, format_usize};

verus! {

/// The content of a part; exactly one kind is present.
#[derive(Debug, Clone, PartialEq)]
pub enum PartContent {
    /// Plain or formatted text.
    Text(String),
    /// Inline bytes, decoded (base64 only on the wire).
    Raw(Vec<u8>),
    /// A URL reference to external content.
    Url(String),
    /// Structured JSON data.
    Data(serde_json::Value),
}

/// A content unit of a message or artifact.
#[derive(Debug, Clone, PartialEq)]
pub struct Part {
    /// The content payload.
    pub content: PartContent,
    /// Caller-defined metadata, always a JSON object.
    pub metadata: Option<serde_json::Map<String, serde_json::Value>>,
    /// Human-readable filename.
    pub filename: Option<String>,
    /// MIME type of the content.
    pub media_type: Option<String>,
}

/// The keys a part object may carry on the wire.
#[derive(Debug, Clone, Copy, PartialEq, Eq, Structural)]
pub enum PartFieldKind {
    /// "text"
    Text,
    /// "raw"
    Raw,
    /// "url"
    Url,
    /// "data"
    Data,
    /// "metadata"
    Metadata,
    /// "filename"
    Filename,
    /// "mediaType"
    MediaType,
    /// Any other key; its value is ignored.
    Other,
}

/// One key of a part object with its value, as read from the wire.
#[derive(Debug, Clone, PartialEq)]
pub enum PartField {
    /// "text" with its string.
    Text(String),
    /// "raw" with its standard base64 text.
    Raw(String),
    /// "url" with its string.
    Url(String),
    /// "data" with any JSON value.
    Data(serde_json::Value),
    /// "metadata" with any JSON value (it must be an object).
    Metadata(serde_json::Value),
    /// "filename" with its string.
    Filename(String),
    /// "mediaType" with its string.
    MediaType(String),
    /// An unrecognised key; its value has been skipped.
    Other,
}

/// Why a part object is rejected.
#[derive(Debug, Clone, Copy, PartialEq, Eq, Structural)]
pub enum PartWireError {
    /// A recognised key occurs twice.
    DuplicateField(PartFieldKind),
    /// The "raw" text is not valid standard base64.
    InvalidBase64,
    /// The "metadata" value is not a JSON object.
    MetadataNotObject,
    /// None of the four content keys is present.
    NoContent,
    /// More than one content key is present.
    MultipleContent,
}

/// The wire key of each kind ("" for unrecognised keys).
pub open spec fn kind_key(k: PartFieldKind) -> Seq<char> {
    match k {
        PartFieldKind::Text => "text"@,
        PartFieldKind::Raw => "raw"@,
        PartFieldKind::Url => "url"@,
        PartFieldKind::Data => "data"@,
        PartFieldKind::Metadata => "metadata"@,
        PartFieldKind::Filename => "filename"@,
        PartFieldKind::MediaType => "mediaType"@,
        PartFieldKind::Other => Seq::empty(),
    }
}

/// The kind of a wire key.
pub fn part_field_kind(key: &str) -> (k: PartFieldKind)
    ensures
        k != PartFieldKind::Other ==> kind_key(k) == key@,
        k == PartFieldKind::Other <==> (key@ != "text"@ && key@ != "raw"@ && key@ != "url"@
            && key@ != "data"@ && key@ != "metadata"@ && key@ != "filename"@ && key@ != "mediaType"@),
{
    if crate::text::text_eq(key, "text") {
        PartFieldKind::Text
    } else if crate::text::text_eq(key, "raw") {
        PartFieldKind::Raw
    } else if crate::text::text_eq(key, "url") {
        PartFieldKind::Url
    } else if crate::text::text_eq(key, "data") {
        PartFieldKind::Data
    } else if crate::text::text_eq(key, "metadata") {
        PartFieldKind::Metadata
    } else if crate::text::text_eq(key, "filename") {
        PartFieldKind::Filename
    } else if crate::text::text_eq(key, "mediaType") {
        PartFieldKind::MediaType
    } else {
        PartFieldKind::Other
    }
}

impl PartField {
    /// The key kind of a field.
    pub open spec fn kind(&self) -> PartFieldKind {
        match self {
            PartField::Text(_) => PartFieldKind::Text,
            PartField::Raw(_) => PartFieldKind::Raw,
            PartField::Url(_) => PartFieldKind::Url,
            PartField::Data(_) => PartFieldKind::Data,
            PartField::Metadata(_) => PartFieldKind::Metadata,
            PartField::Filename(_) => PartFieldKind::Filename,
            PartField::MediaType(_) => PartFieldKind::MediaType,
            PartField::Other => PartFieldKind::Other,
        }
    }

    /// Whether the value of this field is acceptable on its own: the "raw"
    /// text decodes and the "metadata" value is an object.
    pub open spec fn value_ok(&self) -> bool {
        match self {
            PartField::Raw(text) => base64_standard_decoded(text@) is Some,
            PartField::Metadata(v) => json_object_of(*v) is Some,
            _ => true,
        }
    }

    fn duplicate(&self) -> (r: PartField)
        ensures
            r == *self,
    {
        match self {
            PartField::Text(s) => PartField::Text(s.clone()),
            PartField::Raw(s) => PartField::Raw(s.clone()),
            PartField::Url(s) => PartField::Url(s.clone()),
            PartField::Data(v) => PartField::Data(v.clone()),
            PartField::Metadata(v) => PartField::Metadata(v.clone()),
            PartField::Filename(s) => PartField::Filename(s.clone()),
            PartField::MediaType(s) => PartField::MediaType(s.clone()),
            PartField::Other => PartField::Other,
        }
    }
}

/// Whether a kind is one of the four content kinds.
pub open spec fn is_content_kind(k: PartFieldKind) -> bool {
    k == PartFieldKind::Text || k == PartFieldKind::Raw || k == PartFieldKind::Url
        || k == PartFieldKind::Data
}

/// Whether field `i` repeats the recognised key of an earlier field.
pub open spec fn repeats_earlier(fields: Seq<PartField>, i: int) -> bool {
    &&& fields[i].kind() != PartFieldKind::Other
    &&& exists|j: int| 0 <= j < i && #[trigger] fields[j].kind() == fields[i].kind()
}

/// Whether field `i` makes the object invalid: it repeats a recognised key,
/// or its value is not acceptable.
pub open spec fn field_fails(fields: Seq<PartField>, i: int) -> bool {
    repeats_earlier(fields, i) || !fields[i].value_ok()
}

/// The error reported for a failing field.
pub open spec fn field_error(fields: Seq<PartField>, i: int) -> PartWireError {
    if repeats_earlier(fields, i) {
        PartWireError::DuplicateField(fields[i].kind())
    } else if fields[i].kind() == PartFieldKind::Raw {
        PartWireError::InvalidBase64
    } else {
        PartWireError::MetadataNotObject
    }
}

/// Whether some field has kind `k`.
pub open spec fn has_kind(fields: Seq<PartField>, k: PartFieldKind) -> bool {
    exists|i: int| 0 <= i < fields.len() && #[trigger] fields[i].kind() == k
}

/// The number of distinct content kinds present.
pub open spec fn content_kinds_present(fields: Seq<PartField>) -> int {
    (if has_kind(fields, PartFieldKind::Text) { 1int } else { 0 })
        + (if has_kind(fields, PartFieldKind::Raw) { 1int } else { 0 })
        + (if has_kind(fields, PartFieldKind::Url) { 1int } else { 0 })
        + (if has_kind(fields, PartFieldKind::Data) { 1int } else { 0 })
}

/// Whether `content` is what a content field stands for: the same text or
/// URL, the decoded bytes of the raw text, the same data value.
pub open spec fn content_from(content: PartContent, f: PartField) -> bool {
    match f {
        PartField::Text(s) => content == PartContent::Text(s),
        PartField::Url(s) => content == PartContent::Url(s),
        PartField::Data(v) => content == PartContent::Data(v),
        PartField::Raw(text) => content matches PartContent::Raw(bytes)
            && base64_standard_decoded(text@) == Some(bytes@),
        _ => false,
    }
}

/// Whether an optional part attribute is what the fields say: absent when no
/// field of kind `k` is present, else taken from that field.
pub open spec fn attribute_from(fields: Seq<PartField>, k: PartFieldKind, filename: Option<String>) -> bool {
    if has_kind(fields, k) {
        exists|i: int| 0 <= i < fields.len() && #[trigger] fields[i].kind() == k && (match fields[i] {
            PartField::Filename(s) => filename == Some(s),
            PartField::MediaType(s) => filename == Some(s),
            _ => false,
        })
    } else {
        filename is None
    }
}

/// Whether the metadata of a part is what the fields say.
pub open spec fn metadata_from(
    fields: Seq<PartField>,
    metadata: Option<serde_json::Map<String, serde_json::Value>>,
) -> bool {
    if has_kind(fields, PartFieldKind::Metadata) {
        exists|i: int| 0 <= i < fields.len() && #[trigger] fields[i].kind() == PartFieldKind::Metadata
            && (match fields[i] {
            PartField::Metadata(v) => metadata == json_object_of(v),
            _ => false,
        })
    } else {
        metadata is None
    }
}

/// The exact outcome of reading a part object from its fields, in wire order.
pub open spec fn wire_outcome_ok(fields: Seq<PartField>, p: Part) -> bool {
    &&& forall|i: int| 0 <= i < fields.len() ==> !field_fails(fields, i)
    &&& content_kinds_present(fields) == 1
    &&& exists|i: int| 0 <= i < fields.len() && is_content_kind(#[trigger] fields[i].kind())
        && content_from(p.content, fields[i])
    &&& metadata_from(fields, p.metadata)
    &&& attribute_from(fields, PartFieldKind::Filename, p.filename)
    &&& attribute_from(fields, PartFieldKind::MediaType, p.media_type)
}

/// Whether some field before position `i` has kind `k`.
pub open spec fn seen_before(fields: Seq<PartField>, i: int, k: PartFieldKind) -> bool {
    exists|j: int| 0 <= j < i && #[trigger] fields[j].kind() == k
}

proof fn lemma_duplicate_fails(fields: Seq<PartField>, i: int, k: PartFieldKind)
    requires
        0 <= i < fields.len(),
        fields[i].kind() == k,
        k != PartFieldKind::Other,
        seen_before(fields, i, k),
    ensures
        field_fails(fields, i),
        field_error(fields, i) == PartWireError::DuplicateField(k),
{
}

proof fn lemma_bad_value_fails(fields: Seq<PartField>, i: int)
    requires
        0 <= i < fields.len(),
        !seen_before(fields, i, fields[i].kind()),
        !fields[i].value_ok(),
    ensures
        field_fails(fields, i),
        fields[i].kind() == PartFieldKind::Raw ==> field_error(fields, i) == PartWireError::InvalidBase64,
        fields[i].kind() == PartFieldKind::Metadata ==> field_error(fields, i) == PartWireError::MetadataNotObject,
{
}

proof fn lemma_good_field(fields: Seq<PartField>, i: int)
    requires
        0 <= i < fields.len(),
        fields[i].kind() == PartFieldKind::Other || !seen_before(fields, i, fields[i].kind()),
        fields[i].value_ok(),
    ensures
        !field_fails(fields, i),
{
}

impl Part {
    /// Reads a part from the fields of its wire object, in wire order.
    ///
    /// Fields are taken one by one: a recognised key seen a second time is a
    /// `DuplicateField` error, a "raw" text that is not standard base64 is
    /// `InvalidBase64`, a "metadata" value that is not an object is
    /// `MetadataNotObject`; the first such field decides the error. Unknown
    /// keys are ignored. Then exactly one content key must be present:
    /// `NoContent` when none is, `MultipleContent` when several are.
    pub fn from_wire_fields(fields: &Vec<PartField>) -> (r: Result<Part, PartWireError>)
        ensures
            (exists|i: int| 0 <= i < fields@.len() && field_fails(fields@, i)) ==> (r matches Err(e)
                && exists|i: int| 0 <= i < fields@.len() && field_fails(fields@, i)
                    && (forall|j: int| 0 <= j < i ==> !field_fails(fields@, j))
                    && e == field_error(fields@, i)),
            (forall|i: int| 0 <= i < fields@.len() ==> !field_fails(fields@, i)) ==> {
                &&& content_kinds_present(fields@) == 0 ==> r == Err::<Part, PartWireError>(PartWireError::NoContent)
                &&& content_kinds_present(fields@) > 1 ==> r == Err::<Part, PartWireError>(PartWireError::MultipleContent)
                &&& content_kinds_present(fields@) == 1 ==> (r matches Ok(p) && wire_outcome_ok(fields@, p))
            },
    {
        let mut text: Option<String> = None;
        let mut raw: Option<Vec<u8>> = None;
        let mut url: Option<String> = None;
        let mut data: Option<serde_json::Value> = None;
        let mut metadata: Option<serde_json::Map<String, serde_json::Value>> = None;
        let mut filename: Option<String> = None;
        let mut media_type: Option<String> = None;
        let mut i: usize = 0;
        while i < fields.len()
            invariant
                i <= fields@.len(),
                forall|j: int| 0 <= j < i ==> !field_fails(fields@, j),
                text is Some <==> seen_before(fields@, i as int, PartFieldKind::Text),
                raw is Some <==> seen_before(fields@, i as int, PartFieldKind::Raw),
                url is Some <==> seen_before(fields@, i as int, PartFieldKind::Url),
                data is Some <==> seen_before(fields@, i as int, PartFieldKind::Data),
                metadata is Some <==> seen_before(fields@, i as int, PartFieldKind::Metadata),
                filename is Some <==> seen_before(fields@, i as int, PartFieldKind::Filename),
                media_type is Some <==> seen_before(fields@, i as int, PartFieldKind::MediaType),
                text is Some ==> exists|j: int| 0 <= j < i && fields@[j] == PartField::Text(text->0),
                url is Some ==> exists|j: int| 0 <= j < i && fields@[j] == PartField::Url(url->0),
                data is Some ==> exists|j: int| 0 <= j < i && fields@[j] == PartField::Data(data->0),
                filename is Some ==> exists|j: int| 0 <= j < i && fields@[j] == PartField::Filename(filename->0),
                media_type is Some ==> exists|j: int| 0 <= j < i && fields@[j] == PartField::MediaType(media_type->0),
                raw is Some ==> exists|j: int| #![trigger fields@[j]] 0 <= j < i && (fields@[j] matches PartField::Raw(t)
                    && base64_standard_decoded(t@) == Some(raw->0@)),
                metadata is Some ==> exists|j: int| #![trigger fields@[j]] 0 <= j < i && (fields@[j] matches PartField::Metadata(v)
                    && json_object_of(v) == metadata),
            decreases fields@.len() - i,
        {
            let ghost k = fields@[i as int].kind();
            assert(seen_before(fields@, i + 1, k));
            assert(forall|kk: PartFieldKind| kk != k ==> (seen_before(fields@, i + 1, kk)
                <==> seen_before(fields@, i as int, kk)));
            match &fields[i] {
                PartField::Text(s) => {
                    if text.is_some() {
                        proof { lemma_duplicate_fails(fields@, i as int, k); }
                        return Err(PartWireError::DuplicateField(PartFieldKind::Text));
                    }
                    proof { lemma_good_field(fields@, i as int); }
                    text = Some(s.clone());
                },
                PartField::Raw(encoded) => {
                    if raw.is_some() {
                        proof { lemma_duplicate_fails(fields@, i as int, k); }
                        return Err(PartWireError::DuplicateField(PartFieldKind::Raw));
                    }
                    match standard_decode(encoded.as_str()) {
                        Ok(bytes) => {
                            proof { lemma_good_field(fields@, i as int); }
                            raw = Some(bytes);
                        },
                        Err(_) => {
                            proof { lemma_bad_value_fails(fields@, i as int); }
                            return Err(PartWireError::InvalidBase64);
                        },
                    }
                },
                PartField::Url(s) => {
                    if url.is_some() {
                        proof { lemma_duplicate_fails(fields@, i as int, k); }
                        return Err(PartWireError::DuplicateField(PartFieldKind::Url));
                    }
                    proof { lemma_good_field(fields@, i as int); }
                    url = Some(s.clone());
                },
                PartField::Data(v) => {
                    if data.is_some() {
                        proof { lemma_duplicate_fails(fields@, i as int, k); }
                        return Err(PartWireError::DuplicateField(PartFieldKind::Data));
                    }
                    proof { lemma_good_field(fields@, i as int); }
                    data = Some(v.clone());
                },
                PartField::Metadata(v) => {
                    if metadata.is_some() {
                        proof { lemma_duplicate_fails(fields@, i as int, k); }
                        return Err(PartWireError::DuplicateField(PartFieldKind::Metadata));
                    }
                    match into_object(v.clone()) {
                        Ok(m) => {
                            proof { lemma_good_field(fields@, i as int); }
                            metadata = Some(m);
                        },
                        Err(_) => {
                            proof { lemma_bad_value_fails(fields@, i as int); }
                            return Err(PartWireError::MetadataNotObject);
                        },
                    }
                },
                PartField::Filename(s) => {
                    if filename.is_some() {
                        proof { lemma_duplicate_fails(fields@, i as int, k); }
                        return Err(PartWireError::DuplicateField(PartFieldKind::Filename));
                    }
                    proof { lemma_good_field(fields@, i as int); }
                    filename = Some(s.clone());
                },
                PartField::MediaType(s) => {
                    if media_type.is_some() {
                        proof { lemma_duplicate_fails(fields@, i as int, k); }
                        return Err(PartWireError::DuplicateField(PartFieldKind::MediaType));
                    }
                    proof { lemma_good_field(fields@, i as int); }
                    media_type = Some(s.clone());
                },
                PartField::Other => {
                    proof { lemma_good_field(fields@, i as int); }
                },
            }
            i = i + 1;
        }
        assert(forall|k: PartFieldKind| #[trigger] has_kind(fields@, k) == seen_before(fields@, fields@.len() as int, k));
        let count: usize = (if text.is_some() { 1usize } else { 0 }) + (if raw.is_some() { 1usize } else { 0 })
            + (if url.is_some() { 1usize } else { 0 }) + (if data.is_some() { 1usize } else { 0 });
        if count == 0 {
            return Err(PartWireError::NoContent);
        }
        if count > 1 {
            return Err(PartWireError::MultipleContent);
        }
        let ghost fs = fields@;
        let content = match text {
            Some(t) => {
                proof {
                    let j = choose|j: int| 0 <= j < fs.len() && fs[j] == PartField::Text(t);
                    assert(is_content_kind(fs[j].kind()) && content_from(PartContent::Text(t), fs[j]));
                }
                PartContent::Text(t)
            },
            None => match raw {
                Some(b) => {
                    proof {
                        let j = choose|j: int| #![trigger fs[j]] 0 <= j < fs.len() && (fs[j] matches PartField::Raw(t)
                            && base64_standard_decoded(t@) == Some(b@));
                        assert(is_content_kind(fs[j].kind()) && content_from(PartContent::Raw(b), fs[j]));
                    }
                    PartContent::Raw(b)
                },
                None => match url {
                    Some(u) => {
                        proof {
                            let j = choose|j: int| 0 <= j < fs.len() && fs[j] == PartField::Url(u);
                            assert(is_content_kind(fs[j].kind()) && content_from(PartContent::Url(u), fs[j]));
                        }
                        PartContent::Url(u)
                    },
                    None => match data {
                        Some(d) => {
                            proof {
                                let j = choose|j: int| 0 <= j < fs.len() && fs[j] == PartField::Data(d);
                                assert(is_content_kind(fs[j].kind()) && content_from(PartContent::Data(d), fs[j]));
                            }
                            PartContent::Data(d)
                        },
                        None => {
                            proof { assert(false); }
                            PartContent::Text(String::new())
                        },
                    },
                },
            },
        };
        proof {
            if metadata is Some {
                let j = choose|j: int| #![trigger fs[j]] 0 <= j < fs.len() && (fs[j] matches PartField::Metadata(v)
                    && json_object_of(v) == metadata);
                assert(fs[j].kind() == PartFieldKind::Metadata);
            }
            if filename is Some {
                let j = choose|j: int| 0 <= j < fs.len() && fs[j] == PartField::Filename(filename->0);
                assert(fs[j].kind() == PartFieldKind::Filename);
            }
            if media_type is Some {
                let j = choose|j: int| 0 <= j < fs.len() && fs[j] == PartField::MediaType(media_type->0);
                assert(fs[j].kind() == PartFieldKind::MediaType);
            }
        }
        Ok(Part { content, metadata, filename, media_type })
    }
}

/// Whether `fields` is the wire form of part `p`: the content field first,
/// then "metadata", "filename" and "mediaType" for the attributes present.
pub open spec fn encodes(p: Part, fields: Seq<PartField>) -> bool {
    let fi: int = if p.metadata is Some { 2 } else { 1 };
    let ti: int = if p.filename is Some { fi + 1 } else { fi };
    let n: int = if p.media_type is Some { ti + 1 } else { ti };
    &&& fields.len() == n
    &&& is_content_kind(fields[0].kind())
    &&& content_from(p.content, fields[0])
    &&& p.metadata is Some ==> (fields[1] matches PartField::Metadata(v) && json_object_of(v) == p.metadata)
    &&& p.filename is Some ==> fields[fi] == PartField::Filename(p.filename->0)
    &&& p.media_type is Some ==> fields[ti] == PartField::MediaType(p.media_type->0)
}

/// Whether two parts hold the same content and attributes (inline bytes compared by value).
pub open spec fn same_part(a: Part, b: Part) -> bool {
    &&& match (a.content, b.content) {
        (PartContent::Raw(x), PartContent::Raw(y)) => x@ == y@,
        (x, y) => x == y,
    }
    &&& a.metadata == b.metadata
    &&& a.filename == b.filename
    &&& a.media_type == b.media_type
}

impl Part {
    /// A text part without metadata, filename or media type.
    pub fn text(text: &str) -> (r: Part)
        ensures
            r.content matches PartContent::Text(t) && t@ == text@,
            r.metadata is None && r.filename is None && r.media_type is None,
    {
        Part { content: PartContent::Text(text.to_owned()), metadata: None, filename: None, media_type: None }
    }

    /// A URL reference part without metadata, filename or media type.
    pub fn url(url: &str) -> (r: Part)
        ensures
            r.content matches PartContent::Url(u) && u@ == url@,
            r.metadata is None && r.filename is None && r.media_type is None,
    {
        Part { content: PartContent::Url(url.to_owned()), metadata: None, filename: None, media_type: None }
    }

    /// An inline bytes part holding a copy of `bytes`.
    pub fn raw(bytes: &[u8]) -> (r: Part)
        ensures
            r.content matches PartContent::Raw(b) && b@ == bytes@,
            r.metadata is None && r.filename is None && r.media_type is None,
    {
        Part {
            content: PartContent::Raw(vstd::slice::slice_to_vec(bytes)),
            metadata: None,
            filename: None,
            media_type: None,
        }
    }

    /// An inline bytes part from standard base64 text; the part holds the
    /// decoded bytes. Fails exactly when the text is not valid standard base64.
    pub fn raw_from_base64(encoded: &str) -> (r: Result<Part, base64::DecodeError>)
        ensures
            r is Ok <==> base64_standard_decoded(encoded@) is Some,
            r is Ok ==> (r->Ok_0.content matches PartContent::Raw(b)
                && Some(b@) == base64_standard_decoded(encoded@)),
            r is Ok ==> r->Ok_0.metadata is None && r->Ok_0.filename is None && r->Ok_0.media_type is None,
    {
        match standard_decode(encoded) {
            Ok(bytes) => Ok(Part { content: PartContent::Raw(bytes), metadata: None, filename: None, media_type: None }),
            Err(e) => Err(e),
        }
    }

    /// A structured data part.
    pub fn data(data: serde_json::Value) -> (r: Part)
        ensures
            r.content == PartContent::Data(data),
            r.metadata is None && r.filename is None && r.media_type is None,
    {
        Part { content: PartContent::Data(data), metadata: None, filename: None, media_type: None }
    }

    /// Attaches metadata; everything else is kept.
    pub fn with_metadata(self, metadata: serde_json::Map<String, serde_json::Value>) -> (r: Part)
        ensures
            r.metadata == Some(metadata),
            r.content == self.content && r.filename == self.filename && r.media_type == self.media_type,
    {
        Part { metadata: Some(metadata), ..self }
    }

    /// Attaches a filename; everything else is kept.
    pub fn with_filename(self, filename: &str) -> (r: Part)
        ensures
            r.filename matches Some(f) && f@ == filename@,
            r.content == self.content && r.metadata == self.metadata && r.media_type == self.media_type,
    {
        Part { filename: Some(filename.to_owned()), ..self }
    }

    /// Attaches a media type; everything else is kept.
    pub fn with_media_type(self, media_type: &str) -> (r: Part)
        ensures
            r.media_type matches Some(m) && m@ == media_type@,
            r.content == self.content && r.metadata == self.metadata && r.filename == self.filename,
    {
        Part { media_type: Some(media_type.to_owned()), ..self }
    }

    /// The human-readable summary of a part: the text itself, "[url: U]",
    /// "[raw: N bytes]" with the decoded byte count, or "[data: J]".
    pub fn to_string(&self) -> (r: String)
        ensures
            match self.content {
                PartContent::Text(t) => r@ == t@,
                PartContent::Url(u) => r@ == "[url: "@ + u@ + "]"@,
                PartContent::Raw(b) => r@ == "[raw: "@ + decimal_digits(b@.len()) + " bytes]"@,
                PartContent::Data(d) => r@ == "[data: "@ + json_display_text(d) + "]"@,
            },
    {
        match &self.content {
            PartContent::Text(t) => t.clone(),
            PartContent::Url(u) => {
                let mut out = "[url: ".to_owned();
                out.append(u.as_str());
                out.append("]");
                out
            },
            PartContent::Raw(b) => {
                let mut out = "[raw: ".to_owned();
                let n = format_usize(b.len());
                out.append(n.as_str());
                out.append(" bytes]");
                out
            },
            PartContent::Data(d) => {
                let mut out = "[data: ".to_owned();
                let j = display_text(d);
                out.append(j.as_str());
                out.append("]");
                out
            },
        }
    }

    /// The fields of the wire object of this part: the content key first
    /// ("raw" bytes as standard base64), then the attributes present.
    pub fn wire_fields(&self) -> (r: Vec<PartField>)
        ensures
            encodes(*self, r@),
            self.content matches PartContent::Raw(b) ==> (r@[0] matches PartField::Raw(text)
                && text@ == crate::codec::base64_standard_encoded(b@)),
    {
        let mut out: Vec<PartField> = Vec::new();
        match &self.content {
            PartContent::Text(t) => out.push(PartField::Text(t.clone())),
            PartContent::Raw(b) => out.push(PartField::Raw(standard_encode(b.as_slice()))),
            PartContent::Url(u) => out.push(PartField::Url(u.clone())),
            PartContent::Data(d) => out.push(PartField::Data(d.clone())),
        }
        match &self.metadata {
            Some(m) => out.push(PartField::Metadata(object_value(m.clone()))),
            None => {},
        }
        match &self.filename {
            Some(f) => out.push(PartField::Filename(f.clone())),
            None => {},
        }
        match &self.media_type {
            Some(t) => out.push(PartField::MediaType(t.clone())),
            None => {},
        }
        out
    }
}

/// Round trip of the wire form: the fields that `wire_fields` writes for a part
/// are accepted by `from_wire_fields`, and what it reads back is the same part.
pub proof fn lemma_part_wire_round_trip(p: Part, fields: Seq<PartField>, q: Part)
    requires
        encodes(p, fields),
    ensures
        forall|i: int| 0 <= i < fields.len() ==> !field_fails(fields, i),
        content_kinds_present(fields) == 1,
        wire_outcome_ok(fields, q) ==> same_part(q, p),
{
    let fi: int = if p.metadata is Some { 2 } else { 1 };
    let ti: int = if p.filename is Some { fi + 1 } else { fi };
    // Every position after the first holds a distinct attribute kind.
    assert forall|i: int| 1 <= i < fields.len() implies {
        &&& (fields[i].kind() == PartFieldKind::Metadata <==> (p.metadata is Some && i == 1))
        &&& (fields[i].kind() == PartFieldKind::Filename <==> (p.filename is Some && i == fi))
        &&& (fields[i].kind() == PartFieldKind::MediaType <==> (p.media_type is Some && i == ti))
        &&& !is_content_kind(fields[i].kind())
    } by {
    }
    assert forall|i: int| 0 <= i < fields.len() implies !field_fails(fields, i) by {
        if repeats_earlier(fields, i) {
            let j = choose|j: int| 0 <= j < i && #[trigger] fields[j].kind() == fields[i].kind();
            assert(false);
        }
    }
    let k0 = fields[0].kind();
    assert(has_kind(fields, k0));
    assert forall|k: PartFieldKind| is_content_kind(k) && k != k0 implies !has_kind(fields, k) by {
        if has_kind(fields, k) {
            let j = choose|j: int| 0 <= j < fields.len() && #[trigger] fields[j].kind() == k;
            assert(false);
        }
    }
    assert(content_kinds_present(fields) == 1);
    if wire_outcome_ok(fields, q) {
        let i = choose|i: int| 0 <= i < fields.len() && is_content_kind(#[trigger] fields[i].kind())
            && content_from(q.content, fields[i]);
        assert(i == 0);
        if p.metadata is Some {
            assert(has_kind(fields, PartFieldKind::Metadata));
        } else {
            if has_kind(fields, PartFieldKind::Metadata) {
                let j = choose|j: int| 0 <= j < fields.len() && #[trigger] fields[j].kind() == PartFieldKind::Metadata;
                assert(false);
            }
        }
        if p.filename is Some {
            assert(has_kind(fields, PartFieldKind::Filename));
        } else {
            if has_kind(fields, PartFieldKind::Filename) {
                let j = choose|j: int| 0 <= j < fields.len() && #[trigger] fields[j].kind() == PartFieldKind::Filename;
                assert(false);
            }
        }
        if p.media_type is Some {
            assert(has_kind(fields, PartFieldKind::MediaType));
        } else {
            if has_kind(fields, PartFieldKind::MediaType) {
                let j = choose|j: int| 0 <= j < fields.len() && #[trigger] fields[j].kind() == PartFieldKind::MediaType;
                assert(false);
            }
        }
    }
}

} // verus!
