//! Per-request context: the transport-level metadata (credentials, tracing
//! ids) that a transport layer records and handlers read, independent of any
//! HTTP crate.

use vstd::prelude::*;

use crate::text::{decimal_digits, format_usize};

verus! {

/// Bearer token taken from the `Authorization` header (without the `Bearer `
/// prefix). Its debug text never shows the token.
#[derive(Clone)]
pub struct BearerToken(pub String);

/// API key taken from the `X-API-Key` header or similar. Its debug text never
/// shows the key.
#[derive(Clone)]
pub struct ApiKey(pub String);

/// Opaque correlation identifier for request tracing; not a secret.
#[derive(Debug, Clone)]
pub struct CorrelationId(pub String);

/// The slots of an extension map: each kind of metadata has one.
#[derive(Debug, Clone, Copy, PartialEq, Eq, Structural)]
pub enum ExtensionSlot {
    /// The bearer token.
    BearerToken,
    /// The API key.
    ApiKey,
    /// The correlation id.
    CorrelationId,
}

/// A value stored in an extension map, tagged by its kind.
pub enum ExtensionEntry {
    /// A bearer token.
    BearerToken(BearerToken),
    /// An API key.
    ApiKey(ApiKey),
    /// A correlation id.
    CorrelationId(CorrelationId),
}

impl ExtensionEntry {
    /// The slot this entry belongs in.
    pub open spec fn slot(&self) -> ExtensionSlot {
        match self {
            ExtensionEntry::BearerToken(_) => ExtensionSlot::BearerToken,
            ExtensionEntry::ApiKey(_) => ExtensionSlot::ApiKey,
            ExtensionEntry::CorrelationId(_) => ExtensionSlot::CorrelationId,
        }
    }
}

/// A kind of value that an extension map can hold, one slot per kind.
pub trait Extension: Sized {
    /// The slot values of this kind occupy.
    spec fn slot() -> ExtensionSlot;

    /// The entry that stores this value.
    spec fn entry(self) -> ExtensionEntry;

    /// Distinct values are stored as distinct entries.
    proof fn lemma_entry_injective(a: Self, b: Self)
        requires
            a.entry() == b.entry(),
        ensures
            a == b,
    ;

    /// The slot values of this kind occupy.
    fn slot_of() -> (r: ExtensionSlot)
        ensures
            r == Self::slot(),
    ;

    /// Wraps the value as its entry.
    fn into_entry(self) -> (r: ExtensionEntry)
        ensures
            r == self.entry(),
            r.slot() == Self::slot(),
    ;

    /// The value an entry holds, when it is of this kind.
    fn from_entry(entry: ExtensionEntry) -> (r: Option<Self>)
        ensures
            r is Some <==> entry.slot() == Self::slot(),
            r matches Some(v) ==> v.entry() == entry,
    ;

    /// A reference to the value an entry holds, when it is of this kind.
    fn entry_ref(entry: &ExtensionEntry) -> (r: Option<&Self>)
        ensures
            r is Some <==> entry.slot() == Self::slot(),
            r matches Some(v) ==> v.entry() == *entry,
    ;
}

impl Extension for BearerToken {
    open spec fn slot() -> ExtensionSlot {
        ExtensionSlot::BearerToken
    }

    open spec fn entry(self) -> ExtensionEntry {
        ExtensionEntry::BearerToken(self)
    }

    proof fn lemma_entry_injective(a: Self, b: Self) {
    }

    fn slot_of() -> (r: ExtensionSlot) {
        ExtensionSlot::BearerToken
    }

    fn into_entry(self) -> (r: ExtensionEntry) {
        ExtensionEntry::BearerToken(self)
    }

    fn from_entry(entry: ExtensionEntry) -> (r: Option<Self>) {
        match entry {
            ExtensionEntry::BearerToken(v) => Some(v),
            _ => None,
        }
    }

    fn entry_ref(entry: &ExtensionEntry) -> (r: Option<&Self>) {
        match entry {
            ExtensionEntry::BearerToken(v) => Some(v),
            _ => None,
        }
    }
}

impl Extension for ApiKey {
    open spec fn slot() -> ExtensionSlot {
        ExtensionSlot::ApiKey
    }

    open spec fn entry(self) -> ExtensionEntry {
        ExtensionEntry::ApiKey(self)
    }

    proof fn lemma_entry_injective(a: Self, b: Self) {
    }

    fn slot_of() -> (r: ExtensionSlot) {
        ExtensionSlot::ApiKey
    }

    fn into_entry(self) -> (r: ExtensionEntry) {
        ExtensionEntry::ApiKey(self)
    }

    fn from_entry(entry: ExtensionEntry) -> (r: Option<Self>) {
        match entry {
            ExtensionEntry::ApiKey(v) => Some(v),
            _ => None,
        }
    }

    fn entry_ref(entry: &ExtensionEntry) -> (r: Option<&Self>) {
        match entry {
            ExtensionEntry::ApiKey(v) => Some(v),
            _ => None,
        }
    }
}

impl Extension for CorrelationId {
    open spec fn slot() -> ExtensionSlot {
        ExtensionSlot::CorrelationId
    }

    open spec fn entry(self) -> ExtensionEntry {
        ExtensionEntry::CorrelationId(self)
    }

    proof fn lemma_entry_injective(a: Self, b: Self) {
    }

    fn slot_of() -> (r: ExtensionSlot) {
        ExtensionSlot::CorrelationId
    }

    fn into_entry(self) -> (r: ExtensionEntry) {
        ExtensionEntry::CorrelationId(self)
    }

    fn from_entry(entry: ExtensionEntry) -> (r: Option<Self>) {
        match entry {
            ExtensionEntry::CorrelationId(v) => Some(v),
            _ => None,
        }
    }

    fn entry_ref(entry: &ExtensionEntry) -> (r: Option<&Self>) {
        match entry {
            ExtensionEntry::CorrelationId(v) => Some(v),
            _ => None,
        }
    }
}

/// Per-request metadata keyed by kind: each kind of value appears at most
/// once, and inserting a value of a kind already present replaces it.
pub struct Extensions {
    bearer_token: Option<ExtensionEntry>,
    api_key: Option<ExtensionEntry>,
    correlation_id: Option<ExtensionEntry>,
}

impl Extensions {
    /// What the field for a slot holds.
    closed spec fn field(&self, slot: ExtensionSlot) -> Option<ExtensionEntry> {
        match slot {
            ExtensionSlot::BearerToken => self.bearer_token,
            ExtensionSlot::ApiKey => self.api_key,
            ExtensionSlot::CorrelationId => self.correlation_id,
        }
    }

    /// Whether a slot holds a value of its kind.
    closed spec fn occupied(&self, slot: ExtensionSlot) -> bool {
        self.field(slot) matches Some(e) && e.slot() == slot
    }

    /// The values present, by slot.
    pub closed spec fn view(&self) -> Map<ExtensionSlot, ExtensionEntry> {
        Map::new(|slot: ExtensionSlot| self.occupied(slot), |slot: ExtensionSlot| self.field(slot)->Some_0)
    }

    /// The number of values present.
    pub open spec fn spec_count(&self) -> nat {
        (if self@.contains_key(ExtensionSlot::BearerToken) { 1nat } else { 0nat })
            + (if self@.contains_key(ExtensionSlot::ApiKey) { 1nat } else { 0nat })
            + (if self@.contains_key(ExtensionSlot::CorrelationId) { 1nat } else { 0nat })
    }

    /// An empty map.
    pub fn new() -> (r: Extensions)
        ensures
            r@ == Map::<ExtensionSlot, ExtensionEntry>::empty(),
    {
        let r = Extensions { bearer_token: None, api_key: None, correlation_id: None };
        assert(r@ =~= Map::<ExtensionSlot, ExtensionEntry>::empty());
        r
    }

    /// Swaps the entry of a slot with `entry`, giving back what it held.
    fn replace_slot(&mut self, slot: ExtensionSlot, entry: ExtensionEntry) -> (r: Option<ExtensionEntry>)
        requires
            entry.slot() == slot,
        ensures
            final(self)@ == old(self)@.insert(slot, entry),
            r is Some && r->0.slot() == slot <==> old(self)@.contains_key(slot),
            old(self)@.contains_key(slot) ==> r == Some(old(self)@[slot]),
    {
        let previous = match slot {
            ExtensionSlot::BearerToken => {
                let held = self.bearer_token.take();
                self.bearer_token = Some(entry);
                held
            },
            ExtensionSlot::ApiKey => {
                let held = self.api_key.take();
                self.api_key = Some(entry);
                held
            },
            ExtensionSlot::CorrelationId => {
                let held = self.correlation_id.take();
                self.correlation_id = Some(entry);
                held
            },
        };
        assert(self@ =~= old(self)@.insert(slot, entry));
        previous
    }

    /// The entry of a slot.
    fn slot_entry(&self, slot: ExtensionSlot) -> (r: Option<&ExtensionEntry>)
        ensures
            self@.contains_key(slot) ==> r == Some(&self@[slot]),
            !self@.contains_key(slot) ==> (r matches Some(e) ==> e.slot() != slot),
    {
        match slot {
            ExtensionSlot::BearerToken => self.bearer_token.as_ref(),
            ExtensionSlot::ApiKey => self.api_key.as_ref(),
            ExtensionSlot::CorrelationId => self.correlation_id.as_ref(),
        }
    }

    /// Stores a value in its kind's slot, giving back the value it replaced.
    pub fn insert<T: Extension>(&mut self, value: T) -> (r: Option<T>)
        ensures
            final(self)@ == old(self)@.insert(T::slot(), value.entry()),
            r is Some <==> old(self)@.contains_key(T::slot()),
            r matches Some(previous) ==> previous.entry() == old(self)@[T::slot()],
    {
        let slot = T::slot_of();
        let entry = value.into_entry();
        match self.replace_slot(slot, entry) {
            Some(previous) => T::from_entry(previous),
            None => None,
        }
    }

    /// The value of kind `T`, if one is present.
    pub fn get<T: Extension>(&self) -> (r: Option<&T>)
        ensures
            r is Some <==> self@.contains_key(T::slot()),
            r matches Some(v) ==> v.entry() == self@[T::slot()],
    {
        match self.slot_entry(T::slot_of()) {
            Some(entry) => T::entry_ref(entry),
            None => None,
        }
    }

    /// Whether a value of kind `T` is present.
    pub fn contains<T: Extension>(&self) -> (r: bool)
        ensures
            r == self@.contains_key(T::slot()),
    {
        match self.slot_entry(T::slot_of()) {
            Some(entry) => T::entry_ref(entry).is_some(),
            None => false,
        }
    }

    /// The number of values present.
    pub fn len(&self) -> (r: usize)
        ensures
            r == self.spec_count(),
    {
        let a: usize = if self.contains::<BearerToken>() { 1 } else { 0 };
        let b: usize = if self.contains::<ApiKey>() { 1 } else { 0 };
        let c: usize = if self.contains::<CorrelationId>() { 1 } else { 0 };
        a + b + c
    }

    /// The debug text: the number of values, never the values.
    pub open spec fn spec_debug_text(&self) -> Seq<char> {
        "Extensions { count: "@ + decimal_digits(self.spec_count()) + " }"@
    }

    /// The debug text: the number of values, never the values.
    pub fn debug_string(&self) -> (r: String)
        ensures
            r@ == self.spec_debug_text(),
    {
        let mut out = "Extensions { count: ".to_owned();
        let count = format_usize(self.len());
        out.append(count.as_str());
        out.append(" }");
        out
    }
}

impl Default for Extensions {
    fn default() -> (r: Extensions)
        ensures
            r@ == Map::<ExtensionSlot, ExtensionEntry>::empty(),
    {
        Extensions::new()
    }
}

/// Reading a kind after inserting a value of it gives that value back.
pub proof fn lemma_get_after_insert<T: Extension>(ext: Map<ExtensionSlot, ExtensionEntry>, value: T, read: T)
    requires
        read.entry() == ext.insert(T::slot(), value.entry())[T::slot()],
    ensures
        ext.insert(T::slot(), value.entry()).contains_key(T::slot()),
        read == value,
{
    T::lemma_entry_injective(read, value);
}

/// Inserting a value of one kind leaves every other kind's value as it was.
pub proof fn lemma_insert_leaves_other_slots(ext: Map<ExtensionSlot, ExtensionEntry>, slot: ExtensionSlot, entry: ExtensionEntry)
    ensures
        forall|other: ExtensionSlot| other != slot ==> (#[trigger] ext.insert(slot, entry).contains_key(other)
            <==> ext.contains_key(other)) && (ext.contains_key(other) ==> ext.insert(slot, entry)[other] == ext[other]),
{
}

/// The debug text of an extension map shows how many values it holds and
/// nothing of the values: maps with the same number of values read the same.
pub proof fn lemma_debug_text_hides_values(a: Extensions, b: Extensions)
    requires
        a.spec_count() == b.spec_count(),
    ensures
        a.spec_debug_text() == b.spec_debug_text(),
{
}

/// Per-request context carrying transport-level metadata alongside the
/// JSON-RPC parameters.
pub struct RequestContext {
    extensions: Extensions,
}

impl RequestContext {
    /// The context's extension map.
    pub closed spec fn spec_extensions(&self) -> Extensions {
        self.extensions
    }

    /// An empty context.
    pub fn new() -> (r: RequestContext)
        ensures
            r.spec_extensions()@ == Map::<ExtensionSlot, ExtensionEntry>::empty(),
    {
        RequestContext { extensions: Extensions::new() }
    }

    /// The extension map, to read.
    pub fn extensions(&self) -> (r: &Extensions)
        ensures
            *r == self.spec_extensions(),
    {
        &self.extensions
    }

    /// The extension map, to insert into; what is done through it is what the
    /// context holds afterwards.
    pub fn extensions_mut(&mut self) -> (r: &mut Extensions)
        ensures
            *r == old(self).spec_extensions(),
            final(self).spec_extensions() == *final(r),
    {
        &mut self.extensions
    }

    /// The debug text: the extension map's, which shows only the count.
    pub open spec fn spec_debug_text(&self) -> Seq<char> {
        "RequestContext { extensions: "@ + self.spec_extensions().spec_debug_text() + " }"@
    }

    /// The debug text: the extension map's, which shows only the count.
    pub fn debug_string(&self) -> (r: String)
        ensures
            r@ == self.spec_debug_text(),
    {
        let mut out = "RequestContext { extensions: ".to_owned();
        let inner = self.extensions.debug_string();
        out.append(inner.as_str());
        out.append(" }");
        out
    }
}

impl Default for RequestContext {
    fn default() -> (r: RequestContext)
        ensures
            r.spec_extensions()@ == Map::<ExtensionSlot, ExtensionEntry>::empty(),
    {
        RequestContext::new()
    }
}

impl BearerToken {
    /// The debug text, which hides the token.
    pub open spec fn spec_debug_text(&self) -> Seq<char> {
        "BearerToken(\"[REDACTED]\")"@
    }

    /// The debug text, which hides the token.
    pub fn debug_string(&self) -> (r: String)
        ensures
            r@ == self.spec_debug_text(),
    {
        "BearerToken(\"[REDACTED]\")".to_owned()
    }
}

impl ApiKey {
    /// The debug text, which hides the key.
    pub open spec fn spec_debug_text(&self) -> Seq<char> {
        "ApiKey(\"[REDACTED]\")"@
    }

    /// The debug text, which hides the key.
    pub fn debug_string(&self) -> (r: String)
        ensures
            r@ == self.spec_debug_text(),
    {
        "ApiKey(\"[REDACTED]\")".to_owned()
    }
}

} // verus!
