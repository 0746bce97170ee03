//! Plain-data model of what travels over the system bus.
//!
//! The brokers never look at a live bus object. The caller reads properties
//! and settings from the bus and hands them over as [`BusValue`]s; a property
//! that could not be read at all is handed over as `None`. The readers in
//! this module say what a value counts as when it is missing or has another
//! type than expected: that is never an error, it is the property's default.

use vstd::prelude::*;
use vstd::string::*;
use crate::order::views;
use crate::text::str_eq;

verus! {

/// A value read from the bus, as far as the control plane looks into it.
#[derive(Debug)]
pub enum BusValue {
    Bool(bool),
    U8(u8),
    U32(u32),
    Str(String),
    /// An object path.
    Path(String),
    Array(Vec<BusValue>),
    /// A dictionary with text keys.
    Dict(Vec<Entry<BusValue>>),
    /// Any value of a type that nothing here reads.
    Other,
}

/// One entry of a dictionary: a text key and what is stored under it.
#[derive(Debug)]
pub struct Entry<V> {
    pub key: String,
    pub value: V,
}

/// A dictionary entry with its key as a mathematical value.
pub struct EntryView<V> {
    pub key: Seq<char>,
    pub value: V,
}

impl<V> View for Entry<V> {
    type V = EntryView<V>;

    open spec fn view(&self) -> EntryView<V> {
        EntryView { key: self.key@, value: self.value }
    }
}

/// The path that stands for "no object".
pub open spec fn root_path() -> Seq<char> {
    "/"@
}

/// Whether `c` may occur in an element of an object path.
pub open spec fn is_element_char(c: char) -> bool {
    ('A' <= c && c <= 'Z') || ('a' <= c && c <= 'z') || ('0' <= c && c <= '9') || c == '_'
}

/// Whether `s` is a well-formed object path: it starts with a slash, holds
/// only ASCII letters, digits, underscores and slashes, has no two slashes
/// in a row, and ends with a slash only when it is the root path.
pub open spec fn valid_object_path(s: Seq<char>) -> bool {
    &&& s.len() >= 1
    &&& s[0] == '/'
    &&& forall|i: int| 0 <= i < s.len() ==> s[i] == '/' || is_element_char(#[trigger] s[i])
    &&& forall|i: int| 0 <= i < s.len() - 1 ==> !(#[trigger] s[i] == '/' && s[i + 1] == '/')
    &&& (s.len() > 1 ==> s[s.len() - 1] != '/')
}

/// Whether the bus library accepts `s` as an object path.
///
/// Calls `ObjectPath::try_from(&str)` of `zvariant` and reports whether it
/// succeeded. The contract restates the rules that conversion checks: at
/// least one character, a leading slash, no trailing slash but for the root,
/// no empty element, and only ASCII alphanumerics, `_` and `/`.
#[verifier::external_body]
pub(crate) fn object_path_accepted(s: &str) -> (ok: bool)
    ensures
        ok == valid_object_path(s@),
{
    zbus::zvariant::ObjectPath::try_from(s).is_ok()
}

/// A boolean property, where the value is one.
pub open spec fn bool_of(v: Option<BusValue>) -> Option<bool> {
    match v {
        Some(BusValue::Bool(b)) => Some(b),
        _ => None,
    }
}

/// A byte property, where the value is one.
pub open spec fn u8_of(v: Option<BusValue>) -> Option<u8> {
    match v {
        Some(BusValue::U8(b)) => Some(b),
        _ => None,
    }
}

/// A 32-bit unsigned property, where the value is one.
pub open spec fn u32_of(v: Option<BusValue>) -> Option<u32> {
    match v {
        Some(BusValue::U32(n)) => Some(n),
        _ => None,
    }
}

/// A text property, where the value is one.
pub open spec fn text_of(v: Option<BusValue>) -> Option<Seq<char>> {
    match v {
        Some(BusValue::Str(s)) => Some(s@),
        _ => None,
    }
}

/// An object-path property, where the value is one.
pub open spec fn path_of(v: Option<BusValue>) -> Option<Seq<char>> {
    match v {
        Some(BusValue::Path(s)) => Some(s@),
        _ => None,
    }
}

/// The bytes among `items`, in order; items that are no bytes are skipped.
pub open spec fn bytes_among(items: Seq<BusValue>) -> Seq<u8>
    decreases items.len(),
{
    if items.len() == 0 {
        Seq::empty()
    } else {
        let before = bytes_among(items.drop_last());
        match items.last() {
            BusValue::U8(b) => before.push(b),
            _ => before,
        }
    }
}

/// A byte-array property: the bytes of an array value, and nothing for any
/// other value.
pub open spec fn bytes_of(v: Option<BusValue>) -> Seq<u8> {
    match v {
        Some(BusValue::Array(items)) => bytes_among(items@),
        _ => Seq::empty(),
    }
}

/// The position of the first entry of `entries` with key `key`, or the
/// length of `entries` when there is none.
pub open spec fn entry_index<V>(entries: Seq<EntryView<V>>, key: Seq<char>) -> int {
    entry_index_from(entries, key, 0)
}

/// The position of the first entry with key `key` at or after `from`, or
/// the length of `entries` when there is none.
pub open spec fn entry_index_from<V>(entries: Seq<EntryView<V>>, key: Seq<char>, from: int) -> int
    decreases entries.len() - from,
{
    if from >= entries.len() {
        entries.len() as int
    } else if entries[from].key == key {
        from
    } else {
        entry_index_from(entries, key, from + 1)
    }
}

/// The value that `entries` holds under `key`: that of the first such entry.
pub open spec fn entry_value<V>(entries: Seq<EntryView<V>>, key: Seq<char>) -> Option<V> {
    let i = entry_index(entries, key);
    if i < entries.len() {
        Some(entries[i].value)
    } else {
        None
    }
}

/// [`entry_index_from`] finds the first entry with the key at or after
/// `from`.
pub proof fn lemma_entry_index<V>(entries: Seq<EntryView<V>>, key: Seq<char>, from: int)
    requires
        0 <= from <= entries.len(),
    ensures
        from <= entry_index_from(entries, key, from) <= entries.len(),
        forall|k: int|
            from <= k < entry_index_from(entries, key, from) ==> entries[k].key != key,
        entry_index_from(entries, key, from) < entries.len() ==> entries[entry_index_from(
            entries,
            key,
            from,
        )].key == key,
    decreases entries.len() - from,
{
    if from < entries.len() && entries[from].key != key {
        lemma_entry_index(entries, key, from + 1);
    }
}

/// A position before which no entry has the key, and which holds one or is
/// the end, is the one that [`entry_index_from`] finds.
pub proof fn lemma_entry_index_is<V>(entries: Seq<EntryView<V>>, key: Seq<char>, from: int, at: int)
    requires
        0 <= from <= at <= entries.len(),
        forall|k: int| from <= k < at ==> entries[k].key != key,
        at < entries.len() ==> entries[at].key == key,
    ensures
        entry_index_from(entries, key, from) == at,
    decreases at - from,
{
    if from < at {
        lemma_entry_index_is(entries, key, from + 1, at);
    }
}

impl BusValue {
    /// Reads a boolean property.
    pub fn read_bool(v: Option<&BusValue>) -> (r: Option<bool>)
        ensures
            r == bool_of(deref_value(v)),
    {
        match v {
            Some(BusValue::Bool(b)) => Some(*b),
            _ => None,
        }
    }

    /// Reads a byte property.
    pub fn read_u8(v: Option<&BusValue>) -> (r: Option<u8>)
        ensures
            r == u8_of(deref_value(v)),
    {
        match v {
            Some(BusValue::U8(b)) => Some(*b),
            _ => None,
        }
    }

    /// Reads a 32-bit unsigned property.
    pub fn read_u32(v: Option<&BusValue>) -> (r: Option<u32>)
        ensures
            r == u32_of(deref_value(v)),
    {
        match v {
            Some(BusValue::U32(n)) => Some(*n),
            _ => None,
        }
    }

    /// Reads a text property.
    pub fn read_text(v: Option<&BusValue>) -> (r: Option<&str>)
        ensures
            match r {
                Some(s) => text_of(deref_value(v)) == Some(s@),
                None => text_of(deref_value(v)) is None,
            },
    {
        match v {
            Some(BusValue::Str(s)) => Some(s.as_str()),
            _ => None,
        }
    }

    /// Reads an object-path property.
    pub fn read_path(v: Option<&BusValue>) -> (r: Option<&str>)
        ensures
            match r {
                Some(s) => path_of(deref_value(v)) == Some(s@),
                None => path_of(deref_value(v)) is None,
            },
    {
        match v {
            Some(BusValue::Path(s)) => Some(s.as_str()),
            _ => None,
        }
    }

    /// Reads a byte-array property.
    pub fn read_bytes(v: Option<&BusValue>) -> (r: Vec<u8>)
        ensures
            r@ == bytes_of(deref_value(v)),
    {
        match v {
            Some(BusValue::Array(items)) => bytes_in(items),
            _ => Vec::new(),
        }
    }
}

/// The value behind an optional reference.
pub open spec fn deref_value(v: Option<&BusValue>) -> Option<BusValue> {
    match v {
        Some(r) => Some(*r),
        None => None,
    }
}

/// Collects the bytes among `items`.
pub fn bytes_in(items: &Vec<BusValue>) -> (r: Vec<u8>)
    ensures
        r@ == bytes_among(items@),
{
    let mut out: Vec<u8> = Vec::new();
    let mut i: usize = 0;
    while i < items.len()
        invariant
            i <= items.len(),
            out@ == bytes_among(items@.take(i as int)),
        decreases items.len() - i,
    {
        proof {
            assert(items@.take(i + 1).drop_last() =~= items@.take(i as int));
        }
        match &items[i] {
            BusValue::U8(b) => out.push(*b),
            _ => {},
        }
        i += 1;
    }
    proof {
        assert(items@.take(items.len() as int) =~= items@);
    }
    out
}

/// Where the first entry with key `key` stands among `entries`.
pub fn find_entry<V>(entries: &Vec<Entry<V>>, key: &str) -> (i: usize)
    ensures
        i == entry_index(views(entries@), key@),
        i <= entries.len(),
{
    let mut i: usize = 0;
    while i < entries.len() && !str_eq(entries[i].key.as_str(), key)
        invariant
            i <= entries.len(),
            entry_index(views(entries@), key@) == entry_index_from(
                views(entries@),
                key@,
                i as int,
            ),
        decreases entries.len() - i,
    {
        i += 1;
    }
    i
}

/// Looks `key` up among dictionary entries.
pub fn lookup<'a, V>(entries: &'a Vec<Entry<V>>, key: &str) -> (r: Option<&'a V>)
    ensures
        match r {
            Some(v) => entry_value(views(entries@), key@) == Some(*v),
            None => entry_value(views(entries@), key@) is None,
        },
{
    let i = find_entry(entries, key);
    if i < entries.len() {
        Some(&entries[i].value)
    } else {
        None
    }
}

} // verus!
