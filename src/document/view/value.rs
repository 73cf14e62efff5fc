//! Views for value types: IRIs, natural language values, and raw strings.
use vstd::prelude::*;

use crate::document::view::fetch;
use crate::document::view::fetch::types::fetched;
use crate::document::view::{PropertyError, Result, TryFromJsonValue};
use crate::document::{JsonObject, JsonValue};
use crate::iri::{url_parses, ResolvedIri};

verus! {

/// Holds when `value` is a string node with the text `s`.
pub open spec fn is_string_node(value: JsonValue, s: Seq<char>) -> bool {
    value matches JsonValue::String(t) && t@ == s
}

impl<'a> TryFromJsonValue<'a> for &'a str {
    open spec fn accepts(value: JsonValue) -> bool {
        value is String
    }

    open spec fn reads(self, value: JsonValue) -> bool {
        is_string_node(value, self@)
    }

    fn validate_json_value(value: &JsonValue) -> (r: Result<()>) {
        match value {
            JsonValue::String(_) => Ok(()),
            _ => Err(PropertyError::TypeMismatch),
        }
    }

    fn try_from_json_value(value: &'a JsonValue) -> (r: Result<&'a str>) {
        match <&'a str as TryFromJsonValue<'a>>::validate_json_value(value) {
            Err(e) => Err(e),
            Ok(()) => match value {
                JsonValue::String(s) => Ok(s.as_str()),
                _ => vstd::pervasive::unreached(),
            },
        }
    }
}

/// An IRI view.
#[derive(Debug, Clone, Copy, PartialEq)]
pub struct IriView<'a> {
    /// Target object.
    object: &'a str,
}

impl<'a> View for IriView<'a> {
    type V = Seq<char>;

    closed spec fn view(&self) -> Seq<char> {
        self.object@
    }
}

impl<'a> IriView<'a> {
    /// Creates a new `IriView`.
    pub fn new(s: &'a str) -> (r: Self)
        ensures
            r@ == s@,
    {
        Self { object: s }
    }

    /// Tries to convert to `ResolvedIri`.
    pub fn to_iri(&self) -> (r: Result<ResolvedIri<'a>>)
        ensures
            r is Ok <==> url_parses(self@),
            r matches Ok(v) ==> v.text() == self@ && v.url().is_url_of(self@),
            r matches Err(e) ==> e is Iri,
    {
        match ResolvedIri::try_from_str(self.object) {
            Ok(v) => Ok(v),
            Err(e) => Err(PropertyError::Iri(e)),
        }
    }
}

impl<'a> TryFromJsonValue<'a> for IriView<'a> {
    open spec fn accepts(value: JsonValue) -> bool {
        value is String
    }

    open spec fn reads(self, value: JsonValue) -> bool {
        is_string_node(value, self@)
    }

    fn validate_json_value(value: &JsonValue) -> (r: Result<()>) {
        match value {
            JsonValue::String(_) => Ok(()),
            _ => Err(PropertyError::TypeMismatch),
        }
    }

    fn try_from_json_value(value: &'a JsonValue) -> (r: Result<Self>) {
        match Self::validate_json_value(value) {
            Err(e) => Err(e),
            Ok(()) => match value {
                JsonValue::String(s) => Ok(Self { object: s.as_str() }),
                _ => vstd::pervasive::unreached(),
            },
        }
    }
}

/// A view to a natural language value: a bare string, or a map from language
/// tags to strings.
#[derive(Debug, Clone, Copy, PartialEq)]
pub enum NaturalLanguageView<'a> {
    /// A simple string without (explicit) language tags.
    String(&'a str),
    /// A map with language tag keys and string values.
    LangString(LangStringView<'a>),
}

impl<'a> TryFromJsonValue<'a> for NaturalLanguageView<'a> {
    open spec fn accepts(value: JsonValue) -> bool {
        value is String || value is Object
    }

    open spec fn reads(self, value: JsonValue) -> bool {
        match self {
            NaturalLanguageView::String(s) => is_string_node(value, s@),
            NaturalLanguageView::LangString(l) => value matches JsonValue::Object(m) && l@ == m,
        }
    }

    fn validate_json_value(value: &JsonValue) -> (r: Result<()>) {
        match value {
            JsonValue::String(_) | JsonValue::Object(_) => Ok(()),
            _ => Err(PropertyError::TypeMismatch),
        }
    }

    fn try_from_json_value(value: &'a JsonValue) -> (r: Result<Self>) {
        match Self::validate_json_value(value) {
            Err(e) => Err(e),
            Ok(()) => match value {
                JsonValue::String(s) => Ok(NaturalLanguageView::String(s.as_str())),
                JsonValue::Object(m) => Ok(NaturalLanguageView::LangString(LangStringView::new(m))),
                _ => vstd::pervasive::unreached(),
            },
        }
    }
}

/// A map with language tag keys and string values.
#[derive(Debug, Clone, Copy, PartialEq)]
pub struct LangStringView<'a> {
    /// Target object.
    object: &'a JsonObject,
}

impl<'a> View for LangStringView<'a> {
    type V = JsonObject;

    closed spec fn view(&self) -> JsonObject {
        *self.object
    }
}

/// Holds when `x` is the item that iterating over a language map yields for
/// the entry `entry`: the tag and the text where the value is a string, and a
/// type mismatch where it is not.
pub open spec fn lang_item(entry: (String, JsonValue), x: Result<(&str, &str)>) -> bool {
    match entry.1 {
        JsonValue::String(s) => x matches Ok((k, v)) && k@ == entry.0@ && v@ == s@,
        _ => x matches Err(e) && e is TypeMismatch,
    }
}

/// Holds when `items` is what a full iteration over a language map with the
/// entries `entries` yields, in order.
pub open spec fn lang_items(entries: Seq<(String, JsonValue)>, items: Seq<Result<(&str, &str)>>) -> bool {
    &&& items.len() == entries.len()
    &&& forall|i: int| 0 <= i < entries.len() ==> #[trigger] lang_item(entries[i], items[i])
}

/// A language map with one value that is not a string yields one type mismatch,
/// at that entry's position, and the tag and text of every other entry: one bad
/// entry does not stop the iteration.
pub proof fn lemma_lang_items_one_bad(
    entries: Seq<(String, JsonValue)>,
    items: Seq<Result<(&str, &str)>>,
    bad: int,
)
    requires
        0 <= bad < entries.len(),
        !(entries[bad].1 is String),
        forall|i: int| 0 <= i < entries.len() && i != bad ==> entries[i].1 is String,
        lang_items(entries, items),
    ensures
        items[bad] matches Err(e) && e is TypeMismatch,
        forall|i: int| 0 <= i < items.len() && i != bad ==> items[i] is Ok,
{
    assert(lang_item(entries[bad], items[bad]));
    assert forall|i: int| 0 <= i < items.len() && i != bad implies items[i] is Ok by {
        assert(lang_item(entries[i], items[i]));
    }
}

impl<'a> LangStringView<'a> {
    /// Creates a new `LangStringView`.
    pub fn new(object: &'a JsonObject) -> (r: Self)
        ensures
            r@ == *object,
    {
        Self { object }
    }

    /// Returns the string associated with the given language tag string.
    pub fn get_raw(&self, raw_tag: &str) -> (r: Result<&'a str>)
        ensures
            fetched(self@.spec_get(raw_tag@), r),
    {
        fetch::types::string(self.object.get(raw_tag))
    }

    /// Creates an iterator over the entries, in order.
    pub fn iter(&self) -> (r: LangStringViewIter<'a>)
        ensures
            r.remaining() == self@.entries(),
    {
        let r = LangStringViewIter { object: self.object, pos: 0 };
        assert(r.remaining() =~= self@.entries());
        r
    }
}

impl<'a> TryFromJsonValue<'a> for LangStringView<'a> {
    open spec fn accepts(value: JsonValue) -> bool {
        value is Object
    }

    open spec fn reads(self, value: JsonValue) -> bool {
        value matches JsonValue::Object(m) && self@ == m
    }

    fn validate_json_value(value: &JsonValue) -> (r: Result<()>) {
        match value {
            JsonValue::Object(_) => Ok(()),
            _ => Err(PropertyError::TypeMismatch),
        }
    }

    fn try_from_json_value(value: &'a JsonValue) -> (r: Result<Self>) {
        match Self::validate_json_value(value) {
            Err(e) => Err(e),
            Ok(()) => match value {
                JsonValue::Object(m) => Ok(Self { object: m }),
                _ => vstd::pervasive::unreached(),
            },
        }
    }
}

/// Iterator over `LangStringView`: the raw language tag and the text of each
/// entry, or a type mismatch for an entry whose value is not a string.
pub struct LangStringViewIter<'a> {
    object: &'a JsonObject,
    pos: usize,
}

impl<'a> LangStringViewIter<'a> {
    #[verifier::type_invariant]
    closed spec fn in_bounds(self) -> bool {
        self.pos <= self.object.entries().len()
    }

    /// The entries not yet yielded, in order.
    pub closed spec fn remaining(self) -> Seq<(String, JsonValue)> {
        self.object.entries().subrange(self.pos as int, self.object.entries().len() as int)
    }

    /// Yields the next entry.
    pub fn next(&mut self) -> (r: Option<Result<(&'a str, &'a str)>>)
        ensures
            old(self).remaining().len() == 0 ==> r is None && final(self).remaining()
                == old(self).remaining(),
            old(self).remaining().len() > 0 ==> {
                &&& r matches Some(x) && lang_item(old(self).remaining()[0], x)
                &&& final(self).remaining() == old(self).remaining().drop_first()
            },
    {
        proof {
            use_type_invariant(&*self);
        }
        if self.pos >= self.object.len() {
            return None;
        }
        let (key, value) = self.object.entry(self.pos);
        let item = match value {
            JsonValue::String(s) => Ok((key, s.as_str())),
            _ => Err(PropertyError::TypeMismatch),
        };
        self.pos = self.pos + 1;
        assert(self.remaining() =~= old(self).remaining().drop_first());
        Some(item)
    }

    /// Returns the number of entries not yet yielded.
    pub fn len(&self) -> (r: usize)
        ensures
            r == self.remaining().len(),
    {
        proof {
            use_type_invariant(self);
        }
        self.object.len() - self.pos
    }
}

/// A datetime view: the raw text of a date and time. Its grammar is not
/// interpreted here.
#[derive(Debug, Clone, Copy, PartialEq, Eq, PartialOrd, Ord, Hash)]
pub struct DateTimeView<'a> {
    /// Target object.
    object: &'a str,
}

impl<'a> View for DateTimeView<'a> {
    type V = Seq<char>;

    closed spec fn view(&self) -> Seq<char> {
        self.object@
    }
}

impl<'a> DateTimeView<'a> {
    /// Returns the raw string data.
    pub fn raw_str(&self) -> (r: &'a str)
        ensures
            r@ == self@,
    {
        self.object
    }
}

impl<'a> TryFromJsonValue<'a> for DateTimeView<'a> {
    open spec fn accepts(value: JsonValue) -> bool {
        value is String
    }

    open spec fn reads(self, value: JsonValue) -> bool {
        is_string_node(value, self@)
    }

    fn validate_json_value(value: &JsonValue) -> (r: Result<()>) {
        match value {
            JsonValue::String(_) => Ok(()),
            _ => Err(PropertyError::TypeMismatch),
        }
    }

    fn try_from_json_value(value: &'a JsonValue) -> (r: Result<Self>) {
        match Self::validate_json_value(value) {
            Err(e) => Err(e),
            Ok(()) => match value {
                JsonValue::String(s) => Ok(Self { object: s.as_str() }),
                _ => vstd::pervasive::unreached(),
            },
        }
    }
}

/// A media type view: the raw text of a MIME media type. Its grammar is not
/// interpreted here.
#[derive(Debug, Clone, Copy, PartialEq, Eq, PartialOrd, Ord, Hash)]
pub struct MediaTypeView<'a> {
    /// Target object.
    object: &'a str,
}

impl<'a> View for MediaTypeView<'a> {
    type V = Seq<char>;

    closed spec fn view(&self) -> Seq<char> {
        self.object@
    }
}

impl<'a> MediaTypeView<'a> {
    /// Returns the raw string data.
    pub fn raw_str(&self) -> (r: &'a str)
        ensures
            r@ == self@,
    {
        self.object
    }
}

impl<'a> TryFromJsonValue<'a> for MediaTypeView<'a> {
    open spec fn accepts(value: JsonValue) -> bool {
        value is String
    }

    open spec fn reads(self, value: JsonValue) -> bool {
        is_string_node(value, self@)
    }

    fn validate_json_value(value: &JsonValue) -> (r: Result<()>) {
        match value {
            JsonValue::String(_) => Ok(()),
            _ => Err(PropertyError::TypeMismatch),
        }
    }

    fn try_from_json_value(value: &'a JsonValue) -> (r: Result<Self>) {
        match Self::validate_json_value(value) {
            Err(e) => Err(e),
            Ok(()) => match value {
                JsonValue::String(s) => Ok(Self { object: s.as_str() }),
                _ => vstd::pervasive::unreached(),
            },
        }
    }
}

/// A duration view: the raw text of an ISO 8601 duration. Its grammar is not
/// interpreted here.
#[derive(Debug, Clone, Copy, PartialEq, Eq, PartialOrd, Ord, Hash)]
pub struct DurationView<'a> {
    /// Target object.
    object: &'a str,
}

impl<'a> View for DurationView<'a> {
    type V = Seq<char>;

    closed spec fn view(&self) -> Seq<char> {
        self.object@
    }
}

impl<'a> DurationView<'a> {
    /// Returns the raw string data.
    pub fn raw_str(&self) -> (r: &'a str)
        ensures
            r@ == self@,
    {
        self.object
    }
}

impl<'a> TryFromJsonValue<'a> for DurationView<'a> {
    open spec fn accepts(value: JsonValue) -> bool {
        value is String
    }

    open spec fn reads(self, value: JsonValue) -> bool {
        is_string_node(value, self@)
    }

    fn validate_json_value(value: &JsonValue) -> (r: Result<()>) {
        match value {
            JsonValue::String(_) => Ok(()),
            _ => Err(PropertyError::TypeMismatch),
        }
    }

    fn try_from_json_value(value: &'a JsonValue) -> (r: Result<Self>) {
        match Self::validate_json_value(value) {
            Err(e) => Err(e),
            Ok(()) => match value {
                JsonValue::String(s) => Ok(Self { object: s.as_str() }),
                _ => vstd::pervasive::unreached(),
            },
        }
    }
}

/// A language tag view: the raw text of a BCP47 language tag. Its grammar is
/// not interpreted here.
#[derive(Debug, Clone, Copy, PartialEq, Eq, PartialOrd, Ord, Hash)]
pub struct LanguageTagView<'a> {
    /// Target object.
    object: &'a str,
}

impl<'a> View for LanguageTagView<'a> {
    type V = Seq<char>;

    closed spec fn view(&self) -> Seq<char> {
        self.object@
    }
}

impl<'a> LanguageTagView<'a> {
    /// Returns the raw string data.
    pub fn raw_str(&self) -> (r: &'a str)
        ensures
            r@ == self@,
    {
        self.object
    }
}

impl<'a> TryFromJsonValue<'a> for LanguageTagView<'a> {
    open spec fn accepts(value: JsonValue) -> bool {
        value is String
    }

    open spec fn reads(self, value: JsonValue) -> bool {
        is_string_node(value, self@)
    }

    fn validate_json_value(value: &JsonValue) -> (r: Result<()>) {
        match value {
            JsonValue::String(_) => Ok(()),
            _ => Err(PropertyError::TypeMismatch),
        }
    }

    fn try_from_json_value(value: &'a JsonValue) -> (r: Result<Self>) {
        match Self::validate_json_value(value) {
            Err(e) => Err(e),
            Ok(()) => match value {
                JsonValue::String(s) => Ok(Self { object: s.as_str() }),
                _ => vstd::pervasive::unreached(),
            },
        }
    }
}

} // verus!
