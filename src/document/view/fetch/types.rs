//! Fetchers for specific types.
use vstd::prelude::*;

use crate::document::view::{converted, PropertyError, Result, TryFromJsonValue};
use crate::document::view::{
    DateTimeView, DurationView, ImageOrLinkView, IriView, LanguageTagView, LinkView, MediaTypeView,
    NaturalLanguageView, ObjectOrLinkView, SingleOrMultiView,
};
use crate::document::{deref_opt, JsonValue};

verus! {

/// Holds when `r` is what fetching a property whose node is `node`, and reading
/// that node as a `T`, gives: `NoSuchProperty` where the property is absent,
/// and the conversion of the node otherwise.
pub open spec fn fetched<'a, T: TryFromJsonValue<'a>>(node: Option<JsonValue>, r: Result<T>) -> bool {
    match node {
        None => r matches Err(e) && e is NoSuchProperty,
        Some(v) => converted(v, r),
    }
}

/// Returns a JSON object (map).
pub fn json_obj(object: Option<&JsonValue>) -> (r: Result<&JsonValue>)
    ensures
        match object {
            Some(v) => r == Ok::<&JsonValue, PropertyError>(v),
            None => r == Err::<&JsonValue, PropertyError>(PropertyError::NoSuchProperty),
        },
{
    match object {
        Some(v) => Ok(v),
        None => Err(PropertyError::NoSuchProperty),
    }
}

/// A property that a node lacks reads as `NoSuchProperty`, whatever view it
/// would have been read as.
pub proof fn lemma_missing_property<'a, T: TryFromJsonValue<'a>>(
    object: JsonValue,
    key: Seq<char>,
    r: Result<T>,
)
    requires
        object.spec_get(key) is None,
        fetched(object.spec_get(key), r),
    ensures
        r matches Err(e) && e is NoSuchProperty,
{
}

/// Holds when `r` is what fetching a property whose node is `node`, and reading
/// that node as a non-negative integer, gives.
pub open spec fn fetched_u64(node: Option<JsonValue>, r: Result<u64>) -> bool {
    match node {
        None => r matches Err(e) && e is NoSuchProperty,
        Some(v) => match v {
            JsonValue::Number(n) => match n.spec_as_u64() {
                Some(k) => r == Ok::<u64, PropertyError>(k),
                None => r matches Err(e) && e is TypeMismatch,
            },
            _ => r matches Err(e) && e is TypeMismatch,
        },
    }
}

/// Fetches the node and reads it as a `T`.
fn convert<'a, T: TryFromJsonValue<'a>>(object: Option<&'a JsonValue>) -> (r: Result<T>)
    ensures
        fetched(deref_opt(object), r),
{
    match json_obj(object) {
        Ok(v) => T::try_from_json_value(v),
        Err(e) => Err(e),
    }
}

/// Returns an IRI.
pub fn iri<'a>(object: Option<&'a JsonValue>) -> (r: Result<IriView<'a>>)
    ensures
        fetched(deref_opt(object), r),
{
    convert(object)
}

/// Returns a string.
pub fn string<'a>(object: Option<&'a JsonValue>) -> (r: Result<&'a str>)
    ensures
        fetched(deref_opt(object), r),
{
    convert(object)
}

/// Returns a non-negative integer.
pub fn non_negative_integer(object: Option<&JsonValue>) -> (r: Result<u64>)
    ensures
        fetched_u64(deref_opt(object), r),
{
    match json_obj(object) {
        Ok(JsonValue::Number(n)) => match n.as_u64() {
            Some(k) => Ok(k),
            None => Err(PropertyError::TypeMismatch),
        },
        Ok(_) => Err(PropertyError::TypeMismatch),
        Err(e) => Err(e),
    }
}

/// Returns `SingleOrMultiView<ObjectOrLinkView>`.
pub fn single_or_multi_object_or_link<'a>(object: Option<&'a JsonValue>) -> (r: Result<
    SingleOrMultiView<'a, ObjectOrLinkView<'a>>,
>)
    ensures
        fetched(deref_opt(object), r),
{
    convert(object)
}

/// Returns `SingleOrMultiView<LinkView>`.
pub fn single_or_multi_link<'a>(object: Option<&'a JsonValue>) -> (r: Result<
    SingleOrMultiView<'a, LinkView<'a>>,
>)
    ensures
        fetched(deref_opt(object), r),
{
    convert(object)
}

/// Returns `SingleOrMultiView<ImageOrLinkView>`.
pub fn single_or_multi_image_or_link<'a>(object: Option<&'a JsonValue>) -> (r: Result<
    SingleOrMultiView<'a, ImageOrLinkView<'a>>,
>)
    ensures
        fetched(deref_opt(object), r),
{
    convert(object)
}

/// Returns `SingleOrMultiView<&str>`.
pub fn single_or_multi_string<'a>(object: Option<&'a JsonValue>) -> (r: Result<
    SingleOrMultiView<'a, &'a str>,
>)
    ensures
        fetched(deref_opt(object), r),
{
    convert(object)
}

/// Returns a natural language view.
pub fn natural_language_string<'a>(object: Option<&'a JsonValue>) -> (r: Result<
    NaturalLanguageView<'a>,
>)
    ensures
        fetched(deref_opt(object), r),
{
    convert(object)
}

/// Returns a `DateTimeView`.
pub fn datetime<'a>(object: Option<&'a JsonValue>) -> (r: Result<DateTimeView<'a>>)
    ensures
        fetched(deref_opt(object), r),
{
    convert(object)
}

/// Returns a `MediaTypeView`.
pub fn media_type<'a>(object: Option<&'a JsonValue>) -> (r: Result<MediaTypeView<'a>>)
    ensures
        fetched(deref_opt(object), r),
{
    convert(object)
}

/// Returns a `DurationView`.
pub fn duration<'a>(object: Option<&'a JsonValue>) -> (r: Result<DurationView<'a>>)
    ensures
        fetched(deref_opt(object), r),
{
    convert(object)
}

/// Returns a `LanguageTagView`.
pub fn language_tag<'a>(object: Option<&'a JsonValue>) -> (r: Result<LanguageTagView<'a>>)
    ensures
        fetched(deref_opt(object), r),
{
    convert(object)
}

} // verus!
