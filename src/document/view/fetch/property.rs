//! Fetchers for specific properties.
//!
//! Each fetcher looks its property up in a map node (`NoSuchProperty` where it
//! is absent, also on a node that is not a map) and reads the property's node as
//! the view of that property.
use vstd::prelude::*;

use crate::document::consts;
use crate::document::view::fetch::types;
use crate::document::view::fetch::types::{fetched, fetched_u64};
use crate::document::view::{PropertyError, Result, TryFromJsonValue};
use crate::document::view::{
    DateTimeView, DurationView, ImageOrLinkView, IriView, LanguageTagView, LinkView, MediaTypeView,
    NaturalLanguageView, ObjectOrLinkView, SingleOrMultiView,
};
use crate::document::JsonValue;

verus! {

/// Holds when `r` is what reading the `id` property with the node `node` gives:
/// an IRI view for a string, none for an explicit `null`.
pub open spec fn fetched_id(node: Option<JsonValue>, r: Result<Option<IriView>>) -> bool {
    match node {
        None => r matches Err(e) && e is NoSuchProperty,
        Some(v) => match v {
            JsonValue::String(s) => r matches Ok(Some(i)) && i@ == s@,
            JsonValue::Null => r matches Ok(None),
            _ => r matches Err(e) && e is TypeMismatch,
        },
    }
}

/// Holds when `r` is what reading the link target of the node `object` gives:
/// the node itself where it is a string, its `href` property where it is a map.
pub open spec fn fetched_href(object: JsonValue, r: Result<IriView>) -> bool {
    match object {
        JsonValue::Object(m) => fetched(m.spec_get(consts::HREF@), r),
        JsonValue::String(s) => r matches Ok(i) && i@ == s@,
        _ => r matches Err(e) && e is TypeMismatch,
    }
}

/// Returns `id`.
///
/// Returns `Ok(Some(iri))` if `id` is specified as JSON string,
/// returns `Ok(None)` if `id` is explicitly specified as JSON `null`
/// (an anonymous object, a part of its parent).
pub fn id<'a>(object: &'a JsonValue) -> (r: Result<Option<IriView<'a>>>)
    ensures
        fetched_id(object.spec_get(consts::ID@), r),
{
    match types::json_obj(object.get(consts::ID)) {
        Err(e) => Err(e),
        Ok(id_obj) => match id_obj {
            JsonValue::String(_) => match IriView::try_from_json_value(id_obj) {
                Ok(v) => Ok(Some(v)),
                Err(e) => Err(e),
            },
            JsonValue::Null => Ok(None),
            _ => Err(PropertyError::TypeMismatch),
        },
    }
}

/// Returns `type` as string.
pub fn type_raw<'a>(object: &'a JsonValue) -> (r: Result<&'a str>)
    ensures
        fetched(object.spec_get(consts::TYPE@), r),
{
    types::string(object.get(consts::TYPE))
}

/// Returns `height`.
pub fn height(object: &JsonValue) -> (r: Result<u64>)
    ensures
        fetched_u64(object.spec_get(consts::HEIGHT@), r),
{
    types::non_negative_integer(object.get(consts::HEIGHT))
}

/// Returns `width`.
pub fn width(object: &JsonValue) -> (r: Result<u64>)
    ensures
        fetched_u64(object.spec_get(consts::WIDTH@), r),
{
    types::non_negative_integer(object.get(consts::WIDTH))
}

/// Returns `attachment`.
pub fn attachment<'a>(object: &'a JsonValue) -> (r: Result<SingleOrMultiView<'a, ObjectOrLinkView<'a>>>)
    ensures
        fetched(object.spec_get(consts::ATTACHMENT@), r),
{
    types::single_or_multi_object_or_link(object.get(consts::ATTACHMENT))
}

/// Returns `attributedTo`.
pub fn attributed_to<'a>(object: &'a JsonValue) -> (r: Result<SingleOrMultiView<'a, ObjectOrLinkView<'a>>>)
    ensures
        fetched(object.spec_get(consts::ATTRIBUTED_TO@), r),
{
    types::single_or_multi_object_or_link(object.get(consts::ATTRIBUTED_TO))
}

/// Returns `audience`.
pub fn audience<'a>(object: &'a JsonValue) -> (r: Result<SingleOrMultiView<'a, ObjectOrLinkView<'a>>>)
    ensures
        fetched(object.spec_get(consts::AUDIENCE@), r),
{
    types::single_or_multi_object_or_link(object.get(consts::AUDIENCE))
}

/// Returns `bcc`.
pub fn bcc<'a>(object: &'a JsonValue) -> (r: Result<SingleOrMultiView<'a, ObjectOrLinkView<'a>>>)
    ensures
        fetched(object.spec_get(consts::BCC@), r),
{
    types::single_or_multi_object_or_link(object.get(consts::BCC))
}

/// Returns `bto`.
pub fn bto<'a>(object: &'a JsonValue) -> (r: Result<SingleOrMultiView<'a, ObjectOrLinkView<'a>>>)
    ensures
        fetched(object.spec_get(consts::BTO@), r),
{
    types::single_or_multi_object_or_link(object.get(consts::BTO))
}

/// Returns `cc`.
pub fn cc<'a>(object: &'a JsonValue) -> (r: Result<SingleOrMultiView<'a, ObjectOrLinkView<'a>>>)
    ensures
        fetched(object.spec_get(consts::CC@), r),
{
    types::single_or_multi_object_or_link(object.get(consts::CC))
}

/// Returns `content`.
pub fn content<'a>(object: &'a JsonValue) -> (r: Result<NaturalLanguageView<'a>>)
    ensures
        fetched(object.spec_get(consts::CONTENT@), r),
{
    types::natural_language_string(object.get(consts::CONTENT))
}

/// Returns `context`.
pub fn context<'a>(object: &'a JsonValue) -> (r: Result<SingleOrMultiView<'a, ObjectOrLinkView<'a>>>)
    ensures
        fetched(object.spec_get(consts::CONTEXT@), r),
{
    types::single_or_multi_object_or_link(object.get(consts::CONTEXT))
}

/// Returns `duration`.
pub fn duration<'a>(object: &'a JsonValue) -> (r: Result<DurationView<'a>>)
    ensures
        fetched(object.spec_get(consts::DURATION@), r),
{
    types::duration(object.get(consts::DURATION))
}

/// Returns `endTime`.
pub fn end_time<'a>(object: &'a JsonValue) -> (r: Result<DateTimeView<'a>>)
    ensures
        fetched(object.spec_get(consts::END_TIME@), r),
{
    types::datetime(object.get(consts::END_TIME))
}

/// Returns `generator`.
pub fn generator<'a>(object: &'a JsonValue) -> (r: Result<SingleOrMultiView<'a, ObjectOrLinkView<'a>>>)
    ensures
        fetched(object.spec_get(consts::GENERATOR@), r),
{
    types::single_or_multi_object_or_link(object.get(consts::GENERATOR))
}

/// Returns `href`.
///
/// Returns `href` property (string) if the given JSON value is object (map),
/// returns string itself if the given JSON value is string.
pub fn href<'a>(object: &'a JsonValue) -> (r: Result<IriView<'a>>)
    ensures
        fetched_href(*object, r),
{
    match object {
        JsonValue::Object(map) => types::iri(map.get(consts::HREF)),
        JsonValue::String(s) => Ok(IriView::new(s.as_str())),
        _ => Err(PropertyError::TypeMismatch),
    }
}

/// Returns `hreflang`.
pub fn hreflang<'a>(object: &'a JsonValue) -> (r: Result<LanguageTagView<'a>>)
    ensures
        fetched(object.spec_get(consts::HREFLANG@), r),
{
    types::language_tag(object.get(consts::HREFLANG))
}

/// Returns `icon`.
pub fn icon<'a>(object: &'a JsonValue) -> (r: Result<SingleOrMultiView<'a, ObjectOrLinkView<'a>>>)
    ensures
        fetched(object.spec_get(consts::ICON@), r),
{
    types::single_or_multi_object_or_link(object.get(consts::ICON))
}

/// Returns `image`.
pub fn image<'a>(object: &'a JsonValue) -> (r: Result<SingleOrMultiView<'a, ImageOrLinkView<'a>>>)
    ensures
        fetched(object.spec_get(consts::IMAGE@), r),
{
    types::single_or_multi_image_or_link(object.get(consts::IMAGE))
}

/// Returns `inReplyTo`.
pub fn in_reply_to<'a>(object: &'a JsonValue) -> (r: Result<SingleOrMultiView<'a, ObjectOrLinkView<'a>>>)
    ensures
        fetched(object.spec_get(consts::IN_REPLY_TO@), r),
{
    types::single_or_multi_object_or_link(object.get(consts::IN_REPLY_TO))
}

/// Returns `location`.
pub fn location<'a>(object: &'a JsonValue) -> (r: Result<SingleOrMultiView<'a, ObjectOrLinkView<'a>>>)
    ensures
        fetched(object.spec_get(consts::LOCATION@), r),
{
    types::single_or_multi_object_or_link(object.get(consts::LOCATION))
}

/// Returns `name`.
pub fn name<'a>(object: &'a JsonValue) -> (r: Result<NaturalLanguageView<'a>>)
    ensures
        fetched(object.spec_get(consts::NAME@), r),
{
    types::natural_language_string(object.get(consts::NAME))
}

/// Returns `mediaType`.
pub fn media_type<'a>(object: &'a JsonValue) -> (r: Result<MediaTypeView<'a>>)
    ensures
        fetched(object.spec_get(consts::MEDIA_TYPE@), r),
{
    types::media_type(object.get(consts::MEDIA_TYPE))
}

/// Returns `preview`.
pub fn preview<'a>(object: &'a JsonValue) -> (r: Result<SingleOrMultiView<'a, ObjectOrLinkView<'a>>>)
    ensures
        fetched(object.spec_get(consts::PREVIEW@), r),
{
    types::single_or_multi_object_or_link(object.get(consts::PREVIEW))
}

/// Returns `published`.
pub fn published<'a>(object: &'a JsonValue) -> (r: Result<DateTimeView<'a>>)
    ensures
        fetched(object.spec_get(consts::PUBLISHED@), r),
{
    types::datetime(object.get(consts::PUBLISHED))
}

/// Returns `rel`.
pub fn rel<'a>(object: &'a JsonValue) -> (r: Result<SingleOrMultiView<'a, &'a str>>)
    ensures
        fetched(object.spec_get(consts::REL@), r),
{
    types::single_or_multi_string(object.get(consts::REL))
}

/// Returns `replies`.
pub fn replies<'a>(object: &'a JsonValue) -> (r: Result<SingleOrMultiView<'a, ObjectOrLinkView<'a>>>)
    ensures
        fetched(object.spec_get(consts::REPLIES@), r),
{
    types::single_or_multi_object_or_link(object.get(consts::REPLIES))
}

/// Returns `startTime`.
pub fn start_time<'a>(object: &'a JsonValue) -> (r: Result<DateTimeView<'a>>)
    ensures
        fetched(object.spec_get(consts::START_TIME@), r),
{
    types::datetime(object.get(consts::START_TIME))
}

/// Returns `summary`.
pub fn summary<'a>(object: &'a JsonValue) -> (r: Result<NaturalLanguageView<'a>>)
    ensures
        fetched(object.spec_get(consts::SUMMARY@), r),
{
    types::natural_language_string(object.get(consts::SUMMARY))
}

/// Returns `tag`.
pub fn tag<'a>(object: &'a JsonValue) -> (r: Result<SingleOrMultiView<'a, ObjectOrLinkView<'a>>>)
    ensures
        fetched(object.spec_get(consts::TAG@), r),
{
    types::single_or_multi_object_or_link(object.get(consts::TAG))
}

/// Returns `to`.
pub fn to<'a>(object: &'a JsonValue) -> (r: Result<SingleOrMultiView<'a, ObjectOrLinkView<'a>>>)
    ensures
        fetched(object.spec_get(consts::TO@), r),
{
    types::single_or_multi_object_or_link(object.get(consts::TO))
}

/// Returns `updated`.
pub fn updated<'a>(object: &'a JsonValue) -> (r: Result<DateTimeView<'a>>)
    ensures
        fetched(object.spec_get(consts::UPDATED@), r),
{
    types::datetime(object.get(consts::UPDATED))
}

/// Returns `url`.
pub fn url<'a>(object: &'a JsonValue) -> (r: Result<SingleOrMultiView<'a, LinkView<'a>>>)
    ensures
        fetched(object.spec_get(consts::URL@), r),
{
    types::single_or_multi_link(object.get(consts::URL))
}

} // verus!
