//! Link view.
use vstd::prelude::*;

use crate::document::consts;
use crate::document::view::fetch;
use crate::document::view::fetch::property::fetched_href;
use crate::document::view::fetch::types::{fetched, fetched_u64};
use crate::document::view::{PropertyError, Result, TryFromJsonValue};
use crate::document::view::{
    IriView, LanguageTagView, MediaTypeView, NaturalLanguageView, ObjectOrLinkView,
    SingleOrMultiView,
};
use crate::document::JsonValue;

verus! {

/// A link view. A link is a map node, or a plain string that is the link's
/// target.
#[derive(Debug, Clone, Copy, PartialEq)]
pub struct LinkView<'a> {
    /// Target object.
    object: &'a JsonValue,
}

impl<'a> View for LinkView<'a> {
    type V = JsonValue;

    closed spec fn view(&self) -> JsonValue {
        *self.object
    }
}

/// A `LinkView` is determined by the node it reads.
pub proof fn lemma_link_view_determined(a: LinkView, b: LinkView)
    requires
        a@ == b@,
    ensures
        a == b,
{
}

impl<'a> LinkView<'a> {
    /// Returns `type` as string.
    pub fn type_raw(&self) -> (r: Result<&'a str>)
        ensures
            fetched(self@.spec_get(consts::TYPE@), r),
    {
        fetch::property::type_raw(self.object)
    }

    /// Returns an IRI to the link target: the node itself where the link is a
    /// plain string, its `href` property otherwise.
    pub fn href(&self) -> (r: Result<IriView<'a>>)
        ensures
            fetched_href(self@, r),
    {
        fetch::property::href(self.object)
    }

    /// Returns `height`.
    pub fn height(&self) -> (r: Result<u64>)
        ensures
            fetched_u64(self@.spec_get(consts::HEIGHT@), r),
    {
        fetch::property::height(self.object)
    }

    /// Returns `hreflang`.
    pub fn hreflang(&self) -> (r: Result<LanguageTagView<'a>>)
        ensures
            fetched(self@.spec_get(consts::HREFLANG@), r),
    {
        fetch::property::hreflang(self.object)
    }

    /// Returns `mediaType`.
    pub fn media_type(&self) -> (r: Result<MediaTypeView<'a>>)
        ensures
            fetched(self@.spec_get(consts::MEDIA_TYPE@), r),
    {
        fetch::property::media_type(self.object)
    }

    /// Returns `name`.
    pub fn name(&self) -> (r: Result<NaturalLanguageView<'a>>)
        ensures
            fetched(self@.spec_get(consts::NAME@), r),
    {
        fetch::property::name(self.object)
    }

    /// Returns `preview`.
    pub fn preview(&self) -> (r: Result<SingleOrMultiView<'a, ObjectOrLinkView<'a>>>)
        ensures
            fetched(self@.spec_get(consts::PREVIEW@), r),
    {
        fetch::property::preview(self.object)
    }

    /// Returns `rel`.
    pub fn rel(&self) -> (r: Result<SingleOrMultiView<'a, &'a str>>)
        ensures
            fetched(self@.spec_get(consts::REL@), r),
    {
        fetch::property::rel(self.object)
    }

    /// Returns `width`.
    pub fn width(&self) -> (r: Result<u64>)
        ensures
            fetched_u64(self@.spec_get(consts::WIDTH@), r),
    {
        fetch::property::width(self.object)
    }
}

impl<'a> TryFromJsonValue<'a> for LinkView<'a> {
    open spec fn accepts(value: JsonValue) -> bool {
        value is Object || value is String
    }

    open spec fn reads(self, value: JsonValue) -> bool {
        self@ == value
    }

    fn validate_json_value(value: &JsonValue) -> (r: Result<()>) {
        match value {
            JsonValue::Object(_) | JsonValue::String(_) => Ok(()),
            _ => Err(PropertyError::TypeMismatch),
        }
    }

    fn try_from_json_value(value: &'a JsonValue) -> (r: Result<Self>) {
        match Self::validate_json_value(value) {
            Err(e) => Err(e),
            Ok(()) => match value {
                JsonValue::Object(_) | JsonValue::String(_) => Ok(Self { object: value }),
                _ => vstd::pervasive::unreached(),
            },
        }
    }
}

} // verus!
