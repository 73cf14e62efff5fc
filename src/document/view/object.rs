//! Object view.
use vstd::prelude::*;

use crate::document::consts;
use crate::document::view::fetch;
use crate::document::view::fetch::property::fetched_id;
use crate::document::view::fetch::types::fetched;
use crate::document::view::{PropertyError, Result, TryFromJsonValue};
use crate::document::view::{
    DateTimeView, ImageOrLinkView, IriView, LinkView, MediaTypeView, NaturalLanguageView,
    ObjectOrLinkView, SingleOrMultiView,
};
use crate::document::JsonValue;

verus! {

/// An object view: a map node read as an object of the vocabulary.
#[derive(Debug, Clone, Copy, PartialEq)]
pub struct ObjectView<'a> {
    /// Target object.
    object: &'a JsonValue,
}

impl<'a> View for ObjectView<'a> {
    type V = JsonValue;

    closed spec fn view(&self) -> JsonValue {
        *self.object
    }
}

/// A `ObjectView` is determined by the node it reads.
pub proof fn lemma_object_view_determined(a: ObjectView, b: ObjectView)
    requires
        a@ == b@,
    ensures
        a == b,
{
}

impl<'a> ObjectView<'a> {
    /// Creates a new `ObjectView` from a raw JSON object.
    ///
    /// Use `TryFromJsonValue::try_from_json_value` for normal use.
    pub(crate) fn new(object: &'a JsonValue) -> (r: Self)
        ensures
            r@ == *object,
    {
        Self { object }
    }

    /// Returns `id`: `Ok(None)` where it is explicitly `null`.
    pub fn id(&self) -> (r: Result<Option<IriView<'a>>>)
        ensures
            fetched_id(self@.spec_get(consts::ID@), r),
    {
        fetch::property::id(self.object)
    }

    /// Returns `type` as string.
    pub fn type_raw(&self) -> (r: Result<&'a str>)
        ensures
            fetched(self@.spec_get(consts::TYPE@), r),
    {
        fetch::property::type_raw(self.object)
    }

    /// Returns `attachment`.
    pub fn attachment(&self) -> (r: Result<SingleOrMultiView<'a, ObjectOrLinkView<'a>>>)
        ensures
            fetched(self@.spec_get(consts::ATTACHMENT@), r),
    {
        fetch::property::attachment(self.object)
    }

    /// Returns `audience`.
    pub fn audience(&self) -> (r: Result<SingleOrMultiView<'a, ObjectOrLinkView<'a>>>)
        ensures
            fetched(self@.spec_get(consts::AUDIENCE@), r),
    {
        fetch::property::audience(self.object)
    }

    /// Returns `attributedTo`.
    pub fn attributed_to(&self) -> (r: Result<SingleOrMultiView<'a, ObjectOrLinkView<'a>>>)
        ensures
            fetched(self@.spec_get(consts::ATTRIBUTED_TO@), r),
    {
        fetch::property::attributed_to(self.object)
    }

    /// Returns `bto`.
    pub fn bto(&self) -> (r: Result<SingleOrMultiView<'a, ObjectOrLinkView<'a>>>)
        ensures
            fetched(self@.spec_get(consts::BTO@), r),
    {
        fetch::property::bto(self.object)
    }

    /// Returns `content`.
    pub fn content(&self) -> (r: Result<NaturalLanguageView<'a>>)
        ensures
            fetched(self@.spec_get(consts::CONTENT@), r),
    {
        fetch::property::content(self.object)
    }

    /// Returns `context`.
    pub fn context(&self) -> (r: Result<SingleOrMultiView<'a, ObjectOrLinkView<'a>>>)
        ensures
            fetched(self@.spec_get(consts::CONTEXT@), r),
    {
        fetch::property::context(self.object)
    }

    /// Returns `endTime`.
    pub fn end_time(&self) -> (r: Result<DateTimeView<'a>>)
        ensures
            fetched(self@.spec_get(consts::END_TIME@), r),
    {
        fetch::property::end_time(self.object)
    }

    /// Returns `generator`.
    pub fn generator(&self) -> (r: Result<SingleOrMultiView<'a, ObjectOrLinkView<'a>>>)
        ensures
            fetched(self@.spec_get(consts::GENERATOR@), r),
    {
        fetch::property::generator(self.object)
    }

    /// Returns `icon`.
    pub fn icon(&self) -> (r: Result<SingleOrMultiView<'a, ObjectOrLinkView<'a>>>)
        ensures
            fetched(self@.spec_get(consts::ICON@), r),
    {
        fetch::property::icon(self.object)
    }

    /// Returns `image`.
    pub fn image(&self) -> (r: Result<SingleOrMultiView<'a, ImageOrLinkView<'a>>>)
        ensures
            fetched(self@.spec_get(consts::IMAGE@), r),
    {
        fetch::property::image(self.object)
    }

    /// Returns `inReplyTo`.
    pub fn in_reply_to(&self) -> (r: Result<SingleOrMultiView<'a, ObjectOrLinkView<'a>>>)
        ensures
            fetched(self@.spec_get(consts::IN_REPLY_TO@), r),
    {
        fetch::property::in_reply_to(self.object)
    }

    /// Returns `location`.
    pub fn location(&self) -> (r: Result<SingleOrMultiView<'a, ObjectOrLinkView<'a>>>)
        ensures
            fetched(self@.spec_get(consts::LOCATION@), r),
    {
        fetch::property::location(self.object)
    }

    /// Returns `name`.
    pub fn name(&self) -> (r: Result<NaturalLanguageView<'a>>)
        ensures
            fetched(self@.spec_get(consts::NAME@), r),
    {
        fetch::property::name(self.object)
    }

    /// Returns `mediaType`.
    pub fn media_type(&self) -> (r: Result<MediaTypeView<'a>>)
        ensures
            fetched(self@.spec_get(consts::MEDIA_TYPE@), r),
    {
        fetch::property::media_type(self.object)
    }

    /// Returns `preview`.
    pub fn preview(&self) -> (r: Result<SingleOrMultiView<'a, ObjectOrLinkView<'a>>>)
        ensures
            fetched(self@.spec_get(consts::PREVIEW@), r),
    {
        fetch::property::preview(self.object)
    }

    /// Returns `published`.
    pub fn published(&self) -> (r: Result<DateTimeView<'a>>)
        ensures
            fetched(self@.spec_get(consts::PUBLISHED@), r),
    {
        fetch::property::published(self.object)
    }

    /// Returns `replies`.
    pub fn replies(&self) -> (r: Result<SingleOrMultiView<'a, ObjectOrLinkView<'a>>>)
        ensures
            fetched(self@.spec_get(consts::REPLIES@), r),
    {
        fetch::property::replies(self.object)
    }

    /// Returns `startTime`.
    pub fn start_time(&self) -> (r: Result<DateTimeView<'a>>)
        ensures
            fetched(self@.spec_get(consts::START_TIME@), r),
    {
        fetch::property::start_time(self.object)
    }

    /// Returns `summary`.
    pub fn summary(&self) -> (r: Result<NaturalLanguageView<'a>>)
        ensures
            fetched(self@.spec_get(consts::SUMMARY@), r),
    {
        fetch::property::summary(self.object)
    }

    /// Returns `tag`.
    pub fn tag(&self) -> (r: Result<SingleOrMultiView<'a, ObjectOrLinkView<'a>>>)
        ensures
            fetched(self@.spec_get(consts::TAG@), r),
    {
        fetch::property::tag(self.object)
    }

    /// Returns `to`.
    pub fn to(&self) -> (r: Result<SingleOrMultiView<'a, ObjectOrLinkView<'a>>>)
        ensures
            fetched(self@.spec_get(consts::TO@), r),
    {
        fetch::property::to(self.object)
    }

    /// Returns `updated`.
    pub fn updated(&self) -> (r: Result<DateTimeView<'a>>)
        ensures
            fetched(self@.spec_get(consts::UPDATED@), r),
    {
        fetch::property::updated(self.object)
    }

    /// Returns `url`.
    pub fn url(&self) -> (r: Result<SingleOrMultiView<'a, LinkView<'a>>>)
        ensures
            fetched(self@.spec_get(consts::URL@), r),
    {
        fetch::property::url(self.object)
    }
}

impl<'a> TryFromJsonValue<'a> for ObjectView<'a> {
    open spec fn accepts(value: JsonValue) -> bool {
        value is Object
    }

    open spec fn reads(self, value: JsonValue) -> bool {
        self@ == value
    }

    fn validate_json_value(value: &JsonValue) -> (r: Result<()>) {
        match value {
            JsonValue::Object(_) => Ok(()),
            _ => Err(PropertyError::TypeMismatch),
        }
    }

    fn try_from_json_value(value: &'a JsonValue) -> (r: Result<Self>) {
        match Self::validate_json_value(value) {
            Err(e) => Err(e),
            Ok(()) => match value {
                JsonValue::Object(_) => Ok(Self { object: value }),
                _ => vstd::pervasive::unreached(),
            },
        }
    }
}

} // verus!
