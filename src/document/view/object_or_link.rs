//! "Object or link" views.
//!
//! An either-view only checks that its node can be read as at least one of two
//! views. Which one is tried is the caller's choice, at any time and as often as
//! it likes: both may succeed on the same node, and none has precedence.
use vstd::prelude::*;

use crate::document::view::{converted, PropertyError, Result, TryFromJsonValue};
use crate::document::view::{ImageView, LinkView, ObjectView};
use crate::document::view::object::lemma_object_view_determined;
use crate::document::JsonValue;

verus! {

/// A view to an object or a link.
#[derive(Debug, Clone, Copy, PartialEq)]
pub struct ObjectOrLinkView<'a> {
    /// Target object.
    object: &'a JsonValue,
}

impl<'a> View for ObjectOrLinkView<'a> {
    type V = JsonValue;

    closed spec fn view(&self) -> JsonValue {
        *self.object
    }
}

impl<'a> ObjectOrLinkView<'a> {
    /// Creates an object view.
    pub fn object_view(&self) -> (r: Result<ObjectView<'a>>)
        ensures
            converted(self@, r),
    {
        ObjectView::try_from_json_value(self.object)
    }

    /// Creates a link view.
    pub fn link_view(&self) -> (r: Result<LinkView<'a>>)
        ensures
            converted(self@, r),
    {
        LinkView::try_from_json_value(self.object)
    }
}

impl<'a> TryFromJsonValue<'a> for ObjectOrLinkView<'a> {
    open spec fn accepts(value: JsonValue) -> bool {
        ObjectView::accepts(value) || LinkView::accepts(value)
    }

    open spec fn reads(self, value: JsonValue) -> bool {
        self@ == value
    }

    fn validate_json_value(value: &JsonValue) -> (r: Result<()>) {
        if ObjectView::validate_json_value(value).is_ok() {
            return Ok(());
        }
        match LinkView::validate_json_value(value) {
            Ok(()) => Ok(()),
            Err(_) => Err(PropertyError::TypeMismatch),
        }
    }

    fn try_from_json_value(value: &'a JsonValue) -> (r: Result<Self>) {
        match Self::validate_json_value(value) {
            Err(e) => Err(e),
            Ok(()) => Ok(Self { object: value }),
        }
    }
}

/// Narrowing an either-view to an object view is repeatable and does not depend
/// on which either-view over the node is used: two narrowings over one node
/// both succeed or both fail, and give the same result, a view of that same
/// node.
pub proof fn lemma_object_view_repeatable(
    a: ObjectOrLinkView,
    b: ObjectOrLinkView,
    ra: Result<ObjectView>,
    rb: Result<ObjectView>,
)
    requires
        a@ == b@,
        converted(a@, ra),
        converted(b@, rb),
    ensures
        ra == rb,
        ra matches Ok(v) ==> v@ == a@,
{
    if ra is Ok && rb is Ok {
        lemma_object_view_determined(ra->Ok_0, rb->Ok_0);
    }
}

/// A view to an image or a link.
#[derive(Debug, Clone, Copy, PartialEq)]
pub struct ImageOrLinkView<'a> {
    /// Target object.
    object: &'a JsonValue,
}

impl<'a> View for ImageOrLinkView<'a> {
    type V = JsonValue;

    closed spec fn view(&self) -> JsonValue {
        *self.object
    }
}

impl<'a> ImageOrLinkView<'a> {
    /// Creates an image view.
    pub fn image_view(&self) -> (r: Result<ImageView<'a>>)
        ensures
            converted(self@, r),
    {
        ImageView::try_from_json_value(self.object)
    }

    /// Creates a link view.
    pub fn link_view(&self) -> (r: Result<LinkView<'a>>)
        ensures
            converted(self@, r),
    {
        LinkView::try_from_json_value(self.object)
    }
}

impl<'a> TryFromJsonValue<'a> for ImageOrLinkView<'a> {
    open spec fn accepts(value: JsonValue) -> bool {
        ImageView::accepts(value) || LinkView::accepts(value)
    }

    open spec fn reads(self, value: JsonValue) -> bool {
        self@ == value
    }

    fn validate_json_value(value: &JsonValue) -> (r: Result<()>) {
        if ImageView::validate_json_value(value).is_ok() {
            return Ok(());
        }
        match LinkView::validate_json_value(value) {
            Ok(()) => Ok(()),
            Err(_) => Err(PropertyError::TypeMismatch),
        }
    }

    fn try_from_json_value(value: &'a JsonValue) -> (r: Result<Self>) {
        match Self::validate_json_value(value) {
            Err(e) => Err(e),
            Ok(()) => Ok(Self { object: value }),
        }
    }
}

} // verus!
