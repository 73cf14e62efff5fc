//! `Image` type object view.
use vstd::prelude::*;

use crate::document::view::{DocumentView, ObjectView};
use crate::document::view::{PropertyError, Result, TryFromJsonValue};
use crate::document::JsonValue;

verus! {

/// An `Image` type object view.
#[derive(Debug, Clone, Copy, PartialEq)]
pub struct ImageView<'a> {
    /// Target object.
    object: &'a JsonValue,
}

impl<'a> View for ImageView<'a> {
    type V = JsonValue;

    closed spec fn view(&self) -> JsonValue {
        *self.object
    }
}

/// A `ImageView` is determined by the node it reads.
pub proof fn lemma_image_view_determined(a: ImageView, b: ImageView)
    requires
        a@ == b@,
    ensures
        a == b,
{
}

impl<'a> ImageView<'a> {
    /// Upcasts the view.
    pub fn document_view(&self) -> (r: DocumentView<'a>)
        ensures
            r@ == self@,
    {
        DocumentView::new(self.object)
    }

    /// Upcasts the view.
    pub fn object_view(&self) -> (r: ObjectView<'a>)
        ensures
            r@ == self@,
    {
        ObjectView::new(self.object)
    }
}

impl<'a> TryFromJsonValue<'a> for ImageView<'a> {
    open spec fn accepts(value: JsonValue) -> bool {
        value is Object
    }

    open spec fn reads(self, value: JsonValue) -> bool {
        self@ == value
    }

    fn validate_json_value(value: &JsonValue) -> (r: Result<()>) {
        match value {
            JsonValue::Object(_) => Ok(()),
            _ => Err(PropertyError::TypeMismatch),
        }
    }

    fn try_from_json_value(value: &'a JsonValue) -> (r: Result<Self>) {
        match Self::validate_json_value(value) {
            Err(e) => Err(e),
            Ok(()) => match value {
                JsonValue::Object(_) => Ok(Self { object: value }),
                _ => vstd::pervasive::unreached(),
            },
        }
    }
}

} // verus!
