//! `Document` type object view.
use vstd::prelude::*;

use crate::document::view::ObjectView;
use crate::document::view::{PropertyError, Result, TryFromJsonValue};
use crate::document::JsonValue;

verus! {

/// A `Document` type object view.
#[derive(Debug, Clone, Copy, PartialEq)]
pub struct DocumentView<'a> {
    /// Target object.
    object: &'a JsonValue,
}

impl<'a> View for DocumentView<'a> {
    type V = JsonValue;

    closed spec fn view(&self) -> JsonValue {
        *self.object
    }
}

impl<'a> DocumentView<'a> {
    /// Creates a new `DocumentView` from a raw JSON object.
    ///
    /// Use `TryFromJsonValue::try_from_json_value` for normal use.
    pub(crate) fn new(object: &'a JsonValue) -> (r: Self)
        ensures
            r@ == *object,
    {
        Self { object }
    }

    /// Upcasts the view.
    pub fn object_view(&self) -> (r: ObjectView<'a>)
        ensures
            r@ == self@,
    {
        ObjectView::new(self.object)
    }
}

impl<'a> TryFromJsonValue<'a> for DocumentView<'a> {
    open spec fn accepts(value: JsonValue) -> bool {
        value is Object
    }

    open spec fn reads(self, value: JsonValue) -> bool {
        self@ == value
    }

    fn validate_json_value(value: &JsonValue) -> (r: Result<()>) {
        match value {
            JsonValue::Object(_) => Ok(()),
            _ => Err(PropertyError::TypeMismatch),
        }
    }

    fn try_from_json_value(value: &'a JsonValue) -> (r: Result<Self>) {
        match Self::validate_json_value(value) {
            Err(e) => Err(e),
            Ok(()) => match value {
                JsonValue::Object(_) => Ok(Self { object: value }),
                _ => vstd::pervasive::unreached(),
            },
        }
    }
}

} // verus!
