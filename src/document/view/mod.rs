//! Typed views over document nodes.
//!
//! A view borrows one node (or the array under it) and reads it as one shape of
//! the vocabulary. Every view type follows the two-step protocol of
//! [`TryFromJsonValue`]: a check of the node's shape, then the conversion.
use vstd::prelude::*;

use crate::document::JsonValue;

pub use self::document::DocumentView;
pub use self::error::{PropertyError, Result};
pub use self::image::ImageView;
pub use self::link::LinkView;
pub use self::object::ObjectView;
pub use self::object_or_link::{ImageOrLinkView, ObjectOrLinkView};
pub use self::single_or_multi::{
    SingleOrMultiJsonView, SingleOrMultiJsonViewIter, SingleOrMultiView, SingleOrMultiViewIter,
};
pub use self::value::{
    DateTimeView, DurationView, IriView, LangStringView, LangStringViewIter, LanguageTagView,
    MediaTypeView, NaturalLanguageView,
};

pub mod document;
pub mod error;
pub mod fetch;
pub mod image;
pub mod link;
pub mod object;
pub mod object_or_link;
pub mod single_or_multi;
pub mod value;

verus! {

/// Holds when `r` is what a conversion of the node `value` to a `T` may give:
/// a view that reads the node exactly when `T` accepts the node's shape, and a
/// type mismatch otherwise.
pub open spec fn converted<'a, T: TryFromJsonValue<'a>>(value: JsonValue, r: Result<T>) -> bool {
    &&& (r is Ok <==> T::accepts(value))
    &&& (r matches Ok(v) ==> v.reads(value))
    &&& (r matches Err(e) ==> e is TypeMismatch)
}

/// Attempt to construct `Self` from a node.
pub trait TryFromJsonValue<'a>: Sized {
    /// Holds when a node has a shape that this view type can read.
    spec fn accepts(value: JsonValue) -> bool;

    /// Holds when this view reads the node `value`.
    spec fn reads(self, value: JsonValue) -> bool;

    /// Checks whether a view of this type can be made from the node, without
    /// making it.
    fn validate_json_value(value: &JsonValue) -> (r: Result<()>)
        ensures
            r is Ok <==> Self::accepts(*value),
            r matches Err(e) ==> e is TypeMismatch,
    ;

    /// Makes a view of this type over the node. It checks the node first, and
    /// fails exactly as that check does.
    fn try_from_json_value(value: &'a JsonValue) -> (r: Result<Self>)
        ensures
            r is Ok <==> Self::accepts(*value),
            r matches Ok(v) ==> v.reads(*value),
            r matches Err(e) ==> e is TypeMismatch,
    ;
}

} // verus!
