//! Fetchers: look a property up in a map node and read it as a view.
pub mod property;
pub mod types;
