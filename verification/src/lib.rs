//! Decomposes a named-field record definition into one uniquely tagged wrapper
//! type per field, an aggregate of those wrappers, and the conversion between
//! the record and its aggregate.

pub mod attrs;
pub mod component;
pub mod decl;
pub mod error;
pub mod ident;
pub mod laws;
pub mod model;
pub mod render;
pub mod resource;
pub mod tags;
pub mod text;
pub mod wrappers;

pub use component::bundle;
pub use resource::resource_bundle;
