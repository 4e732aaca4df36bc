//! Counting the stored versions of a resource in an object-storage bucket:
//! name validation, configuration bootstrap, store client construction and
//! the paginated count, each with a contract that Verus proves.

pub mod bucket;
pub mod codec;
pub mod config;
pub mod count;
pub mod document;
pub mod loader;
pub mod mode;
pub mod package;
pub mod routes;
pub mod validate;
