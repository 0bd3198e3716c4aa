//! Typed configuration pipeline: a field schema drives the validation of a
//! dynamically typed document, fills in declared defaults, and yields a
//! canonical value ready for typed deserialization.

pub mod text;
pub mod float;
pub mod number;
pub mod value;
pub mod types;
pub mod error;
pub mod pattern;
pub mod defaults;
pub mod validator;
pub mod guarantees;
pub mod generator;
pub mod format;
