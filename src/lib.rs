//! Schema-driven synthesis of tabular test data.
//!
//! A schema is a list of named columns, each tagged with a semantic type name
//! and an optional argument bag. Every column is generated independently and
//! holds exactly the requested number of values.

pub mod text;
pub mod num;
pub mod value;
pub mod args;
pub mod catalogue;
pub mod sample;
pub mod generate;
pub mod laws;
