//! Generator of builder types for record definitions.
//!
//! Given the structure of a record (its name, its visibility and its named
//! fields, each with a type expression and raw annotations), the library
//! synthesizes the declarations of a companion builder: a type with one
//! optional slot per field, a setter per field, and a construction method that
//! checks the required fields and assembles the record.
//!
//! - [`type_expr`] matches a type expression against the wrappers `Option<T>`
//!   and `Vec<T>`.
//! - [`annotation`] reads an element-setter name out of the annotations of a
//!   field.
//! - [`record`] gives each field its policy: required, optional or collected.
//! - [`synth`] synthesizes the declarations and is the entry point.
//! - [`runtime`] says what a builder so declared does, and runs it.
//! - [`laws`] states what holds of every generated builder.
//!
//! Every data type has a mathematical value, its view, and every function says
//! in its contract what it computes in terms of those values.

pub mod annotation;
pub mod laws;
pub mod record;
pub mod runtime;
pub mod synth;
pub mod type_expr;
