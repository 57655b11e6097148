//! A small text format for values. Booleans, integers, strings, sequences, tuples and records
//! are written as canonical text, which is JSON, and read back in two steps: the text is parsed
//! into an intermediate value, and a typed value is extracted from that.
//!
//! - [`ser`] and [`tuples`] write values: [`Serialize`], [`serialize`].
//! - [`text`] says what the canonical text of each kind of value is, and writes it.
//! - [`json`] parses: [`deserialize`], and [`populate`] for a tree that was read elsewhere.
//! - [`value`] holds the intermediate value, [`DeSerialResult`], and its records.
//! - [`de`] and [`tuples`] extract typed values: [`Extract`], [`extract`].
//! - [`error`] holds the failures of both steps.
//! - [`rewrite`] turns a dump with parentheses into the bracket form.
//! - [`laws`] proves what holds of all this for every value.

pub mod de;
pub mod error;
pub mod json;
pub mod laws;
pub mod rewrite;
pub mod ser;
pub mod text;
pub mod tuples;
pub mod value;

pub use de::{extract, Extract, Float};
pub use error::{SerialError, Shape};
pub use json::{deserialize, populate, Json};
pub use ser::{serialize, Serialize};
pub use value::{DeSerialResult, Record};
