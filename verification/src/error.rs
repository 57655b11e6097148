//! The failures of parsing and of extraction.

use vstd::prelude::*;
use crate::value::{Content, DeSerialResult};

verus! {

/// The shape that an extraction asks of an intermediate value.
#[derive(Debug)]
pub enum Shape {
    Bool,
    Int,
    Float,
    String,
    Sequence,
    /// A tuple of this many elements.
    Tuple(usize),
    Record,
    /// A record with a field of this name.
    Field(String),
}

/// What a [`Shape`] holds: its view.
pub enum Asked {
    Bool,
    Int,
    Float,
    String,
    Sequence,
    Tuple(nat),
    Record,
    Field(Seq<char>),
}

impl View for Shape {
    type V = Asked;

    open spec fn view(&self) -> Asked {
        match self {
            Shape::Bool => Asked::Bool,
            Shape::Int => Asked::Int,
            Shape::Float => Asked::Float,
            Shape::String => Asked::String,
            Shape::Sequence => Asked::Sequence,
            Shape::Tuple(arity) => Asked::Tuple(*arity as nat),
            Shape::Record => Asked::Record,
            Shape::Field(name) => Asked::Field(name@),
        }
    }
}

/// Why a text was not parsed, or a typed value not extracted. A failure ends the conversion that
/// met it: nothing of its result is handed out.
#[derive(Debug)]
pub enum SerialError {
    /// The text is malformed, or holds what no intermediate value stands for.
    Parse,
    /// The intermediate value `found` has not the shape that was `requested`. Where `arity` is
    /// set, this is an arity mismatch: the value is of the right variant, but a sequence has
    /// not the length of the tuple, or a record lacks a field or has one too many.
    TypeMismatch { found: DeSerialResult, requested: Shape, arity: bool },
}

/// What a [`SerialError`] holds: its view.
pub enum Failure {
    Parse,
    TypeMismatch { found: Content, requested: Asked, arity: bool },
}

impl View for SerialError {
    type V = Failure;

    open spec fn view(&self) -> Failure {
        match self {
            SerialError::Parse => Failure::Parse,
            SerialError::TypeMismatch { found, requested, arity } => Failure::TypeMismatch {
                found: found@,
                requested: requested@,
                arity: *arity,
            },
        }
    }
}

/// The failure of a value of the wrong variant.
pub open spec fn wrong_variant(found: Content, requested: Asked) -> Failure {
    Failure::TypeMismatch { found, requested, arity: false }
}

/// The failure of a sequence of the wrong length, or of a record with the wrong fields.
pub open spec fn wrong_arity(found: Content, requested: Asked) -> Failure {
    Failure::TypeMismatch { found, requested, arity: true }
}

impl SerialError {
    /// The failure of `found`, which is of another variant than `requested` asks for.
    pub fn wrong_variant(found: DeSerialResult, requested: Shape) -> (e: SerialError)
        ensures
            e@ == wrong_variant(found@, requested@),
    {
        SerialError::TypeMismatch { found, requested, arity: false }
    }

    /// The failure of `found`, which is of the variant that `requested` asks for, but has not
    /// as many items, or not the fields.
    pub fn wrong_arity(found: DeSerialResult, requested: Shape) -> (e: SerialError)
        ensures
            e@ == wrong_arity(found@, requested@),
    {
        SerialError::TypeMismatch { found, requested, arity: true }
    }

    /// Whether the text could not be parsed.
    pub fn is_parse_error(&self) -> (r: bool)
        ensures
            r == (self@ is Parse),
    {
        match self {
            SerialError::Parse => true,
            _ => false,
        }
    }

    /// Whether a value had not the requested shape; an arity mismatch is one such failure.
    pub fn is_type_mismatch(&self) -> (r: bool)
        ensures
            r == (self@ is TypeMismatch),
    {
        match self {
            SerialError::TypeMismatch { .. } => true,
            _ => false,
        }
    }

    /// Whether a sequence had not the length of the tuple, or a record not the asked fields.
    pub fn is_arity_mismatch(&self) -> (r: bool)
        ensures
            r == (self@ matches Failure::TypeMismatch { arity, .. } && arity),
    {
        match self {
            SerialError::TypeMismatch { arity, .. } => *arity,
            _ => false,
        }
    }
}

} // verus!
