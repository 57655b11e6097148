//! Extraction: the typed value that an intermediate value holds, or the failure where it has
//! not the shape of the type.

use vstd::prelude::*;
use crate::error::{wrong_arity, wrong_variant, Asked, Failure, SerialError, Shape};
use crate::value::{lemma_view_of_vec, Content, DeSerialResult, Record};

verus! {

/// A type whose values can be extracted from an intermediate value.
pub trait Extract: Sized {
    /// The failure that extraction gives for `v`, or `None` where `v` has the shape of this
    /// type. An impl states it; of a type that states none, nothing is known.
    open spec fn refusal(v: Content) -> Option<Failure> {
        arbitrary()
    }

    /// Whether `self` is the typed value that `v` holds. An impl states it; of a type that
    /// states none, nothing is known.
    open spec fn reads(&self, v: Content) -> bool {
        arbitrary()
    }

    /// Extracts the typed value from `v`, which is consumed.
    fn extract(v: DeSerialResult) -> (r: Result<Self, SerialError>)
        ensures
            match r {
                Ok(t) => Self::refusal(v@) is None && t.reads(v@),
                Err(e) => Self::refusal(v@) == Some(e@),
            },
    ;
}

/// A number that was extracted as a float. An integer widens to the float of the same value:
/// that step, and every other one that computes with floats, is the caller's.
#[derive(Debug, Clone, Copy, PartialEq, Eq, Structural)]
pub enum Float {
    /// The value was an integer: the float is the one of the same value.
    Int(i64),
    /// The value was a float: these are the 64 bits of its IEEE 754 encoding.
    Bits(u64),
}

impl Extract for bool {
    open spec fn refusal(v: Content) -> Option<Failure> {
        if v is Bool {
            None
        } else {
            Some(wrong_variant(v, Asked::Bool))
        }
    }

    open spec fn reads(&self, v: Content) -> bool {
        v == Content::Bool(*self)
    }

    fn extract(v: DeSerialResult) -> (r: Result<bool, SerialError>) {
        match v {
            DeSerialResult::Bool(b) => Ok(b),
            other => Err(SerialError::wrong_variant(other, Shape::Bool)),
        }
    }
}

impl Extract for i64 {
    open spec fn refusal(v: Content) -> Option<Failure> {
        if v is Int {
            None
        } else {
            Some(wrong_variant(v, Asked::Int))
        }
    }

    open spec fn reads(&self, v: Content) -> bool {
        v == Content::Int(*self as int)
    }

    fn extract(v: DeSerialResult) -> (r: Result<i64, SerialError>) {
        match v {
            DeSerialResult::Int(i) => Ok(i),
            other => Err(SerialError::wrong_variant(other, Shape::Int)),
        }
    }
}

impl Extract for Float {
    open spec fn refusal(v: Content) -> Option<Failure> {
        if v is Int || v is Float {
            None
        } else {
            Some(wrong_variant(v, Asked::Float))
        }
    }

    open spec fn reads(&self, v: Content) -> bool {
        match *self {
            Float::Int(i) => v == Content::Int(i as int),
            Float::Bits(bits) => v == Content::Float(bits),
        }
    }

    fn extract(v: DeSerialResult) -> (r: Result<Float, SerialError>) {
        match v {
            DeSerialResult::Int(i) => Ok(Float::Int(i)),
            DeSerialResult::Float(bits) => Ok(Float::Bits(bits)),
            other => Err(SerialError::wrong_variant(other, Shape::Float)),
        }
    }
}

impl Extract for String {
    open spec fn refusal(v: Content) -> Option<Failure> {
        if v is Str {
            None
        } else {
            Some(wrong_variant(v, Asked::String))
        }
    }

    open spec fn reads(&self, v: Content) -> bool {
        v == Content::Str(self@)
    }

    fn extract(v: DeSerialResult) -> (r: Result<String, SerialError>) {
        match v {
            DeSerialResult::String(s) => Ok(s),
            other => Err(SerialError::wrong_variant(other, Shape::String)),
        }
    }
}

/// The failure of the first of `items` that a `T` cannot be extracted from, or `None` where one
/// can be extracted from each.
pub open spec fn first_refusal<T: Extract>(items: Seq<Content>) -> Option<Failure>
    decreases items.len(),
{
    if items.len() == 0 {
        None
    } else if T::refusal(items[0]) is Some {
        T::refusal(items[0])
    } else {
        first_refusal::<T>(items.drop_first())
    }
}

/// Past items that are not refused, the first refusal is the first one among the rest.
pub proof fn lemma_first_refusal_skips<T: Extract>(items: Seq<Content>, n: int)
    requires
        0 <= n <= items.len(),
        forall|i: int| 0 <= i < n ==> T::refusal(#[trigger] items[i]) is None,
    ensures
        first_refusal::<T>(items) == first_refusal::<T>(items.skip(n)),
    decreases n,
{
    if n == 0 {
        assert(items.skip(0) == items);
    } else {
        let rest = items.drop_first();
        lemma_first_refusal_skips::<T>(rest, n - 1);
        assert(rest.skip(n - 1) == items.skip(n));
    }
}

impl<T: Extract> Extract for Vec<T> {
    open spec fn refusal(v: Content) -> Option<Failure> {
        match v {
            Content::List(items) => first_refusal::<T>(items),
            _ => Some(wrong_variant(v, Asked::Sequence)),
        }
    }

    open spec fn reads(&self, v: Content) -> bool {
        &&& v matches Content::List(items)
        &&& self.len() == items.len()
        &&& forall|i: int| 0 <= i < self.len() ==> (#[trigger] self[i]).reads(items[i])
    }

    fn extract(v: DeSerialResult) -> (r: Result<Vec<T>, SerialError>) {
        match v {
            DeSerialResult::Vec(items) => {
                let ghost values = items@.map_values(|d: DeSerialResult| d@);
                proof {
                    lemma_view_of_vec(items);
                }
                let mut out: Vec<T> = Vec::new();
                for item in it: items
                    invariant
                        it.seq() == items@,
                        values == items@.map_values(|d: DeSerialResult| d@),
                        v@ == Content::List(values),
                        out.len() == it.index(),
                        forall|i: int|
                            0 <= i < out.len() ==> T::refusal(#[trigger] values[i]) is None,
                        forall|i: int|
                            0 <= i < out.len() ==> (#[trigger] out[i]).reads(values[i]),
                {
                    let ghost n = it.index() as int;
                    match T::extract(item) {
                        Ok(t) => {
                            out.push(t);
                        },
                        Err(e) => {
                            proof {
                                lemma_first_refusal_skips::<T>(values, n);
                            }
                            return Err(e);
                        },
                    }
                }
                proof {
                    lemma_first_refusal_skips::<T>(values, values.len() as int);
                }
                Ok(out)
            },
            other => Err(SerialError::wrong_variant(other, Shape::Sequence)),
        }
    }
}

/// The failure of a value from which a tuple of `arity` elements is asked, whose
/// first element is an `H` and whose other elements make a `T`: the value is no sequence, or has
/// not `arity` items, or its first item is refused, or the sequence of the others is.
pub open spec fn tuple_refusal<H: Extract, T: Extract>(v: Content, arity: nat) -> Option<Failure> {
    match v {
        Content::List(items) => if items.len() != arity || arity == 0 {
            Some(wrong_arity(v, Asked::Tuple(arity)))
        } else if H::refusal(items[0]) is Some {
            H::refusal(items[0])
        } else {
            T::refusal(Content::List(items.drop_first()))
        },
        _ => Some(wrong_variant(v, Asked::Tuple(arity))),
    }
}

/// Whether `head` and `tail` are the first element and the other elements of the tuple of
/// `arity` elements that `v` holds.
pub open spec fn tuple_reads<H: Extract, T: Extract>(
    head: H,
    tail: T,
    v: Content,
    arity: nat,
) -> bool {
    &&& v matches Content::List(items)
    &&& items.len() == arity
    &&& arity != 0
    &&& head.reads(items[0])
    &&& tail.reads(Content::List(items.drop_first()))
}

/// Extracts a tuple of `arity` elements as its first element and the tuple of the others.
pub fn split_tuple<H: Extract, T: Extract>(v: DeSerialResult, arity: usize) -> (r: Result<
    (H, T),
    SerialError,
>)
    ensures
        match r {
            Ok(pair) => tuple_refusal::<H, T>(v@, arity as nat) is None && tuple_reads(
                pair.0,
                pair.1,
                v@,
                arity as nat,
            ),
            Err(e) => tuple_refusal::<H, T>(v@, arity as nat) == Some(e@),
        },
{
    match v {
        DeSerialResult::Vec(mut items) => {
            proof {
                lemma_view_of_vec(items);
            }
            if items.len() != arity || arity == 0 {
                let whole = DeSerialResult::Vec(items);
                return Err(SerialError::wrong_arity(whole, Shape::Tuple(arity)));
            }
            let ghost values = items@.map_values(|d: DeSerialResult| d@);
            let first = items.remove(0);
            proof {
                lemma_view_of_vec(items);
                assert(items@.map_values(|d: DeSerialResult| d@) == values.drop_first());
            }
            let head = H::extract(first)?;
            let tail = T::extract(DeSerialResult::Vec(items))?;
            Ok((head, tail))
        },
        other => Err(SerialError::wrong_variant(other, Shape::Tuple(arity))),
    }
}

/// The failure of asking the record `fields` for a `T` under `name`: the record has no such
/// field, or what it has there is refused.
pub open spec fn field_refusal<T: Extract>(
    fields: Map<Seq<char>, Content>,
    name: Seq<char>,
) -> Option<Failure> {
    if fields.contains_key(name) {
        T::refusal(fields[name])
    } else {
        Some(wrong_arity(Content::Record(fields), Asked::Field(name)))
    }
}

impl DeSerialResult {
    /// The record that this value is. A value of another variant is a type mismatch.
    pub fn into_record(self) -> (r: Result<Record, SerialError>)
        ensures
            match r {
                Ok(record) => self@ == Content::Record(record@),
                Err(e) => !(self@ is Record) && e@ == wrong_variant(self@, Asked::Record),
            },
    {
        match self {
            DeSerialResult::Struct(record) => Ok(record),
            other => Err(SerialError::wrong_variant(other, Shape::Record)),
        }
    }
}

impl Record {
    /// Takes the field `name` out of the record and extracts a `T` from it. Where the record
    /// has no such field, that is an arity mismatch, and the record goes into the error.
    pub fn field<T: Extract>(&mut self, name: &str) -> (r: Result<T, SerialError>)
        ensures
            match r {
                Ok(t) => field_refusal::<T>(old(self)@, name@) is None && t.reads(
                    old(self)@[name@],
                ),
                Err(e) => field_refusal::<T>(old(self)@, name@) == Some(e@),
            },
            final(self)@ == if old(self)@.contains_key(name@) {
                old(self)@.remove(name@)
            } else {
                Map::<Seq<char>, Content>::empty()
            },
    {
        match self.remove(name) {
            Some(value) => T::extract(value),
            None => {
                proof {
                    assert(self@ =~= old(self)@);
                }
                let whole = DeSerialResult::Struct(self.take());
                Err(SerialError::wrong_arity(whole, Shape::Field(String::from_str(name))))
            },
        }
    }

    /// Ends the extraction of a record: a field that is still there was not asked for, which
    /// is an arity mismatch.
    pub fn finish(self) -> (r: Result<(), SerialError>)
        ensures
            match r {
                Ok(_) => self@ == Map::<Seq<char>, Content>::empty(),
                Err(e) => self@ != Map::<Seq<char>, Content>::empty() && e@ == wrong_arity(
                    Content::Record(self@),
                    Asked::Record,
                ),
            },
    {
        if self.is_empty() {
            Ok(())
        } else {
            Err(SerialError::wrong_arity(DeSerialResult::Struct(self), Shape::Record))
        }
    }
}

/// Extracts a `T` from `v`, which is consumed.
pub fn extract<T: Extract>(v: DeSerialResult) -> (r: Result<T, SerialError>)
    ensures
        match r {
            Ok(t) => T::refusal(v@) is None && t.reads(v@),
            Err(e) => T::refusal(v@) == Some(e@),
        },
{
    T::extract(v)
}

} // verus!
