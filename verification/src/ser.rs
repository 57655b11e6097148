//! Serialization: the trait of the values that have a canonical text, and its impls for the
//! scalars and for sequences.

use vstd::prelude::*;
use crate::text::{
    bool_text, int_text, joined, lemma_joined_step, render_bool, render_int, render_string,
    sequence_text, string_text,
};

verus! {

/// A value that can be written as canonical text.
pub trait Serialize {
    /// The canonical text of the value. An impl states it; of a type that states none,
    /// nothing is known.
    open spec fn text(&self) -> Seq<char> {
        arbitrary()
    }

    /// Writes the value as its canonical text.
    fn serialize(&self) -> (s: String)
        ensures
            s@ == self.text(),
    ;
}

impl Serialize for bool {
    open spec fn text(&self) -> Seq<char> {
        bool_text(*self)
    }

    fn serialize(&self) -> (s: String) {
        render_bool(*self)
    }
}

impl Serialize for i64 {
    open spec fn text(&self) -> Seq<char> {
        int_text(*self as int)
    }

    fn serialize(&self) -> (s: String) {
        render_int(*self)
    }
}

impl Serialize for String {
    open spec fn text(&self) -> Seq<char> {
        string_text(self@)
    }

    fn serialize(&self) -> (s: String) {
        render_string(self.as_str())
    }
}

impl<T: Serialize> Serialize for Vec<T> {
    open spec fn text(&self) -> Seq<char> {
        sequence_text(self@.map_values(|t: T| t.text()))
    }

    fn serialize(&self) -> (s: String) {
        let ghost parts = self@.map_values(|t: T| t.text());
        let mut built = String::new();
        built.push('[');
        let mut i: usize = 0;
        while i < self.len()
            invariant
                i <= self.len(),
                parts == self@.map_values(|t: T| t.text()),
                built@ == seq!['['] + joined(parts.take(i as int)),
            decreases self.len() - i,
        {
            proof {
                lemma_joined_step(parts, i as int);
            }
            if i > 0 {
                built.push(',');
                built.push(' ');
            }
            let part = self[i].serialize();
            built.append(part.as_str());
            i += 1;
        }
        proof {
            assert(parts.take(self.len() as int) == parts);
        }
        built.push(']');
        built
    }
}

/// Writes `t` as its canonical text.
pub fn serialize<T: Serialize>(t: &T) -> (s: String)
    ensures
        s@ == t.text(),
{
    t.serialize()
}

} // verus!
