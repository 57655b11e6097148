//! What holds of the canonical text and of extraction, for every value.

use vstd::prelude::*;
use crate::de::Extract;
use crate::json::{populated, Tree};
use crate::rewrite::{rewritten, rewritten_from, scanned, step, Scan};
use crate::ser::Serialize;
use crate::text::{bool_text, digits, escaped, escaped_char, int_text, string_text};
use crate::value::Content;

verus! {

/// The number that a decimal digit stands for.
pub open spec fn digit_value(c: char) -> nat {
    if c == '1' {
        1
    } else if c == '2' {
        2
    } else if c == '3' {
        3
    } else if c == '4' {
        4
    } else if c == '5' {
        5
    } else if c == '6' {
        6
    } else if c == '7' {
        7
    } else if c == '8' {
        8
    } else if c == '9' {
        9
    } else {
        0
    }
}

/// The number that a string of decimal digits denotes.
pub open spec fn denoted(s: Seq<char>) -> nat
    decreases s.len(),
{
    if s.len() == 0 {
        0
    } else {
        denoted(s.drop_last()) * 10 + digit_value(s.last())
    }
}

/// The digits of a number denote that number.
pub proof fn lemma_digits_denote(n: nat)
    ensures
        denoted(digits(n)) == n,
    decreases n,
{
    if n < 10 {
        assert(denoted(digits(n).drop_last()) == 0);
    } else {
        lemma_digits_denote(n / 10);
        assert(digits(n).drop_last() =~= digits(n / 10));
    }
}

/// Whether a character is a decimal digit.
pub open spec fn is_digit(c: char) -> bool {
    c == '0' || c == '1' || c == '2' || c == '3' || c == '4' || c == '5' || c == '6' || c == '7'
        || c == '8' || c == '9'
}

/// A number is written with digits only, at least one, and with no zero in front but for the
/// number zero, which is one zero.
pub proof fn lemma_digits_shape(n: nat)
    ensures
        digits(n).len() >= 1,
        forall|i: int| 0 <= i < digits(n).len() ==> is_digit(#[trigger] digits(n)[i]),
        n == 0 ==> digits(n) == seq!['0'],
        n > 0 ==> digits(n)[0] != '0',
    decreases n,
{
    if n >= 10 {
        lemma_digits_shape(n / 10);
    }
}

/// Two integers that are written alike are equal.
pub proof fn lemma_int_text_injective(a: i64, b: i64)
    requires
        a.text() == b.text(),
    ensures
        a == b,
{
    let x = a as int;
    let y = b as int;
    let m: nat = if x < 0 {
        (-x) as nat
    } else {
        x as nat
    };
    let n: nat = if y < 0 {
        (-y) as nat
    } else {
        y as nat
    };
    lemma_digits_shape(m);
    lemma_digits_shape(n);
    lemma_digits_denote(m);
    lemma_digits_denote(n);
    if x < 0 {
        assert(int_text(x).skip(1) =~= digits(m));
        assert(int_text(y).skip(1) =~= digits(n));
    }
}

/// An integer is written as digits, after one minus sign where it is negative: with no
/// decimal point and nothing behind the digits.
pub proof fn lemma_int_text_shape(v: i64)
    ensures
        v >= 0 ==> forall|i: int| 0 <= i < v.text().len() ==> is_digit(#[trigger] v.text()[i]),
        v < 0 ==> v.text().len() >= 2 && v.text()[0] == '-' && forall|i: int|
            1 <= i < v.text().len() ==> is_digit(#[trigger] v.text()[i]),
{
    if v >= 0 {
        lemma_digits_shape(v as nat);
    } else {
        let m = (-(v as int)) as nat;
        lemma_digits_shape(m);
        assert forall|i: int| 1 <= i < v.text().len() implies is_digit(#[trigger] v.text()[i]) by {
            assert(v.text()[i] == digits(m)[i - 1]);
        }
    }
}

/// A boolean, an integer and a string are never written alike: the text tells which of them
/// was written.
pub proof fn lemma_scalar_texts_apart(b: bool, i: i64, s: String)
    ensures
        b.text() != i.text(),
        b.text() != s.text(),
        i.text() != s.text(),
{
    lemma_int_text_shape(i);
    let m: nat = if i < 0 {
        (-(i as int)) as nat
    } else {
        i as nat
    };
    lemma_digits_shape(m);
}

/// Two booleans that are written alike are equal.
pub proof fn lemma_bool_text_injective(a: bool, b: bool)
    requires
        a.text() == b.text(),
    ensures
        a == b,
{
}

/// The escaped form of a string is empty only for the empty string, and ends with the
/// character that the string ends with.
pub proof fn lemma_escaped_end(s: Seq<char>)
    ensures
        s.len() == 0 ==> escaped(s).len() == 0,
        s.len() > 0 ==> escaped(s).len() > 0 && escaped(s).last() == s.last(),
{
}

/// Two strings with the same escaped form are equal.
pub proof fn lemma_escaped_injective(s: Seq<char>, t: Seq<char>)
    requires
        escaped(s) == escaped(t),
    ensures
        s == t,
    decreases s.len(),
{
    lemma_escaped_end(s);
    lemma_escaped_end(t);
    if s.len() > 0 {
        let c = s.last();
        let tail = escaped_char(c);
        let whole = escaped(s);
        let cut = whole.len() - tail.len();
        assert(whole.subrange(0, cut) =~= escaped(s.drop_last()));
        assert(whole.subrange(0, cut) =~= escaped(t.drop_last()));
        lemma_escaped_injective(s.drop_last(), t.drop_last());
        assert(t =~= t.drop_last().push(c));
    }
}

/// Two strings that are written alike hold the same characters.
pub proof fn lemma_string_text_injective(a: String, b: String)
    requires
        a.text() == b.text(),
    ensures
        a@ == b@,
{
    let x = string_text(a@);
    let y = string_text(b@);
    assert(x.subrange(1, x.len() - 1) =~= escaped(a@));
    assert(y.subrange(1, y.len() - 1) =~= escaped(b@));
    lemma_escaped_injective(a@, b@);
}

/// A boolean comes back from the tree that stands for it: the tree stands for a value, a
/// boolean can be extracted from that value, and the one that is extracted is the same, and
/// is written the same.
pub proof fn lemma_bool_round_trip(v: bool, w: bool)
    requires
        w.reads(populated(Tree::Bool(v))->0),
    ensures
        populated(Tree::Bool(v)) is Some,
        <bool as Extract>::refusal(populated(Tree::Bool(v))->0) is None,
        w == v,
        w.text() == v.text(),
{
}

/// An integer comes back from the tree that stands for it, whatever float the tree holds
/// beside it: the tree stands for a value, an integer can be extracted from that value, and the
/// one that is extracted is the same, and is written the same.
pub proof fn lemma_int_round_trip(v: i64, float: Option<u64>, w: i64)
    requires
        w.reads(populated(Tree::Number { integer: Some(v), float })->0),
    ensures
        populated(Tree::Number { integer: Some(v), float }) is Some,
        <i64 as Extract>::refusal(populated(Tree::Number { integer: Some(v), float })->0) is None,
        w == v,
        w.text() == v.text(),
{
}

/// A string comes back from the tree that stands for it: the tree stands for a value, a
/// string can be extracted from that value, and the one that is extracted holds the same
/// characters, and is written the same.
pub proof fn lemma_string_round_trip(v: String, w: String)
    requires
        w.reads(populated(Tree::Str(v@))->0),
    ensures
        populated(Tree::Str(v@)) is Some,
        <String as Extract>::refusal(populated(Tree::Str(v@))->0) is None,
        w@ == v@,
        w.text() == v.text(),
{
}

/// What can be extracted from a value as a boolean, an integer or a string is one thing only:
/// no value reads as two.
pub proof fn lemma_scalar_reads_once(
    c: Content,
    b1: bool,
    b2: bool,
    i1: i64,
    i2: i64,
    s1: String,
    s2: String,
)
    ensures
        b1.reads(c) && b2.reads(c) ==> b1 == b2,
        i1.reads(c) && i2.reads(c) ==> i1 == i2,
        s1.reads(c) && s2.reads(c) ==> s1@ == s2@,
{
}

/// A scan of two texts, one after the other, is the scan of the first and then, from the state
/// in which that ends, the scan of the second.
pub proof fn lemma_scan_concat(start: Scan, a: Seq<char>, b: Seq<char>)
    ensures
        scanned(start, a + b) == scanned(scanned(start, a), b),
        rewritten_from(start, a + b) == rewritten_from(start, a) + rewritten_from(
            scanned(start, a),
            b,
        ),
    decreases b.len(),
{
    if b.len() == 0 {
        assert(rewritten_from(start, a) + rewritten_from(scanned(start, a), b) =~= rewritten_from(
            start,
            a,
        ));
    } else {
        lemma_scan_concat(start, a, b.drop_last());
        assert((a + b).drop_last() =~= a + b.drop_last());
        assert(rewritten_from(start, a + b) =~= rewritten_from(start, a) + rewritten_from(
            scanned(start, a),
            b,
        ));
    }
}

/// The pass writes as many characters as it reads.
pub proof fn lemma_rewritten_len(start: Scan, text: Seq<char>)
    ensures
        rewritten_from(start, text).len() == text.len(),
    decreases text.len(),
{
    if text.len() > 0 {
        lemma_rewritten_len(start, text.drop_last());
    }
}

/// The pass changes nothing but parentheses outside strings: each character that it writes is
/// the one that it read, or the bracket for a parenthesis that stood outside any string.
pub proof fn lemma_rewritten_at(start: Scan, text: Seq<char>, i: int)
    requires
        0 <= i < text.len(),
    ensures
        rewritten_from(start, text).len() == text.len(),
        rewritten_from(start, text)[i] == step(scanned(start, text.take(i)), text[i]).1,
        scanned(start, text.take(i)) != Scan::Plain ==> rewritten_from(start, text)[i] == text[i],
    decreases text.len(),
{
    lemma_rewritten_len(start, text);
    lemma_rewritten_len(start, text.drop_last());
    if i < text.len() - 1 {
        lemma_rewritten_at(start, text.drop_last(), i);
        assert(text.drop_last().take(i) =~= text.take(i));
    }
}

/// What the pass has written it leaves as it is: a second pass changes nothing.
pub proof fn lemma_rewritten_idempotent(start: Scan, text: Seq<char>)
    ensures
        scanned(start, rewritten_from(start, text)) == scanned(start, text),
        rewritten_from(start, rewritten_from(start, text)) == rewritten_from(start, text),
    decreases text.len(),
{
    if text.len() > 0 {
        let once = rewritten_from(start, text);
        lemma_rewritten_idempotent(start, text.drop_last());
        assert(once.drop_last() =~= rewritten_from(start, text.drop_last()));
    }
}

/// Inside a string, the escaped form of any characters is left as it is, and the scan is
/// inside the string after it: no quote and no parenthesis among the characters misleads it.
pub proof fn lemma_escaped_is_kept(s: Seq<char>)
    ensures
        scanned(Scan::InString, escaped(s)) == Scan::InString,
        rewritten_from(Scan::InString, escaped(s)) == escaped(s),
    decreases s.len(),
{
    if s.len() > 0 {
        lemma_escaped_is_kept(s.drop_last());
        lemma_scan_concat(Scan::InString, escaped(s.drop_last()), escaped_char(s.last()));
        reveal_with_fuel(scanned, 3);
        reveal_with_fuel(rewritten_from, 3);
    }
}

/// The pass leaves the text of a string as it is, whatever the string holds, and ends outside
/// the string.
pub proof fn lemma_string_text_is_kept(s: Seq<char>)
    ensures
        scanned(Scan::Plain, string_text(s)) == Scan::Plain,
        rewritten(string_text(s)) == string_text(s),
{
    let quote = seq!['"'];
    reveal_with_fuel(scanned, 2);
    reveal_with_fuel(rewritten_from, 2);
    lemma_escaped_is_kept(s);
    lemma_scan_concat(Scan::Plain, quote, escaped(s));
    lemma_scan_concat(Scan::Plain, quote + escaped(s), quote);
}

} // verus!
