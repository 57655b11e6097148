//! The text-rewrite pass: a dump of a value that groups with parentheses is turned into the
//! bracket form in one scan from left to right. What stands inside a string literal is left
//! as it is.

use vstd::prelude::*;

verus! {

/// Where the scan stands.
#[derive(Debug, Clone, Copy, PartialEq, Eq, Structural)]
pub enum Scan {
    /// Outside any string literal.
    Plain,
    /// Inside a string literal.
    InString,
    /// Inside a string literal, right after a backslash.
    InStringEscaped,
}

/// One step of the scan: the state after the character `c`, and the character written for it.
///
/// Outside a string a quote opens one, `(` is written as `[` and `)` as `]`. Inside a string a
/// quote closes it and a backslash escapes the character that follows, whichever it is. Every
/// character but a parenthesis outside a string is written as it is.
pub open spec fn step(state: Scan, c: char) -> (Scan, char) {
    match state {
        Scan::Plain => if c == '"' {
            (Scan::InString, c)
        } else if c == '(' {
            (Scan::Plain, '[')
        } else if c == ')' {
            (Scan::Plain, ']')
        } else {
            (Scan::Plain, c)
        },
        Scan::InString => if c == '"' {
            (Scan::Plain, c)
        } else if c == '\\' {
            (Scan::InStringEscaped, c)
        } else {
            (Scan::InString, c)
        },
        Scan::InStringEscaped => (Scan::InString, c),
    }
}

/// The state in which a scan of `text` ends that begins in `start`.
pub open spec fn scanned(start: Scan, text: Seq<char>) -> Scan
    decreases text.len(),
{
    if text.len() == 0 {
        start
    } else {
        step(scanned(start, text.drop_last()), text.last()).0
    }
}

/// What a scan of `text` writes that begins in `start`.
pub open spec fn rewritten_from(start: Scan, text: Seq<char>) -> Seq<char>
    decreases text.len(),
{
    if text.len() == 0 {
        Seq::empty()
    } else {
        rewritten_from(start, text.drop_last()).push(
            step(scanned(start, text.drop_last()), text.last()).1,
        )
    }
}

/// The bracket form of `text`.
pub open spec fn rewritten(text: Seq<char>) -> Seq<char> {
    rewritten_from(Scan::Plain, text)
}

/// Takes one step of the scan.
pub fn rewrite_step(state: Scan, c: char) -> (r: (Scan, char))
    ensures
        r == step(state, c),
{
    match state {
        Scan::Plain => if c == '"' {
            (Scan::InString, c)
        } else if c == '(' {
            (Scan::Plain, '[')
        } else if c == ')' {
            (Scan::Plain, ']')
        } else {
            (Scan::Plain, c)
        },
        Scan::InString => if c == '"' {
            (Scan::Plain, c)
        } else if c == '\\' {
            (Scan::InStringEscaped, c)
        } else {
            (Scan::InString, c)
        },
        Scan::InStringEscaped => (Scan::InString, c),
    }
}

/// Rewrites a parenthesis-delimited dump into the bracket form.
pub fn rewrite(text: &str) -> (r: String)
    ensures
        r@ == rewritten(text@),
{
    let mut out = String::new();
    let mut state = Scan::Plain;
    for c in it: text.chars()
        invariant
            it.seq() == text@,
            state == scanned(Scan::Plain, text@.take(it.index() as int)),
            out@ == rewritten(text@.take(it.index() as int)),
    {
        proof {
            let n = it.index() as int;
            assert(text@.take(n + 1).drop_last() == text@.take(n));
        }
        let (next, written) = rewrite_step(state, c);
        out.push(written);
        state = next;
    }
    proof {
        assert(text@.take(text@.len() as int) == text@);
    }
    out
}

} // verus!
