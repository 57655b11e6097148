//! The canonical text: what each kind of value is written as, and the functions that write it.

use vstd::prelude::*;

verus! {

/// `String::push` of std, which appends one character to the end of a string. The contract
/// is taken from its documentation and is not proved.
pub assume_specification[ std::string::String::push ](s: &mut std::string::String, c: char)
    ensures
        final(s)@ == old(s)@.push(c),
;

/// The character that stands for the decimal digit `d`, for `0 <= d <= 9`.
pub open spec fn digit(d: int) -> char {
    if d == 0 {
        '0'
    } else if d == 1 {
        '1'
    } else if d == 2 {
        '2'
    } else if d == 3 {
        '3'
    } else if d == 4 {
        '4'
    } else if d == 5 {
        '5'
    } else if d == 6 {
        '6'
    } else if d == 7 {
        '7'
    } else if d == 8 {
        '8'
    } else {
        '9'
    }
}

/// The decimal digits of `n`, the most significant first, with no leading zero but for 0 itself.
pub open spec fn digits(n: nat) -> Seq<char>
    decreases n,
{
    if n < 10 {
        seq![digit(n as int)]
    } else {
        digits(n / 10).push(digit((n % 10) as int))
    }
}

/// The text of a boolean: `true` or `false`.
pub open spec fn bool_text(b: bool) -> Seq<char> {
    if b {
        seq!['t', 'r', 'u', 'e']
    } else {
        seq!['f', 'a', 'l', 's', 'e']
    }
}

/// The text of an integer: its decimal digits, after a minus sign where it is negative.
pub open spec fn int_text(i: int) -> Seq<char> {
    if i < 0 {
        seq!['-'] + digits((-i) as nat)
    } else {
        digits(i as nat)
    }
}

/// One character of a string as it stands between the quotes: a quote or a backslash
/// gets a backslash before it, any other character stands for itself.
pub open spec fn escaped_char(c: char) -> Seq<char> {
    if c == '"' || c == '\\' {
        seq!['\\', c]
    } else {
        seq![c]
    }
}

/// The characters of `s`, each one escaped.
pub open spec fn escaped(s: Seq<char>) -> Seq<char>
    decreases s.len(),
{
    if s.len() == 0 {
        Seq::empty()
    } else {
        escaped(s.drop_last()) + escaped_char(s.last())
    }
}

/// The text of a string: its escaped characters between double quotes.
pub open spec fn string_text(s: Seq<char>) -> Seq<char> {
    seq!['"'] + escaped(s) + seq!['"']
}

/// The texts in `parts` in their order, with `, ` between each two neighbours.
pub open spec fn joined(parts: Seq<Seq<char>>) -> Seq<char>
    decreases parts.len(),
{
    if parts.len() == 0 {
        Seq::empty()
    } else if parts.len() == 1 {
        parts[0]
    } else {
        joined(parts.drop_last()) + seq![',', ' '] + parts.last()
    }
}

/// The text of a sequence or a tuple whose elements have the texts `parts`.
pub open spec fn sequence_text(parts: Seq<Seq<char>>) -> Seq<char> {
    seq!['['] + joined(parts) + seq![']']
}

/// The text of one field of a record: the name as a string, `: `, and the text of the value.
pub open spec fn pair_text(name: Seq<char>, value: Seq<char>) -> Seq<char> {
    string_text(name) + seq![':', ' '] + value
}

/// The text of a record whose fields have the names and value texts in `fields`.
pub open spec fn record_text(fields: Seq<(Seq<char>, Seq<char>)>) -> Seq<char> {
    seq!['{'] + joined(fields.map_values(|f: (Seq<char>, Seq<char>)| pair_text(f.0, f.1)))
        + seq!['}']
}

/// What the strings in `parts` hold.
pub open spec fn views(parts: Seq<String>) -> Seq<Seq<char>> {
    parts.map_values(|s: String| s@)
}

/// What the names and texts in `fields` hold.
pub open spec fn pair_views(fields: Seq<(String, String)>) -> Seq<(Seq<char>, Seq<char>)> {
    fields.map_values(|f: (String, String)| (f.0@, f.1@))
}

/// Joining one part more appends it, after `, ` unless it is the first.
pub proof fn lemma_joined_step(parts: Seq<Seq<char>>, n: int)
    requires
        0 <= n < parts.len(),
    ensures
        joined(parts.take(n + 1)) == if n == 0 {
            parts[0]
        } else {
            joined(parts.take(n)) + seq![',', ' '] + parts[n]
        },
{
    assert(parts.take(n + 1).drop_last() == parts.take(n));
}

fn digit_of(d: u8) -> (c: char)
    requires
        d < 10,
    ensures
        c == digit(d as int),
{
    match d {
        0 => '0',
        1 => '1',
        2 => '2',
        3 => '3',
        4 => '4',
        5 => '5',
        6 => '6',
        7 => '7',
        8 => '8',
        _ => '9',
    }
}

fn push_digits(out: &mut String, n: u64)
    ensures
        final(out)@ == old(out)@ + digits(n as nat),
    decreases n,
{
    if n >= 10 {
        push_digits(out, n / 10);
    }
    out.push(digit_of((n % 10) as u8));
}

/// Appends the texts in `parts` to `out`, with `, ` between each two neighbours.
fn push_joined(out: &mut String, parts: &Vec<String>)
    ensures
        final(out)@ == old(out)@ + joined(views(parts@)),
{
    let ghost before = out@;
    let mut i: usize = 0;
    while i < parts.len()
        invariant
            i <= parts.len(),
            out@ == before + joined(views(parts@).take(i as int)),
        decreases parts.len() - i,
    {
        proof {
            lemma_joined_step(views(parts@), i as int);
        }
        if i > 0 {
            out.push(',');
            out.push(' ');
        }
        out.append(parts[i].as_str());
        i += 1;
    }
    proof {
        assert(views(parts@).take(parts.len() as int) == views(parts@));
    }
}

/// Writes a boolean.
pub fn render_bool(b: bool) -> (s: String)
    ensures
        s@ == bool_text(b),
{
    let mut out = String::new();
    if b {
        out.push('t');
        out.push('r');
        out.push('u');
        out.push('e');
    } else {
        out.push('f');
        out.push('a');
        out.push('l');
        out.push('s');
        out.push('e');
    }
    out
}

/// Writes an integer in decimal.
pub fn render_int(i: i64) -> (s: String)
    ensures
        s@ == int_text(i as int),
{
    let mut out = String::new();
    if i < 0 {
        out.push('-');
        push_digits(&mut out, (-(i + 1)) as u64 + 1);
    } else {
        push_digits(&mut out, i as u64);
    }
    out
}

/// Writes a string between quotes, with its quotes and backslashes escaped.
pub fn render_string(s: &str) -> (r: String)
    ensures
        r@ == string_text(s@),
{
    let mut out = String::new();
    out.push('"');
    for c in it: s.chars()
        invariant
            it.seq() == s@,
            out@ == seq!['"'] + escaped(s@.take(it.index() as int)),
    {
        proof {
            let n = it.index() as int;
            assert(s@.take(n + 1).drop_last() == s@.take(n));
        }
        if c == '"' || c == '\\' {
            out.push('\\');
        }
        out.push(c);
    }
    proof {
        assert(s@.take(s@.len() as int) == s@);
    }
    out.push('"');
    out
}

/// Writes a sequence from the texts of its elements.
pub fn render_sequence(parts: &Vec<String>) -> (r: String)
    ensures
        r@ == sequence_text(views(parts@)),
{
    let mut out = String::new();
    out.push('[');
    push_joined(&mut out, parts);
    out.push(']');
    out
}

/// Writes a record from the names of its fields and the texts of their values.
pub fn render_record(fields: &Vec<(String, String)>) -> (r: String)
    ensures
        r@ == record_text(pair_views(fields@)),
{
    let mut parts: Vec<String> = Vec::new();
    let mut i: usize = 0;
    while i < fields.len()
        invariant
            i <= fields.len(),
            parts.len() == i,
            forall|k: int|
                0 <= k < i ==> (#[trigger] parts[k])@ == pair_text(fields[k].0@, fields[k].1@),
        decreases fields.len() - i,
    {
        let mut part = render_string(fields[i].0.as_str());
        part.push(':');
        part.push(' ');
        part.append(fields[i].1.as_str());
        parts.push(part);
        i += 1;
    }
    let mut out = String::new();
    out.push('{');
    push_joined(&mut out, &parts);
    out.push('}');
    proof {
        assert(views(parts@) == pair_views(fields@).map_values(
            |f: (Seq<char>, Seq<char>)| pair_text(f.0, f.1),
        ));
    }
    out
}

} // verus!
