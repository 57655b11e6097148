use serial::rewrite::{rewrite, rewrite_step, Scan};
use serial::serialize;

#[test]
fn rewrite_turns_parentheses_into_brackets() {
    assert_eq!("[1, 2.48]", rewrite("(1, 2.48)"));
    assert_eq!("[[1, 2], [3, 4]]", rewrite("((1, 2), (3, 4))"));
    assert_eq!("[]", rewrite("()"));
    assert_eq!("", rewrite(""));
    assert_eq!("true", rewrite("true"));
    assert_eq!("[1, 2, 3]", rewrite("[1, 2, 3]"));
}

#[test]
fn rewrite_leaves_strings_as_they_are() {
    assert_eq!("[\"a(b)\", 1]", rewrite("(\"a(b)\", 1)"));
    assert_eq!("\"(((\"", rewrite("\"(((\""));
    assert_eq!("[\"(\", [\")\"]]", rewrite("(\"(\", (\")\"))"));
}

#[test]
fn rewrite_takes_an_escaped_quote_for_no_end() {
    assert_eq!("[\"a\\\"(\", [2]]", rewrite("(\"a\\\"(\", (2))"));
    assert_eq!("[\"a\\\\\", [2]]", rewrite("(\"a\\\\\", (2))"));
    assert_eq!("\"\\\\\\\"(\"[", rewrite("\"\\\\\\\"(\"("));
}

#[test]
fn rewrite_step_follows_the_table() {
    assert_eq!((Scan::InString, '"'), rewrite_step(Scan::Plain, '"'));
    assert_eq!((Scan::Plain, '['), rewrite_step(Scan::Plain, '('));
    assert_eq!((Scan::Plain, ']'), rewrite_step(Scan::Plain, ')'));
    assert_eq!((Scan::Plain, 'x'), rewrite_step(Scan::Plain, 'x'));
    assert_eq!((Scan::Plain, '\\'), rewrite_step(Scan::Plain, '\\'));
    assert_eq!((Scan::Plain, '"'), rewrite_step(Scan::InString, '"'));
    assert_eq!((Scan::InStringEscaped, '\\'), rewrite_step(Scan::InString, '\\'));
    assert_eq!((Scan::InString, '('), rewrite_step(Scan::InString, '('));
    assert_eq!((Scan::InString, ')'), rewrite_step(Scan::InString, ')'));
    assert_eq!((Scan::InString, '"'), rewrite_step(Scan::InStringEscaped, '"'));
    assert_eq!((Scan::InString, '\\'), rewrite_step(Scan::InStringEscaped, '\\'));
    assert_eq!((Scan::InString, '('), rewrite_step(Scan::InStringEscaped, '('));
}

#[test]
fn rewrite_keeps_the_length_and_changes_nothing_twice() {
    for text in ["(1, (\"a)\\\"(\", 2), \"\\\\\")", "((((", "\"open (", "a\\(b)", "(\u{e9})"] {
        let once = rewrite(text);
        assert_eq!(text.chars().count(), once.chars().count());
        assert_eq!(once, rewrite(&once));
    }
}

#[test]
fn rewrite_keeps_the_text_of_a_string() {
    for v in ["", "(a)", "a\"(b)\"", "\\", "\\(", "\"", "))((\\\\\""] {
        let text = serialize(&String::from(v));
        assert_eq!(text, rewrite(&text));
    }
    let text = serialize(&vec![String::from("(a"), String::from("b)\"(")]);
    assert_eq!(text, rewrite(&text));
}
