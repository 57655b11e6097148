use serial::text::render_record;
use serial::{serialize, Serialize};

/// A float, written as the shortest decimal text that reads back as the same float.
struct Real(f64);

impl Serialize for Real {
    fn serialize(&self) -> String {
        format!("{:?}", self.0)
    }
}

#[derive(Debug, PartialEq, Eq)]
struct Person {
    name: String,
    age: i64,
}

impl Serialize for Person {
    fn serialize(&self) -> String {
        render_record(&vec![
            (String::from("name"), self.name.serialize()),
            (String::from("age"), self.age.serialize()),
        ])
    }
}

#[test]
fn test_serialize_bool() {
    assert_eq!("true", &serialize(&true));
    assert_eq!("false", &serialize(&false));
}

#[test]
fn test_serialize_int() {
    assert_eq!("-21", &serialize(&-21));
    assert_eq!("-2", &serialize(&-2));
    assert_eq!("0", &serialize(&0));
    assert_eq!("21", &serialize(&21));
}

#[test]
fn test_serialize_float() {
    assert_eq!("-1.28", &serialize(&Real(-1.28)));
    assert_eq!("-0.12", &serialize(&Real(-0.12)));
    assert_eq!("0.0", &serialize(&Real(0.0)));
    assert_eq!("0.12", &serialize(&Real(0.12)));
    assert_eq!("1.28", &serialize(&Real(1.28)));
}

#[test]
fn test_serialize_str() {
    assert_eq!("\"asdf\"", &serialize(&String::from("asdf")));
    assert_eq!("\"as\\\"df\"", &serialize(&String::from("as\"df")));
}

#[test]
fn test_serialize_vec() {
    assert_eq!("[1, 2, 3]", &serialize(&vec![1, 2, 3]));
    assert_eq!(
        "[[1, 2], [3, 4], [5, 6]]",
        &serialize(&vec![vec![1, 2], vec![3, 4], vec![5, 6]])
    );
}

#[test]
fn test_serialize_tuple() {
    assert_eq!("[1, 2.48]", &serialize(&(1, Real(2.48))));
    assert_eq!(
        "[1, 2.48, \"asdf\"]",
        &serialize(&(1, Real(2.48), String::from("asdf")))
    );
}

#[test]
fn test_serialize_struct() {
    let v = Person { name: String::from("test name"), age: -1 };
    assert_eq!("{\"name\": \"test name\", \"age\": -1}", &v.serialize());
}

#[test]
fn serialize_int_at_the_limits() {
    assert_eq!("9223372036854775807", &serialize(&i64::MAX));
    assert_eq!("-9223372036854775808", &serialize(&i64::MIN));
    assert_eq!("-1", &serialize(&-1i64));
    assert_eq!("9", &serialize(&9i64));
    assert_eq!("10", &serialize(&10i64));
    assert_eq!("-10", &serialize(&-10i64));
    assert_eq!("1234567890", &serialize(&1234567890i64));
}

#[test]
fn serialize_int_as_std_does() {
    for i in [0i64, 7, -7, 99, 100, 101, -4096, 65535, 1_000_000_007, i64::MAX - 1, i64::MIN + 1] {
        assert_eq!(format!("{}", i), serialize(&i));
    }
}

#[test]
fn serialize_str_escapes_quote_and_backslash_only() {
    assert_eq!("\"\"", &serialize(&String::new()));
    assert_eq!("\"a\\\\b\"", &serialize(&String::from("a\\b")));
    assert_eq!("\"\\\\\\\"\"", &serialize(&String::from("\\\"")));
    assert_eq!("\"(a, b)\"", &serialize(&String::from("(a, b)")));
    assert_eq!("\"it's\"", &serialize(&String::from("it's")));
    assert_eq!("\"h\u{e9}llo\"", &serialize(&String::from("h\u{e9}llo")));
}

#[test]
fn serialize_empty_and_single_sequences() {
    assert_eq!("[]", &serialize(&Vec::<i64>::new()));
    assert_eq!("[5]", &serialize(&vec![5i64]));
    assert_eq!("[[]]", &serialize(&vec![Vec::<bool>::new()]));
    assert_eq!("[true, false]", &serialize(&vec![true, false]));
    assert_eq!(
        "[\"a\", \"b, c\"]",
        &serialize(&vec![String::from("a"), String::from("b, c")])
    );
}

#[test]
fn serialize_tuples_of_each_kind() {
    assert_eq!("[7]", &serialize(&(7i64,)));
    assert_eq!("[true, -3]", &serialize(&(true, -3i64)));
    assert_eq!(
        "[[1, 2], \"x\", [false]]",
        &serialize(&(vec![1i64, 2], String::from("x"), (false,)))
    );
}

#[test]
fn serialize_tuple_is_written_as_the_sequence() {
    assert_eq!(serialize(&vec![1i64, 2, 3]), serialize(&(1i64, 2i64, 3i64)));
}

#[test]
fn serialize_the_widest_tuple() {
    let t = (
        1i64, 2i64, 3i64, 4i64, 5i64, 6i64, 7i64, 8i64, 9i64, 10i64, 11i64, 12i64, 13i64, 14i64,
        15i64, 16i64, 17i64, 18i64, 19i64, 20i64, 21i64, 22i64, true,
    );
    assert_eq!(
        "[1, 2, 3, 4, 5, 6, 7, 8, 9, 10, 11, 12, 13, 14, 15, 16, 17, 18, 19, 20, 21, 22, true]",
        &serialize(&t)
    );
}

#[test]
fn serialize_record_of_records() {
    let inner = render_record(&vec![(String::from("k\"ey"), serialize(&true))]);
    assert_eq!("{\"k\\\"ey\": true}", &inner);
    let outer = render_record(&vec![
        (String::from("in"), inner),
        (String::from("list"), serialize(&vec![1i64])),
    ]);
    assert_eq!("{\"in\": {\"k\\\"ey\": true}, \"list\": [1]}", &outer);
    assert_eq!("{}", &render_record(&Vec::new()));
}

#[test]
fn serialize_float_keeps_its_decimal_point() {
    assert_eq!("0.0", &serialize(&Real(0.0)));
    assert_eq!("1.0", &serialize(&Real(1.0)));
    assert_eq!("-3.0", &serialize(&Real(-3.0)));
    assert_eq!("[1.0, 2.5]", &serialize(&vec![Real(1.0), Real(2.5)]));
}

#[test]
fn serialize_gives_the_same_text_each_time() {
    let v = vec![String::from("a\"b"), String::from("c\\d")];
    assert_eq!(serialize(&v), serialize(&v));
    assert_eq!(serialize(&-42i64), serialize(&-42i64));
}

#[test]
fn serialize_text_tells_scalars_apart() {
    assert_ne!(serialize(&1i64), serialize(&-1i64));
    assert_ne!(serialize(&10i64), serialize(&1i64));
    assert_ne!(serialize(&true), serialize(&false));
    assert_ne!(serialize(&String::from("a\"")), serialize(&String::from("a\\\"")));
    assert_ne!(serialize(&String::from("1")), serialize(&1i64));
    assert_ne!(serialize(&String::from("true")), serialize(&true));
}
