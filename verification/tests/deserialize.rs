use serial::{deserialize, extract, DeSerialResult, Extract, Float, SerialError, Shape};

fn float(x: Float) -> f64 {
    match x {
        Float::Int(i) => i as f64,
        Float::Bits(bits) => f64::from_bits(bits),
    }
}

#[derive(Debug, PartialEq, Eq)]
struct Person {
    name: String,
    age: i64,
}

/// Parses `text` and asks for a `T`, which is to be refused: hands out what was found, what
/// was requested, and whether it is an arity mismatch.
fn refused<T: Extract>(text: &str) -> (DeSerialResult, Shape, bool) {
    match extract::<T>(deserialize(text).unwrap()) {
        Err(SerialError::TypeMismatch { found, requested, arity }) => (found, requested, arity),
        Err(SerialError::Parse) => panic!("{:?} was not parsed", text),
        Ok(_) => panic!("{:?} was extracted", text),
    }
}

impl Extract for Person {
    fn extract(v: DeSerialResult) -> Result<Person, SerialError> {
        let mut record = v.into_record()?;
        let name = record.field::<String>("name")?;
        let age = record.field::<i64>("age")?;
        Ok(Person { name, age })
    }
}

#[test]
fn test_deserialize_bool() {
    assert_eq!(true, extract::<bool>(deserialize("true").unwrap()).unwrap());
    assert_eq!(false, extract::<bool>(deserialize("false").unwrap()).unwrap());
}

#[test]
fn test_deserialize_int() {
    assert_eq!(-21, extract::<i64>(deserialize("-21").unwrap()).unwrap());
    assert_eq!(-2, extract::<i64>(deserialize("-2").unwrap()).unwrap());
    assert_eq!(0, extract::<i64>(deserialize("0").unwrap()).unwrap());
    assert_eq!(21, extract::<i64>(deserialize("21").unwrap()).unwrap());
}

#[test]
fn test_deserialize_float() {
    assert_eq!(-1.28, float(extract::<Float>(deserialize("-1.28").unwrap()).unwrap()));
    assert_eq!(-0.12, float(extract::<Float>(deserialize("-0.12").unwrap()).unwrap()));
    assert_eq!(0.0, float(extract::<Float>(deserialize("0.0").unwrap()).unwrap()));
    assert_eq!(0.12, float(extract::<Float>(deserialize("0.12").unwrap()).unwrap()));
    assert_eq!(1.28, float(extract::<Float>(deserialize("1.28").unwrap()).unwrap()));
}

#[test]
fn test_deserialize_str() {
    assert_eq!("asdf", &extract::<String>(deserialize("\"asdf\"").unwrap()).unwrap());
    assert_eq!("as\"df", &extract::<String>(deserialize("\"as\\\"df\"").unwrap()).unwrap());
}

#[test]
fn test_deserialize_vec() {
    let v: Vec<i64> = extract(deserialize("[1, 2, 3]").unwrap()).unwrap();
    assert_eq!(vec![1, 2, 3], v);
    let v: Vec<Vec<i64>> = extract(deserialize("[[1, 2], [3, 4], [5, 6]]").unwrap()).unwrap();
    assert_eq!(vec![vec![1, 2], vec![3, 4], vec![5, 6]], v);
}

#[test]
fn test_deserialize_tuple() {
    let v: (i64, Float) = extract(deserialize("[1, 2.48]").unwrap()).unwrap();
    assert_eq!((1, 2.48), (v.0, float(v.1)));
    let v: (i64, Float, String) = extract(deserialize("[1, 2.48, \"asdf\"]").unwrap()).unwrap();
    assert_eq!((1, 2.48, String::from("asdf")), (v.0, float(v.1), v.2));
}

#[test]
fn test_deserialize_struct() {
    let v: Person =
        extract(deserialize("{\"name\": \"test name\", \"age\": -1}").unwrap()).unwrap();
    assert_eq!(Person { name: String::from("test name"), age: -1 }, v);
}

#[test]
fn deserialize_gives_each_variant() {
    assert!(matches!(deserialize("true").unwrap(), DeSerialResult::Bool(true)));
    assert!(matches!(deserialize("-7").unwrap(), DeSerialResult::Int(-7)));
    assert!(matches!(deserialize("0").unwrap(), DeSerialResult::Int(0)));
    match deserialize("2.5").unwrap() {
        DeSerialResult::Float(bits) => assert_eq!(2.5f64.to_bits(), bits),
        other => panic!("{:?}", other),
    }
    match deserialize("\"x\"").unwrap() {
        DeSerialResult::String(s) => assert_eq!("x", s),
        other => panic!("{:?}", other),
    }
    match deserialize("[1, \"x\"]").unwrap() {
        DeSerialResult::Vec(items) => {
            assert_eq!(2, items.len());
            assert!(matches!(items[0], DeSerialResult::Int(1)));
            assert!(matches!(items[1], DeSerialResult::String(_)));
        }
        other => panic!("{:?}", other),
    }
    match deserialize("{\"a\": 1}").unwrap() {
        DeSerialResult::Struct(record) => {
            assert!(record.contains_key("a"));
            assert!(!record.contains_key("b"));
        }
        other => panic!("{:?}", other),
    }
}

#[test]
fn deserialize_number_is_int_where_it_fits_else_float() {
    assert!(matches!(
        deserialize("9223372036854775807").unwrap(),
        DeSerialResult::Int(i64::MAX)
    ));
    assert!(matches!(
        deserialize("-9223372036854775808").unwrap(),
        DeSerialResult::Int(i64::MIN)
    ));
    match deserialize("9223372036854775808").unwrap() {
        DeSerialResult::Float(bits) => assert_eq!(9223372036854775808.0f64.to_bits(), bits),
        other => panic!("{:?}", other),
    }
    match deserialize("18446744073709551615").unwrap() {
        DeSerialResult::Float(bits) => assert_eq!((u64::MAX as f64).to_bits(), bits),
        other => panic!("{:?}", other),
    }
    match deserialize("1.0").unwrap() {
        DeSerialResult::Float(bits) => assert_eq!(1.0f64.to_bits(), bits),
        other => panic!("{:?}", other),
    }
    match deserialize("1e3").unwrap() {
        DeSerialResult::Float(bits) => assert_eq!(1000.0f64.to_bits(), bits),
        other => panic!("{:?}", other),
    }
    match deserialize("-0.0").unwrap() {
        DeSerialResult::Float(bits) => assert_eq!((-0.0f64).to_bits(), bits),
        other => panic!("{:?}", other),
    }
}

#[test]
fn deserialize_fails_on_malformed_text() {
    for text in ["", "tru", "[1, 2", "{\"a\": }", "\"open", "1 2", "(1, 2)", "[1,, 2]", "{1: 2}"] {
        let e = deserialize(text).unwrap_err();
        assert!(e.is_parse_error(), "{:?}", text);
        assert!(!e.is_type_mismatch());
        assert!(!e.is_arity_mismatch());
    }
}

#[test]
fn deserialize_fails_on_null() {
    assert!(deserialize("null").unwrap_err().is_parse_error());
    assert!(deserialize("[1, null]").unwrap_err().is_parse_error());
    assert!(deserialize("{\"a\": null}").unwrap_err().is_parse_error());
    assert!(deserialize("[[1], {\"a\": [null]}]").unwrap_err().is_parse_error());
}

#[test]
fn deserialize_keeps_the_later_of_two_fields_of_one_name() {
    let mut record = deserialize("{\"a\": 1, \"b\": 2, \"a\": 3}").unwrap().into_record().unwrap();
    assert_eq!(3, record.field::<i64>("a").unwrap());
    assert_eq!(2, record.field::<i64>("b").unwrap());
    assert!(record.is_empty());
}

#[test]
fn extract_float_widens_an_integer() {
    assert_eq!(Float::Int(3), extract::<Float>(deserialize("3").unwrap()).unwrap());
    assert_eq!(3.0, float(extract::<Float>(deserialize("3").unwrap()).unwrap()));
    assert_eq!(-21.0, float(extract::<Float>(DeSerialResult::Int(-21)).unwrap()));
    assert_eq!(
        Float::Bits(0.5f64.to_bits()),
        extract::<Float>(deserialize("0.5").unwrap()).unwrap()
    );
}

#[test]
fn extract_never_coerces() {
    match refused::<i64>("1.0") {
        (DeSerialResult::Float(bits), Shape::Int, false) => assert_eq!(1.0f64.to_bits(), bits),
        other => panic!("{:?}", other),
    }
    assert!(matches!(refused::<bool>("1"), (DeSerialResult::Int(1), Shape::Bool, false)));
    assert!(matches!(refused::<bool>("0"), (DeSerialResult::Int(0), Shape::Bool, false)));
    assert!(matches!(refused::<i64>("true"), (DeSerialResult::Bool(true), Shape::Int, false)));
    assert!(matches!(refused::<i64>("\"1\""), (DeSerialResult::String(_), Shape::Int, false)));
    assert!(matches!(
        refused::<Float>("\"1.5\""),
        (DeSerialResult::String(_), Shape::Float, false)
    ));
    assert!(matches!(refused::<Float>("true"), (DeSerialResult::Bool(true), Shape::Float, false)));
    assert!(matches!(refused::<String>("[]"), (DeSerialResult::Vec(_), Shape::String, false)));
    assert!(matches!(refused::<String>("7"), (DeSerialResult::Int(7), Shape::String, false)));
    assert!(matches!(
        refused::<Vec<i64>>("{}"),
        (DeSerialResult::Struct(_), Shape::Sequence, false)
    ));
    assert!(matches!(refused::<(i64, i64)>("7"), (DeSerialResult::Int(7), Shape::Tuple(2), false)));
    assert!(matches!(refused::<Person>("[1]"), (DeSerialResult::Vec(_), Shape::Record, false)));
}

#[test]
fn extract_failure_is_a_type_mismatch() {
    let e = extract::<i64>(deserialize("1.0").unwrap()).unwrap_err();
    assert!(e.is_type_mismatch());
    assert!(!e.is_arity_mismatch());
    assert!(!e.is_parse_error());
    let e = extract::<(i64, i64, i64)>(deserialize("[1, 2]").unwrap()).unwrap_err();
    assert!(e.is_type_mismatch());
    assert!(e.is_arity_mismatch());
    assert!(!e.is_parse_error());
}

#[test]
fn extract_vec_stops_at_the_first_mismatch() {
    match refused::<Vec<i64>>("[1, \"two\", true, 4]") {
        (DeSerialResult::String(s), Shape::Int, false) => assert_eq!("two", s),
        other => panic!("{:?}", other),
    }
    assert!(matches!(
        refused::<Vec<Vec<i64>>>("[[1], [2, false], 3]"),
        (DeSerialResult::Bool(false), Shape::Int, false)
    ));
    assert!(matches!(
        refused::<Vec<Vec<i64>>>("[[1], 3, [2, false]]"),
        (DeSerialResult::Int(3), Shape::Sequence, false)
    ));
    assert_eq!(Vec::<i64>::new(), extract::<Vec<i64>>(deserialize("[]").unwrap()).unwrap());
}

#[test]
fn extract_tuple_asks_for_the_exact_arity() {
    match refused::<(i64, Float, String)>("[1, 2.48]") {
        (DeSerialResult::Vec(items), Shape::Tuple(3), true) => assert_eq!(2, items.len()),
        other => panic!("{:?}", other),
    }
    assert!(matches!(refused::<(i64,)>("[1, 2]"), (DeSerialResult::Vec(_), Shape::Tuple(1), true)));
    assert!(matches!(refused::<(i64,)>("[]"), (DeSerialResult::Vec(_), Shape::Tuple(1), true)));
    assert!(matches!(refused::<(i64, i64)>("[]"), (DeSerialResult::Vec(_), Shape::Tuple(2), true)));
    assert!(matches!(
        refused::<(i64, i64)>("[1]"),
        (DeSerialResult::Vec(_), Shape::Tuple(2), true)
    ));
    assert!(matches!(
        refused::<(i64, i64)>("[1, 2, 3]"),
        (DeSerialResult::Vec(_), Shape::Tuple(2), true)
    ));
    assert_eq!((5,), extract::<(i64,)>(deserialize("[5]").unwrap()).unwrap());
}

#[test]
fn extract_tuple_reports_its_first_mismatch() {
    assert!(matches!(
        refused::<(i64, bool, String)>("[1, 2, 3]"),
        (DeSerialResult::Int(2), Shape::Bool, false)
    ));
    assert!(matches!(
        refused::<(bool, bool, bool)>("[true, false, 0]"),
        (DeSerialResult::Int(0), Shape::Bool, false)
    ));
    assert!(matches!(
        refused::<(bool, (i64, i64))>("[true, [1]]"),
        (DeSerialResult::Vec(_), Shape::Tuple(2), true)
    ));
    let v: (bool, (i64, String), Vec<(i64,)>) =
        extract(deserialize("[true, [1, \"a\"], [[2], [3]]]").unwrap()).unwrap();
    assert_eq!((true, (1, String::from("a")), vec![(2,), (3,)]), v);
}

#[test]
fn extract_the_widest_tuple() {
    let text =
        "[1, 2, 3, 4, 5, 6, 7, 8, 9, 10, 11, 12, 13, 14, 15, 16, 17, 18, 19, 20, 21, 22, \"w\"]";
    let v: (
        i64, i64, i64, i64, i64, i64, i64, i64, i64, i64, i64, i64, i64, i64, i64, i64, i64, i64,
        i64, i64, i64, i64, String,
    ) = extract(deserialize(text).unwrap()).unwrap();
    assert_eq!(1, v.0);
    assert_eq!(12, v.11);
    assert_eq!(22, v.21);
    assert_eq!("w", v.22);
    let refusal = refused::<(
        i64, i64, i64, i64, i64, i64, i64, i64, i64, i64, i64, i64, i64, i64, i64, i64, i64, i64,
        i64, i64, i64, i64, i64,
    )>(text);
    assert!(matches!(refusal, (DeSerialResult::String(_), Shape::Int, false)));
}

#[test]
fn extract_record_fails_on_a_missing_field() {
    let e = extract::<Person>(deserialize("{\"name\": \"test name\"}").unwrap()).unwrap_err();
    assert!(e.is_type_mismatch());
    assert!(e.is_arity_mismatch());
    match refused::<Person>("{\"name\": \"test name\"}") {
        (DeSerialResult::Struct(rest), Shape::Field(name), true) => {
            assert_eq!("age", name);
            assert!(rest.is_empty());
        }
        other => panic!("{:?}", other),
    }
    match refused::<Person>("{\"age\": 3, \"other\": 1}") {
        (DeSerialResult::Struct(rest), Shape::Field(name), true) => {
            assert_eq!("name", name);
            assert!(rest.contains_key("age"));
            assert!(rest.contains_key("other"));
        }
        other => panic!("{:?}", other),
    }
}

#[test]
fn extract_record_fails_on_a_field_of_the_wrong_type() {
    let text = "{\"name\": \"n\", \"age\": \"old\"}";
    let e = extract::<Person>(deserialize(text).unwrap()).unwrap_err();
    assert!(e.is_type_mismatch());
    assert!(!e.is_arity_mismatch());
    assert!(matches!(refused::<Person>(text), (DeSerialResult::String(_), Shape::Int, false)));
}

#[test]
fn extract_record_in_any_order_of_its_fields() {
    let v: Person = extract(deserialize("{\"age\": 30, \"name\": \"b\"}").unwrap()).unwrap();
    assert_eq!(Person { name: String::from("b"), age: 30 }, v);
    let v: Vec<Person> = extract(
        deserialize("[{\"name\": \"a\", \"age\": 1}, {\"age\": 2, \"name\": \"b\"}]").unwrap(),
    )
    .unwrap();
    assert_eq!(
        vec![
            Person { name: String::from("a"), age: 1 },
            Person { name: String::from("b"), age: 2 }
        ],
        v
    );
}
