use serial::{populate, DeSerialResult, Json};

fn number(integer: Option<i64>, float: Option<f64>) -> Json {
    Json::Number { integer, float: float.map(f64::to_bits) }
}

#[test]
fn populate_scalars() {
    assert!(matches!(populate(Json::Bool(true)).unwrap(), DeSerialResult::Bool(true)));
    assert!(matches!(populate(Json::Bool(false)).unwrap(), DeSerialResult::Bool(false)));
    match populate(Json::String(String::from("s"))).unwrap() {
        DeSerialResult::String(s) => assert_eq!("s", s),
        other => panic!("{:?}", other),
    }
}

#[test]
fn populate_number_takes_the_integer_first() {
    assert!(matches!(populate(number(Some(7), Some(7.0))).unwrap(), DeSerialResult::Int(7)));
    assert!(matches!(populate(number(Some(-7), None)).unwrap(), DeSerialResult::Int(-7)));
    match populate(number(None, Some(7.5))).unwrap() {
        DeSerialResult::Float(bits) => assert_eq!(7.5f64.to_bits(), bits),
        other => panic!("{:?}", other),
    }
    assert!(populate(number(None, None)).unwrap_err().is_parse_error());
}

#[test]
fn populate_has_no_value_for_null() {
    assert!(populate(Json::Null).unwrap_err().is_parse_error());
    assert!(populate(Json::Array(vec![Json::Bool(true), Json::Null]))
        .unwrap_err()
        .is_parse_error());
    assert!(populate(Json::Object(vec![(String::from("a"), Json::Null)]))
        .unwrap_err()
        .is_parse_error());
    assert!(populate(Json::Array(vec![Json::Array(vec![Json::Object(vec![(
        String::from("deep"),
        Json::Null
    )])])]))
    .unwrap_err()
    .is_parse_error());
}

#[test]
fn populate_array_keeps_the_order() {
    let tree = Json::Array(vec![
        number(Some(1), Some(1.0)),
        Json::String(String::from("two")),
        Json::Array(Vec::new()),
    ]);
    match populate(tree).unwrap() {
        DeSerialResult::Vec(items) => {
            assert_eq!(3, items.len());
            assert!(matches!(items[0], DeSerialResult::Int(1)));
            assert!(matches!(&items[1], DeSerialResult::String(s) if s == "two"));
            assert!(matches!(&items[2], DeSerialResult::Vec(inner) if inner.is_empty()));
        }
        other => panic!("{:?}", other),
    }
}

#[test]
fn populate_object_keeps_the_later_member_of_a_name() {
    let tree = Json::Object(vec![
        (String::from("a"), number(Some(1), Some(1.0))),
        (String::from("b"), Json::Bool(true)),
        (String::from("a"), Json::String(String::from("later"))),
    ]);
    let mut record = populate(tree).unwrap().into_record().unwrap();
    assert!(matches!(record.remove("a"), Some(DeSerialResult::String(s)) if s == "later"));
    assert!(matches!(record.remove("b"), Some(DeSerialResult::Bool(true))));
    assert!(record.remove("a").is_none());
    assert!(record.is_empty());
}

#[test]
fn populate_empty_object_and_array() {
    match populate(Json::Object(Vec::new())).unwrap() {
        DeSerialResult::Struct(record) => assert!(record.is_empty()),
        other => panic!("{:?}", other),
    }
    match populate(Json::Array(Vec::new())).unwrap() {
        DeSerialResult::Vec(items) => assert!(items.is_empty()),
        other => panic!("{:?}", other),
    }
}
