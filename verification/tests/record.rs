use serial::{DeSerialResult, Record, SerialError, Shape};

fn sample() -> Record {
    let mut record = Record::new();
    let name = DeSerialResult::String(String::from("n"));
    assert!(record.insert(String::from("name"), name).is_none());
    assert!(record.insert(String::from("age"), DeSerialResult::Int(-1)).is_none());
    record
}

/// What a mismatch holds: what was found, what was requested, and whether it is an arity
/// mismatch.
fn mismatch(e: SerialError) -> (DeSerialResult, Shape, bool) {
    match e {
        SerialError::TypeMismatch { found, requested, arity } => (found, requested, arity),
        SerialError::Parse => panic!("a parse error"),
    }
}

#[test]
fn record_starts_empty() {
    let record = Record::new();
    assert!(record.is_empty());
    assert!(!record.contains_key("name"));
    assert!(record.into_fields().is_empty());
}

#[test]
fn record_insert_replaces_the_field_of_the_same_name() {
    let mut record = sample();
    assert!(!record.is_empty());
    assert!(record.contains_key("name"));
    assert!(record.contains_key("age"));
    assert!(!record.contains_key("nam"));
    let before = record.insert(String::from("age"), DeSerialResult::Int(7));
    assert!(matches!(before, Some(DeSerialResult::Int(-1))));
    assert_eq!(2, record.into_fields().len());
}

#[test]
fn record_remove_takes_the_field_out() {
    let mut record = sample();
    assert!(matches!(record.remove("age"), Some(DeSerialResult::Int(-1))));
    assert!(record.remove("age").is_none());
    assert!(record.remove("other").is_none());
    assert!(record.contains_key("name"));
    assert!(matches!(record.remove("name"), Some(DeSerialResult::String(s)) if s == "n"));
    assert!(record.is_empty());
}

#[test]
fn record_field_extracts_and_removes() {
    let mut record = sample();
    assert_eq!(-1, record.field::<i64>("age").unwrap());
    assert!(!record.contains_key("age"));
    assert_eq!("n", record.field::<String>("name").unwrap());
    assert!(record.finish().is_ok());
}

#[test]
fn record_field_of_the_wrong_type_is_a_type_mismatch() {
    let mut record = sample();
    let e = record.field::<bool>("age").unwrap_err();
    assert!(e.is_type_mismatch());
    assert!(!e.is_arity_mismatch());
    assert!(matches!(mismatch(e), (DeSerialResult::Int(-1), Shape::Bool, false)));
    assert!(!record.contains_key("age"));
    assert!(record.contains_key("name"));
}

#[test]
fn record_field_that_is_missing_is_an_arity_mismatch() {
    let mut record = sample();
    let e = record.field::<i64>("height").unwrap_err();
    assert!(e.is_arity_mismatch());
    match mismatch(e) {
        (DeSerialResult::Struct(whole), Shape::Field(name), true) => {
            assert_eq!("height", name);
            assert!(whole.contains_key("name"));
            assert!(whole.contains_key("age"));
        }
        other => panic!("{:?}", other),
    }
    assert!(record.is_empty());
}

#[test]
fn record_finish_refuses_a_field_that_is_left() {
    let mut record = sample();
    assert_eq!("n", record.field::<String>("name").unwrap());
    let e = record.finish().unwrap_err();
    assert!(e.is_arity_mismatch());
    match mismatch(e) {
        (DeSerialResult::Struct(rest), Shape::Record, true) => {
            assert!(rest.contains_key("age"));
            assert!(!rest.contains_key("name"));
        }
        other => panic!("{:?}", other),
    }
}

#[test]
fn record_take_moves_the_fields_out() {
    let mut record = sample();
    let taken = record.take();
    assert!(record.is_empty());
    assert!(taken.contains_key("name"));
    assert!(taken.contains_key("age"));
}

#[test]
fn record_into_fields_hands_out_each_field_once() {
    let mut fields = sample().into_fields();
    fields.sort_by(|a, b| a.0.cmp(&b.0));
    assert_eq!(2, fields.len());
    assert_eq!("age", fields[0].0);
    assert!(matches!(fields[0].1, DeSerialResult::Int(-1)));
    assert_eq!("name", fields[1].0);
    assert!(matches!(&fields[1].1, DeSerialResult::String(s) if s == "n"));
}

#[test]
fn into_record_asks_for_a_record() {
    assert!(DeSerialResult::Struct(sample()).into_record().is_ok());
    let e = DeSerialResult::Int(3).into_record().unwrap_err();
    assert!(matches!(mismatch(e), (DeSerialResult::Int(3), Shape::Record, false)));
}
