use toml_schema::{
    Date, Datetime, Pattern, SchemaError, SchemaType, Table, TableEntry, TableField, TomlSchema,
    Value,
};

fn text(s: &str) -> Value {
    Value::String(s.to_string())
}

fn float(x: f64) -> Value {
    Value::Float(x.to_bits())
}

fn table(pairs: Vec<(&str, Value)>) -> Table {
    let mut t = Table::new();
    for (key, value) in pairs {
        t.insert(key.to_string(), value);
    }
    t
}

fn doc(pairs: Vec<(&str, Value)>) -> Value {
    Value::Table(table(pairs))
}

fn kind(name: &str) -> (&'static str, Value) {
    ("type", text(name))
}

fn compile(pairs: Vec<(&str, Value)>) -> TomlSchema {
    TomlSchema::try_from(table(pairs)).unwrap()
}

fn person_schema() -> TomlSchema {
    compile(vec![
        kind("table"),
        ("name", doc(vec![kind("string"), ("regex", text("^[a-z]+$"))])),
        (
            "age",
            doc(vec![
                kind("int"),
                ("min", Value::Integer(0)),
                ("max", Value::Integer(150)),
                ("default", Value::Integer(0)),
            ]),
        ),
    ])
}

#[test]
fn a_default_completes_a_missing_entry() {
    let schema = person_schema();
    let data = doc(vec![("name", text("bob"))]);
    match schema.check(&data) {
        Err(SchemaError::KeyMiss { key }) => assert_eq!(key, "age"),
        other => panic!("got {:?}", other),
    }
    let mut data = data;
    assert!(schema.check_and_complete(&mut data).is_ok());
    assert!(data == doc(vec![("name", text("bob")), ("age", Value::Integer(0))]));
}

#[test]
fn array_of_bounded_ints() {
    let schema = compile(vec![
        kind("array"),
        ("child", doc(vec![kind("int"), ("min", Value::Integer(0))])),
        ("min", Value::Integer(1)),
        ("max", Value::Integer(3)),
    ]);
    assert!(matches!(
        schema.check(&Value::Array(vec![])),
        Err(SchemaError::ArrayCount { count: 0, min: 1, max: 3 })
    ));
    let four = Value::Array((1..=4).map(Value::Integer).collect());
    assert!(matches!(
        schema.check(&four),
        Err(SchemaError::ArrayCount { count: 4, min: 1, max: 3 })
    ));
    let negative = Value::Array(vec![Value::Integer(-1)]);
    match schema.check(&negative) {
        Err(SchemaError::ArrayMiss { value, error }) => {
            assert!(*value == Value::Integer(-1));
            assert!(matches!(*error, SchemaError::IntMiss { val: -1, min: 0, max: i64::MAX }));
        }
        other => panic!("got {:?}", other),
    }
    assert!(schema.check(&Value::Array(vec![Value::Integer(1), Value::Integer(2)])).is_ok());
}

#[test]
fn extras_must_match_key_and_schema() {
    let schema = compile(vec![
        kind("table"),
        (
            "extras",
            Value::Array(vec![doc(vec![("key", text("^x_")), ("schema", doc(vec![kind("int")]))])]),
        ),
        ("min", Value::Integer(1)),
        ("max", Value::Integer(2)),
    ]);
    let data = doc(vec![("x_a", Value::Integer(1)), ("x_b", text("no"))]);
    match schema.check(&data) {
        Err(SchemaError::TableMiss { key, value, errors }) => {
            assert_eq!(key, "x_b");
            assert!(*value == text("no"));
            assert_eq!(errors.len(), 1);
            assert!(matches!(
                errors[0],
                SchemaError::TypeMismatch { expected: SchemaType::Integer, got: SchemaType::String }
            ));
        }
        other => panic!("got {:?}", other),
    }
    assert!(schema.check(&doc(vec![("x_a", Value::Integer(1))])).is_ok());
    assert!(schema.check(&doc(vec![("x_a", Value::Integer(1)), ("x_b", Value::Integer(2))])).is_ok());
}

#[test]
fn integer_bounds_are_inclusive() {
    let schema = TomlSchema::Integer { min: -5, max: 10 };
    for v in [-5, -4, 0, 9, 10] {
        assert!(schema.check(&Value::Integer(v)).is_ok(), "{}", v);
    }
    for v in [i64::MIN, -6, 11, i64::MAX] {
        match schema.check(&Value::Integer(v)) {
            Err(SchemaError::IntMiss { val, min: -5, max: 10 }) => assert_eq!(val, v),
            other => panic!("got {:?}", other),
        }
    }
    let empty = TomlSchema::Integer { min: 3, max: 2 };
    assert!(empty.check(&Value::Integer(2)).is_err());
    assert!(empty.check(&Value::Integer(3)).is_err());
    let whole = TomlSchema::Integer { min: i64::MIN, max: i64::MAX };
    assert!(whole.check(&Value::Integer(i64::MIN)).is_ok());
    assert!(whole.check(&Value::Integer(i64::MAX)).is_ok());
}

#[test]
fn float_bounds_follow_the_order_of_numbers() {
    let numbers = [
        f64::NEG_INFINITY,
        f64::MIN,
        -2.5,
        -1.0,
        -f64::MIN_POSITIVE,
        -5e-324,
        -0.0,
        0.0,
        5e-324,
        f64::MIN_POSITIVE,
        1.0,
        2.5,
        f64::MAX,
        f64::INFINITY,
        f64::NAN,
        -f64::NAN,
    ];
    for &min in &numbers {
        for &max in &numbers {
            for nan_ok in [false, true] {
                let schema =
                    TomlSchema::Float { min: min.to_bits(), max: max.to_bits(), nan_ok };
                for &v in &numbers {
                    let expected = (nan_ok && v.is_nan()) || (v >= min && v <= max);
                    let value = float(v);
                    let got = schema.check(&value);
                    assert_eq!(got.is_ok(), expected, "{} in [{}, {}] nan_ok={}", v, min, max, nan_ok);
                    if let Err(e) = got {
                        match e {
                            SchemaError::FloatMiss { val, min: lo, max: hi, nan_ok: n } => {
                                assert_eq!(val, v.to_bits());
                                assert_eq!(lo, min.to_bits());
                                assert_eq!(hi, max.to_bits());
                                assert_eq!(n, nan_ok);
                            }
                            other => panic!("got {:?}", other),
                        }
                    }
                }
            }
        }
    }
}

#[test]
fn nan_is_governed_by_nan_ok_alone() {
    let strict = TomlSchema::Float {
        min: f64::NEG_INFINITY.to_bits(),
        max: f64::INFINITY.to_bits(),
        nan_ok: false,
    };
    assert!(strict.check(&float(f64::NAN)).is_err());
    let lenient = TomlSchema::Float { min: 1.0f64.to_bits(), max: 0.0f64.to_bits(), nan_ok: true };
    assert!(lenient.check(&float(f64::NAN)).is_ok());
    assert!(lenient.check(&float(0.5)).is_err());
}

#[test]
fn string_matches_anywhere() {
    let schema = compile(vec![kind("string"), ("regex", text("b+"))]);
    assert!(schema.check(&text("abba")).is_ok());
    match schema.check(&text("aca")) {
        Err(SchemaError::RegexMiss { string, re }) => {
            assert_eq!(string, "aca");
            assert_eq!(re, "b+");
        }
        other => panic!("got {:?}", other),
    }
    let anchored = compile(vec![kind("string"), ("regex", text("^b+$"))]);
    assert!(anchored.check(&text("bbb")).is_ok());
    assert!(anchored.check(&text("abba")).is_err());
    let any = compile(vec![kind("string")]);
    assert!(any.check(&text("")).is_ok());
    assert!(any.check(&text("whatever\nelse")).is_ok());
}

#[test]
fn kinds_must_agree() {
    let epoch = Value::Datetime(Datetime {
        date: Some(Date { year: 1970, month: 1, day: 1 }),
        time: None,
        offset: None,
    });
    let values = [
        (text("a"), SchemaType::String),
        (Value::Integer(1), SchemaType::Integer),
        (float(1.0), SchemaType::Float),
        (Value::Boolean(true), SchemaType::Bool),
        (epoch, SchemaType::Date),
        (Value::Array(vec![]), SchemaType::Array),
        (doc(vec![]), SchemaType::Table),
    ];
    let schemas = [
        (compile(vec![kind("string")]), SchemaType::String),
        (compile(vec![kind("int")]), SchemaType::Integer),
        (compile(vec![kind("float")]), SchemaType::Float),
        (compile(vec![kind("bool")]), SchemaType::Bool),
        (compile(vec![kind("date")]), SchemaType::Date),
        (compile(vec![kind("array"), ("child", doc(vec![kind("anything")]))]), SchemaType::Array),
        (compile(vec![kind("table")]), SchemaType::Table),
    ];
    for (schema, wanted) in &schemas {
        assert_eq!(SchemaType::from(schema), *wanted);
        for (value, is) in &values {
            assert_eq!(SchemaType::from(value), *is);
            match schema.check(value) {
                Ok(()) => assert_eq!(wanted, is),
                Err(SchemaError::TypeMismatch { expected, got }) => {
                    assert_ne!(wanted, is);
                    assert_eq!(expected, *wanted);
                    assert_eq!(got, *is);
                }
                other => panic!("got {:?}", other),
            }
        }
    }
    for (value, _) in &values {
        assert!(TomlSchema::Anything.check(value).is_ok());
    }
}

#[test]
fn exact_matches_only_its_literal() {
    let literal = doc(vec![("a", Value::Array(vec![Value::Integer(1), text("x")])), ("b", float(0.5))]);
    let schema = TomlSchema::Exact(literal.clone());
    assert_eq!(SchemaType::from(&schema), SchemaType::Exact);
    assert!(schema.check(&literal).is_ok());
    let same = doc(vec![("b", float(0.5)), ("a", Value::Array(vec![Value::Integer(1), text("x")]))]);
    assert!(schema.check(&same).is_ok());
    let other = doc(vec![("a", Value::Array(vec![Value::Integer(1), text("y")])), ("b", float(0.5))]);
    assert!(matches!(
        schema.check(&other),
        Err(SchemaError::TypeMismatch { expected: SchemaType::Exact, got: SchemaType::Table })
    ));
    assert!(matches!(
        TomlSchema::Exact(Value::Integer(1)).check(&Value::Integer(2)),
        Err(SchemaError::TypeMismatch { expected: SchemaType::Exact, got: SchemaType::Integer })
    ));
    assert!(TomlSchema::Exact(Value::Integer(1)).check(&float(1.0)).is_err());
    assert!(TomlSchema::Exact(Value::Integer(1)).check(&Value::Integer(1)).is_ok());
}

#[test]
fn array_reports_the_first_failing_element() {
    let schema = TomlSchema::Array {
        cond: Box::new(TomlSchema::Integer { min: 0, max: 9 }),
        min: 0,
        max: 10,
    };
    let data = Value::Array(vec![
        Value::Integer(1),
        Value::Integer(10),
        text("no"),
        Value::Integer(-1),
    ]);
    match schema.check(&data) {
        Err(SchemaError::ArrayMiss { value, error }) => {
            assert!(*value == Value::Integer(10));
            assert!(matches!(*error, SchemaError::IntMiss { val: 10, min: 0, max: 9 }));
        }
        other => panic!("got {:?}", other),
    }
    // the count is judged before any element
    let tight = TomlSchema::Array {
        cond: Box::new(TomlSchema::Integer { min: 0, max: 9 }),
        min: 0,
        max: 3,
    };
    assert!(matches!(
        tight.check(&data),
        Err(SchemaError::ArrayCount { count: 4, min: 0, max: 3 })
    ));
    assert!(schema.check(&Value::Array(vec![])).is_ok());
}

#[test]
fn alternative_tries_its_options_in_order() {
    let schema = TomlSchema::Alternative(vec![
        TomlSchema::Integer { min: 0, max: 9 },
        TomlSchema::Bool,
        TomlSchema::Integer { min: 100, max: 200 },
    ]);
    assert!(schema.check(&Value::Integer(5)).is_ok());
    assert!(schema.check(&Value::Boolean(false)).is_ok());
    assert!(schema.check(&Value::Integer(150)).is_ok());
    let data = Value::Integer(50);
    match schema.check(&data) {
        Err(SchemaError::AlternativeMiss { val, errors }) => {
            assert!(*val == Value::Integer(50));
            assert_eq!(errors.len(), 3);
            assert!(matches!(errors[0], SchemaError::IntMiss { val: 50, min: 0, max: 9 }));
            assert!(matches!(
                errors[1],
                SchemaError::TypeMismatch { expected: SchemaType::Bool, got: SchemaType::Integer }
            ));
            assert!(matches!(errors[2], SchemaError::IntMiss { val: 50, min: 100, max: 200 }));
        }
        other => panic!("got {:?}", other),
    }
    let none = TomlSchema::Alternative(vec![]);
    match none.check(&data) {
        Err(SchemaError::AlternativeMiss { errors, .. }) => assert!(errors.is_empty()),
        other => panic!("got {:?}", other),
    }
}

fn field(key: &str, schema: TomlSchema, default: Option<Value>) -> TableField {
    TableField { key: key.to_string(), schema, default }
}

fn extra(pattern: &str, schema: TomlSchema) -> TableEntry {
    TableEntry { key: Pattern::new(pattern).unwrap(), value: schema }
}

#[test]
fn an_entry_takes_precedence_over_extras() {
    let schema = TomlSchema::Table {
        extras: vec![extra(".*", TomlSchema::Anything)],
        min: 0,
        max: 0,
        entries: vec![field("name", TomlSchema::Integer { min: 0, max: 9 }, None)],
    };
    // "name" matches the pattern too, and still does not count among the extras
    assert!(schema.check(&doc(vec![("name", Value::Integer(3))])).is_ok());
    // nor is it rescued by the extras when the entry rejects it
    let data = doc(vec![("name", text("x"))]);
    match schema.check(&data) {
        Err(SchemaError::AtKey { key, error }) => {
            assert_eq!(key, "name");
            assert!(matches!(*error, SchemaError::TypeMismatch { .. }));
        }
        other => panic!("got {:?}", other),
    }
    assert!(matches!(
        schema.check(&doc(vec![("name", Value::Integer(3)), ("other", Value::Integer(3))])),
        Err(SchemaError::TableCount { count: 1, min: 0, max: 0 })
    ));
}

#[test]
fn extras_are_counted_and_bounded() {
    let schema = TomlSchema::Table {
        extras: vec![
            extra("^n_", TomlSchema::Integer { min: 0, max: 9 }),
            extra("^n_", TomlSchema::Bool),
            extra("_s$", TomlSchema::String { regex: Pattern::new("^s").unwrap() }),
        ],
        min: 2,
        max: 3,
        entries: vec![],
    };
    assert!(matches!(
        schema.check(&doc(vec![])),
        Err(SchemaError::TableCount { count: 0, min: 2, max: 3 })
    ));
    assert!(matches!(
        schema.check(&doc(vec![("n_a", Value::Integer(1))])),
        Err(SchemaError::TableCount { count: 1, min: 2, max: 3 })
    ));
    assert!(schema.check(&doc(vec![("n_a", Value::Integer(1)), ("n_b", Value::Boolean(true))])).is_ok());
    assert!(schema
        .check(&doc(vec![
            ("n_a", Value::Integer(1)),
            ("n_b", Value::Boolean(true)),
            ("x_s", text("sss")),
        ]))
        .is_ok());
    assert!(matches!(
        schema.check(&doc(vec![
            ("n_a", Value::Integer(1)),
            ("n_b", Value::Boolean(true)),
            ("n_c", Value::Integer(2)),
            ("x_s", text("sss")),
        ])),
        Err(SchemaError::TableCount { count: 4, min: 2, max: 3 })
    ));
    // every rule whose pattern matches the key reports, in order; the others do not
    let data = doc(vec![("n_s", text("t"))]);
    match schema.check(&data) {
        Err(SchemaError::TableMiss { key, value, errors }) => {
            assert_eq!(key, "n_s");
            assert!(*value == text("t"));
            assert_eq!(errors.len(), 3);
            assert!(matches!(
                errors[0],
                SchemaError::TypeMismatch { expected: SchemaType::Integer, .. }
            ));
            assert!(matches!(errors[1], SchemaError::TypeMismatch { expected: SchemaType::Bool, .. }));
            assert!(matches!(errors[2], SchemaError::RegexMiss { string: "t", re: "^s" }));
        }
        other => panic!("got {:?}", other),
    }
    let data = doc(vec![("zzz", text("t"))]);
    match schema.check(&data) {
        Err(SchemaError::TableMiss { key, errors, .. }) => {
            assert_eq!(key, "zzz");
            assert!(errors.is_empty());
        }
        other => panic!("got {:?}", other),
    }
}

#[test]
fn pairs_are_judged_in_the_order_of_their_keys() {
    let schema = TomlSchema::Table {
        extras: vec![],
        min: 0,
        max: 0,
        entries: vec![
            field("b", TomlSchema::Bool, None),
            field("a", TomlSchema::Bool, None),
            field("c", TomlSchema::Bool, None),
        ],
    };
    let data = doc(vec![("c", Value::Integer(1)), ("b", Value::Integer(2)), ("a", Value::Boolean(true))]);
    match schema.check(&data) {
        Err(SchemaError::AtKey { key, .. }) => assert_eq!(key, "b"),
        other => panic!("got {:?}", other),
    }
    // a failing pair is reported before a missing entry, a missing entry before the count
    let data = doc(vec![("c", Value::Integer(1))]);
    assert!(matches!(schema.check(&data), Err(SchemaError::AtKey { .. })));
    let data = doc(vec![("c", Value::Boolean(true))]);
    match schema.check(&data) {
        Err(SchemaError::KeyMiss { key }) => assert_eq!(key, "b"),
        other => panic!("got {:?}", other),
    }
}

#[test]
fn completion_never_overwrites() {
    let schema = person_schema();
    let mut data = doc(vec![("name", text("bob")), ("age", Value::Integer(42))]);
    assert!(schema.check_and_complete(&mut data).is_ok());
    assert!(data == doc(vec![("name", text("bob")), ("age", Value::Integer(42))]));
    // a present key keeps its value even where the value fails
    let mut data = doc(vec![("name", text("bob")), ("age", text("old"))]);
    assert!(matches!(schema.check_and_complete(&mut data), Err(SchemaError::AtKey { .. })));
    assert!(data == doc(vec![("name", text("bob")), ("age", text("old"))]));
}

#[test]
fn completion_is_idempotent() {
    let schema = person_schema();
    let mut data = doc(vec![("name", text("bob"))]);
    assert!(schema.check_and_complete(&mut data).is_ok());
    let once = data.clone();
    assert!(schema.check_and_complete(&mut data).is_ok());
    assert!(data == once);
    assert!(schema.check(&data).is_ok());
}

#[test]
fn completion_stays_after_a_failure() {
    let schema = person_schema();
    let mut data = doc(vec![("name", text("Bob"))]);
    match schema.check_and_complete(&mut data) {
        Err(SchemaError::AtKey { key, error }) => {
            assert_eq!(key, "name");
            assert!(matches!(*error, SchemaError::RegexMiss { string: "Bob", re: "^[a-z]+$" }));
        }
        other => panic!("got {:?}", other),
    }
    assert!(data == doc(vec![("name", text("Bob")), ("age", Value::Integer(0))]));
    // an entry without a default stays missing
    let mut data = doc(vec![]);
    match schema.check_and_complete(&mut data) {
        Err(SchemaError::KeyMiss { key }) => assert_eq!(key, "name"),
        other => panic!("got {:?}", other),
    }
    assert!(data == doc(vec![("age", Value::Integer(0))]));
}

#[test]
fn a_default_is_matched_like_any_value() {
    let schema = TomlSchema::Table {
        extras: vec![],
        min: 0,
        max: 0,
        entries: vec![field("n", TomlSchema::Integer { min: 0, max: 9 }, Some(Value::Integer(10)))],
    };
    let mut data = doc(vec![]);
    match schema.check_and_complete(&mut data) {
        Err(SchemaError::AtKey { key, error }) => {
            assert_eq!(key, "n");
            assert!(matches!(*error, SchemaError::IntMiss { val: 10, min: 0, max: 9 }));
        }
        other => panic!("got {:?}", other),
    }
    assert!(data == doc(vec![("n", Value::Integer(10))]));
}

#[test]
fn completion_reaches_the_outer_table_only() {
    let inner = TomlSchema::Table {
        extras: vec![],
        min: 0,
        max: 0,
        entries: vec![field("x", TomlSchema::Bool, Some(Value::Boolean(true)))],
    };
    let schema = TomlSchema::Table {
        extras: vec![],
        min: 0,
        max: 0,
        entries: vec![field("inner", inner, Some(doc(vec![("x", Value::Boolean(false))])))],
    };
    let mut data = doc(vec![("inner", doc(vec![]))]);
    match schema.check_and_complete(&mut data) {
        Err(SchemaError::AtKey { key, error }) => {
            assert_eq!(key, "inner");
            assert!(matches!(*error, SchemaError::KeyMiss { key: "x" }));
        }
        other => panic!("got {:?}", other),
    }
    assert!(data == doc(vec![("inner", doc(vec![]))]));
    let mut data = doc(vec![]);
    assert!(schema.check_and_complete(&mut data).is_ok());
    assert!(data == doc(vec![("inner", doc(vec![("x", Value::Boolean(false))]))]));
    // a value that is no table is left alone
    let mut data = Value::Integer(1);
    assert!(matches!(schema.check_and_complete(&mut data), Err(SchemaError::TypeMismatch { .. })));
    assert!(data == Value::Integer(1));
    let mut data = doc(vec![("a", Value::Integer(1))]);
    TomlSchema::Anything.complete(&mut data);
    assert!(data == doc(vec![("a", Value::Integer(1))]));
}

#[test]
fn among_entries_of_one_key_the_first_counts() {
    let schema = TomlSchema::Table {
        extras: vec![],
        min: 0,
        max: 0,
        entries: vec![
            field("k", TomlSchema::Bool, None),
            field("k", TomlSchema::Integer { min: 0, max: 1 }, Some(Value::Integer(1))),
        ],
    };
    assert!(schema.check(&doc(vec![("k", Value::Boolean(true))])).is_ok());
    assert!(schema.check(&doc(vec![("k", Value::Integer(1))])).is_err());
    // the default of the second entry is not that of the key
    let mut data = doc(vec![]);
    assert!(matches!(schema.check_and_complete(&mut data), Err(SchemaError::KeyMiss { key: "k" })));
    assert!(data == doc(vec![]));
    let schema = TomlSchema::Table {
        extras: vec![],
        min: 0,
        max: 0,
        entries: vec![
            field("k", TomlSchema::Bool, Some(Value::Boolean(false))),
            field("k", TomlSchema::Integer { min: 0, max: 1 }, Some(Value::Integer(1))),
            field("j", TomlSchema::Integer { min: 0, max: 1 }, Some(Value::Integer(0))),
        ],
    };
    let mut data = doc(vec![]);
    assert!(schema.check_and_complete(&mut data).is_ok());
    assert!(data == doc(vec![("j", Value::Integer(0)), ("k", Value::Boolean(false))]));
}

#[test]
fn a_pattern_is_what_its_source_compiles_to() {
    let pattern = Pattern::new("^a+$").unwrap();
    assert_eq!(pattern.as_str(), "^a+$");
    assert!(pattern.is_match("aaa"));
    assert!(!pattern.is_match("AAA"));
    assert!(!pattern.is_match("aab"));
    let copy = pattern.clone();
    assert_eq!(copy.as_str(), "^a+$");
    assert!(copy.is_match("a"));
    assert!(!copy.is_match(""));
    match Pattern::new("a)") {
        Err(toml_schema::ConstructionError::BadRegex { pattern, message }) => {
            assert_eq!(pattern, "a)");
            assert!(!message.is_empty());
        }
        other => panic!("got {:?}", other),
    }
    assert!(Pattern::new("(?i)^a+$").unwrap().is_match("AAA"));
}

#[test]
fn find_extra_match_reports_each_attempt() {
    let extras = vec![
        extra("^a", TomlSchema::Bool),
        extra("^b", TomlSchema::Bool),
        extra("^a", TomlSchema::Integer { min: 0, max: 0 }),
    ];
    let key = "ab".to_string();
    assert!(TomlSchema::find_extra_match(&extras, &key, &Value::Integer(0)).is_ok());
    assert!(TomlSchema::find_extra_match(&extras, &key, &Value::Boolean(true)).is_ok());
    let value = Value::Integer(1);
    match TomlSchema::find_extra_match(&extras, &key, &value) {
        Err(errors) => {
            assert_eq!(errors.len(), 2);
            assert!(matches!(errors[0], SchemaError::TypeMismatch { .. }));
            assert!(matches!(errors[1], SchemaError::IntMiss { val: 1, min: 0, max: 0 }));
        }
        other => panic!("got {:?}", other),
    }
}

#[test]
fn a_schema_can_be_cloned() {
    let schema = person_schema();
    let copy = schema.clone();
    let data = doc(vec![("name", text("bob")), ("age", Value::Integer(7))]);
    assert!(copy.check(&data).is_ok());
    assert_eq!(format!("{:?}", schema), format!("{:?}", copy));
}
