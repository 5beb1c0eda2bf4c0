use toml_schema::{
    ConstructionError, Date, Datetime, Field, Offset, Place, Shape, Table, TableField, Time,
    TomlSchema, Value,
};

fn date_of(d: &toml::value::Datetime) -> Datetime {
    Datetime {
        date: d.date.map(|x| Date { year: x.year, month: x.month, day: x.day }),
        time: d.time.map(|x| Time {
            hour: x.hour,
            minute: x.minute,
            second: x.second,
            nanosecond: x.nanosecond,
        }),
        offset: d.offset.map(|x| match x {
            toml::value::Offset::Z => Offset::Z,
            toml::value::Offset::Custom { minutes } => Offset::Custom { minutes },
        }),
    }
}

fn value_of(v: &toml::Value) -> Value {
    match v {
        toml::Value::String(s) => Value::String(s.clone()),
        toml::Value::Integer(i) => Value::Integer(*i),
        toml::Value::Float(f) => Value::Float(f.to_bits()),
        toml::Value::Boolean(b) => Value::Boolean(*b),
        toml::Value::Datetime(d) => Value::Datetime(date_of(d)),
        toml::Value::Array(a) => Value::Array(a.iter().map(value_of).collect()),
        toml::Value::Table(t) => Value::Table(table_of(t)),
    }
}

fn table_of(t: &toml::Table) -> Table {
    let mut table = Table::new();
    for (key, value) in t.iter() {
        table.insert(key.clone(), value_of(value));
    }
    table
}

fn parse(text: &str) -> Table {
    table_of(&text.parse::<toml::Table>().unwrap())
}

fn entry<'a>(entries: &'a [TableField], key: &str) -> Option<&'a TableField> {
    entries.iter().find(|e| e.key == key)
}

fn test_parser_string(table: &Table) {
    if let (schema, Some(def)) = TomlSchema::from_table(table).unwrap() {
        match schema {
            TomlSchema::String { regex } => match def {
                Value::String(s) => {
                    assert!(regex.is_match(&s))
                }
                _ => panic!("Default value is {:?}", def),
            },
            _ => panic!("Schema is {:?}", schema),
        }
    } else {
        panic!("Did not get a default value")
    }
}

fn test_parser_int(table: &Table) {
    let (schema, maybe_def) = TomlSchema::from_table(table).unwrap();
    let def = maybe_def.unwrap();

    match (schema, def) {
        (TomlSchema::Integer { min, max }, Value::Integer(i)) => {
            assert!(i >= min && i <= max)
        }
        (u, v) => panic!("Incorrect return value {:?} {:?}", u, v),
    }
}

fn test_parser_float(table: &Table) {
    let (schema, maybe_def) = TomlSchema::from_table(table).unwrap();
    let def = maybe_def.unwrap();

    match (schema, def) {
        (TomlSchema::Float { min, max, nan_ok }, Value::Float(i)) => {
            let (min, max, i) = (f64::from_bits(min), f64::from_bits(max), f64::from_bits(i));
            assert!((nan_ok && i.is_nan()) || (i >= min && i <= max))
        }
        (u, v) => panic!("Incorrect return value {:?} {:?}", u, v),
    }
}

#[test]
fn parser_string() {
    let table = parse(
        "
            type='string'
            regex='^[a-zA-Z_]+$'
            extra_key='allowed'
            default='lul_LUL'
        ",
    );
    test_parser_string(&table);
}

#[test]
#[should_panic]
fn parser_string_fail() {
    let table = parse(
        "
            type='string'
            regex=5
            default='lul_LUL'
        ",
    );
    test_parser_string(&table)
}

#[test]
fn parser_int() {
    let table = parse(
        "
            type='int'
            min=0
            max=100
            default=5
        ",
    );
    test_parser_int(&table);
}

#[test]
fn parser_float() {
    let table = parse(
        "
            type='float'
            min=0.0
            max=100.0
            nan_ok=false
            default=5.0
        ",
    );
    test_parser_float(&table);
}

#[test]
fn parser_bool() {
    let table = parse(
        "
            type='bool'
            default=false
        ",
    );

    let (schema, def) = TomlSchema::from_table(&table).unwrap();

    assert!(matches!(schema, TomlSchema::Bool), "schema is not a boolean, schema = {:?}", schema);
    assert!(matches!(def, Some(Value::Boolean(_))), "def is not a boolean, def = {:?}", def);
}

#[test]
fn parser_date() {
    let table = parse(
        "
            type='date'
            default=1970-01-01
        ",
    );

    let (schema, def) = TomlSchema::from_table(&table).unwrap();

    assert!(matches!(schema, TomlSchema::Date), "schema is not a date, schema = {:?}", schema);
    assert!(matches!(def, Some(Value::Datetime(_))), "def is not a date, def = {:?}", def);
}

#[test]
fn parser_table() {
    let table = parse(
        "
            type='table'
            '$custom_key' = {type='bool'}
            min = 0
            max = 5
            [[extras]]
            key = '[a-zA-Z]+'
            schema = {type='int', default=1}

        ",
    );

    let (schema, def) = TomlSchema::from_table(&table).unwrap();

    assert!(def.is_none());
    match schema {
        TomlSchema::Table { extras, entries, .. } => {
            assert!(entries.len() == 1);
            assert!(extras.len() == 1);

            assert!(entry(&entries, "custom_key").is_some(), "entries invalid: {:?}", entries);
        }
        _ => panic!("schema is not a table but {:?}", schema),
    }
}

#[test]
fn parser_alternative() {
    let table = parse(
        "
            type='alternative'
            
            [[options]]
            type = 'int'

            [[options]]
            type = 'bool'
        ",
    );

    let (schema, def) = TomlSchema::from_table(&table).unwrap();

    assert!(def.is_none());
    match schema {
        TomlSchema::Alternative(opts) => {
            assert!(opts.len() == 2)
        }
        _ => panic!("schema is not an alternative but {:?}", schema),
    }
}

#[test]
fn parser_array() {
    let table = parse(
        "
            type='array'
            child = {type = 'int'}
            min = 1
        ",
    );

    let (schema, def) = TomlSchema::from_table(&table).unwrap();

    assert!(def.is_none());
    match schema {
        TomlSchema::Array { cond, .. } => {
            assert!(matches!(*cond, TomlSchema::Integer { .. }));
        }
        _ => panic!("schema is not an array but {:?}", schema),
    }
}

#[test]
fn missing_type_compiles_as_table() {
    let (schema, def) = TomlSchema::from_table(&parse("name = {type='string'}")).unwrap();
    assert!(def.is_none());
    match schema {
        TomlSchema::Table { extras, min, max, entries } => {
            assert!(extras.is_empty());
            assert_eq!(min, 0);
            assert_eq!(max, u64::MAX);
            assert_eq!(entries.len(), 1);
            assert_eq!(entries[0].key, "name");
            assert!(matches!(entries[0].schema, TomlSchema::String { .. }));
            assert!(entries[0].default.is_none());
        }
        other => panic!("schema is {:?}", other),
    }
    assert!(matches!(
        TomlSchema::from_table(&Table::new()),
        Ok((TomlSchema::Table { .. }, None))
    ));
}

#[test]
fn unknown_type_is_an_error() {
    match TomlSchema::from_table(&parse("type='integer'")) {
        Err(ConstructionError::UnknownType { name }) => assert_eq!(name, "integer"),
        other => panic!("got {:?}", other),
    }
    assert!(matches!(
        TomlSchema::from_table(&parse("type=''")),
        Err(ConstructionError::UnknownType { .. })
    ));
    assert!(matches!(
        TomlSchema::from_table(&parse("type='String'")),
        Err(ConstructionError::UnknownType { .. })
    ));
}

#[test]
fn type_must_be_a_string() {
    match TomlSchema::from_table(&parse("type=3")) {
        Err(ConstructionError::WrongShape { field, expected, got }) => {
            assert_eq!(field, Field::Type);
            assert_eq!(expected, Shape::String);
            assert!(got == Value::Integer(3));
        }
        other => panic!("got {:?}", other),
    }
}

#[test]
fn every_kind_name_is_known() {
    let cases = [
        ("type='string'", "String"),
        ("type='int'", "Integer"),
        ("type='float'", "Float"),
        ("type='bool'", "Bool"),
        ("type='date'", "Date"),
        ("type='array'\nchild={type='bool'}", "Array"),
        ("type='table'", "Table"),
        ("type='alternative'\noptions=[{type='int'}]", "Alternative"),
        ("type='anything'", "Anything"),
        ("type='exact'\nvalue=1", "Exact"),
    ];
    for (text, expected) in cases {
        let (schema, _) = TomlSchema::from_table(&parse(text)).unwrap();
        let shown = format!("{:?}", schema);
        assert!(shown.starts_with(expected), "{} compiled to {}", text, shown);
    }
}

#[test]
fn string_schema_defaults_to_any_string() {
    let (schema, _) = TomlSchema::from_table(&parse("type='string'")).unwrap();
    match schema {
        TomlSchema::String { regex } => assert_eq!(regex.as_str(), ".*"),
        other => panic!("got {:?}", other),
    }
}

#[test]
fn string_schema_keeps_its_pattern() {
    let (schema, _) = TomlSchema::from_table(&parse("type='string'\nregex='^a+$'")).unwrap();
    match schema {
        TomlSchema::String { regex } => {
            assert_eq!(regex.as_str(), "^a+$");
            assert!(regex.is_match("aaa"));
            assert!(!regex.is_match("aab"));
        }
        other => panic!("got {:?}", other),
    }
}

#[test]
fn bad_regex_is_an_error() {
    match TomlSchema::from_table(&parse("type='string'\nregex='(unclosed'")) {
        Err(ConstructionError::BadRegex { pattern, message }) => {
            assert_eq!(pattern, "(unclosed");
            assert!(!message.is_empty());
            assert_ne!(message, "(unclosed");
        }
        other => panic!("got {:?}", other),
    }
}

#[test]
fn regex_must_be_a_string() {
    match TomlSchema::from_table(&parse("type='string'\nregex=5")) {
        Err(ConstructionError::WrongShape { field, expected, got }) => {
            assert_eq!(field, Field::Regex);
            assert_eq!(expected, Shape::String);
            assert!(got == Value::Integer(5));
        }
        other => panic!("got {:?}", other),
    }
}

#[test]
fn int_schema_defaults_to_the_full_range() {
    let (schema, def) = TomlSchema::from_table(&parse("type='int'")).unwrap();
    assert!(def.is_none());
    assert!(matches!(schema, TomlSchema::Integer { min: i64::MIN, max: i64::MAX }));
    let (schema, _) = TomlSchema::from_table(&parse("type='int'\nmin=-3")).unwrap();
    assert!(matches!(schema, TomlSchema::Integer { min: -3, max: i64::MAX }));
    let (schema, _) = TomlSchema::from_table(&parse("type='int'\nmax=7")).unwrap();
    assert!(matches!(schema, TomlSchema::Integer { min: i64::MIN, max: 7 }));
}

#[test]
fn int_bounds_must_be_integers() {
    match TomlSchema::from_table(&parse("type='int'\nmin=1.5")) {
        Err(ConstructionError::WrongShape { field, expected, got }) => {
            assert_eq!(field, Field::Min);
            assert_eq!(expected, Shape::Integer);
            assert!(got == Value::Float(1.5f64.to_bits()));
        }
        other => panic!("got {:?}", other),
    }
    match TomlSchema::from_table(&parse("type='int'\nmax='x'")) {
        Err(ConstructionError::WrongShape { field, expected, .. }) => {
            assert_eq!(field, Field::Max);
            assert_eq!(expected, Shape::Integer);
        }
        other => panic!("got {:?}", other),
    }
}

#[test]
fn the_first_key_at_fault_is_reported() {
    // "max" comes before "min" in the order of keys
    match TomlSchema::from_table(&parse("type='int'\nmin='a'\nmax='b'")) {
        Err(ConstructionError::WrongShape { field, got, .. }) => {
            assert_eq!(field, Field::Max);
            assert!(got == Value::String("b".to_string()));
        }
        other => panic!("got {:?}", other),
    }
    match TomlSchema::from_table(&parse("type='float'\nnan_ok=1\nmin=1\nmax=2.0")) {
        Err(ConstructionError::WrongShape { field, .. }) => assert_eq!(field, Field::Min),
        other => panic!("got {:?}", other),
    }
    match TomlSchema::from_table(&parse("type='array'\nmin=-1\nmax=-2")) {
        Err(ConstructionError::WrongShape { field, expected, got }) => {
            assert_eq!(field, Field::Max);
            assert_eq!(expected, Shape::Count);
            assert!(got == Value::Integer(-2));
        }
        other => panic!("got {:?}", other),
    }
}

#[test]
fn float_schema_defaults() {
    let (schema, _) = TomlSchema::from_table(&parse("type='float'")).unwrap();
    match schema {
        TomlSchema::Float { min, max, nan_ok } => {
            assert_eq!(f64::from_bits(min), f64::NEG_INFINITY);
            assert_eq!(f64::from_bits(max), f64::INFINITY);
            assert!(!nan_ok);
        }
        other => panic!("got {:?}", other),
    }
    let (schema, _) =
        TomlSchema::from_table(&parse("type='float'\nmin=-1.5\nmax=2.25\nnan_ok=true")).unwrap();
    match schema {
        TomlSchema::Float { min, max, nan_ok } => {
            assert_eq!(f64::from_bits(min), -1.5);
            assert_eq!(f64::from_bits(max), 2.25);
            assert!(nan_ok);
        }
        other => panic!("got {:?}", other),
    }
}

#[test]
fn float_fields_are_shape_checked() {
    match TomlSchema::from_table(&parse("type='float'\nmin=1")) {
        Err(ConstructionError::WrongShape { field, expected, got }) => {
            assert_eq!(field, Field::Min);
            assert_eq!(expected, Shape::Float);
            assert!(got == Value::Integer(1));
        }
        other => panic!("got {:?}", other),
    }
    match TomlSchema::from_table(&parse("type='float'\nmax=true")) {
        Err(ConstructionError::WrongShape { field, expected, .. }) => {
            assert_eq!(field, Field::Max);
            assert_eq!(expected, Shape::Float);
        }
        other => panic!("got {:?}", other),
    }
    match TomlSchema::from_table(&parse("type='float'\nnan_ok='yes'")) {
        Err(ConstructionError::WrongShape { field, expected, .. }) => {
            assert_eq!(field, Field::NanOk);
            assert_eq!(expected, Shape::Boolean);
        }
        other => panic!("got {:?}", other),
    }
}

#[test]
fn anything_and_exact() {
    let (schema, def) = TomlSchema::from_table(&parse("type='anything'\ndefault=3")).unwrap();
    assert!(matches!(schema, TomlSchema::Anything));
    assert!(def == Some(Value::Integer(3)));
    let (schema, def) = TomlSchema::from_table(&parse("type='exact'\nvalue=[1, 'a']")).unwrap();
    assert!(def.is_none());
    match schema {
        TomlSchema::Exact(v) => {
            assert!(v == Value::Array(vec![Value::Integer(1), Value::String("a".to_string())]))
        }
        other => panic!("got {:?}", other),
    }
    match TomlSchema::from_table(&parse("type='exact'")) {
        Err(ConstructionError::Missing { field }) => assert_eq!(field, Field::Value),
        other => panic!("got {:?}", other),
    }
}

#[test]
fn array_needs_a_child() {
    match TomlSchema::from_table(&parse("type='array'")) {
        Err(ConstructionError::Missing { field }) => assert_eq!(field, Field::Child),
        other => panic!("got {:?}", other),
    }
    match TomlSchema::from_table(&parse("type='array'\nchild=3")) {
        Err(ConstructionError::WrongShape { field, expected, got }) => {
            assert_eq!(field, Field::Child);
            assert_eq!(expected, Shape::Table);
            assert!(got == Value::Integer(3));
        }
        other => panic!("got {:?}", other),
    }
    match TomlSchema::from_table(&parse("type='array'\nchild={type='nope'}")) {
        Err(ConstructionError::Inside { place: Place::Child, error }) => {
            assert!(matches!(*error, ConstructionError::UnknownType { .. }))
        }
        other => panic!("got {:?}", other),
    }
}

#[test]
fn array_bounds() {
    let (schema, _) =
        TomlSchema::from_table(&parse("type='array'\nchild={type='int', default=4}")).unwrap();
    assert!(matches!(schema, TomlSchema::Array { min: 0, max: u64::MAX, .. }));
    let (schema, _) =
        TomlSchema::from_table(&parse("type='array'\nchild={type='int'}\nmin=1\nmax=3")).unwrap();
    assert!(matches!(schema, TomlSchema::Array { min: 1, max: 3, .. }));
    match TomlSchema::from_table(&parse("type='array'\nchild={type='int'}\nmin=-1")) {
        Err(ConstructionError::WrongShape { field, expected, got }) => {
            assert_eq!(field, Field::Min);
            assert_eq!(expected, Shape::Count);
            assert!(got == Value::Integer(-1));
        }
        other => panic!("got {:?}", other),
    }
    match TomlSchema::from_table(&parse("type='array'\nchild={type='int'}\nmax='many'")) {
        Err(ConstructionError::WrongShape { field, expected, .. }) => {
            assert_eq!(field, Field::Max);
            assert_eq!(expected, Shape::Count);
        }
        other => panic!("got {:?}", other),
    }
}

#[test]
fn alternative_options() {
    match TomlSchema::from_table(&parse("type='alternative'")) {
        Err(ConstructionError::Missing { field }) => assert_eq!(field, Field::Options),
        other => panic!("got {:?}", other),
    }
    match TomlSchema::from_table(&parse("type='alternative'\ndefault=1\nchoices=[]")) {
        Err(ConstructionError::Missing { field }) => assert_eq!(field, Field::Options),
        other => panic!("got {:?}", other),
    }
    let (schema, _) = TomlSchema::from_table(&parse("type='alternative'\noptions=[]")).unwrap();
    assert!(matches!(schema, TomlSchema::Alternative(ref o) if o.is_empty()));
    let (schema, _) = TomlSchema::from_table(&parse(
        "type='alternative'\noptions=[{type='int', default=1}, {type='bool'}, {type='date'}]",
    ))
    .unwrap();
    match schema {
        TomlSchema::Alternative(options) => {
            assert_eq!(options.len(), 3);
            assert!(matches!(options[0], TomlSchema::Integer { .. }));
            assert!(matches!(options[1], TomlSchema::Bool));
            assert!(matches!(options[2], TomlSchema::Date));
        }
        other => panic!("got {:?}", other),
    }
    match TomlSchema::from_table(&parse("type='alternative'\noptions=1")) {
        Err(ConstructionError::WrongShape { field, expected, .. }) => {
            assert_eq!(field, Field::Options);
            assert_eq!(expected, Shape::Array);
        }
        other => panic!("got {:?}", other),
    }
    match TomlSchema::from_table(&parse("type='alternative'\noptions=[{type='int'}, 5]")) {
        Err(ConstructionError::Inside { place: Place::Choice { index: 1 }, error }) => {
            match *error {
                ConstructionError::WrongShape { field, expected, got } => {
                    assert_eq!(field, Field::Schema);
                    assert_eq!(expected, Shape::Table);
                    assert!(got == Value::Integer(5));
                }
                other => panic!("got {:?}", other),
            }
        }
        other => panic!("got {:?}", other),
    }
    match TomlSchema::from_table(&parse(
        "type='alternative'\noptions=[{type='int'}, {type='int'}, {type='int', min='x'}]",
    )) {
        Err(ConstructionError::Inside { place: Place::Choice { index: 2 }, error }) => {
            assert!(matches!(*error, ConstructionError::WrongShape { field: Field::Min, .. }))
        }
        other => panic!("got {:?}", other),
    }
}

#[test]
fn table_entries_and_escapes() {
    let (schema, _) = TomlSchema::from_table(&parse(
        "
            '$type' = {type='string'}
            '$$x' = {type='int', default=2}
            plain = {type='bool'}
        ",
    ))
    .unwrap();
    match schema {
        TomlSchema::Table { entries, .. } => {
            assert_eq!(entries.len(), 3);
            assert!(matches!(entry(&entries, "type").unwrap().schema, TomlSchema::String { .. }));
            let x = entry(&entries, "$x").unwrap();
            assert!(matches!(x.schema, TomlSchema::Integer { .. }));
            assert!(x.default == Some(Value::Integer(2)));
            assert!(matches!(entry(&entries, "plain").unwrap().schema, TomlSchema::Bool));
            assert!(entry(&entries, "$$x").is_none());
            assert!(entry(&entries, "$type").is_none());
        }
        other => panic!("got {:?}", other),
    }
}

#[test]
fn a_later_entry_of_the_same_name_replaces_the_earlier() {
    // "$a" comes before "a" in the order of keys, and both name the entry "a"
    let (schema, _) =
        TomlSchema::from_table(&parse("'$a' = {type='int'}\na = {type='bool'}\nb = {type='date'}"))
            .unwrap();
    match schema {
        TomlSchema::Table { entries, .. } => {
            assert_eq!(entries.len(), 2);
            assert_eq!(entries[0].key, "a");
            assert!(matches!(entries[0].schema, TomlSchema::Bool));
            assert_eq!(entries[1].key, "b");
        }
        other => panic!("got {:?}", other),
    }
}

#[test]
fn table_bounds_and_extras() {
    let (schema, _) = TomlSchema::from_table(&parse(
        "type='table'\nmin=1\nmax=2\nextras=[{key='^x_', schema={type='int'}}, {key='y', schema={type='bool'}, more=1}]",
    ))
    .unwrap();
    match schema {
        TomlSchema::Table { extras, min, max, entries } => {
            assert_eq!(min, 1);
            assert_eq!(max, 2);
            assert!(entries.is_empty());
            assert_eq!(extras.len(), 2);
            assert_eq!(extras[0].key.as_str(), "^x_");
            assert!(matches!(extras[0].value, TomlSchema::Integer { .. }));
            assert_eq!(extras[1].key.as_str(), "y");
            assert!(matches!(extras[1].value, TomlSchema::Bool));
        }
        other => panic!("got {:?}", other),
    }
}

#[test]
fn table_faults() {
    match TomlSchema::from_table(&parse("min=-1")) {
        Err(ConstructionError::WrongShape { field, expected, .. }) => {
            assert_eq!(field, Field::Min);
            assert_eq!(expected, Shape::Count);
        }
        other => panic!("got {:?}", other),
    }
    match TomlSchema::from_table(&parse("max=1.0")) {
        Err(ConstructionError::WrongShape { field, expected, .. }) => {
            assert_eq!(field, Field::Max);
            assert_eq!(expected, Shape::Count);
        }
        other => panic!("got {:?}", other),
    }
    match TomlSchema::from_table(&parse("extras={}")) {
        Err(ConstructionError::WrongShape { field, expected, .. }) => {
            assert_eq!(field, Field::Extras);
            assert_eq!(expected, Shape::Array);
        }
        other => panic!("got {:?}", other),
    }
    match TomlSchema::from_table(&parse("extras=[1]")) {
        Err(ConstructionError::Inside { place: Place::Extra { index: 0 }, error }) => {
            assert!(matches!(
                *error,
                ConstructionError::WrongShape { field: Field::Schema, expected: Shape::Table, .. }
            ))
        }
        other => panic!("got {:?}", other),
    }
    match TomlSchema::from_table(&parse("extras=[{schema={}}]")) {
        Err(ConstructionError::Inside { place: Place::Extra { index: 0 }, error }) => {
            assert!(matches!(*error, ConstructionError::Missing { field: Field::ExtraKey }))
        }
        other => panic!("got {:?}", other),
    }
    match TomlSchema::from_table(&parse("extras=[{key='a', schema={}}, {key=1, schema={}}]")) {
        Err(ConstructionError::Inside { place: Place::Extra { index: 1 }, error }) => {
            assert!(matches!(
                *error,
                ConstructionError::WrongShape {
                    field: Field::ExtraKey,
                    expected: Shape::String,
                    ..
                }
            ))
        }
        other => panic!("got {:?}", other),
    }
    match TomlSchema::from_table(&parse("extras=[{key='(', schema={}}]")) {
        Err(ConstructionError::Inside { place: Place::Extra { index: 0 }, error }) => {
            assert!(matches!(*error, ConstructionError::BadRegex { .. }))
        }
        other => panic!("got {:?}", other),
    }
    match TomlSchema::from_table(&parse("extras=[{key='a'}]")) {
        Err(ConstructionError::Inside { place: Place::Extra { index: 0 }, error }) => {
            assert!(matches!(*error, ConstructionError::Missing { field: Field::ExtraSchema }))
        }
        other => panic!("got {:?}", other),
    }
    match TomlSchema::from_table(&parse("extras=[{key='a', schema=2}]")) {
        Err(ConstructionError::Inside { place: Place::Extra { index: 0 }, error }) => {
            assert!(matches!(
                *error,
                ConstructionError::WrongShape {
                    field: Field::ExtraSchema,
                    expected: Shape::Table,
                    ..
                }
            ))
        }
        other => panic!("got {:?}", other),
    }
    match TomlSchema::from_table(&parse("extras=[{key='a', schema={type='x'}}]")) {
        Err(ConstructionError::Inside { place: Place::Extra { index: 0 }, error }) => {
            assert!(matches!(*error, ConstructionError::UnknownType { .. }))
        }
        other => panic!("got {:?}", other),
    }
    match TomlSchema::from_table(&parse("name=3")) {
        Err(ConstructionError::Inside { place: Place::Entry { key }, error }) => {
            assert_eq!(key, "name");
            assert!(matches!(
                *error,
                ConstructionError::WrongShape { field: Field::Schema, expected: Shape::Table, .. }
            ))
        }
        other => panic!("got {:?}", other),
    }
    match TomlSchema::from_table(&parse("'$name'={type='int', min=1.0}")) {
        Err(ConstructionError::Inside { place: Place::Entry { key }, error }) => {
            assert_eq!(key, "name");
            assert!(matches!(*error, ConstructionError::WrongShape { field: Field::Min, .. }))
        }
        other => panic!("got {:?}", other),
    }
}

#[test]
fn nested_faults_read_as_a_path() {
    let doc = parse("outer = {inner = {type='array', child={type='string', regex=1}}}");
    match TomlSchema::from_table(&doc) {
        Err(ConstructionError::Inside { place: Place::Entry { key }, error }) => {
            assert_eq!(key, "outer");
            match *error {
                ConstructionError::Inside { place: Place::Entry { key }, error } => {
                    assert_eq!(key, "inner");
                    match *error {
                        ConstructionError::Inside { place: Place::Child, error } => {
                            assert!(matches!(
                                *error,
                                ConstructionError::WrongShape { field: Field::Regex, .. }
                            ))
                        }
                        other => panic!("got {:?}", other),
                    }
                }
                other => panic!("got {:?}", other),
            }
        }
        other => panic!("got {:?}", other),
    }
}

#[test]
fn unrecognized_keys_are_ignored() {
    assert!(TomlSchema::from_table(&parse("type='int'\ncolour='red'\nchild=3")).is_ok());
    assert!(TomlSchema::from_table(&parse("type='bool'\nmin='x'")).is_ok());
    assert!(TomlSchema::from_table(&parse("type='string'\noptions=1")).is_ok());
}

#[test]
fn defaults_are_captured_and_not_checked() {
    let (_, def) = TomlSchema::from_table(&parse("type='int'\nmin=0\ndefault='text'")).unwrap();
    assert!(def == Some(Value::String("text".to_string())));
    let (_, def) = TomlSchema::from_table(&parse("a={type='int'}\ndefault={a=1}")).unwrap();
    let mut expected = Table::new();
    expected.insert("a".to_string(), Value::Integer(1));
    assert!(def == Some(Value::Table(expected)));
}

#[test]
fn try_from_drops_the_root_default() {
    let schema = TomlSchema::try_from(parse("type='int'\ndefault=3\nmax=9")).unwrap();
    assert!(matches!(schema, TomlSchema::Integer { min: i64::MIN, max: 9 }));
    assert!(matches!(
        TomlSchema::try_from(parse("type='what'")),
        Err(ConstructionError::UnknownType { .. })
    ));
}

fn shown(warnings: &[toml_schema::Warning]) -> Vec<String> {
    warnings.iter().map(|w| format!("{:?}", w)).collect()
}

#[test]
fn unknown_keys_are_remarked() {
    let w = TomlSchema::warnings(&parse("type='int'\ncolour='red'\nmin=1\ndefault=2\nchild=3"));
    assert_eq!(
        shown(&w),
        vec![
            "UnexpectedKey { kind: Integer, key: \"child\" }",
            "UnexpectedKey { kind: Integer, key: \"colour\" }",
        ]
    );
    let w = TomlSchema::warnings(&parse("type='string'\nregex='a'\nmin=1"));
    assert_eq!(shown(&w), vec!["UnexpectedKey { kind: String, key: \"min\" }"]);
    for doc in [
        "type='string'\nregex='a'\ndefault='a'",
        "type='int'\nmin=1\nmax=2",
        "type='float'\nmin=1.0\nmax=2.0\nnan_ok=true",
        "type='bool'",
        "type='date'\ndefault=1970-01-01",
        "type='anything'",
        "type='exact'\nvalue=1",
        "type='array'\nchild={type='int'}\nmin=1\nmax=2",
        "type='alternative'\noptions=[{type='int'}]",
        "type='table'\nmin=1\nmax=2\nextras=[{key='a', schema={type='int'}}]\nother={type='int', default=1}",
        "other={type='int', default=1}",
        "type='nothing'\nwhat=1",
        "type=1\nwhat=1",
    ] {
        assert!(TomlSchema::warnings(&parse(doc)).is_empty(), "{}", doc);
    }
    for kind in ["bool", "date", "anything"] {
        let w = TomlSchema::warnings(&parse(&format!("type='{}'\nvalue=1", kind)));
        assert_eq!(w.len(), 1);
    }
}

#[test]
fn unusable_defaults_are_remarked() {
    let w = TomlSchema::warnings(&parse("type='array'\nchild={type='int', default=1, x=2}"));
    assert_eq!(
        shown(&w),
        vec![
            "Inside { place: Child, warning: UnexpectedKey { kind: Integer, key: \"x\" } }",
            "UnusedDefault { place: Child }",
        ]
    );
    let w = TomlSchema::warnings(&parse(
        "type='alternative'\noptions=[{type='int'}, {type='bool', default=true}, 3]",
    ));
    assert_eq!(shown(&w), vec!["UnusedDefault { place: Choice { index: 1 } }"]);
    let w = TomlSchema::warnings(&parse(
        "extras=[{key='a', schema={type='int', default=1}, more=1}, {key='b', schema={type='int'}}]",
    ));
    assert_eq!(
        shown(&w),
        vec![
            "UnusedDefault { place: Extra { index: 0 } }",
            "UnusedKeys { index: 0, count: 3 }",
        ]
    );
    let w = TomlSchema::warnings(&parse(
        "a={type='int', default=1}\n'$b'={type='array', child={type='bool', default=false}}",
    ));
    assert_eq!(
        shown(&w),
        vec!["Inside { place: Entry { key: \"b\" }, warning: UnusedDefault { place: Child } }"]
    );
}
