//! Compiling a schema document into a schema.

use crate::compiling::{
    alternative_spec, array_spec, assemble, bool_field, choice_outcomes, compile_spec,
    count_field, count_of, exact_spec, extra_outcomes, extra_spec, extras_spec, float_field,
    float_spec, int_spec, integer_field, nested_spec, pattern_outcome, put_entry, string_spec,
    table_part, table_parts, table_spec, Compiled,
};
use crate::fault::{ConstructionError, FaultModel, Field, Place, Shape};
use crate::float_order::{NEGATIVE_INFINITY, POSITIVE_INFINITY};
use crate::matching::{first_miss, first_miss_from};
use crate::pattern::{regex_error_text, regex_new, Pattern};
use crate::schema::{
    extra_models, field_models, lemma_model_parts, ExtraModel, FieldModel, SchemaModel,
    TableEntry, TableField, TomlSchema,
};
use crate::schema_type::SchemaType;
use crate::text::str_eq;
use crate::validation::find_field;
use crate::value::{lemma_lookup_decreases, lookup, Table, Value, ValueModel};
use vstd::prelude::*;
use vstd::string::*;

verus! {

/// The model of an optional value.
pub open spec fn default_model(default: Option<Value>) -> Option<ValueModel> {
    match default {
        Some(v) => Some(v@),
        None => None,
    }
}

/// The outcome of a compilation as mathematics.
pub open spec fn compiled_model(r: Result<(TomlSchema, Option<Value>), ConstructionError>)
    -> Compiled {
    match r {
        Ok((schema, default)) => Ok((schema@, default_model(default))),
        Err(e) => Err(e@),
    }
}

/// The outcome of building a schema as mathematics.
pub open spec fn built_model(r: Result<TomlSchema, ConstructionError>) -> Result<
    SchemaModel,
    FaultModel,
> {
    match r {
        Ok(schema) => Ok(schema@),
        Err(e) => Err(e@),
    }
}

/// The name of a table entry: `key` without the `$` that it begins with, if
/// it begins with one.
pub fn strip_escape(key: &str) -> (r: String)
    ensures
        r@ == crate::compiling::strip_escape(key@),
{
    let n = key.unicode_len();
    if n > 0 && key.get_char(0) == '$' {
        key.substring_char(1, n).to_owned()
    } else {
        key.to_owned()
    }
}

/// The error of a field that holds `got` where `expected` was wanted.
fn wrong_shape(field: Field, expected: Shape, got: &Value) -> (r: ConstructionError)
    ensures
        r@ == (FaultModel::WrongShape { field, expected, got: got@ }),
{
    ConstructionError::WrongShape { field, expected, got: got.clone() }
}

/// `error`, as the error of the schema at `place`.
fn inside(place: Place, error: ConstructionError) -> (r: ConstructionError)
    ensures
        r@ == (FaultModel::Inside { place: place@, error: Box::new(error@) }),
{
    ConstructionError::Inside { place, error: Box::new(error) }
}

/// The integer under `key`, or `absent` where the table lacks the key.
fn read_integer(table: &Table, key: &str, field: Field, absent: i64) -> (r: Result<
    i64,
    ConstructionError,
>)
    ensures
        match r {
            Ok(i) => integer_field(table@, key@, field, absent) == Ok::<i64, FaultModel>(i),
            Err(e) => integer_field(table@, key@, field, absent) == Err::<i64, FaultModel>(e@),
        },
{
    match table.get(key) {
        None => Ok(absent),
        Some(Value::Integer(i)) => Ok(*i),
        Some(other) => Err(wrong_shape(field, Shape::Integer, other)),
    }
}

/// The number under `key`, or `absent` where the table lacks the key.
fn read_float(table: &Table, key: &str, field: Field, absent: u64) -> (r: Result<
    u64,
    ConstructionError,
>)
    ensures
        match r {
            Ok(bits) => float_field(table@, key@, field, absent) == Ok::<u64, FaultModel>(bits),
            Err(e) => float_field(table@, key@, field, absent) == Err::<u64, FaultModel>(e@),
        },
{
    match table.get(key) {
        None => Ok(absent),
        Some(Value::Float(bits)) => Ok(*bits),
        Some(other) => Err(wrong_shape(field, Shape::Float, other)),
    }
}

/// The boolean under `key`, or `absent` where the table lacks the key.
fn read_bool(table: &Table, key: &str, field: Field, absent: bool) -> (r: Result<
    bool,
    ConstructionError,
>)
    ensures
        match r {
            Ok(b) => bool_field(table@, key@, field, absent) == Ok::<bool, FaultModel>(b),
            Err(e) => bool_field(table@, key@, field, absent) == Err::<bool, FaultModel>(e@),
        },
{
    match table.get(key) {
        None => Ok(absent),
        Some(Value::Boolean(b)) => Ok(*b),
        Some(other) => Err(wrong_shape(field, Shape::Boolean, other)),
    }
}

/// The count that `value` holds: an integer that is not negative.
fn read_count_of(value: &Value, field: Field) -> (r: Result<u64, ConstructionError>)
    ensures
        match r {
            Ok(n) => count_of(value@, field) == Ok::<u64, FaultModel>(n),
            Err(e) => count_of(value@, field) == Err::<u64, FaultModel>(e@),
        },
{
    match value {
        Value::Integer(i) => {
            if *i >= 0 {
                Ok(*i as u64)
            } else {
                Err(wrong_shape(field, Shape::Count, value))
            }
        },
        _ => Err(wrong_shape(field, Shape::Count, value)),
    }
}

/// The count under `key`, or `absent` where the table lacks the key.
fn read_count(table: &Table, key: &str, field: Field, absent: u64) -> (r: Result<
    u64,
    ConstructionError,
>)
    ensures
        match r {
            Ok(n) => count_field(table@, key@, field, absent) == Ok::<u64, FaultModel>(n),
            Err(e) => count_field(table@, key@, field, absent) == Err::<u64, FaultModel>(e@),
        },
{
    match table.get(key) {
        None => Ok(absent),
        Some(value) => read_count_of(value, field),
    }
}

/// What compiling `pattern` comes to, given what the compiler of regular
/// expressions made of it: the expression, or the error that names the
/// pattern and carries the compiler's words.
pub fn pattern_result(pattern: &str, compiled: Result<Pattern, regex::Error>) -> (r: Result<
    Pattern,
    ConstructionError,
>)
    ensures
        match compiled {
            Ok(p) => r is Ok && r->Ok_0 == p,
            Err(_) => r is Err && r->Err_0@ == (FaultModel::BadRegex { pattern: pattern@ }),
        },
{
    match compiled {
        Ok(p) => Ok(p),
        Err(e) => Err(
            ConstructionError::BadRegex {
                pattern: pattern.to_owned(),
                message: regex_error_text(&e),
            },
        ),
    }
}

impl Pattern {
    /// Compiles `source` into a regular expression.
    pub fn new(source: &str) -> (r: Result<Pattern, ConstructionError>)
        ensures
            match r {
                Ok(p) => pattern_outcome(source@) == Ok::<Seq<char>, FaultModel>(p@),
                Err(e) => pattern_outcome(source@) == Err::<Seq<char>, FaultModel>(e@),
            },
    {
        pattern_result(source, regex_new(source))
    }
}

/// A copy of the value under `default`, if the table has one.
fn read_default(table: &Table) -> (r: Option<Value>)
    ensures
        default_model(r) == lookup(table@, "default"@),
{
    match table.get("default") {
        Some(v) => Some(v.clone()),
        None => None,
    }
}

/// `schema` with the default that `table` declares.
fn with_declared_default(schema: Result<TomlSchema, ConstructionError>, table: &Table) -> (r:
    Result<(TomlSchema, Option<Value>), ConstructionError>)
    ensures
        compiled_model(r) == crate::compiling::attach_default(built_model(schema), table@),
{
    match schema {
        Ok(s) => Ok((s, read_default(table))),
        Err(e) => Err(e),
    }
}

/// The string schema that `table` describes, with its default.
pub fn parse_string(table: &Table) -> (r: Result<(TomlSchema, Option<Value>), ConstructionError>)
    ensures
        compiled_model(r) == crate::compiling::attach_default(string_spec(table@), table@),
{
    let built = match table.get("regex") {
        None => match Pattern::new(".*") {
            Ok(regex) => Ok(TomlSchema::String { regex }),
            Err(e) => Err(e),
        },
        Some(Value::String(p)) => match Pattern::new(p.as_str()) {
            Ok(regex) => Ok(TomlSchema::String { regex }),
            Err(e) => Err(e),
        },
        Some(other) => Err(wrong_shape(Field::Regex, Shape::String, other)),
    };
    with_declared_default(built, table)
}

/// The integer schema that `table` describes, with its default.
pub fn parse_int(table: &Table) -> (r: Result<(TomlSchema, Option<Value>), ConstructionError>)
    ensures
        compiled_model(r) == crate::compiling::attach_default(int_spec(table@), table@),
{
    let built = match read_integer(table, "max", Field::Max, i64::MAX) {
        Err(e) => Err(e),
        Ok(max) => match read_integer(table, "min", Field::Min, i64::MIN) {
            Err(e) => Err(e),
            Ok(min) => Ok(TomlSchema::Integer { min, max }),
        },
    };
    with_declared_default(built, table)
}

/// The float schema that `table` describes, with its default.
pub fn parse_float(table: &Table) -> (r: Result<(TomlSchema, Option<Value>), ConstructionError>)
    ensures
        compiled_model(r) == crate::compiling::attach_default(float_spec(table@), table@),
{
    let built = match read_float(table, "max", Field::Max, POSITIVE_INFINITY) {
        Err(e) => Err(e),
        Ok(max) => match read_float(table, "min", Field::Min, NEGATIVE_INFINITY) {
            Err(e) => Err(e),
            Ok(min) => match read_bool(table, "nan_ok", Field::NanOk, false) {
                Err(e) => Err(e),
                Ok(nan_ok) => Ok(TomlSchema::Float { min, max, nan_ok }),
            },
        },
    };
    with_declared_default(built, table)
}

/// The boolean schema, with the default that `table` declares.
pub fn parse_bool(table: &Table) -> (r: Result<(TomlSchema, Option<Value>), ConstructionError>)
    ensures
        compiled_model(r) == Ok::<(SchemaModel, Option<ValueModel>), FaultModel>(
            (SchemaModel::Bool, lookup(table@, "default"@)),
        ),
{
    with_declared_default(Ok(TomlSchema::Bool), table)
}

/// The date schema, with the default that `table` declares.
pub fn parse_date(table: &Table) -> (r: Result<(TomlSchema, Option<Value>), ConstructionError>)
    ensures
        compiled_model(r) == Ok::<(SchemaModel, Option<ValueModel>), FaultModel>(
            (SchemaModel::Date, lookup(table@, "default"@)),
        ),
{
    with_declared_default(Ok(TomlSchema::Date), table)
}

/// The schema that accepts everything, with the default that `table`
/// declares.
pub fn parse_anything(table: &Table) -> (r: Result<
    (TomlSchema, Option<Value>),
    ConstructionError,
>)
    ensures
        compiled_model(r) == Ok::<(SchemaModel, Option<ValueModel>), FaultModel>(
            (SchemaModel::Anything, lookup(table@, "default"@)),
        ),
{
    with_declared_default(Ok(TomlSchema::Anything), table)
}

/// The exact schema that `table` describes, with its default.
pub fn parse_exact(table: &Table) -> (r: Result<(TomlSchema, Option<Value>), ConstructionError>)
    ensures
        compiled_model(r) == crate::compiling::attach_default(exact_spec(table@), table@),
{
    let built = match table.get("value") {
        Some(value) => Ok(TomlSchema::Exact(value.clone())),
        None => Err(ConstructionError::Missing { field: Field::Value }),
    };
    with_declared_default(built, table)
}

/// The schema that stands as a table in `value`, a part of the schema
/// around it at `place`. A default that it declares is dropped.
fn parse_nested(value: &Value, place: Place) -> (r: Result<TomlSchema, ConstructionError>)
    ensures
        built_model(r) == nested_spec(value@, place@),
    decreases value@, 0nat,
{
    match value {
        Value::Table(doc) => match TomlSchema::from_table(doc) {
            Ok((schema, _)) => Ok(schema),
            Err(e) => Err(inside(place, e)),
        },
        _ => Err(inside(place, wrong_shape(Field::Schema, Shape::Table, value))),
    }
}

/// The array schema that `table` describes, with its default.
pub fn parse_array(table: &Table) -> (r: Result<(TomlSchema, Option<Value>), ConstructionError>)
    ensures
        compiled_model(r) == crate::compiling::attach_default(array_spec(table@), table@),
    decreases table@, 0nat,
{
    proof {
        lemma_lookup_decreases(table@, "child"@);
    }
    let child = match table.get("child") {
        None => None,
        Some(Value::Table(t)) => match TomlSchema::from_table(t) {
            Ok((schema, _)) => Some(schema),
            Err(e) => {
                return Err(inside(Place::Child, e));
            },
        },
        Some(other) => {
            return Err(wrong_shape(Field::Child, Shape::Table, other));
        },
    };
    let max = match read_count(table, "max", Field::Max, u64::MAX) {
        Ok(n) => n,
        Err(e) => {
            return Err(e);
        },
    };
    let min = match read_count(table, "min", Field::Min, 0) {
        Ok(n) => n,
        Err(e) => {
            return Err(e);
        },
    };
    let built = match child {
        Some(cond) => Ok(TomlSchema::Array { cond: Box::new(cond), min, max }),
        None => Err(ConstructionError::Missing { field: Field::Child }),
    };
    with_declared_default(built, table)
}

/// The alternative that `table` describes, with its default.
#[verifier::loop_isolation(false)]
pub fn parse_alternative(table: &Table) -> (r: Result<
    (TomlSchema, Option<Value>),
    ConstructionError,
>)
    ensures
        compiled_model(r) == crate::compiling::attach_default(alternative_spec(table@), table@),
    decreases table@, 0nat,
{
    proof {
        lemma_lookup_decreases(table@, "options"@);
    }
    let built = match table.get("options") {
        None => Err(ConstructionError::Missing { field: Field::Options }),
        Some(Value::Array(items)) => {
            let ghost models = lookup(table@, "options"@)->Some_0->Array_0;
            let ghost outcomes = choice_outcomes(models);
            let mut options: Vec<TomlSchema> = Vec::new();
            let mut i: usize = 0;
            while i < items.len()
                invariant
                    i <= items.len(),
                    first_miss(outcomes) == first_miss_from(outcomes, i as int),
                    options.len() == i,
                    forall|k: int|
                        0 <= k < i ==> outcomes[k] == Ok::<SchemaModel, FaultModel>(
                            (#[trigger] options[k])@,
                        ),
                decreases items.len() - i,
            {
                assert(items[i as int]@ == models[i as int]);
                match parse_nested(&items[i], Place::Choice { index: i }) {
                    Ok(schema) => {
                        options.push(schema);
                    },
                    Err(e) => {
                        return Err(e);
                    },
                }
                i += 1;
            }
            let r = TomlSchema::Alternative(options);
            assert(r@->Alternative_0 =~= Seq::new(models.len(), |i: int| outcomes[i]->Ok_0));
            Ok(r)
        },
        Some(other) => Err(wrong_shape(Field::Options, Shape::Array, other)),
    };
    with_declared_default(built, table)
}

impl TomlSchema {
    /// Compiles the schema document `table`: the schema that it describes,
    /// and the default that it declares. The default is not matched against
    /// the schema.
    pub fn from_table(table: &Table) -> (r: Result<(TomlSchema, Option<Value>), ConstructionError>)
        ensures
            compiled_model(r) == compile_spec(table@),
        decreases table@, 3nat,
    {
        match table.get("type") {
            None => parse_table(table),
            Some(Value::String(name)) => match SchemaType::try_from(name.as_str()) {
                Ok(kind) => match kind {
                    SchemaType::String => parse_string(table),
                    SchemaType::Integer => parse_int(table),
                    SchemaType::Date => parse_date(table),
                    SchemaType::Bool => parse_bool(table),
                    SchemaType::Float => parse_float(table),
                    SchemaType::Array => parse_array(table),
                    SchemaType::Table => parse_table(table),
                    SchemaType::Alternative => parse_alternative(table),
                    SchemaType::Anything => parse_anything(table),
                    SchemaType::Exact => parse_exact(table),
                },
                Err(e) => Err(e),
            },
            Some(other) => Err(wrong_shape(Field::Type, Shape::String, other)),
        }
    }

    /// Compiles the schema document `table` into the schema that it
    /// describes. A default that the document declares for the schema as a
    /// whole has no table to go to, and is dropped.
    pub fn try_from(table: Table) -> (r: Result<TomlSchema, ConstructionError>)
        ensures
            built_model(r) == match compile_spec(table@) {
                Ok((schema, _)) => Ok::<SchemaModel, FaultModel>(schema),
                Err(e) => Err::<SchemaModel, FaultModel>(e),
            },
    {
        match TomlSchema::from_table(&table) {
            Ok((schema, _)) => Ok(schema),
            Err(e) => Err(e),
        }
    }
}

/// The rule that the record `item` of `extras` describes.
fn parse_extra(item: &Value, index: usize) -> (r: Result<TableEntry, ConstructionError>)
    ensures
        match r {
            Ok(entry) => extra_spec(item@, index as nat) == Ok::<ExtraModel, FaultModel>(entry@),
            Err(e) => extra_spec(item@, index as nat) == Err::<ExtraModel, FaultModel>(e@),
        },
    decreases item@, 0nat,
{
    match item {
        Value::Table(record) => {
            proof {
                lemma_lookup_decreases(record@, "schema"@);
            }
            let key = match record.get("key") {
                Some(Value::String(p)) => Pattern::new(p.as_str()),
                Some(other) => Err(wrong_shape(Field::ExtraKey, Shape::String, other)),
                None => Err(ConstructionError::Missing { field: Field::ExtraKey }),
            };
            match key {
                Err(e) => Err(inside(Place::Extra { index }, e)),
                Ok(regex) => match record.get("schema") {
                    Some(Value::Table(t)) => match TomlSchema::from_table(t) {
                        Ok((schema, _)) => Ok(TableEntry { key: regex, value: schema }),
                        Err(e) => Err(inside(Place::Extra { index }, e)),
                    },
                    Some(other) => Err(
                        inside(
                            Place::Extra { index },
                            wrong_shape(Field::ExtraSchema, Shape::Table, other),
                        ),
                    ),
                    None => Err(
                        inside(
                            Place::Extra { index },
                            ConstructionError::Missing { field: Field::ExtraSchema },
                        ),
                    ),
                },
            }
        },
        _ => Err(inside(Place::Extra { index }, wrong_shape(Field::Schema, Shape::Table, item))),
    }
}

/// The rules that the value of `extras` describes, in their order.
#[verifier::loop_isolation(false)]
fn parse_extras(value: &Value) -> (r: Result<Vec<TableEntry>, ConstructionError>)
    ensures
        match r {
            Ok(extras) => extras_spec(value@) == Ok::<Seq<ExtraModel>, FaultModel>(
                extra_models(extras@),
            ),
            Err(e) => extras_spec(value@) == Err::<Seq<ExtraModel>, FaultModel>(e@),
        },
    decreases value@, 1nat,
{
    match value {
        Value::Array(items) => {
            let ghost models = value@->Array_0;
            let ghost outcomes = extra_outcomes(models);
            let mut extras: Vec<TableEntry> = Vec::new();
            let mut i: usize = 0;
            while i < items.len()
                invariant
                    i <= items.len(),
                    first_miss(outcomes) == first_miss_from(outcomes, i as int),
                    extras.len() == i,
                    forall|k: int|
                        0 <= k < i ==> outcomes[k] == Ok::<ExtraModel, FaultModel>(
                            (#[trigger] extras[k])@,
                        ),
                decreases items.len() - i,
            {
                assert(items[i as int]@ == models[i as int]);
                match parse_extra(&items[i], i) {
                    Ok(entry) => {
                        extras.push(entry);
                    },
                    Err(e) => {
                        return Err(e);
                    },
                }
                i += 1;
            }
            assert(extra_models(extras@) =~= Seq::new(models.len(), |i: int| outcomes[i]->Ok_0));
            Ok(extras)
        },
        _ => Err(wrong_shape(Field::Extras, Shape::Array, value)),
    }
}

/// Puts `entry` in place of the entry of the same key, or after the others
/// where no entry has its key.
fn put_field(entries: &mut Vec<TableField>, entry: TableField)
    ensures
        field_models(final(entries)@) == put_entry(field_models(old(entries)@), entry@),
{
    let ghost before = entries@;
    match find_field(entries, entry.key.as_str()) {
        Some(j) => {
            entries[j] = entry;
            assert(field_models(entries@) =~= field_models(before).update(j as int, entry@));
        },
        None => {
            entries.push(entry);
            assert(field_models(entries@) =~= field_models(before).push(entry@));
        },
    }
}

/// The table schema that `table` describes, with its default.
#[verifier::loop_isolation(false)]
pub fn parse_table(table: &Table) -> (r: Result<(TomlSchema, Option<Value>), ConstructionError>)
    ensures
        compiled_model(r) == crate::compiling::attach_default(table_spec(table@), table@),
    decreases table@, 1nat,
{
    let ghost parts = table_parts(table@);
    let mut min: u64 = 0;
    let mut max: u64 = u64::MAX;
    let mut extras: Vec<TableEntry> = Vec::new();
    let mut entries: Vec<TableField> = Vec::new();
    let n = table.len();
    let mut i: usize = 0;
    assert(extra_models(extras@) =~= Seq::<ExtraModel>::empty());
    assert(field_models(entries@) =~= Seq::<FieldModel>::empty());
    while i < n
        invariant
            i <= n,
            first_miss(parts) == first_miss_from(parts, i as int),
            assemble(parts, i as int) == (SchemaModel::Table {
                extras: extra_models(extras@),
                min,
                max,
                entries: field_models(entries@),
            }),
        decreases n - i,
    {
        let key = table.key_at(i);
        let value = table.value_at(i);
        assert(parts[i as int] == table_part(key@, value@));
        assert(decreases_to!(table@ => table@[i as int]));
        assert(decreases_to!(table@[i as int] => value@));
        if str_eq(key.as_str(), "type") || str_eq(key.as_str(), "default") {
        } else if str_eq(key.as_str(), "min") {
            match read_count_of(value, Field::Min) {
                Ok(count) => {
                    min = count;
                },
                Err(e) => {
                    return Err(e);
                },
            }
        } else if str_eq(key.as_str(), "max") {
            match read_count_of(value, Field::Max) {
                Ok(count) => {
                    max = count;
                },
                Err(e) => {
                    return Err(e);
                },
            }
        } else if str_eq(key.as_str(), "extras") {
            match parse_extras(value) {
                Ok(rules) => {
                    extras = rules;
                },
                Err(e) => {
                    return Err(e);
                },
            }
        } else {
            let name = strip_escape(key.as_str());
            match value {
                Value::Table(doc) => match TomlSchema::from_table(doc) {
                    Ok((schema, default)) => {
                        put_field(&mut entries, TableField { key: name, schema, default });
                    },
                    Err(e) => {
                        return Err(inside(Place::Entry { key: name }, e));
                    },
                },
                _ => {
                    return Err(
                        inside(
                            Place::Entry { key: name },
                            wrong_shape(Field::Schema, Shape::Table, value),
                        ),
                    );
                },
            }
        }
        i += 1;
    }
    let built = TomlSchema::Table { extras, min, max, entries };
    proof {
        lemma_model_parts(built);
    }
    with_declared_default(Ok(built), table)
}

} // verus!
