//! What it means to compile a schema document.
//!
//! [`compile_spec`] gives, for a document, the schema that it describes
//! together with the default that it declares, or the fault that stops the
//! compilation. Where several fields are at fault, the fault reported is
//! that of the field whose key comes first in the order of keys.

use crate::fault::{FaultModel, Field, PlaceModel, Shape};
use crate::matching::{field_index, first_miss};
use crate::pattern::regex_compiles;
use crate::schema::{ExtraModel, FieldModel, SchemaModel};
use crate::schema_type::{kind_of_name, SchemaType};
use crate::value::{lookup, Pairs, ValueModel};
use vstd::prelude::*;

verus! {

/// A compiled schema with the default that its document declares.
pub type Compiled = Result<(SchemaModel, Option<ValueModel>), FaultModel>;

/// The name of a table entry: its key in the schema document, without the
/// `$` that the key begins with, if it begins with one. A key that is a word
/// of the schema language is written with a `$` before it.
pub open spec fn strip_escape(key: Seq<char>) -> Seq<char> {
    if key.len() > 0 && key[0] == '$' {
        key.subrange(1, key.len() as int)
    } else {
        key
    }
}

/// Whether `key` is a word of the schema language in a table schema, and so
/// names no entry.
pub open spec fn is_reserved(key: Seq<char>) -> bool {
    key == "type"@ || key == "default"@ || key == "min"@ || key == "max"@ || key == "extras"@
}

/// The integer under `key`, or `absent` where the document lacks the key.
pub open spec fn integer_field(doc: Pairs, key: Seq<char>, field: Field, absent: i64) -> Result<
    i64,
    FaultModel,
> {
    match lookup(doc, key) {
        None => Ok(absent),
        Some(ValueModel::Integer(i)) => Ok(i),
        Some(other) => Err(FaultModel::WrongShape { field, expected: Shape::Integer, got: other }),
    }
}

/// The number under `key`, or `absent` where the document lacks the key.
pub open spec fn float_field(doc: Pairs, key: Seq<char>, field: Field, absent: u64) -> Result<
    u64,
    FaultModel,
> {
    match lookup(doc, key) {
        None => Ok(absent),
        Some(ValueModel::Float(bits)) => Ok(bits),
        Some(other) => Err(FaultModel::WrongShape { field, expected: Shape::Float, got: other }),
    }
}

/// The boolean under `key`, or `absent` where the document lacks the key.
pub open spec fn bool_field(doc: Pairs, key: Seq<char>, field: Field, absent: bool) -> Result<
    bool,
    FaultModel,
> {
    match lookup(doc, key) {
        None => Ok(absent),
        Some(ValueModel::Boolean(b)) => Ok(b),
        Some(other) => Err(FaultModel::WrongShape { field, expected: Shape::Boolean, got: other }),
    }
}

/// The count that `value` holds: an integer that is not negative.
pub open spec fn count_of(value: ValueModel, field: Field) -> Result<u64, FaultModel> {
    match value {
        ValueModel::Integer(i) if i >= 0 => Ok(i as u64),
        _ => Err(FaultModel::WrongShape { field, expected: Shape::Count, got: value }),
    }
}

/// The count under `key`, or `absent` where the document lacks the key.
pub open spec fn count_field(doc: Pairs, key: Seq<char>, field: Field, absent: u64) -> Result<
    u64,
    FaultModel,
> {
    match lookup(doc, key) {
        None => Ok(absent),
        Some(value) => count_of(value, field),
    }
}

/// `pattern`, where it compiles.
pub open spec fn pattern_outcome(pattern: Seq<char>) -> Result<Seq<char>, FaultModel> {
    if regex_compiles(pattern) {
        Ok(pattern)
    } else {
        Err(FaultModel::BadRegex { pattern })
    }
}

/// The string schema that `doc` describes: its pattern is `regex`, or `.*`,
/// which every string matches, where the document has no `regex`.
pub open spec fn string_spec(doc: Pairs) -> Result<SchemaModel, FaultModel> {
    match lookup(doc, "regex"@) {
        None => match pattern_outcome(".*"@) {
            Ok(pattern) => Ok(SchemaModel::String { pattern }),
            Err(e) => Err(e),
        },
        Some(ValueModel::String(p)) => match pattern_outcome(p) {
            Ok(pattern) => Ok(SchemaModel::String { pattern }),
            Err(e) => Err(e),
        },
        Some(other) => Err(
            FaultModel::WrongShape { field: Field::Regex, expected: Shape::String, got: other },
        ),
    }
}

/// The integer schema that `doc` describes: without bounds it accepts every
/// integer.
pub open spec fn int_spec(doc: Pairs) -> Result<SchemaModel, FaultModel> {
    match integer_field(doc, "max"@, Field::Max, i64::MAX) {
        Err(e) => Err(e),
        Ok(max) => match integer_field(doc, "min"@, Field::Min, i64::MIN) {
            Err(e) => Err(e),
            Ok(min) => Ok(SchemaModel::Integer { min, max }),
        },
    }
}

/// The float schema that `doc` describes: without bounds it accepts every
/// number, infinities included, and nothing that is not a number.
pub open spec fn float_spec(doc: Pairs) -> Result<SchemaModel, FaultModel> {
    match float_field(doc, "max"@, Field::Max, crate::float_order::POSITIVE_INFINITY) {
        Err(e) => Err(e),
        Ok(max) => match float_field(
            doc,
            "min"@,
            Field::Min,
            crate::float_order::NEGATIVE_INFINITY,
        ) {
            Err(e) => Err(e),
            Ok(min) => match bool_field(doc, "nan_ok"@, Field::NanOk, false) {
                Err(e) => Err(e),
                Ok(nan_ok) => Ok(SchemaModel::Float { min, max, nan_ok }),
            },
        },
    }
}

/// The exact schema that `doc` describes: it must have a `value`.
pub open spec fn exact_spec(doc: Pairs) -> Result<SchemaModel, FaultModel> {
    match lookup(doc, "value"@) {
        Some(value) => Ok(SchemaModel::Exact(value)),
        None => Err(FaultModel::Missing { field: Field::Value }),
    }
}

/// The schema that `doc` describes, and the default that it declares. A
/// document without `type` describes a table schema.
pub open spec fn compile_spec(doc: Pairs) -> Compiled
    decreases doc, 3nat,
{
    match lookup(doc, "type"@) {
        None => attach_default(table_spec(doc), doc),
        Some(ValueModel::String(name)) => match kind_of_name(name) {
            Some(kind) => attach_default(kind_spec(kind, doc), doc),
            None => Err(FaultModel::UnknownType { name }),
        },
        Some(other) => Err(
            FaultModel::WrongShape { field: Field::Type, expected: Shape::String, got: other },
        ),
    }
}

/// `schema` with the value that `doc` holds under `default`.
pub open spec fn attach_default(schema: Result<SchemaModel, FaultModel>, doc: Pairs) -> Compiled {
    match schema {
        Ok(s) => Ok((s, lookup(doc, "default"@))),
        Err(e) => Err(e),
    }
}

/// The schema of kind `kind` that `doc` describes.
pub open spec fn kind_spec(kind: SchemaType, doc: Pairs) -> Result<SchemaModel, FaultModel>
    decreases doc, 2nat,
{
    match kind {
        SchemaType::String => string_spec(doc),
        SchemaType::Integer => int_spec(doc),
        SchemaType::Float => float_spec(doc),
        SchemaType::Bool => Ok(SchemaModel::Bool),
        SchemaType::Date => Ok(SchemaModel::Date),
        SchemaType::Anything => Ok(SchemaModel::Anything),
        SchemaType::Exact => exact_spec(doc),
        SchemaType::Array => array_spec(doc),
        SchemaType::Table => table_spec(doc),
        SchemaType::Alternative => alternative_spec(doc),
    }
}

/// The schema that stands as a table in `value`, a part of the schema around
/// it at `place`. A default that it declares is dropped.
pub open spec fn nested_spec(value: ValueModel, place: PlaceModel) -> Result<
    SchemaModel,
    FaultModel,
>
    decreases value, 0nat,
{
    match value {
        ValueModel::Table(doc) => match compile_spec(doc) {
            Ok((schema, _)) => Ok(schema),
            Err(e) => Err(FaultModel::Inside { place, error: Box::new(e) }),
        },
        _ => Err(
            FaultModel::Inside {
                place,
                error: Box::new(
                    FaultModel::WrongShape {
                        field: Field::Schema,
                        expected: Shape::Table,
                        got: value,
                    },
                ),
            },
        ),
    }
}

/// The array schema that `doc` describes: it must have a `child`, the schema
/// of its elements; without bounds it accepts arrays of every length.
pub open spec fn array_spec(doc: Pairs) -> Result<SchemaModel, FaultModel>
    decreases doc, 0nat,
{
    let child = match lookup(doc, "child"@) {
        None => Ok(None),
        Some(ValueModel::Table(t)) => match compile_spec(t) {
            Ok((schema, _)) => Ok(Some(schema)),
            Err(e) => Err(FaultModel::Inside { place: PlaceModel::Child, error: Box::new(e) }),
        },
        Some(other) => Err(
            FaultModel::WrongShape { field: Field::Child, expected: Shape::Table, got: other },
        ),
    };
    match child {
        Err(e) => Err(e),
        Ok(cond) => match count_field(doc, "max"@, Field::Max, u64::MAX) {
            Err(e) => Err(e),
            Ok(max) => match count_field(doc, "min"@, Field::Min, 0) {
                Err(e) => Err(e),
                Ok(min) => match cond {
                    Some(c) => Ok(SchemaModel::Array { cond: Box::new(c), min, max }),
                    None => Err(FaultModel::Missing { field: Field::Child }),
                },
            },
        },
    }
}

/// The schema that each of `items` describes as an option of an alternative.
pub open spec fn choice_outcomes(items: Seq<ValueModel>) -> Seq<Result<SchemaModel, FaultModel>>
    decreases items, 1nat,
{
    Seq::new(
        items.len(),
        |i: int|
            if 0 <= i < items.len() {
                nested_spec(items[i], PlaceModel::Choice { index: i as nat })
            } else {
                Ok(SchemaModel::Anything)
            },
    )
}

/// The alternative that `doc` describes: it must have `options`, an array
/// of schemas, which are its options in their order.
pub open spec fn alternative_spec(doc: Pairs) -> Result<SchemaModel, FaultModel>
    decreases doc, 0nat,
{
    match lookup(doc, "options"@) {
        None => Err(FaultModel::Missing { field: Field::Options }),
        Some(ValueModel::Array(items)) => {
            let outcomes = choice_outcomes(items);
            match first_miss(outcomes) {
                Some(i) => Err(outcomes[i]->Err_0),
                None => Ok(
                    SchemaModel::Alternative(Seq::new(items.len(), |i: int| outcomes[i]->Ok_0)),
                ),
            }
        },
        Some(other) => Err(
            FaultModel::WrongShape { field: Field::Options, expected: Shape::Array, got: other },
        ),
    }
}

/// The rule that the record `item` of `extras` describes: `key` is its
/// pattern and `schema` its schema. Every fault in it is reported at the place
/// of the record.
pub open spec fn extra_spec(item: ValueModel, index: nat) -> Result<ExtraModel, FaultModel>
    decreases item, 0nat,
{
    let place = PlaceModel::Extra { index };
    match item {
        ValueModel::Table(record) => {
            let key = match lookup(record, "key"@) {
                Some(ValueModel::String(p)) => pattern_outcome(p),
                Some(other) => Err(
                    FaultModel::WrongShape {
                        field: Field::ExtraKey,
                        expected: Shape::String,
                        got: other,
                    },
                ),
                None => Err(FaultModel::Missing { field: Field::ExtraKey }),
            };
            match key {
                Err(e) => Err(FaultModel::Inside { place, error: Box::new(e) }),
                Ok(pattern) => match lookup(record, "schema"@) {
                    Some(ValueModel::Table(t)) => match compile_spec(t) {
                        Ok((schema, _)) => Ok(ExtraModel { key: pattern, schema }),
                        Err(e) => Err(FaultModel::Inside { place, error: Box::new(e) }),
                    },
                    Some(other) => Err(
                        FaultModel::Inside {
                            place,
                            error: Box::new(
                                FaultModel::WrongShape {
                                    field: Field::ExtraSchema,
                                    expected: Shape::Table,
                                    got: other,
                                },
                            ),
                        },
                    ),
                    None => Err(
                        FaultModel::Inside {
                            place,
                            error: Box::new(FaultModel::Missing { field: Field::ExtraSchema }),
                        },
                    ),
                },
            }
        },
        _ => Err(
            FaultModel::Inside {
                place,
                error: Box::new(
                    FaultModel::WrongShape {
                        field: Field::Schema,
                        expected: Shape::Table,
                        got: item,
                    },
                ),
            },
        ),
    }
}

/// The rule that each of `items` describes as a record of `extras`.
pub open spec fn extra_outcomes(items: Seq<ValueModel>) -> Seq<Result<ExtraModel, FaultModel>>
    decreases items, 1nat,
{
    Seq::new(
        items.len(),
        |i: int|
            if 0 <= i < items.len() {
                extra_spec(items[i], i as nat)
            } else {
                Err(FaultModel::Missing { field: Field::Extras })
            },
    )
}

/// The rules that the value of `extras` describes, in their order.
pub open spec fn extras_spec(value: ValueModel) -> Result<Seq<ExtraModel>, FaultModel>
    decreases value, 1nat,
{
    match value {
        ValueModel::Array(items) => {
            let outcomes = extra_outcomes(items);
            match first_miss(outcomes) {
                Some(i) => Err(outcomes[i]->Err_0),
                None => Ok(Seq::new(items.len(), |i: int| outcomes[i]->Ok_0)),
            }
        },
        _ => Err(
            FaultModel::WrongShape { field: Field::Extras, expected: Shape::Array, got: value },
        ),
    }
}

/// What one pair of a table schema's document adds to the schema.
pub enum TablePart {
    /// Nothing: the kind and the default are read elsewhere.
    Nothing,
    /// The least number of pairs that the rules of `extras` accept.
    Min(u64),
    /// The greatest number of such pairs.
    Max(u64),
    /// The rules for the keys that no entry names.
    Extras(Seq<ExtraModel>),
    /// An entry.
    Entry(FieldModel),
}

/// What the pair of `key` and `value` adds to a table schema. A key that is
/// no word of the schema language names an entry, whose schema `value`
/// describes, with the default that `value` declares.
pub open spec fn table_part(key: Seq<char>, value: ValueModel) -> Result<TablePart, FaultModel>
    decreases value, 2nat,
{
    if key == "type"@ || key == "default"@ {
        Ok(TablePart::Nothing)
    } else if key == "min"@ {
        match count_of(value, Field::Min) {
            Ok(n) => Ok(TablePart::Min(n)),
            Err(e) => Err(e),
        }
    } else if key == "max"@ {
        match count_of(value, Field::Max) {
            Ok(n) => Ok(TablePart::Max(n)),
            Err(e) => Err(e),
        }
    } else if key == "extras"@ {
        match extras_spec(value) {
            Ok(extras) => Ok(TablePart::Extras(extras)),
            Err(e) => Err(e),
        }
    } else {
        let name = strip_escape(key);
        let place = PlaceModel::Entry { key: name };
        match value {
            ValueModel::Table(doc) => match compile_spec(doc) {
                Ok((schema, default)) => Ok(
                    TablePart::Entry(FieldModel { key: name, schema, default }),
                ),
                Err(e) => Err(FaultModel::Inside { place, error: Box::new(e) }),
            },
            _ => Err(
                FaultModel::Inside {
                    place,
                    error: Box::new(
                        FaultModel::WrongShape {
                            field: Field::Schema,
                            expected: Shape::Table,
                            got: value,
                        },
                    ),
                },
            ),
        }
    }
}

/// `entries` with `entry` in place of the entry of the same key, or after
/// the others where no entry has its key.
pub open spec fn put_entry(entries: Seq<FieldModel>, entry: FieldModel) -> Seq<FieldModel> {
    match field_index(entries, entry.key) {
        Some(j) => if 0 <= j < entries.len() {
            entries.update(j, entry)
        } else {
            entries
        },
        None => entries.push(entry),
    }
}

/// The table schema `schema` with `part` added.
pub open spec fn with_part(schema: SchemaModel, part: TablePart) -> SchemaModel {
    match schema {
        SchemaModel::Table { extras, min, max, entries } => match part {
            TablePart::Nothing => schema,
            TablePart::Min(n) => SchemaModel::Table { extras, min: n, max, entries },
            TablePart::Max(n) => SchemaModel::Table { extras, min, max: n, entries },
            TablePart::Extras(rules) => SchemaModel::Table { extras: rules, min, max, entries },
            TablePart::Entry(entry) => SchemaModel::Table {
                extras,
                min,
                max,
                entries: put_entry(entries, entry),
            },
        },
        _ => schema,
    }
}

/// The table schema made of the first `upto` of `parts`: it starts without
/// entries and rules, with bounds that accept every number of pairs.
pub open spec fn assemble(parts: Seq<Result<TablePart, FaultModel>>, upto: int) -> SchemaModel
    decreases upto,
{
    if upto <= 0 || upto > parts.len() {
        SchemaModel::Table { extras: Seq::empty(), min: 0, max: u64::MAX, entries: Seq::empty() }
    } else {
        match parts[upto - 1] {
            Ok(part) => with_part(assemble(parts, upto - 1), part),
            Err(_) => assemble(parts, upto - 1),
        }
    }
}

/// What each pair of `doc` adds to a table schema.
pub open spec fn table_parts(doc: Pairs) -> Seq<Result<TablePart, FaultModel>>
    decreases doc, 0nat,
{
    Seq::new(
        doc.len(),
        |i: int|
            if 0 <= i < doc.len() {
                table_part(doc[i].0, doc[i].1)
            } else {
                Ok(TablePart::Nothing)
            },
    )
}

/// The table schema that `doc` describes.
pub open spec fn table_spec(doc: Pairs) -> Result<SchemaModel, FaultModel>
    decreases doc, 1nat,
{
    let parts = table_parts(doc);
    match first_miss(parts) {
        Some(i) => Err(parts[i]->Err_0),
        None => Ok(assemble(parts, parts.len() as int)),
    }
}

} // verus!
