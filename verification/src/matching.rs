//! What it means for a value to match a schema.
//!
//! [`check_spec`] gives the outcome of matching a value against a schema:
//! success, or the error that names the first part that fails. The functions
//! around it say how the parts of an array, of a table and of an alternative
//! are put together.

use crate::error::MissModel;
use crate::float_order::float_in_range_spec;
use crate::pattern::regex_matches;
use crate::schema::{ExtraModel, FieldModel, SchemaModel};
use crate::schema_type::{schema_kind, value_kind, SchemaType};
use crate::value::{insert_pair, lookup, Pairs, ValueModel};
use vstd::prelude::*;

verus! {

/// The index of the first outcome at or after `from` that is an error.
pub open spec fn first_miss_from<T, E>(outcomes: Seq<Result<T, E>>, from: int) -> Option<int>
    decreases outcomes.len() - from,
{
    if from < 0 || from >= outcomes.len() {
        None
    } else if outcomes[from] is Err {
        Some(from)
    } else {
        first_miss_from(outcomes, from + 1)
    }
}

/// The index of the first outcome that is an error.
pub open spec fn first_miss<T, E>(outcomes: Seq<Result<T, E>>) -> Option<int> {
    first_miss_from(outcomes, 0)
}

/// The index of the first entry at or after `from` that has the key `key`.
pub open spec fn field_index_from(entries: Seq<FieldModel>, key: Seq<char>, from: int) -> Option<
    int,
>
    decreases entries.len() - from,
{
    if from < 0 || from >= entries.len() {
        None
    } else if entries[from].key == key {
        Some(from)
    } else {
        field_index_from(entries, key, from + 1)
    }
}

/// The index of the entry that speaks for `key`: the first that has it.
pub open spec fn field_index(entries: Seq<FieldModel>, key: Seq<char>) -> Option<int> {
    field_index_from(entries, key, 0)
}

/// The index of the first entry at or after `from` whose key `pairs` lacks.
pub open spec fn first_absent_from(entries: Seq<FieldModel>, pairs: Pairs, from: int) -> Option<
    int,
>
    decreases entries.len() - from,
{
    if from < 0 || from >= entries.len() {
        None
    } else if lookup(pairs, entries[from].key) is None {
        Some(from)
    } else {
        first_absent_from(entries, pairs, from + 1)
    }
}

/// The number of outcomes among the first `upto` that are `Ok(true)`: the
/// pairs that a rule for the other keys accepted.
pub open spec fn count_extras(outcomes: Seq<Result<bool, MissModel>>, upto: int) -> nat
    decreases upto,
{
    if upto <= 0 || upto > outcomes.len() {
        0
    } else {
        count_extras(outcomes, upto - 1) + if outcomes[upto - 1] == Ok::<bool, MissModel>(true) {
            1nat
        } else {
            0nat
        }
    }
}

/// The errors among the first `upto` attempts, in their order. An attempt is
/// `None` where the rule's pattern does not match the key.
pub open spec fn attempt_errors(attempts: Seq<Option<Result<(), MissModel>>>, upto: int) -> Seq<
    MissModel,
>
    decreases upto,
{
    if upto <= 0 || upto > attempts.len() {
        Seq::empty()
    } else {
        match attempts[upto - 1] {
            Some(Err(e)) => attempt_errors(attempts, upto - 1).push(e),
            _ => attempt_errors(attempts, upto - 1),
        }
    }
}

/// Whether one of the attempts succeeded.
pub open spec fn some_attempt_succeeds(attempts: Seq<Option<Result<(), MissModel>>>) -> bool {
    exists|j: int| 0 <= j < attempts.len() && #[trigger] attempts[j] == Some(Ok::<(), MissModel>(()))
}

/// Whether one of the outcomes is a success.
pub open spec fn some_option_succeeds(outcomes: Seq<Result<(), MissModel>>) -> bool {
    exists|j: int| 0 <= j < outcomes.len() && (#[trigger] outcomes[j]) is Ok
}

/// The outcome of matching `value` against `schema`.
pub open spec fn check_spec(schema: SchemaModel, value: ValueModel) -> Result<(), MissModel>
    decreases schema, 3nat,
{
    match schema {
        SchemaModel::Anything => Ok(()),
        SchemaModel::Exact(literal) => if value == literal {
            Ok(())
        } else {
            Err(MissModel::TypeMismatch { expected: SchemaType::Exact, got: value_kind(value) })
        },
        SchemaModel::Alternative(options) => {
            let outcomes = option_outcomes(options, value);
            if some_option_succeeds(outcomes) {
                Ok(())
            } else {
                Err(
                    MissModel::AlternativeMiss {
                        val: value,
                        errors: Seq::new(outcomes.len(), |i: int| outcomes[i]->Err_0),
                    },
                )
            }
        },
        SchemaModel::String { pattern } => match value {
            ValueModel::String(s) => if regex_matches(pattern, s) {
                Ok(())
            } else {
                Err(MissModel::RegexMiss { string: s, re: pattern })
            },
            _ => Err(kind_mismatch(schema, value)),
        },
        SchemaModel::Integer { min, max } => match value {
            ValueModel::Integer(i) => if min <= i <= max {
                Ok(())
            } else {
                Err(MissModel::IntMiss { val: i, min, max })
            },
            _ => Err(kind_mismatch(schema, value)),
        },
        SchemaModel::Float { min, max, nan_ok } => match value {
            ValueModel::Float(bits) => if float_in_range_spec(bits, min, max, nan_ok) {
                Ok(())
            } else {
                Err(MissModel::FloatMiss { val: bits, min, max, nan_ok })
            },
            _ => Err(kind_mismatch(schema, value)),
        },
        SchemaModel::Date => match value {
            ValueModel::Datetime(_) => Ok(()),
            _ => Err(kind_mismatch(schema, value)),
        },
        SchemaModel::Bool => match value {
            ValueModel::Boolean(_) => Ok(()),
            _ => Err(kind_mismatch(schema, value)),
        },
        SchemaModel::Array { cond, min, max } => match value {
            ValueModel::Array(items) => if items.len() < min || items.len() > max {
                Err(MissModel::ArrayCount { count: items.len(), min, max })
            } else {
                let outcomes = element_outcomes(*cond, items);
                match first_miss(outcomes) {
                    Some(i) => Err(
                        MissModel::ArrayMiss { value: items[i], error: Box::new(outcomes[i]->Err_0) },
                    ),
                    None => Ok(()),
                }
            },
            _ => Err(kind_mismatch(schema, value)),
        },
        SchemaModel::Table { extras, min, max, entries } => match value {
            ValueModel::Table(pairs) => {
                let outcomes = pair_outcomes(schema, pairs);
                match first_miss(outcomes) {
                    Some(i) => Err(outcomes[i]->Err_0),
                    None => match first_absent_from(entries, pairs, 0) {
                        Some(j) => Err(MissModel::KeyMiss { key: entries[j].key }),
                        None => {
                            let count = count_extras(outcomes, outcomes.len() as int);
                            if min <= count <= max {
                                Ok(())
                            } else {
                                Err(MissModel::TableCount { count, min, max })
                            }
                        },
                    },
                }
            },
            _ => Err(kind_mismatch(schema, value)),
        },
    }
}

/// The error of a value whose kind is not the one that the schema wants.
pub open spec fn kind_mismatch(schema: SchemaModel, value: ValueModel) -> MissModel {
    MissModel::TypeMismatch { expected: schema_kind(schema), got: value_kind(value) }
}

/// The outcome of `value` against each of `options`.
pub open spec fn option_outcomes(options: Seq<SchemaModel>, value: ValueModel) -> Seq<
    Result<(), MissModel>,
>
    decreases options, 0nat,
{
    Seq::new(
        options.len(),
        |i: int|
            if 0 <= i < options.len() {
                check_spec(options[i], value)
            } else {
                Ok(())
            },
    )
}

/// The outcome of each of `items` against `cond`.
pub open spec fn element_outcomes(cond: SchemaModel, items: Seq<ValueModel>) -> Seq<
    Result<(), MissModel>,
>
    decreases cond, 4nat,
{
    Seq::new(items.len(), |i: int| check_spec(cond, items[i]))
}

/// For each rule of `extras`: nothing where its pattern does not match
/// `key`, else the outcome of `value` against its schema.
pub open spec fn extra_attempts(extras: Seq<ExtraModel>, key: Seq<char>, value: ValueModel) -> Seq<
    Option<Result<(), MissModel>>,
>
    decreases extras, 0nat,
{
    Seq::new(
        extras.len(),
        |j: int|
            if 0 <= j < extras.len() && regex_matches(extras[j].key, key) {
                Some(check_spec(extras[j].schema, value))
            } else {
                None
            },
    )
}

/// The outcome of one pair of a table against the table schema `schema`.
/// Where an entry has the key, the entry decides: the rules for the other
/// keys are not asked, and the pair does not count among theirs. Else the
/// pair must be accepted by a rule whose pattern matches the key, and counts:
/// `Ok(true)`.
pub open spec fn pair_outcome(schema: SchemaModel, key: Seq<char>, value: ValueModel) -> Result<
    bool,
    MissModel,
>
    decreases schema, 1nat,
{
    match schema {
        SchemaModel::Table { entries, extras, .. } => match field_index(entries, key) {
            Some(j) => if 0 <= j < entries.len() {
                match check_spec(entries[j].schema, value) {
                    Ok(()) => Ok(false),
                    Err(e) => Err(MissModel::AtKey { key, error: Box::new(e) }),
                }
            } else {
                Ok(false)
            },
            None => {
                let attempts = extra_attempts(extras, key, value);
                if some_attempt_succeeds(attempts) {
                    Ok(true)
                } else {
                    Err(
                        MissModel::TableMiss {
                            key,
                            value,
                            errors: attempt_errors(attempts, attempts.len() as int),
                        },
                    )
                }
            },
        },
        _ => Ok(false),
    }
}

/// The outcome of each of `pairs` against the table schema `schema`.
pub open spec fn pair_outcomes(schema: SchemaModel, pairs: Pairs) -> Seq<Result<bool, MissModel>>
    decreases schema, 2nat,
{
    Seq::new(pairs.len(), |i: int| pair_outcome(schema, pairs[i].0, pairs[i].1))
}

/// Whether the entry at `j` speaks for its key: no entry before it has the
/// same key.
pub open spec fn speaks_for_key(entries: Seq<FieldModel>, j: int) -> bool {
    0 <= j < entries.len() && field_index(entries, entries[j].key) == Some(j)
}

/// `pairs` with the default of the entry at `j` under its key, where the
/// entry speaks for its key, has a default, and `pairs` lacks the key; else
/// `pairs` as they are.
pub open spec fn with_default(entries: Seq<FieldModel>, j: int, pairs: Pairs) -> Pairs {
    match entries[j].default {
        Some(d) => if speaks_for_key(entries, j) && lookup(pairs, entries[j].key) is None {
            insert_pair(pairs, entries[j].key, d)
        } else {
            pairs
        },
        None => pairs,
    }
}

/// `pairs` after each entry from `from` on, in order, has put in its default.
pub open spec fn complete_from(entries: Seq<FieldModel>, pairs: Pairs, from: int) -> Pairs
    decreases entries.len() - from,
{
    if from < 0 || from >= entries.len() {
        pairs
    } else {
        complete_from(entries, with_default(entries, from, pairs), from + 1)
    }
}

/// `value` with the defaults of `schema` put in: where the schema is a table
/// schema and the value a table, each key that the table lacks gets the
/// default of the entry that speaks for it, if that entry has one. Tables
/// inside the table stay as they are, and so does every other value.
pub open spec fn complete_spec(schema: SchemaModel, value: ValueModel) -> ValueModel {
    match schema {
        SchemaModel::Table { entries, .. } => match value {
            ValueModel::Table(pairs) => ValueModel::Table(complete_from(entries, pairs, 0)),
            _ => value,
        },
        _ => value,
    }
}

} // verus!
