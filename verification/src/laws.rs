//! What holds of compiling, matching and completing, whatever the schema and
//! the value.

use crate::compiling::{
    assemble, attach_default, compile_spec, put_entry, table_parts, table_spec, TablePart,
};
use crate::error::MissModel;
use crate::fault::FaultModel;
use crate::float_order::float_is_nan_spec;
use crate::matching::{
    check_spec, complete_from, complete_spec, element_outcomes, field_index, first_miss,
    first_miss_from, option_outcomes, pair_outcome, speaks_for_key, with_default,
};
use crate::schema::{ExtraModel, FieldModel, SchemaModel};
use crate::schema_type::kind_of_name;
use crate::text::key_lt;
use crate::value::{
    insert_pair, key_index, key_rank_from, keys_ascend, lemma_index_from, lemma_rank_from,
    lemma_rank_splits, lookup, Pairs, ValueModel,
};
use vstd::prelude::*;

verus! {

/// What `first_miss_from` finds: the first error from `from` on.
pub proof fn lemma_first_miss_from<T, E>(outcomes: Seq<Result<T, E>>, from: int)
    requires
        0 <= from <= outcomes.len(),
    ensures
        match first_miss_from(outcomes, from) {
            Some(i) => from <= i < outcomes.len() && outcomes[i] is Err && forall|j: int|
                from <= j < i ==> (#[trigger] outcomes[j]) is Ok,
            None => forall|j: int| from <= j < outcomes.len() ==> (#[trigger] outcomes[j]) is Ok,
        },
    decreases outcomes.len() - from,
{
    if from < outcomes.len() && outcomes[from] is Ok {
        lemma_first_miss_from(outcomes, from + 1);
    }
}

/// A document without `type` compiles as a table schema: where it compiles,
/// the schema is a table schema.
pub proof fn law_missing_type_is_table(doc: Pairs)
    requires
        lookup(doc, "type"@) is None,
    ensures
        compile_spec(doc) == attach_default(table_spec(doc), doc),
        compile_spec(doc) is Ok ==> compile_spec(doc)->Ok_0.0 is Table,
{
    let parts = table_parts(doc);
    lemma_assemble_distinct(parts, parts.len() as int);
}

/// A document whose `type` is a string that names no kind does not compile.
pub proof fn law_unknown_type_fails(doc: Pairs, name: Seq<char>)
    requires
        lookup(doc, "type"@) == Some(ValueModel::String(name)),
        kind_of_name(name) is None,
    ensures
        compile_spec(doc) == Err::<(SchemaModel, Option<ValueModel>), FaultModel>(
            FaultModel::UnknownType { name },
        ),
{
}

/// An integer schema accepts an integer exactly when it lies between the
/// bounds, ends included.
pub proof fn law_integer_bounds(min: i64, max: i64, v: i64)
    ensures
        check_spec(SchemaModel::Integer { min, max }, ValueModel::Integer(v)) is Ok <==> min <= v
            <= max,
        min <= max ==> check_spec(SchemaModel::Integer { min, max }, ValueModel::Integer(min))
            is Ok && check_spec(SchemaModel::Integer { min, max }, ValueModel::Integer(max)) is Ok,
{
}

/// What is not a number is accepted by a float schema exactly when the
/// schema allows it, whatever the bounds.
pub proof fn law_nan_ignores_bounds(min: u64, max: u64, nan_ok: bool, v: u64)
    requires
        float_is_nan_spec(v),
    ensures
        check_spec(SchemaModel::Float { min, max, nan_ok }, ValueModel::Float(v)) is Ok <==> nan_ok,
{
}

/// An array whose length is outside the bounds fails on its length, whatever
/// its elements.
pub proof fn law_array_count_first(cond: SchemaModel, min: u64, max: u64, items: Seq<ValueModel>)
    requires
        items.len() < min || items.len() > max,
    ensures
        check_spec(SchemaModel::Array { cond: Box::new(cond), min, max }, ValueModel::Array(items))
            == Err::<(), MissModel>(MissModel::ArrayCount { count: items.len(), min, max }),
{
}

/// An array whose length is within the bounds fails on the first element
/// that its element schema does not accept, with that element and its error.
pub proof fn law_array_first_element(
    cond: SchemaModel,
    min: u64,
    max: u64,
    items: Seq<ValueModel>,
    i: int,
)
    requires
        min <= items.len() <= max,
        0 <= i < items.len(),
        check_spec(cond, items[i]) is Err,
        forall|j: int| 0 <= j < i ==> check_spec(cond, #[trigger] items[j]) is Ok,
    ensures
        check_spec(SchemaModel::Array { cond: Box::new(cond), min, max }, ValueModel::Array(items))
            == Err::<(), MissModel>(
            MissModel::ArrayMiss {
                value: items[i],
                error: Box::new(check_spec(cond, items[i])->Err_0),
            },
        ),
{
    let outcomes = element_outcomes(cond, items);
    lemma_first_miss_from(outcomes, 0);
    assert(outcomes[i] is Err);
    match first_miss(outcomes) {
        Some(k) => {
            if k < i {
                assert(check_spec(cond, items[k]) is Ok);
            }
        },
        None => {},
    }
}

/// An array whose length is within the bounds and whose elements are all
/// accepted is accepted.
pub proof fn law_array_accepts(cond: SchemaModel, min: u64, max: u64, items: Seq<ValueModel>)
    requires
        min <= items.len() <= max,
        forall|j: int| 0 <= j < items.len() ==> check_spec(cond, #[trigger] items[j]) is Ok,
    ensures
        check_spec(SchemaModel::Array { cond: Box::new(cond), min, max }, ValueModel::Array(items))
            is Ok,
{
    let outcomes = element_outcomes(cond, items);
    lemma_first_miss_from(outcomes, 0);
    match first_miss(outcomes) {
        Some(k) => {
            assert(check_spec(cond, items[k]) is Ok);
        },
        None => {},
    }
}

/// Where an entry of a table schema has the key of a pair, the entry alone
/// decides on the pair, whatever the rules for the other keys say: the pair
/// is accepted exactly when the entry's schema accepts the value, and it
/// never counts among the pairs of those rules.
pub proof fn law_entry_before_extras(
    extras: Seq<ExtraModel>,
    min: u64,
    max: u64,
    entries: Seq<FieldModel>,
    key: Seq<char>,
    value: ValueModel,
)
    requires
        field_index(entries, key) is Some,
    ensures
        ({
            let j = field_index(entries, key)->Some_0;
            let outcome = pair_outcome(
                SchemaModel::Table { extras, min, max, entries },
                key,
                value,
            );
            &&& 0 <= j < entries.len() && entries[j].key == key
            &&& outcome != Ok::<bool, MissModel>(true)
            &&& outcome is Ok <==> check_spec(entries[j].schema, value) is Ok
            &&& outcome is Err ==> outcome->Err_0 == MissModel::AtKey {
                key,
                error: Box::new(check_spec(entries[j].schema, value)->Err_0),
            }
        }),
{
    lemma_field_index_from(entries, key, 0);
}

/// What `field_index_from` finds: the first entry from `from` on with the key.
pub proof fn lemma_field_index_from(entries: Seq<FieldModel>, key: Seq<char>, from: int)
    requires
        0 <= from <= entries.len(),
    ensures
        match crate::matching::field_index_from(entries, key, from) {
            Some(i) => from <= i < entries.len() && entries[i].key == key && forall|j: int|
                from <= j < i ==> (#[trigger] entries[j]).key != key,
            None => forall|j: int| from <= j < entries.len() ==> (#[trigger] entries[j]).key != key,
        },
    decreases entries.len() - from,
{
    if from < entries.len() && entries[from].key != key {
        lemma_field_index_from(entries, key, from + 1);
    }
}

/// An alternative accepts a value exactly when one of its options does.
/// Where none does, the error holds the error of each option, in the order
/// of the options.
pub proof fn law_alternative(options: Seq<SchemaModel>, value: ValueModel)
    ensures
        check_spec(SchemaModel::Alternative(options), value) is Ok <==> exists|i: int|
            0 <= i < options.len() && check_spec(#[trigger] options[i], value) is Ok,
        check_spec(SchemaModel::Alternative(options), value) is Err ==> ({
            let error = check_spec(SchemaModel::Alternative(options), value)->Err_0;
            &&& error is AlternativeMiss
            &&& error->AlternativeMiss_val == value
            &&& error->AlternativeMiss_errors.len() == options.len()
            &&& forall|i: int|
                0 <= i < options.len() ==> check_spec(options[i], value) == Err::<(), MissModel>(
                    #[trigger] error->AlternativeMiss_errors[i],
                )
        }),
{
    let outcomes = option_outcomes(options, value);
    if check_spec(SchemaModel::Alternative(options), value) is Ok {
        let i = choose|i: int| 0 <= i < outcomes.len() && (#[trigger] outcomes[i]) is Ok;
        assert(check_spec(options[i], value) is Ok);
    } else {
        assert forall|i: int| 0 <= i < options.len() implies !(check_spec(
            #[trigger] options[i],
            value,
        ) is Ok) by {
            assert(outcomes[i] == check_spec(options[i], value));
        }
        let error = check_spec(SchemaModel::Alternative(options), value)->Err_0;
        assert forall|i: int| 0 <= i < options.len() implies check_spec(options[i], value) == Err::<
            (),
            MissModel,
        >(#[trigger] error->AlternativeMiss_errors[i]) by {
            assert(outcomes[i] == check_spec(options[i], value));
        }
    }
}

/// The first pair with a key is the one that `key_index` finds.
pub proof fn lemma_key_index_is(pairs: Pairs, key: Seq<char>, i: int)
    requires
        0 <= i < pairs.len(),
        pairs[i].0 == key,
        forall|j: int| 0 <= j < i ==> (#[trigger] pairs[j]).0 != key,
    ensures
        key_index(pairs, key) == Some(i),
{
    lemma_index_from(pairs, key, 0);
}

/// Putting a value under a key that the pairs lack adds that pair and leaves
/// every other key with the value it had.
pub proof fn lemma_insert_absent(pairs: Pairs, key: Seq<char>, value: ValueModel, other: Seq<char>)
    requires
        lookup(pairs, key) is None,
    ensures
        lookup(insert_pair(pairs, key, value), other) == if other == key {
            Some(value)
        } else {
            lookup(pairs, other)
        },
{
    let at = key_rank_from(pairs, key, 0);
    lemma_rank_from(pairs, key, 0);
    lemma_index_from(pairs, key, 0);
    let after = pairs.insert(at, (key, value));
    assert(insert_pair(pairs, key, value) == after);
    if other == key {
        assert forall|j: int| 0 <= j < at implies (#[trigger] after[j]).0 != key by {
            assert(after[j] == pairs[j]);
        }
        lemma_key_index_is(after, key, at);
    } else {
        lemma_index_from(pairs, other, 0);
        lemma_index_from(after, other, 0);
        match key_index(pairs, other) {
            Some(i) => {
                let moved = if i < at {
                    i
                } else {
                    i + 1
                };
                assert(after[moved] == pairs[i]);
                assert forall|j: int| 0 <= j < moved implies (#[trigger] after[j]).0 != other by {
                    if j < at {
                        assert(after[j] == pairs[j]);
                    } else if j > at {
                        assert(after[j] == pairs[j - 1]);
                    }
                }
                lemma_key_index_is(after, other, moved);
            },
            None => {
                assert forall|j: int| 0 <= j < after.len() implies (#[trigger] after[j]).0
                    != other by {
                    if j < at {
                        assert(after[j] == pairs[j]);
                    } else if j > at {
                        assert(after[j] == pairs[j - 1]);
                    }
                }
            },
        }
    }
}

/// Completion leaves every key that the pairs hold with the value it had.
pub proof fn lemma_complete_keeps(entries: Seq<FieldModel>, pairs: Pairs, from: int, key: Seq<char>)
    requires
        0 <= from <= entries.len(),
        lookup(pairs, key) is Some,
    ensures
        lookup(complete_from(entries, pairs, from), key) == lookup(pairs, key),
    decreases entries.len() - from,
{
    if from < entries.len() {
        let next = with_default(entries, from, pairs);
        if next != pairs {
            lemma_insert_absent(pairs, entries[from].key, entries[from].default->Some_0, key);
        }
        lemma_complete_keeps(entries, next, from + 1, key);
    }
}

/// After completion the pairs hold the key of every entry that speaks for
/// its key and has a default.
pub proof fn lemma_complete_fills(entries: Seq<FieldModel>, pairs: Pairs, from: int, j: int)
    requires
        0 <= from <= j < entries.len(),
        entries[j].default is Some,
        speaks_for_key(entries, j),
    ensures
        lookup(complete_from(entries, pairs, from), entries[j].key) is Some,
    decreases entries.len() - from,
{
    let next = with_default(entries, from, pairs);
    if from == j {
        if lookup(pairs, entries[j].key) is None {
            lemma_insert_absent(pairs, entries[j].key, entries[j].default->Some_0, entries[j].key);
        }
        lemma_complete_keeps(entries, next, from + 1, entries[j].key);
    } else {
        lemma_complete_fills(entries, next, from + 1, j);
    }
}

/// Pairs that hold the key of every entry that speaks for its key and has a
/// default are complete.
pub proof fn lemma_complete_is_done(entries: Seq<FieldModel>, pairs: Pairs, from: int)
    requires
        0 <= from <= entries.len(),
        forall|j: int|
            0 <= j < entries.len() && (#[trigger] entries[j]).default is Some && speaks_for_key(
                entries,
                j,
            ) ==> lookup(pairs, entries[j].key) is Some,
    ensures
        complete_from(entries, pairs, from) == pairs,
    decreases entries.len() - from,
{
    if from < entries.len() {
        lemma_complete_is_done(entries, pairs, from + 1);
    }
}

/// Completion never changes what the table holds: a key that the table has
/// keeps its value.
pub proof fn law_completion_keeps_present(
    extras: Seq<ExtraModel>,
    min: u64,
    max: u64,
    entries: Seq<FieldModel>,
    pairs: Pairs,
    key: Seq<char>,
)
    requires
        lookup(pairs, key) is Some,
    ensures
        complete_spec(SchemaModel::Table { extras, min, max, entries }, ValueModel::Table(pairs))
            is Table,
        lookup(
            complete_spec(
                SchemaModel::Table { extras, min, max, entries },
                ValueModel::Table(pairs),
            )->Table_0,
            key,
        ) == lookup(pairs, key),
{
    lemma_complete_keeps(entries, pairs, 0, key);
}

/// Completion puts the default of an entry under its key where the table
/// lacks the key, and the pair is then matched by that entry: the outcome
/// for it is that of the default against the entry's schema.
pub proof fn law_completion_inserts_default(
    extras: Seq<ExtraModel>,
    min: u64,
    max: u64,
    entries: Seq<FieldModel>,
    pairs: Pairs,
    j: int,
)
    requires
        0 <= j < entries.len(),
        field_index(entries, entries[j].key) == Some(j),
        entries[j].default is Some,
        lookup(pairs, entries[j].key) is None,
    ensures
        ({
            let schema = SchemaModel::Table { extras, min, max, entries };
            let done = complete_spec(schema, ValueModel::Table(pairs))->Table_0;
            let default = entries[j].default->Some_0;
            &&& lookup(done, entries[j].key) == Some(default)
            &&& pair_outcome(schema, entries[j].key, default) is Ok <==> check_spec(
                entries[j].schema,
                default,
            ) is Ok
        }),
{
    lemma_field_index_from(entries, entries[j].key, 0);
    lemma_inserts_first_default(entries, pairs, 0, j);
}

/// The entry that speaks for its key, has a default and finds its key absent
/// puts that default there.
proof fn lemma_inserts_first_default(entries: Seq<FieldModel>, pairs: Pairs, from: int, j: int)
    requires
        0 <= from <= j < entries.len(),
        speaks_for_key(entries, j),
        forall|i: int| from <= i < j ==> (#[trigger] entries[i]).key != entries[j].key,
        entries[j].default is Some,
        lookup(pairs, entries[j].key) is None,
    ensures
        lookup(complete_from(entries, pairs, from), entries[j].key) == entries[j].default,
    decreases entries.len() - from,
{
    let key = entries[j].key;
    let next = with_default(entries, from, pairs);
    if from == j {
        lemma_insert_absent(pairs, key, entries[j].default->Some_0, key);
        lemma_complete_keeps(entries, next, from + 1, key);
    } else {
        if next != pairs {
            lemma_insert_absent(pairs, entries[from].key, entries[from].default->Some_0, key);
        }
        lemma_inserts_first_default(entries, next, from + 1, j);
    }
}

/// A key that completion from `from` on adds holds the default of the entry
/// that speaks for it.
proof fn lemma_complete_adds(entries: Seq<FieldModel>, pairs: Pairs, from: int, key: Seq<char>)
    requires
        0 <= from <= entries.len(),
        lookup(pairs, key) is None,
        lookup(complete_from(entries, pairs, from), key) is Some,
    ensures
        field_index(entries, key) is Some,
        speaks_for_key(entries, field_index(entries, key)->Some_0),
        entries[field_index(entries, key)->Some_0].default == lookup(
            complete_from(entries, pairs, from),
            key,
        ),
    decreases entries.len() - from,
{
    if from < entries.len() {
        let next = with_default(entries, from, pairs);
        if next != pairs {
            lemma_insert_absent(pairs, entries[from].key, entries[from].default->Some_0, key);
            if key == entries[from].key {
                lemma_complete_keeps(entries, next, from + 1, key);
            } else {
                lemma_complete_adds(entries, next, from + 1, key);
            }
        } else {
            lemma_complete_adds(entries, next, from + 1, key);
        }
    }
}

/// Completion adds nothing but defaults: a key that the completed table
/// holds and the table lacked has an entry, and holds the default of the
/// entry that speaks for it.
pub proof fn law_completion_adds_only_defaults(
    extras: Seq<ExtraModel>,
    min: u64,
    max: u64,
    entries: Seq<FieldModel>,
    pairs: Pairs,
    key: Seq<char>,
)
    requires
        lookup(pairs, key) is None,
        lookup(
            complete_spec(
                SchemaModel::Table { extras, min, max, entries },
                ValueModel::Table(pairs),
            )->Table_0,
            key,
        ) is Some,
    ensures
        field_index(entries, key) is Some,
        entries[field_index(entries, key)->Some_0].key == key,
        entries[field_index(entries, key)->Some_0].default == lookup(
            complete_spec(
                SchemaModel::Table { extras, min, max, entries },
                ValueModel::Table(pairs),
            )->Table_0,
            key,
        ),
{
    lemma_complete_adds(entries, pairs, 0, key);
    lemma_field_index_from(entries, key, 0);
}

/// Completing a value twice gives what completing it once gives, and so the
/// same outcome of the match.
pub proof fn law_completion_idempotent(schema: SchemaModel, value: ValueModel)
    ensures
        complete_spec(schema, complete_spec(schema, value)) == complete_spec(schema, value),
        check_spec(schema, complete_spec(schema, complete_spec(schema, value))) == check_spec(
            schema,
            complete_spec(schema, value),
        ),
{
    match schema {
        SchemaModel::Table { entries, .. } => match value {
            ValueModel::Table(pairs) => {
                let done = complete_from(entries, pairs, 0);
                assert forall|j: int|
                    0 <= j < entries.len() && (#[trigger] entries[j]).default is Some
                        && speaks_for_key(entries, j) implies lookup(done, entries[j].key)
                    is Some by {
                    lemma_complete_fills(entries, pairs, 0, j);
                }
                lemma_complete_is_done(entries, done, 0);
            },
            _ => {},
        },
        _ => {},
    }
}

/// A table is a map: after a value is put under a key, the key holds that
/// value and every other key holds what it held. The keys still ascend, and
/// the table has grown by one pair exactly when it lacked the key.
pub proof fn law_insert_is_map_update(
    pairs: Pairs,
    key: Seq<char>,
    value: ValueModel,
    other: Seq<char>,
)
    requires
        keys_ascend(pairs),
    ensures
        keys_ascend(insert_pair(pairs, key, value)),
        lookup(insert_pair(pairs, key, value), other) == if other == key {
            Some(value)
        } else {
            lookup(pairs, other)
        },
        insert_pair(pairs, key, value).len() == if lookup(pairs, key) is Some {
            pairs.len()
        } else {
            pairs.len() + 1
        },
{
    let at = key_rank_from(pairs, key, 0);
    let after = insert_pair(pairs, key, value);
    lemma_rank_splits(pairs, key);
    let replaced = at < pairs.len() && pairs[at].0 == key;
    assert forall|i: int, j: int| 0 <= i < j < after.len() implies key_lt(
        #[trigger] after[i].0,
        #[trigger] after[j].0,
    ) by {
        let from_i = if replaced || i < at {
            i
        } else {
            i - 1
        };
        let from_j = if replaced || j < at {
            j
        } else {
            j - 1
        };
        if i != at && j != at {
            assert(after[i] == pairs[from_i]);
            assert(after[j] == pairs[from_j]);
            assert(key_lt(pairs[from_i].0, pairs[from_j].0));
        } else if i == at {
            assert(after[j] == pairs[from_j]);
        } else {
            assert(after[i] == pairs[from_i]);
        }
    }
    if replaced {
        lemma_index_from(pairs, other, 0);
        lemma_index_from(after, other, 0);
        match key_index(pairs, other) {
            Some(i) => {
                assert(after[i].0 == other);
                assert forall|j: int| 0 <= j < i implies (#[trigger] after[j]).0 != other by {
                    assert(after[j].0 == pairs[j].0);
                }
                lemma_key_index_is(after, other, i);
            },
            None => {
                assert forall|j: int| 0 <= j < after.len() implies (#[trigger] after[j]).0
                    != other by {
                    assert(after[j].0 == pairs[j].0);
                }
            },
        }
    } else {
        lemma_insert_absent(pairs, key, value, other);
    }
}

/// Completion keeps the keys in order.
pub proof fn law_completion_keeps_order(entries: Seq<FieldModel>, pairs: Pairs, from: int)
    requires
        keys_ascend(pairs),
        0 <= from <= entries.len(),
    ensures
        keys_ascend(complete_from(entries, pairs, from)),
    decreases entries.len() - from,
{
    if from < entries.len() {
        let next = with_default(entries, from, pairs);
        if next != pairs {
            law_insert_is_map_update(
                pairs,
                entries[from].key,
                entries[from].default->Some_0,
                entries[from].key,
            );
        }
        law_completion_keeps_order(entries, next, from + 1);
    }
}

/// Whether no two of `entries` have the same key.
pub open spec fn distinct_keys(entries: Seq<FieldModel>) -> bool {
    forall|i: int, j: int|
        0 <= i < j < entries.len() ==> (#[trigger] entries[i]).key != (#[trigger] entries[j]).key
}

/// A table schema put together from parts names each entry once.
pub proof fn lemma_assemble_distinct(parts: Seq<Result<TablePart, FaultModel>>, upto: int)
    ensures
        assemble(parts, upto) is Table,
        distinct_keys(assemble(parts, upto)->Table_entries),
    decreases upto,
{
    if 0 < upto <= parts.len() {
        lemma_assemble_distinct(parts, upto - 1);
        let before = assemble(parts, upto - 1)->Table_entries;
        match parts[upto - 1] {
            Ok(TablePart::Entry(entry)) => {
                lemma_field_index_from(before, entry.key, 0);
                let after = put_entry(before, entry);
                assert forall|i: int, j: int| 0 <= i < j < after.len() implies (
                #[trigger] after[i]).key != (#[trigger] after[j]).key by {
                    match field_index(before, entry.key) {
                        Some(k) => {
                            assert(after[i].key == before[i].key);
                            assert(after[j].key == before[j].key);
                        },
                        None => {
                            assert(after[i] == before[i]);
                            if j < before.len() {
                                assert(after[j] == before[j]);
                            }
                        },
                    }
                }
            },
            _ => {},
        }
    }
}

/// A compiled table schema names each entry once: its entries are a mapping
/// from keys to schemas.
pub proof fn law_compiled_entries_distinct(doc: Pairs)
    requires
        compile_spec(doc) is Ok,
        compile_spec(doc)->Ok_0.0 is Table,
    ensures
        distinct_keys(compile_spec(doc)->Ok_0.0->Table_entries),
{
    let parts = table_parts(doc);
    lemma_assemble_distinct(parts, parts.len() as int);
}

} // verus!
