//! Matching a value against a compiled schema.

use crate::error::{miss_models, outcome_model, MissModel, SchemaError};
use crate::float_order::float_in_range;
use crate::matching::{
    attempt_errors, check_spec, complete_from, complete_spec, count_extras, element_outcomes,
    extra_attempts, field_index, field_index_from, first_absent_from, first_miss,
    first_miss_from, option_outcomes, pair_outcomes, some_attempt_succeeds,
};
use crate::pattern::{regex_as_str, regex_is_match};
use crate::schema::{
    extra_models, field_models, lemma_model_parts, schema_models, TableEntry, TableField,
    TomlSchema,
};
use crate::schema_type::SchemaType;
use crate::text::str_eq;
use crate::value::Value;
use vstd::prelude::*;

verus! {

/// The place of the first of `entries` that has the key `key`.
pub fn find_field(entries: &Vec<TableField>, key: &str) -> (r: Option<usize>)
    ensures
        match r {
            Some(j) => j < entries.len() && field_index(field_models(entries@), key@) == Some(
                j as int,
            ),
            None => field_index(field_models(entries@), key@) is None,
        },
{
    let mut j: usize = 0;
    while j < entries.len()
        invariant
            j <= entries.len(),
            field_index(field_models(entries@), key@) == field_index_from(
                field_models(entries@),
                key@,
                j as int,
            ),
        decreases entries.len() - j,
    {
        if str_eq(entries[j].key.as_str(), key) {
            return Some(j);
        }
        j += 1;
    }
    None
}

impl TomlSchema {
    /// The outcome of a string against a string schema, given whether the
    /// regular expression of the schema finds a match in it: `string` is the
    /// string and `re` the source of the expression.
    pub fn string_outcome<'s, 'v>(matched: bool, string: &'v str, re: &'s str) -> (r: Result<
        (),
        SchemaError<'s, 'v>,
    >)
        ensures
            outcome_model(r) == if matched {
                Ok::<(), MissModel>(())
            } else {
                Err::<(), MissModel>(MissModel::RegexMiss { string: string@, re: re@ })
            },
    {
        if matched {
            Ok(())
        } else {
            Err(SchemaError::RegexMiss { string, re })
        }
    }

    /// What the rule `extra` says of the value of a pair, given whether its
    /// pattern matches the key of the pair: nothing where it does not, else
    /// the outcome of the value against the schema of the rule.
    pub fn attempt<'s, 'v>(extra: &'s TableEntry, matched: bool, value: &'v Value) -> (r: Option<
        Result<(), SchemaError<'s, 'v>>,
    >)
        ensures
            match r {
                Some(outcome) => matched && outcome_model(outcome) == check_spec(
                    extra@.schema,
                    value@,
                ),
                None => !matched,
            },
        decreases extra, 0nat,
    {
        if matched {
            Some(extra.value.check(value))
        } else {
            None
        }
    }

    /// Asks the rules of `extras` for a pair that no entry names: the first
    /// rule whose pattern matches `key` and whose schema accepts `value`
    /// settles it. Where there is none, the errors of the rules whose pattern
    /// matches `key` come back.
    pub fn find_extra_match<'s, 'v>(
        extras: &'s Vec<TableEntry>,
        key: &'v String,
        value: &'v Value,
    ) -> (r: Result<(), Vec<SchemaError<'s, 'v>>>)
        ensures
            ({
                let attempts = extra_attempts(extra_models(extras@), key@, value@);
                match r {
                    Ok(()) => some_attempt_succeeds(attempts),
                    Err(errors) => !some_attempt_succeeds(attempts) && miss_models(errors@)
                        == attempt_errors(attempts, attempts.len() as int),
                }
            }),
        decreases extras, 1nat,
    {
        let ghost attempts = extra_attempts(extra_models(extras@), key@, value@);
        let mut errors: Vec<SchemaError<'s, 'v>> = Vec::new();
        let mut j: usize = 0;
        while j < extras.len()
            invariant
                j <= extras.len(),
                attempts == extra_attempts(extra_models(extras@), key@, value@),
                attempts.len() == extras.len(),
                forall|k: int| 0 <= k < j ==> attempts[k] != Some(Ok::<(), MissModel>(())),
                miss_models(errors@) == attempt_errors(attempts, j as int),
            decreases extras.len() - j,
        {
            let matched = regex_is_match(&extras[j].key, key.as_str());
            match Self::attempt(&extras[j], matched, value) {
                Some(Ok(())) => {
                    assert(attempts[j as int] == Some(Ok::<(), MissModel>(())));
                    return Ok(());
                },
                Some(Err(e)) => {
                    let ghost before = errors@;
                    errors.push(e);
                    assert(miss_models(errors@) =~= miss_models(before).push(e@));
                },
                None => {},
            }
            j += 1;
        }
        Err(errors)
    }

    /// Matches `data` against this schema without changing it. The error
    /// borrows from both.
    #[verifier::loop_isolation(false)]
    pub fn check<'s, 'v>(&'s self, data: &'v Value) -> (r: Result<(), SchemaError<'s, 'v>>)
        ensures
            outcome_model(r) == check_spec(self@, data@),
        decreases self, 3nat,
    {
        proof {
            lemma_model_parts(*self);
        }
        match self {
            TomlSchema::Anything => Ok(()),
            TomlSchema::Exact(literal) => {
                if data.same(literal) {
                    Ok(())
                } else {
                    Err(
                        SchemaError::TypeMismatch {
                            expected: SchemaType::Exact,
                            got: SchemaType::from(data),
                        },
                    )
                }
            },
            TomlSchema::Alternative(options) => {
                let ghost outcomes = option_outcomes(schema_models(options@), data@);
                let mut errors: Vec<SchemaError<'s, 'v>> = Vec::new();
                let mut i: usize = 0;
                while i < options.len()
                    invariant
                        i <= options.len(),
                        errors.len() == i,
                        forall|k: int| 0 <= k < i ==> outcomes[k] == Err::<(), MissModel>(errors[k]@),
                    decreases options.len() - i,
                {
                    match options[i].check(data) {
                        Ok(()) => {
                            assert(outcomes[i as int] is Ok);
                            return Ok(());
                        },
                        Err(e) => {
                            errors.push(e);
                        },
                    }
                    i += 1;
                }
                let r = Err(SchemaError::AlternativeMiss { val: data, errors });
                assert(r->Err_0@->AlternativeMiss_errors =~= Seq::new(
                    outcomes.len(),
                    |i: int| outcomes[i]->Err_0,
                ));
                r
            },
            TomlSchema::String { regex } => match data {
                Value::String(s) => Self::string_outcome(
                    regex_is_match(regex, s.as_str()),
                    s.as_str(),
                    regex_as_str(regex),
                ),
                _ => Err(self.kind_mismatch(data)),
            },
            TomlSchema::Integer { min, max } => match data {
                Value::Integer(i) => {
                    if *i >= *min && *i <= *max {
                        Ok(())
                    } else {
                        Err(SchemaError::IntMiss { val: *i, min: *min, max: *max })
                    }
                },
                _ => Err(self.kind_mismatch(data)),
            },
            TomlSchema::Float { min, max, nan_ok } => match data {
                Value::Float(bits) => {
                    if float_in_range(*bits, *min, *max, *nan_ok) {
                        Ok(())
                    } else {
                        Err(
                            SchemaError::FloatMiss {
                                val: *bits,
                                min: *min,
                                max: *max,
                                nan_ok: *nan_ok,
                            },
                        )
                    }
                },
                _ => Err(self.kind_mismatch(data)),
            },
            TomlSchema::Date => match data {
                Value::Datetime(_) => Ok(()),
                _ => Err(self.kind_mismatch(data)),
            },
            TomlSchema::Bool => match data {
                Value::Boolean(_) => Ok(()),
                _ => Err(self.kind_mismatch(data)),
            },
            TomlSchema::Array { cond, min, max } => match data {
                Value::Array(items) => {
                    let count = items.len();
                    if (count as u64) < *min || (count as u64) > *max {
                        return Err(SchemaError::ArrayCount { count, min: *min, max: *max });
                    }
                    let ghost outcomes = element_outcomes(cond@, data@->Array_0);
                    let mut i: usize = 0;
                    while i < items.len()
                        invariant
                            i <= items.len(),
                            first_miss(outcomes) == first_miss_from(outcomes, i as int),
                        decreases items.len() - i,
                    {
                        match cond.check(&items[i]) {
                            Ok(()) => {},
                            Err(e) => {
                                return Err(
                                    SchemaError::ArrayMiss { value: &items[i], error: Box::new(e) },
                                );
                            },
                        }
                        i += 1;
                    }
                    Ok(())
                },
                _ => Err(self.kind_mismatch(data)),
            },
            TomlSchema::Table { extras, min, max, entries } => match data {
                Value::Table(table) => {
                    let ghost outcomes = pair_outcomes(self@, table@);
                    let mut found_extras: usize = 0;
                    let n = table.len();
                    let mut i: usize = 0;
                    while i < n
                        invariant
                            i <= n,
                            found_extras <= i,
                            first_miss(outcomes) == first_miss_from(outcomes, i as int),
                            found_extras == count_extras(outcomes, i as int),
                        decreases n - i,
                    {
                        let key = table.key_at(i);
                        let value = table.value_at(i);
                        match find_field(entries, key.as_str()) {
                            Some(j) => {
                                match entries[j].schema.check(value) {
                                    Ok(()) => {},
                                    Err(e) => {
                                        return Err(SchemaError::AtKey { key, error: Box::new(e) });
                                    },
                                }
                            },
                            None => {
                                match Self::find_extra_match(extras, key, value) {
                                    Ok(()) => {
                                        found_extras += 1;
                                    },
                                    Err(errors) => {
                                        let r = Err(
                                            SchemaError::TableMiss {
                                                key: key.as_str(),
                                                value,
                                                errors,
                                            },
                                        );
                                        assert(r->Err_0@->TableMiss_errors =~= miss_models(errors@));
                                        return r;
                                    },
                                }
                            },
                        }
                        i += 1;
                    }
                    let mut j: usize = 0;
                    while j < entries.len()
                        invariant
                            j <= entries.len(),
                            first_absent_from(field_models(entries@), table@, 0)
                                == first_absent_from(field_models(entries@), table@, j as int),
                        decreases entries.len() - j,
                    {
                        if !table.contains_key(entries[j].key.as_str()) {
                            return Err(SchemaError::KeyMiss { key: entries[j].key.as_str() });
                        }
                        j += 1;
                    }
                    if found_extras as u64 >= *min && found_extras as u64 <= *max {
                        Ok(())
                    } else {
                        Err(SchemaError::TableCount { count: found_extras, min: *min, max: *max })
                    }
                },
                _ => Err(self.kind_mismatch(data)),
            },
        }
    }

    /// Puts the defaults of this schema into `data`: where this is a table
    /// schema and `data` a table, each key that the table lacks gets a copy
    /// of the default of the entry that speaks for it, if that entry has one.
    /// No pair that the table holds is changed or removed.
    pub fn complete(&self, data: &mut Value)
        ensures
            final(data)@ == complete_spec(self@, old(data)@),
    {
        proof {
            lemma_model_parts(*self);
        }
        match self {
            TomlSchema::Table { entries, .. } => match data {
                Value::Table(table) => {
                    let ghost models = field_models(entries@);
                    let ghost start = table@;
                    let mut j: usize = 0;
                    while j < entries.len()
                        invariant
                            j <= entries.len(),
                            models == field_models(entries@),
                            complete_from(models, start, 0) == complete_from(
                                models,
                                table@,
                                j as int,
                            ),
                        decreases entries.len() - j,
                    {
                        match &entries[j].default {
                            Some(d) => {
                                let speaks = match find_field(entries, entries[j].key.as_str()) {
                                    Some(first) => first == j,
                                    None => false,
                                };
                                if speaks && !table.contains_key(entries[j].key.as_str()) {
                                    table.insert(entries[j].key.clone(), d.clone());
                                }
                            },
                            None => {},
                        }
                        j += 1;
                    }
                },
                _ => {},
            },
            _ => {},
        }
    }

    /// Puts the defaults of this schema into `data`, as [`TomlSchema::complete`]
    /// does, and then matches `data` against this schema. The defaults stay
    /// in `data` whatever the outcome.
    pub fn check_and_complete<'s, 'v>(&'s self, data: &'v mut Value) -> (r: Result<
        (),
        SchemaError<'s, 'v>,
    >)
        ensures
            final(data)@ == complete_spec(self@, old(data)@),
            outcome_model(r) == check_spec(self@, final(data)@),
    {
        self.complete(data);
        self.check(data)
    }

    /// The error of a value whose kind is not the one that this schema wants.
    fn kind_mismatch<'s, 'v>(&'s self, data: &'v Value) -> (r: SchemaError<'s, 'v>)
        ensures
            r@ == crate::matching::kind_mismatch(self@, data@),
    {
        SchemaError::TypeMismatch {
            expected: SchemaType::from(self),
            got: SchemaType::from(data),
        }
    }
}

} // verus!
