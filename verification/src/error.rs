//! Why a value does not match a schema.
//!
//! A [`SchemaError`] borrows what it shows from the schema and from the value
//! that were matched, and wraps the error of the part that failed, so that it
//! reads as a path from the root of the value to the failing leaf.

use crate::schema_type::SchemaType;
use crate::text::str_eq;
use crate::value::{Value, ValueModel};
use vstd::prelude::*;

verus! {

/// The failure of a match.
#[derive(Debug)]
#[allow(inconsistent_fields)]
pub enum SchemaError<'s, 'v> {
    /// The schema wants one kind of value and the value is of another.
    TypeMismatch { expected: SchemaType, got: SchemaType },
    /// The regular expression `re` finds no match in `string`.
    RegexMiss { string: &'v str, re: &'s str },
    /// The number `val` is not accepted by the bounds.
    FloatMiss { val: u64, min: u64, max: u64, nan_ok: bool },
    /// The integer `val` is outside the bounds.
    IntMiss { val: i64, min: i64, max: i64 },
    /// The array has `count` elements, outside the bounds.
    ArrayCount { count: usize, min: u64, max: u64 },
    /// The element `value`, the first that fails, fails with `error`.
    ArrayMiss { value: &'v Value, error: Box<SchemaError<'s, 'v>>},
    /// No entry names `key`, and no rule for the other keys accepts the pair:
    /// `errors` holds the error of each rule whose pattern matches `key`.
    TableMiss { key: &'v str, value: &'v Value, errors: Vec<SchemaError<'s, 'v>>},
    /// The value under `key` fails the entry of that key with `error`.
    AtKey { key: &'v String, error: Box<SchemaError<'s, 'v>>},
    /// The table lacks the entry `key`.
    KeyMiss { key: &'s str },
    /// `count` pairs were accepted by the rules for the other keys, outside
    /// the bounds.
    TableCount { count: usize, min: u64, max: u64 },
    /// No option accepts `val`: `errors` holds the error of each option, in
    /// the order of the options.
    AlternativeMiss { val: &'v Value, errors: Vec<SchemaError<'s, 'v>>},
}

/// The model of a [`SchemaError`].
#[allow(inconsistent_fields)]
pub enum MissModel {
    TypeMismatch { expected: SchemaType, got: SchemaType },
    RegexMiss { string: Seq<char>, re: Seq<char> },
    FloatMiss { val: u64, min: u64, max: u64, nan_ok: bool },
    IntMiss { val: i64, min: i64, max: i64 },
    ArrayCount { count: nat, min: u64, max: u64 },
    ArrayMiss { value: ValueModel, error: Box<MissModel> },
    TableMiss { key: Seq<char>, value: ValueModel, errors: Seq<MissModel> },
    AtKey { key: Seq<char>, error: Box<MissModel> },
    KeyMiss { key: Seq<char> },
    TableCount { count: nat, min: u64, max: u64 },
    AlternativeMiss { val: ValueModel, errors: Seq<MissModel> },
}

impl<'s, 'v> SchemaError<'s, 'v> {
    /// The model of this error.
    pub open spec fn model(&self) -> MissModel
        decreases self,
    {
        match self {
            SchemaError::TypeMismatch { expected, got } => MissModel::TypeMismatch {
                expected: *expected,
                got: *got,
            },
            SchemaError::RegexMiss { string, re } => MissModel::RegexMiss {
                string: string@,
                re: re@,
            },
            SchemaError::FloatMiss { val, min, max, nan_ok } => MissModel::FloatMiss {
                val: *val,
                min: *min,
                max: *max,
                nan_ok: *nan_ok,
            },
            SchemaError::IntMiss { val, min, max } => MissModel::IntMiss {
                val: *val,
                min: *min,
                max: *max,
            },
            SchemaError::ArrayCount { count, min, max } => MissModel::ArrayCount {
                count: *count as nat,
                min: *min,
                max: *max,
            },
            SchemaError::ArrayMiss { value, error } => MissModel::ArrayMiss {
                value: value@,
                error: Box::new(error.model()),
            },
            SchemaError::TableMiss { key, value, errors } => MissModel::TableMiss {
                key: key@,
                value: value@,
                errors: Seq::new(
                    errors.len() as nat,
                    |i: int|
                        if 0 <= i < errors.len() {
                            errors[i].model()
                        } else {
                            MissModel::KeyMiss { key: Seq::empty() }
                        },
                ),
            },
            SchemaError::AtKey { key, error } => MissModel::AtKey {
                key: key@,
                error: Box::new(error.model()),
            },
            SchemaError::KeyMiss { key } => MissModel::KeyMiss { key: key@ },
            SchemaError::TableCount { count, min, max } => MissModel::TableCount {
                count: *count as nat,
                min: *min,
                max: *max,
            },
            SchemaError::AlternativeMiss { val, errors } => MissModel::AlternativeMiss {
                val: val@,
                errors: Seq::new(
                    errors.len() as nat,
                    |i: int|
                        if 0 <= i < errors.len() {
                            errors[i].model()
                        } else {
                            MissModel::KeyMiss { key: Seq::empty() }
                        },
                ),
            },
        }
    }
}

impl<'s, 'v> Clone for SchemaError<'s, 'v> {
    #[verifier::loop_isolation(false)]
    fn clone(&self) -> (r: SchemaError<'s, 'v>)
        ensures
            r@ == self@,
        decreases self,
    {
        match self {
            SchemaError::TypeMismatch { expected, got } => SchemaError::TypeMismatch {
                expected: *expected,
                got: *got,
            },
            SchemaError::RegexMiss { string, re } => SchemaError::RegexMiss { string, re },
            SchemaError::FloatMiss { val, min, max, nan_ok } => SchemaError::FloatMiss {
                val: *val,
                min: *min,
                max: *max,
                nan_ok: *nan_ok,
            },
            SchemaError::IntMiss { val, min, max } => SchemaError::IntMiss {
                val: *val,
                min: *min,
                max: *max,
            },
            SchemaError::ArrayCount { count, min, max } => SchemaError::ArrayCount {
                count: *count,
                min: *min,
                max: *max,
            },
            SchemaError::ArrayMiss { value, error } => SchemaError::ArrayMiss {
                value,
                error: Box::new((**error).clone()),
            },
            SchemaError::TableMiss { key, value, errors } => {
                let copies = clone_errors(errors);
                let r = SchemaError::TableMiss { key, value, errors: copies };
                assert(r@->TableMiss_errors =~= miss_models(copies@));
                assert(self@->TableMiss_errors =~= miss_models(errors@));
                r
            },
            SchemaError::AtKey { key, error } => SchemaError::AtKey {
                key,
                error: Box::new((**error).clone()),
            },
            SchemaError::KeyMiss { key } => SchemaError::KeyMiss { key },
            SchemaError::TableCount { count, min, max } => SchemaError::TableCount {
                count: *count,
                min: *min,
                max: *max,
            },
            SchemaError::AlternativeMiss { val, errors } => {
                let copies = clone_errors(errors);
                let r = SchemaError::AlternativeMiss { val, errors: copies };
                assert(r@->AlternativeMiss_errors =~= miss_models(copies@));
                assert(self@->AlternativeMiss_errors =~= miss_models(errors@));
                r
            },
        }
    }
}

/// A copy of each of `errors`, in their order.
fn clone_errors<'s, 'v>(errors: &Vec<SchemaError<'s, 'v>>) -> (r: Vec<SchemaError<'s, 'v>>)
    ensures
        miss_models(r@) == miss_models(errors@),
    decreases errors,
{
    let mut copies: Vec<SchemaError<'s, 'v>> = Vec::new();
    let mut i: usize = 0;
    while i < errors.len()
        invariant
            i <= errors.len(),
            copies.len() == i,
            forall|j: int| 0 <= j < i ==> (#[trigger] copies[j])@ == errors[j]@,
        decreases errors.len() - i,
    {
        let copy = errors[i].clone();
        copies.push(copy);
        i += 1;
    }
    assert(miss_models(copies@) =~= miss_models(errors@));
    copies
}

/// Whether the errors of `a` and `b` are pairwise equal.
fn same_errors<'s, 'v>(a: &Vec<SchemaError<'s, 'v>>, b: &Vec<SchemaError<'s, 'v>>) -> (r: bool)
    ensures
        r == (miss_models(a@) == miss_models(b@)),
    decreases a,
{
    if a.len() != b.len() {
        assert(miss_models(a@).len() != miss_models(b@).len());
        return false;
    }
    let mut i: usize = 0;
    while i < a.len()
        invariant
            i <= a.len(),
            a.len() == b.len(),
            forall|j: int| 0 <= j < i ==> (#[trigger] a[j])@ == b[j]@,
        decreases a.len() - i,
    {
        if !a[i].same(&b[i]) {
            assert(miss_models(a@)[i as int] != miss_models(b@)[i as int]);
            return false;
        }
        i += 1;
    }
    assert(miss_models(a@) =~= miss_models(b@));
    true
}

impl<'s, 'v> SchemaError<'s, 'v> {
    /// Whether both errors say the same.
    pub fn same(&self, other: &SchemaError<'s, 'v>) -> (r: bool)
        ensures
            r == (self@ == other@),
        decreases self,
    {
        match (self, other) {
            (
                SchemaError::TypeMismatch { expected, got },
                SchemaError::TypeMismatch { expected: e2, got: g2 },
            ) => *expected == *e2 && *got == *g2,
            (
                SchemaError::RegexMiss { string, re },
                SchemaError::RegexMiss { string: s2, re: r2 },
            ) => str_eq(string, s2) && str_eq(re, r2),
            (
                SchemaError::FloatMiss { val, min, max, nan_ok },
                SchemaError::FloatMiss { val: v2, min: lo2, max: hi2, nan_ok: n2 },
            ) => *val == *v2 && *min == *lo2 && *max == *hi2 && *nan_ok == *n2,
            (
                SchemaError::IntMiss { val, min, max },
                SchemaError::IntMiss { val: v2, min: lo2, max: hi2 },
            ) => *val == *v2 && *min == *lo2 && *max == *hi2,
            (
                SchemaError::ArrayCount { count, min, max },
                SchemaError::ArrayCount { count: c2, min: lo2, max: hi2 },
            ) => *count == *c2 && *min == *lo2 && *max == *hi2,
            (
                SchemaError::ArrayMiss { value, error },
                SchemaError::ArrayMiss { value: v2, error: e2 },
            ) => value.same(v2) && error.same(e2),
            (
                SchemaError::TableMiss { key, value, errors },
                SchemaError::TableMiss { key: k2, value: v2, errors: e2 },
            ) => {
                let r = str_eq(key, k2) && value.same(v2) && same_errors(errors, e2);
                assert(self@->TableMiss_errors =~= miss_models(errors@));
                assert(other@->TableMiss_errors =~= miss_models(e2@));
                r
            },
            (SchemaError::AtKey { key, error }, SchemaError::AtKey { key: k2, error: e2 }) => {
                str_eq(key.as_str(), k2.as_str()) && error.same(e2)
            },
            (SchemaError::KeyMiss { key }, SchemaError::KeyMiss { key: k2 }) => str_eq(key, k2),
            (
                SchemaError::TableCount { count, min, max },
                SchemaError::TableCount { count: c2, min: lo2, max: hi2 },
            ) => *count == *c2 && *min == *lo2 && *max == *hi2,
            (
                SchemaError::AlternativeMiss { val, errors },
                SchemaError::AlternativeMiss { val: v2, errors: e2 },
            ) => {
                let r = val.same(v2) && same_errors(errors, e2);
                assert(self@->AlternativeMiss_errors =~= miss_models(errors@));
                assert(other@->AlternativeMiss_errors =~= miss_models(e2@));
                r
            },
            _ => false,
        }
    }
}

impl<'s, 'v> PartialEq for SchemaError<'s, 'v> {
    fn eq(&self, other: &SchemaError<'s, 'v>) -> (r: bool) {
        self.same(other)
    }
}

impl<'s, 'v> vstd::std_specs::cmp::PartialEqSpecImpl for SchemaError<'s, 'v> {
    open spec fn obeys_eq_spec() -> bool {
        true
    }

    open spec fn eq_spec(&self, other: &SchemaError<'s, 'v>) -> bool {
        self@ == other@
    }
}

impl<'s, 'v> View for SchemaError<'s, 'v> {
    type V = MissModel;

    open spec fn view(&self) -> MissModel {
        self.model()
    }
}

/// The models of the errors in `errors`, in their order.
pub open spec fn miss_models<'s, 'v>(errors: Seq<SchemaError<'s, 'v>>) -> Seq<MissModel> {
    Seq::new(errors.len(), |i: int| errors[i]@)
}

/// The outcome of a match as mathematics.
pub open spec fn outcome_model<'s, 'v>(r: Result<(), SchemaError<'s, 'v>>) -> Result<
    (),
    MissModel,
> {
    match r {
        Ok(()) => Ok(()),
        Err(e) => Err(e@),
    }
}

} // verus!
