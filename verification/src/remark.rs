//! What a schema document says in vain.
//!
//! A key that the kind of a schema does not know is ignored, and a default
//! declared where no table entry can take it is dropped. Neither stops the
//! compilation. [`TomlSchema::warnings`] lists them, so that the caller can
//! tell the author of the document.

use crate::compiling::{is_reserved, strip_escape};
use crate::fault::{Place, PlaceModel};
use crate::schema::TomlSchema;
use crate::schema_type::{kind_of_name, SchemaType};
use crate::text::str_eq;
use crate::value::{lemma_lookup_decreases, lookup, Pairs, Table, Value, ValueModel};
use vstd::prelude::*;

verus! {

/// A remark on a schema document.
#[derive(Debug)]
pub enum Warning {
    /// A schema of kind `kind` knows no key `key`: the key is ignored.
    UnexpectedKey { kind: SchemaType, key: String },
    /// The schema at `place` declares a default that nothing can take: the
    /// default is dropped.
    UnusedDefault { place: Place },
    /// The record at `index` of `extras` holds `count` keys, more than its
    /// `key` and its `schema`: the others are ignored.
    UnusedKeys { index: usize, count: usize },
    /// The remark `warning` on the schema at `place`.
    Inside { place: Place, warning: Box<Warning> },
}

/// The model of a [`Warning`].
pub enum WarningModel {
    UnexpectedKey { kind: SchemaType, key: Seq<char> },
    UnusedDefault { place: PlaceModel },
    UnusedKeys { index: nat, count: nat },
    Inside { place: PlaceModel, warning: Box<WarningModel> },
}

impl Warning {
    /// The model of this remark.
    pub open spec fn model(&self) -> WarningModel
        decreases self,
    {
        match self {
            Warning::UnexpectedKey { kind, key } => WarningModel::UnexpectedKey {
                kind: *kind,
                key: key@,
            },
            Warning::UnusedDefault { place } => WarningModel::UnusedDefault { place: place@ },
            Warning::UnusedKeys { index, count } => WarningModel::UnusedKeys {
                index: *index as nat,
                count: *count as nat,
            },
            Warning::Inside { place, warning } => WarningModel::Inside {
                place: place@,
                warning: Box::new(warning.model()),
            },
        }
    }
}

impl View for Warning {
    type V = WarningModel;

    open spec fn view(&self) -> WarningModel {
        self.model()
    }
}

/// The models of `warnings`, in their order.
pub open spec fn warning_models(warnings: Seq<Warning>) -> Seq<WarningModel> {
    Seq::new(warnings.len(), |i: int| warnings[i]@)
}

/// Whether a schema of kind `kind` reads the key `key`. A table schema reads
/// every key: what is no word of the schema language names an entry.
pub open spec fn known_key(kind: SchemaType, key: Seq<char>) -> bool {
    key == "type"@ || key == "default"@ || match kind {
        SchemaType::String => key == "regex"@,
        SchemaType::Integer => key == "min"@ || key == "max"@,
        SchemaType::Float => key == "min"@ || key == "max"@ || key == "nan_ok"@,
        SchemaType::Bool => false,
        SchemaType::Date => false,
        SchemaType::Anything => false,
        SchemaType::Exact => key == "value"@,
        SchemaType::Array => key == "min"@ || key == "max"@ || key == "child"@,
        SchemaType::Alternative => key == "options"@,
        SchemaType::Table => true,
    }
}

/// The kind of schema that `doc` describes, where its `type` says one. A
/// document without `type` describes a table schema.
pub open spec fn declared_kind(doc: Pairs) -> Option<SchemaType> {
    match lookup(doc, "type"@) {
        None => Some(SchemaType::Table),
        Some(ValueModel::String(name)) => kind_of_name(name),
        Some(_) => None,
    }
}

/// The first `upto` of `parts`, one after the other.
pub open spec fn joined(parts: Seq<Seq<WarningModel>>, upto: int) -> Seq<WarningModel>
    decreases upto,
{
    if upto <= 0 || upto > parts.len() {
        Seq::empty()
    } else {
        joined(parts, upto - 1) + parts[upto - 1]
    }
}

/// Each of `warnings` as a remark on the schema at `place`.
pub open spec fn wrapped(place: PlaceModel, warnings: Seq<WarningModel>) -> Seq<WarningModel> {
    Seq::new(
        warnings.len(),
        |i: int| WarningModel::Inside { place, warning: Box::new(warnings[i]) },
    )
}

/// The remarks on the schema document `doc`, in the order of its keys. A
/// document whose `type` names no kind gets none.
pub open spec fn warnings_spec(doc: Pairs) -> Seq<WarningModel>
    decreases doc, 1nat,
{
    match declared_kind(doc) {
        Some(kind) => joined(pair_warnings_all(kind, doc), doc.len() as int),
        None => Seq::empty(),
    }
}

/// The remarks on each pair of `doc`, a schema document of kind `kind`.
pub open spec fn pair_warnings_all(kind: SchemaType, doc: Pairs) -> Seq<Seq<WarningModel>>
    decreases doc, 0nat,
{
    Seq::new(
        doc.len(),
        |i: int|
            if 0 <= i < doc.len() {
                pair_warnings(kind, doc[i].0, doc[i].1)
            } else {
                Seq::empty()
            },
    )
}

/// The remarks on the pair of `key` and `value` in a schema document of kind
/// `kind`: on the key where the kind does not know it, else on the schemas
/// that the value holds.
pub open spec fn pair_warnings(kind: SchemaType, key: Seq<char>, value: ValueModel) -> Seq<
    WarningModel,
>
    decreases value, 3nat,
{
    if !known_key(kind, key) {
        seq![WarningModel::UnexpectedKey { kind, key }]
    } else if kind == SchemaType::Array && key == "child"@ {
        nested_warnings(value, PlaceModel::Child, false)
    } else if kind == SchemaType::Alternative && key == "options"@ {
        match value {
            ValueModel::Array(items) => joined(choice_warnings(items), items.len() as int),
            _ => Seq::empty(),
        }
    } else if kind == SchemaType::Table && key == "extras"@ {
        match value {
            ValueModel::Array(items) => joined(extra_warnings_all(items), items.len() as int),
            _ => Seq::empty(),
        }
    } else if kind == SchemaType::Table && !is_reserved(key) {
        nested_warnings(value, PlaceModel::Entry { key: strip_escape(key) }, true)
    } else {
        Seq::empty()
    }
}

/// The remarks on each of `items` as an option of an alternative.
pub open spec fn choice_warnings(items: Seq<ValueModel>) -> Seq<Seq<WarningModel>>
    decreases items, 3nat,
{
    Seq::new(
        items.len(),
        |i: int|
            if 0 <= i < items.len() {
                nested_warnings(items[i], PlaceModel::Choice { index: i as nat }, false)
            } else {
                Seq::empty()
            },
    )
}

/// The remarks on each of `items` as a record of `extras`.
pub open spec fn extra_warnings_all(items: Seq<ValueModel>) -> Seq<Seq<WarningModel>>
    decreases items, 3nat,
{
    Seq::new(
        items.len(),
        |i: int|
            if 0 <= i < items.len() {
                extra_warnings(items[i], i as nat)
            } else {
                Seq::empty()
            },
    )
}

/// The remarks on the schema that stands in `value` at `place`: those on the
/// schema itself, and after them, where the schema declares a default that
/// its place cannot use, a remark on that.
pub open spec fn nested_warnings(value: ValueModel, place: PlaceModel, default_used: bool) -> Seq<
    WarningModel,
>
    decreases value, 2nat,
{
    match value {
        ValueModel::Table(doc) => wrapped(place, warnings_spec(doc)) + if !default_used && lookup(
            doc,
            "default"@,
        ) is Some {
            seq![WarningModel::UnusedDefault { place }]
        } else {
            Seq::empty()
        },
        _ => Seq::empty(),
    }
}

/// The remarks on the record `item` at `index` of `extras`: those on its
/// schema, and one more where the record holds more than two keys.
pub open spec fn extra_warnings(item: ValueModel, index: nat) -> Seq<WarningModel>
    decreases item, 1nat,
{
    match item {
        ValueModel::Table(record) => (match lookup(record, "schema"@) {
            Some(schema) => nested_warnings(schema, PlaceModel::Extra { index }, false),
            None => Seq::empty(),
        }) + if record.len() > 2 {
            seq![WarningModel::UnusedKeys { index, count: record.len() }]
        } else {
            Seq::empty()
        },
        _ => Seq::empty(),
    }
}

/// Whether a schema of kind `kind` reads the key `key`.
pub fn knows_key(kind: SchemaType, key: &str) -> (r: bool)
    ensures
        r == known_key(kind, key@),
{
    if str_eq(key, "type") || str_eq(key, "default") {
        return true;
    }
    match kind {
        SchemaType::String => str_eq(key, "regex"),
        SchemaType::Integer => str_eq(key, "min") || str_eq(key, "max"),
        SchemaType::Float => str_eq(key, "min") || str_eq(key, "max") || str_eq(key, "nan_ok"),
        SchemaType::Bool => false,
        SchemaType::Date => false,
        SchemaType::Anything => false,
        SchemaType::Exact => str_eq(key, "value"),
        SchemaType::Array => str_eq(key, "min") || str_eq(key, "max") || str_eq(key, "child"),
        SchemaType::Alternative => str_eq(key, "options"),
        SchemaType::Table => true,
    }
}

/// Whether `key` is a word of the schema language in a table schema.
pub fn reserved(key: &str) -> (r: bool)
    ensures
        r == is_reserved(key@),
{
    str_eq(key, "type") || str_eq(key, "default") || str_eq(key, "min") || str_eq(key, "max")
        || str_eq(key, "extras")
}

/// Moves `more` to the end of `out`.
fn add_all(out: &mut Vec<Warning>, more: Vec<Warning>)
    ensures
        warning_models(final(out)@) == warning_models(old(out)@) + warning_models(more@),
{
    let mut more = more;
    let ghost before = out@;
    let ghost added = more@;
    out.append(&mut more);
    assert(warning_models(out@) =~= warning_models(before) + warning_models(added));
}

/// Each of `warnings` as a remark on the schema at `place`.
fn wrap(place: &Place, warnings: Vec<Warning>) -> (r: Vec<Warning>)
    ensures
        warning_models(r@) == wrapped(place@, warning_models(warnings@)),
{
    let mut warnings = warnings;
    let ghost inner = warning_models(warnings@);
    let mut out: Vec<Warning> = Vec::new();
    let n = warnings.len();
    // taken from the end, and put back in order below
    let mut reversed: Vec<Warning> = Vec::new();
    while warnings.len() > 0
        invariant
            warnings.len() + reversed.len() == n,
            inner.len() == n,
            forall|j: int| 0 <= j < warnings.len() ==> (#[trigger] warnings[j])@ == inner[j],
            forall|j: int|
                0 <= j < reversed.len() ==> (#[trigger] reversed[j])@ == inner[n - 1 - j],
        decreases warnings.len(),
    {
        match warnings.pop() {
            Some(w) => {
                reversed.push(w);
            },
            None => {},
        }
    }
    while reversed.len() > 0
        invariant
            out.len() + reversed.len() == n,
            inner.len() == n,
            forall|j: int|
                0 <= j < reversed.len() ==> (#[trigger] reversed[j])@ == inner[n - 1 - j],
            forall|j: int|
                0 <= j < out.len() ==> (#[trigger] out[j])@ == (WarningModel::Inside {
                    place: place@,
                    warning: Box::new(inner[j]),
                }),
        decreases reversed.len(),
    {
        match reversed.pop() {
            Some(w) => {
                out.push(Warning::Inside { place: place.clone(), warning: Box::new(w) });
            },
            None => {},
        }
    }
    assert(warning_models(out@) =~= wrapped(place@, inner));
    out
}

/// The remarks on the schema that stands in `value` at `place`.
fn list_nested(value: &Value, place: Place, default_used: bool) -> (r: Vec<Warning>)
    ensures
        warning_models(r@) == nested_warnings(value@, place@, default_used),
    decreases value@, 2nat,
{
    match value {
        Value::Table(doc) => {
            let mut out = wrap(&place, TomlSchema::warnings(doc));
            if !default_used && doc.contains_key("default") {
                let ghost before = out@;
                out.push(Warning::UnusedDefault { place });
                assert(warning_models(out@) =~= warning_models(before) + seq![
                    WarningModel::UnusedDefault { place: place@ },
                ]);
            } else {
                assert(warning_models(out@) =~= warning_models(out@) + Seq::<WarningModel>::empty());
            }
            out
        },
        _ => {
            let out: Vec<Warning> = Vec::new();
            assert(warning_models(out@) =~= Seq::<WarningModel>::empty());
            out
        },
    }
}

/// The remarks on the record `item` at `index` of `extras`.
fn list_extra(item: &Value, index: usize) -> (r: Vec<Warning>)
    ensures
        warning_models(r@) == extra_warnings(item@, index as nat),
    decreases item@, 1nat,
{
    match item {
        Value::Table(record) => {
            proof {
                lemma_lookup_decreases(record@, "schema"@);
            }
            let mut out = match record.get("schema") {
                Some(schema) => list_nested(schema, Place::Extra { index }, false),
                None => {
                    let none: Vec<Warning> = Vec::new();
                    assert(warning_models(none@) =~= Seq::<WarningModel>::empty());
                    none
                },
            };
            let count = record.len();
            let ghost before = out@;
            if count > 2 {
                out.push(Warning::UnusedKeys { index, count });
                assert(warning_models(out@) =~= warning_models(before) + seq![
                    WarningModel::UnusedKeys { index: index as nat, count: count as nat },
                ]);
            } else {
                assert(warning_models(out@) =~= warning_models(before) + Seq::<
                    WarningModel,
                >::empty());
            }
            out
        },
        _ => {
            let out: Vec<Warning> = Vec::new();
            assert(warning_models(out@) =~= Seq::<WarningModel>::empty());
            out
        },
    }
}

/// The remarks on the pair of `key` and `value` in a schema document of kind
/// `kind`.
#[verifier::loop_isolation(false)]
fn list_pair(kind: SchemaType, key: &str, value: &Value) -> (r: Vec<Warning>)
    ensures
        warning_models(r@) == pair_warnings(kind, key@, value@),
    decreases value@, 3nat,
{
    let mut out: Vec<Warning> = Vec::new();
    assert(warning_models(out@) =~= Seq::<WarningModel>::empty());
    if !knows_key(kind, key) {
        out.push(Warning::UnexpectedKey { kind, key: key.to_owned() });
        assert(warning_models(out@) =~= seq![WarningModel::UnexpectedKey { kind, key: key@ }]);
        out
    } else if kind == SchemaType::Array && str_eq(key, "child") {
        list_nested(value, Place::Child, false)
    } else if kind == SchemaType::Alternative && str_eq(key, "options") {
        match value {
            Value::Array(items) => {
                let ghost models = value@->Array_0;
                let ghost parts = choice_warnings(models);
                let mut i: usize = 0;
                while i < items.len()
                    invariant
                        i <= items.len(),
                        warning_models(out@) == joined(parts, i as int),
                    decreases items.len() - i,
                {
                    assert(items[i as int]@ == models[i as int]);
                    add_all(&mut out, list_nested(&items[i], Place::Choice { index: i }, false));
                    i += 1;
                }
                out
            },
            _ => out,
        }
    } else if kind == SchemaType::Table && str_eq(key, "extras") {
        match value {
            Value::Array(items) => {
                let ghost models = value@->Array_0;
                let ghost parts = extra_warnings_all(models);
                let mut i: usize = 0;
                while i < items.len()
                    invariant
                        i <= items.len(),
                        warning_models(out@) == joined(parts, i as int),
                    decreases items.len() - i,
                {
                    assert(items[i as int]@ == models[i as int]);
                    add_all(&mut out, list_extra(&items[i], i));
                    i += 1;
                }
                out
            },
            _ => out,
        }
    } else if kind == SchemaType::Table && !reserved(key) {
        list_nested(value, Place::Entry { key: crate::constructor::strip_escape(key) }, true)
    } else {
        out
    }
}

impl TomlSchema {
    /// The remarks on the schema document `table`, in the order of its keys:
    /// what [`TomlSchema::from_table`] passes over in silence.
    #[verifier::loop_isolation(false)]
    pub fn warnings(table: &Table) -> (r: Vec<Warning>)
        ensures
            warning_models(r@) == warnings_spec(table@),
        decreases table@, 1nat,
    {
        let mut out: Vec<Warning> = Vec::new();
        assert(warning_models(out@) =~= Seq::<WarningModel>::empty());
        let kind = match table.get("type") {
            None => SchemaType::Table,
            Some(Value::String(name)) => match SchemaType::try_from(name.as_str()) {
                Ok(kind) => kind,
                Err(_) => {
                    return out;
                },
            },
            Some(_) => {
                return out;
            },
        };
        let ghost parts = pair_warnings_all(kind, table@);
        let n = table.len();
        let mut i: usize = 0;
        while i < n
            invariant
                i <= n,
                warning_models(out@) == joined(parts, i as int),
            decreases n - i,
        {
            let key = table.key_at(i);
            let value = table.value_at(i);
            assert(decreases_to!(table@ => table@[i as int]));
            assert(decreases_to!(table@[i as int] => value@));
            add_all(&mut out, list_pair(kind, key.as_str(), value));
            i += 1;
        }
        out
    }
}

} // verus!
