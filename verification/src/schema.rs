//! Compiled schemas.
//!
//! A [`TomlSchema`] is a tree: an array schema owns the schema of its
//! elements, a table schema those of its entries and extras, an alternative
//! those of its options. [`SchemaModel`] is the same tree as mathematics,
//! with each regular expression stood for by the pattern it was compiled from.

use crate::pattern::Pattern;
use crate::value::{Value, ValueModel};
use vstd::prelude::*;

verus! {

/// A rule for the table keys that no entry names: a key that `key` matches
/// must hold a value that `value` accepts.
#[derive(Debug)]
pub struct TableEntry {
    pub key: Pattern,
    pub value: TomlSchema,
}

/// An entry of a table schema: the table must hold `key`, with a value that
/// `schema` accepts. Completion puts `default` where the table lacks `key`.
/// Among entries of one key the first speaks for the key: it alone decides
/// on the value, and only its default is put in.
#[derive(Debug)]
pub struct TableField {
    pub key: String,
    pub schema: TomlSchema,
    pub default: Option<Value>,
}

/// A compiled schema.
#[derive(Debug)]
#[allow(inconsistent_fields)]
pub enum TomlSchema {
    /// Accepts what any of the options accepts.
    Alternative(Vec<TomlSchema>),
    /// Accepts the strings in which `regex` finds a match.
    String { regex: Pattern },
    /// Accepts the integers from `min` to `max`, ends included.
    Integer { min: i64, max: i64 },
    /// Accepts dates and times.
    Date,
    /// Accepts booleans.
    Bool,
    /// Accepts the numbers from `min` to `max`, ends included, all three
    /// given as 64-bit patterns; what is not a number, exactly when `nan_ok`
    /// is set.
    Float { min: u64, max: u64, nan_ok: bool },
    /// Accepts the tables that hold every entry with an accepted value, and
    /// besides them between `min` and `max` pairs, each accepted by a rule
    /// of `extras`. Among entries of one key the first counts.
    Table { extras: Vec<TableEntry>, min: u64, max: u64, entries: Vec<TableField> },
    /// Accepts the arrays of `min` to `max` elements that `cond` accepts.
    Array { cond: Box<TomlSchema>, min: u64, max: u64 },
    /// Accepts every value.
    Anything,
    /// Accepts the values structurally equal to this one.
    Exact(Value),
}

/// The model of a [`TableEntry`]: the pattern of its key, and its schema.
pub struct ExtraModel {
    pub key: Seq<char>,
    pub schema: SchemaModel,
}

/// The model of a [`TableField`].
pub struct FieldModel {
    pub key: Seq<char>,
    pub schema: SchemaModel,
    pub default: Option<ValueModel>,
}

/// The model of a [`TomlSchema`].
#[allow(inconsistent_fields)]
pub enum SchemaModel {
    Alternative(Seq<SchemaModel>),
    String { pattern: Seq<char> },
    Integer { min: i64, max: i64 },
    Date,
    Bool,
    Float { min: u64, max: u64, nan_ok: bool },
    Table { extras: Seq<ExtraModel>, min: u64, max: u64, entries: Seq<FieldModel> },
    Array { cond: Box<SchemaModel>, min: u64, max: u64 },
    Anything,
    Exact(ValueModel),
}

impl View for TableEntry {
    type V = ExtraModel;

    open spec fn view(&self) -> ExtraModel {
        ExtraModel { key: self.key@, schema: self.value.model() }
    }
}

impl View for TableField {
    type V = FieldModel;

    open spec fn view(&self) -> FieldModel {
        FieldModel {
            key: self.key@,
            schema: self.schema.model(),
            default: match self.default {
                Some(v) => Some(v@),
                None => None,
            },
        }
    }
}

impl TomlSchema {
    /// The model of this schema.
    pub open spec fn model(&self) -> SchemaModel
        decreases self,
    {
        match self {
            TomlSchema::Alternative(options) => SchemaModel::Alternative(
                Seq::new(
                    options.len() as nat,
                    |i: int|
                        if 0 <= i < options.len() {
                            options[i].model()
                        } else {
                            SchemaModel::Anything
                        },
                ),
            ),
            TomlSchema::String { regex } => SchemaModel::String { pattern: regex@ },
            TomlSchema::Integer { min, max } => SchemaModel::Integer { min: *min, max: *max },
            TomlSchema::Date => SchemaModel::Date,
            TomlSchema::Bool => SchemaModel::Bool,
            TomlSchema::Float { min, max, nan_ok } => SchemaModel::Float {
                min: *min,
                max: *max,
                nan_ok: *nan_ok,
            },
            TomlSchema::Table { extras, min, max, entries } => SchemaModel::Table {
                extras: Seq::new(
                    extras.len() as nat,
                    |i: int|
                        if 0 <= i < extras.len() {
                            ExtraModel {
                                key: extras[i].key@,
                                schema: extras[i].value.model(),
                            }
                        } else {
                            ExtraModel { key: Seq::empty(), schema: SchemaModel::Anything }
                        },
                ),
                min: *min,
                max: *max,
                entries: Seq::new(
                    entries.len() as nat,
                    |i: int|
                        if 0 <= i < entries.len() {
                            FieldModel {
                                key: entries[i].key@,
                                schema: entries[i].schema.model(),
                                default: match entries[i].default {
                                    Some(v) => Some(v@),
                                    None => None,
                                },
                            }
                        } else {
                            FieldModel {
                                key: Seq::empty(),
                                schema: SchemaModel::Anything,
                                default: None,
                            }
                        },
                ),
            },
            TomlSchema::Array { cond, min, max } => SchemaModel::Array {
                cond: Box::new(cond.model()),
                min: *min,
                max: *max,
            },
            TomlSchema::Anything => SchemaModel::Anything,
            TomlSchema::Exact(value) => SchemaModel::Exact(value@),
        }
    }
}

/// The models of `options`, in their order.
pub open spec fn schema_models(options: Seq<TomlSchema>) -> Seq<SchemaModel> {
    Seq::new(options.len(), |i: int| options[i]@)
}

/// The models of `extras`, in their order.
pub open spec fn extra_models(extras: Seq<TableEntry>) -> Seq<ExtraModel> {
    Seq::new(extras.len(), |i: int| extras[i]@)
}

/// The models of `entries`, in their order.
pub open spec fn field_models(entries: Seq<TableField>) -> Seq<FieldModel> {
    Seq::new(entries.len(), |i: int| entries[i]@)
}

/// The model of a schema holds the models of its parts.
pub proof fn lemma_model_parts(schema: TomlSchema)
    ensures
        match schema {
            TomlSchema::Alternative(options) => schema@ == SchemaModel::Alternative(
                schema_models(options@),
            ),
            TomlSchema::Table { extras, min, max, entries } => schema@ == (SchemaModel::Table {
                extras: extra_models(extras@),
                min,
                max,
                entries: field_models(entries@),
            }),
            TomlSchema::Array { cond, min, max } => schema@ == (SchemaModel::Array {
                cond: Box::new(cond@),
                min,
                max,
            }),
            _ => true,
        },
{
    match schema {
        TomlSchema::Alternative(options) => {
            assert(schema@->Alternative_0 =~= schema_models(options@));
        },
        TomlSchema::Table { extras, min, max, entries } => {
            assert(schema@->Table_extras =~= extra_models(extras@));
            assert(schema@->Table_entries =~= field_models(entries@));
        },
        _ => {},
    }
}

impl View for TomlSchema {
    type V = SchemaModel;

    open spec fn view(&self) -> SchemaModel {
        self.model()
    }
}

impl Clone for TableEntry {
    fn clone(&self) -> (r: TableEntry)
        ensures
            r@ == self@,
        decreases self,
    {
        TableEntry { key: self.key.clone(), value: self.value.clone() }
    }
}

impl Clone for TableField {
    fn clone(&self) -> (r: TableField)
        ensures
            r@ == self@,
        decreases self,
    {
        TableField {
            key: self.key.clone(),
            schema: self.schema.clone(),
            default: match &self.default {
                Some(v) => Some(v.clone()),
                None => None,
            },
        }
    }
}

impl Clone for TomlSchema {
    #[verifier::loop_isolation(false)]
    fn clone(&self) -> (r: TomlSchema)
        ensures
            r@ == self@,
        decreases self,
    {
        match self {
            TomlSchema::Alternative(options) => {
                let mut copies: Vec<TomlSchema> = Vec::new();
                let mut i: usize = 0;
                while i < options.len()
                    invariant
                        i <= options.len(),
                        copies.len() == i,
                        forall|j: int| 0 <= j < i ==> (#[trigger] copies[j])@ == options[j]@,
                    decreases options.len() - i,
                {
                    let copy = options[i].clone();
                    copies.push(copy);
                    i += 1;
                }
                let r = TomlSchema::Alternative(copies);
                assert(r@->Alternative_0 =~= self@->Alternative_0);
                r
            },
            TomlSchema::String { regex } => TomlSchema::String { regex: regex.clone() },
            TomlSchema::Integer { min, max } => TomlSchema::Integer { min: *min, max: *max },
            TomlSchema::Date => TomlSchema::Date,
            TomlSchema::Bool => TomlSchema::Bool,
            TomlSchema::Float { min, max, nan_ok } => TomlSchema::Float {
                min: *min,
                max: *max,
                nan_ok: *nan_ok,
            },
            TomlSchema::Table { extras, min, max, entries } => {
                let mut extra_copies: Vec<TableEntry> = Vec::new();
                let mut i: usize = 0;
                while i < extras.len()
                    invariant
                        i <= extras.len(),
                        extra_copies.len() == i,
                        forall|j: int| 0 <= j < i ==> (#[trigger] extra_copies[j])@ == extras[j]@,
                    decreases extras.len() - i,
                {
                    let copy = extras[i].clone();
                    extra_copies.push(copy);
                    i += 1;
                }
                let mut entry_copies: Vec<TableField> = Vec::new();
                let mut k: usize = 0;
                while k < entries.len()
                    invariant
                        k <= entries.len(),
                        entry_copies.len() == k,
                        forall|j: int|
                            0 <= j < k ==> (#[trigger] entry_copies[j])@ == entries[j]@,
                    decreases entries.len() - k,
                {
                    let copy = entries[k].clone();
                    entry_copies.push(copy);
                    k += 1;
                }
                let r = TomlSchema::Table {
                    extras: extra_copies,
                    min: *min,
                    max: *max,
                    entries: entry_copies,
                };
                assert(r@->Table_extras =~= self@->Table_extras);
                assert(r@->Table_entries =~= self@->Table_entries);
                r
            },
            TomlSchema::Array { cond, min, max } => TomlSchema::Array {
                cond: Box::new((**cond).clone()),
                min: *min,
                max: *max,
            },
            TomlSchema::Anything => TomlSchema::Anything,
            TomlSchema::Exact(value) => TomlSchema::Exact(value.clone()),
        }
    }
}

} // verus!
