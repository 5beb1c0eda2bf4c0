//! Schemas for TOML documents, written in TOML.
//!
//! A schema is a table. Its `type` says what kind of value it accepts, and
//! the other keys say which values of that kind. A table without `type` is a
//! table schema.
//!
//! | `type` | accepts | keys |
//! |---|---|---|
//! | `string` | strings in which `regex` finds a match | `regex` |
//! | `int` | integers from `min` to `max` | `min`, `max` |
//! | `float` | numbers from `min` to `max`; what is not a number, if `nan_ok` | `min`, `max`, `nan_ok` |
//! | `bool` | booleans | |
//! | `date` | dates and times | |
//! | `array` | arrays of `min` to `max` elements that `child` accepts | `child`, `min`, `max` |
//! | `table` | tables, see below | `extras`, `min`, `max`, entries |
//! | `alternative` | what one of `options` accepts | `options` |
//! | `anything` | every value | |
//! | `exact` | the values equal to `value` | `value` |
//!
//! An array schema must have `child`, an alternative `options` and an exact
//! schema `value`; every other key may be left out.
//!
//! In a table schema every key but `type`, `default`, `min`, `max` and
//! `extras` names an entry: a key that the table must hold, with the schema
//! of its value. A `$` before the name is dropped, so that `$type` names the
//! entry `type`. `extras` is an array of records with a `key`, a regular
//! expression, and a `schema`: a pair whose key no entry names must be
//! accepted by a record whose `key` matches the key, and `min` and `max`
//! bound the number of such pairs.
//!
//! A schema that is the value of an entry may declare a `default`.
//! [`TomlSchema::check_and_complete`] puts it into a table that lacks the
//! entry, before it matches the table as [`TomlSchema::check`] does.
//!
//! [`TomlSchema::from_table`] compiles a schema document, and
//! [`TomlSchema::warnings`] lists what the document says in vain.
//!
//! # Models
//!
//! Every function states what it does over mathematical models of the data:
//! [`ValueModel`] for values, [`SchemaModel`] for schemas, [`MissModel`]
//! for the errors of a match and [`fault::FaultModel`] for those of a
//! compilation. [`matching::check_spec`] is the outcome of a match and
//! [`compiling::compile_spec`] that of a compilation; [`laws`] holds what
//! follows from them for every schema and value. The models of nested data
//! are recursive functions: a proof about a value of some depth unfolds them
//! once for each level, with `reveal_with_fuel`.
//!
//! A number is carried as the 64-bit pattern of a binary64 value, a table as
//! its pairs in the order of their keys. Regular expressions are those of the
//! `regex` crate, whose behaviour is named in [`pattern`] and not proved; a
//! [`Pattern`] is one that the crate compiled from its text alone.

pub mod compiling;
pub mod constructor;
pub mod error;
pub mod fault;
pub mod float_order;
pub mod laws;
pub mod matching;
pub mod pattern;
pub mod remark;
pub mod schema;
pub mod schema_type;
pub mod text;
pub mod validation;
pub mod value;

pub use error::{MissModel, SchemaError};
pub use fault::{ConstructionError, Field, Place, Shape};
pub use pattern::Pattern;
pub use remark::Warning;
pub use schema::{SchemaModel, TableEntry, TableField, TomlSchema};
pub use schema_type::SchemaType;
pub use value::{Date, Datetime, Offset, Table, Time, Value, ValueModel};
