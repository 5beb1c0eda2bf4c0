//! Why a schema document does not compile.
//!
//! A [`ConstructionError`] names the field that is at fault, the shape that
//! was wanted there and the value that stood there. The error of a schema
//! inside another is wrapped with the place of the inner schema, so that the
//! whole reads as a path from the root of the document to the fault.

use crate::value::{Value, ValueModel};
use vstd::prelude::*;

verus! {

/// A field of a schema document.
#[derive(Debug, Clone, Copy, PartialEq, Eq, Hash, Structural)]
pub enum Field {
    /// `type`: the kind of the schema.
    Type,
    /// `regex` of a string schema.
    Regex,
    /// `min`: the least integer, number or count.
    Min,
    /// `max`: the greatest integer, number or count.
    Max,
    /// `nan_ok` of a float schema.
    NanOk,
    /// `child` of an array schema.
    Child,
    /// `value` of an exact schema.
    Value,
    /// `extras` of a table schema.
    Extras,
    /// `key` of a record of `extras`.
    ExtraKey,
    /// `schema` of a record of `extras`.
    ExtraSchema,
    /// `options` of an alternative.
    Options,
    /// A nested schema itself: a record of `extras`, an option of an
    /// alternative, or the schema of a table entry.
    Schema,
}

/// The shape that a field must have.
#[derive(Debug, Clone, Copy, PartialEq, Eq, Hash, Structural)]
pub enum Shape {
    String,
    Integer,
    /// An integer that is not negative.
    Count,
    Float,
    Boolean,
    Array,
    Table,
}

/// Where a nested schema stands in the schema around it.
#[derive(Debug)]
pub enum Place {
    /// The element schema of an array schema.
    Child,
    /// The record at `index` of the `extras` of a table schema.
    Extra { index: usize },
    /// The entry `key` of a table schema.
    Entry { key: String },
    /// The option at `index` of an alternative.
    Choice { index: usize },
}

/// The failure to compile a schema document.
#[derive(Debug)]
pub enum ConstructionError {
    /// `type` names no kind of schema.
    UnknownType { name: String },
    /// `field` holds `got`, which is not of the shape `expected`.
    WrongShape { field: Field, expected: Shape, got: Value },
    /// `field` is required and absent.
    Missing { field: Field },
    /// `pattern` is no regular expression; `message` is what the compiler of
    /// regular expressions says of it.
    BadRegex { pattern: String, message: String },
    /// The schema at `place` fails with `error`.
    Inside { place: Place, error: Box<ConstructionError> },
}

/// The model of a [`Place`].
pub enum PlaceModel {
    Child,
    Extra { index: nat },
    Entry { key: Seq<char> },
    Choice { index: nat },
}

/// The model of a [`ConstructionError`]. The message of a pattern that does
/// not compile is left out: the pattern decides it.
pub enum FaultModel {
    UnknownType { name: Seq<char> },
    WrongShape { field: Field, expected: Shape, got: ValueModel },
    Missing { field: Field },
    BadRegex { pattern: Seq<char> },
    Inside { place: PlaceModel, error: Box<FaultModel> },
}

impl View for Place {
    type V = PlaceModel;

    open spec fn view(&self) -> PlaceModel {
        match self {
            Place::Child => PlaceModel::Child,
            Place::Extra { index } => PlaceModel::Extra { index: *index as nat },
            Place::Entry { key } => PlaceModel::Entry { key: key@ },
            Place::Choice { index } => PlaceModel::Choice { index: *index as nat },
        }
    }
}

impl ConstructionError {
    /// The model of this error.
    pub open spec fn model(&self) -> FaultModel
        decreases self,
    {
        match self {
            ConstructionError::UnknownType { name } => FaultModel::UnknownType { name: name@ },
            ConstructionError::WrongShape { field, expected, got } => FaultModel::WrongShape {
                field: *field,
                expected: *expected,
                got: got@,
            },
            ConstructionError::Missing { field } => FaultModel::Missing { field: *field },
            ConstructionError::BadRegex { pattern, message } => FaultModel::BadRegex {
                pattern: pattern@,
            },
            ConstructionError::Inside { place, error } => FaultModel::Inside {
                place: place@,
                error: Box::new(error.model()),
            },
        }
    }
}

impl Clone for Place {
    fn clone(&self) -> (r: Place)
        ensures
            r@ == self@,
    {
        match self {
            Place::Child => Place::Child,
            Place::Extra { index } => Place::Extra { index: *index },
            Place::Entry { key } => Place::Entry { key: key.clone() },
            Place::Choice { index } => Place::Choice { index: *index },
        }
    }
}

impl Clone for ConstructionError {
    fn clone(&self) -> (r: ConstructionError)
        ensures
            r@ == self@,
        decreases self,
    {
        match self {
            ConstructionError::UnknownType { name } => ConstructionError::UnknownType {
                name: name.clone(),
            },
            ConstructionError::WrongShape { field, expected, got } => ConstructionError::WrongShape {
                field: *field,
                expected: *expected,
                got: got.clone(),
            },
            ConstructionError::Missing { field } => ConstructionError::Missing { field: *field },
            ConstructionError::BadRegex { pattern, message } => ConstructionError::BadRegex {
                pattern: pattern.clone(),
                message: message.clone(),
            },
            ConstructionError::Inside { place, error } => ConstructionError::Inside {
                place: place.clone(),
                error: Box::new((**error).clone()),
            },
        }
    }
}

impl View for ConstructionError {
    type V = FaultModel;

    open spec fn view(&self) -> FaultModel {
        self.model()
    }
}

} // verus!
