//! The kinds of schemas and values, as diagnostics name them.

use crate::fault::{ConstructionError, FaultModel};
use crate::schema::{SchemaModel, TomlSchema};
use crate::text::str_eq;
use crate::value::{Value, ValueModel};
use vstd::prelude::*;

verus! {

/// The kind of a schema or of a value.
#[derive(Debug, Clone, Copy, PartialEq, Eq, Hash, Structural)]
pub enum SchemaType {
    Alternative,
    String,
    Integer,
    Date,
    Bool,
    Float,
    Table,
    Array,
    Anything,
    Exact,
}

/// The kind of a schema.
pub open spec fn schema_kind(schema: SchemaModel) -> SchemaType {
    match schema {
        SchemaModel::Alternative(_) => SchemaType::Alternative,
        SchemaModel::String { .. } => SchemaType::String,
        SchemaModel::Integer { .. } => SchemaType::Integer,
        SchemaModel::Date => SchemaType::Date,
        SchemaModel::Bool => SchemaType::Bool,
        SchemaModel::Float { .. } => SchemaType::Float,
        SchemaModel::Table { .. } => SchemaType::Table,
        SchemaModel::Array { .. } => SchemaType::Array,
        SchemaModel::Anything => SchemaType::Anything,
        SchemaModel::Exact(_) => SchemaType::Exact,
    }
}

/// The kind of a value.
pub open spec fn value_kind(value: ValueModel) -> SchemaType {
    match value {
        ValueModel::String(_) => SchemaType::String,
        ValueModel::Integer(_) => SchemaType::Integer,
        ValueModel::Float(_) => SchemaType::Float,
        ValueModel::Boolean(_) => SchemaType::Bool,
        ValueModel::Datetime(_) => SchemaType::Date,
        ValueModel::Array(_) => SchemaType::Array,
        ValueModel::Table(_) => SchemaType::Table,
    }
}

/// The kind that a schema document names by `name`, if it names one.
pub open spec fn kind_of_name(name: Seq<char>) -> Option<SchemaType> {
    if name == "string"@ {
        Some(SchemaType::String)
    } else if name == "int"@ {
        Some(SchemaType::Integer)
    } else if name == "float"@ {
        Some(SchemaType::Float)
    } else if name == "bool"@ {
        Some(SchemaType::Bool)
    } else if name == "date"@ {
        Some(SchemaType::Date)
    } else if name == "array"@ {
        Some(SchemaType::Array)
    } else if name == "table"@ {
        Some(SchemaType::Table)
    } else if name == "alternative"@ {
        Some(SchemaType::Alternative)
    } else if name == "anything"@ {
        Some(SchemaType::Anything)
    } else if name == "exact"@ {
        Some(SchemaType::Exact)
    } else {
        None
    }
}

impl From<&TomlSchema> for SchemaType {
    /// The kind of `schema`.
    fn from(schema: &TomlSchema) -> (r: SchemaType) {
        match schema {
            TomlSchema::Alternative(_) => SchemaType::Alternative,
            TomlSchema::String { .. } => SchemaType::String,
            TomlSchema::Integer { .. } => SchemaType::Integer,
            TomlSchema::Date => SchemaType::Date,
            TomlSchema::Bool => SchemaType::Bool,
            TomlSchema::Float { .. } => SchemaType::Float,
            TomlSchema::Table { .. } => SchemaType::Table,
            TomlSchema::Array { .. } => SchemaType::Array,
            TomlSchema::Anything => SchemaType::Anything,
            TomlSchema::Exact(_) => SchemaType::Exact,
        }
    }
}

impl vstd::std_specs::convert::FromSpecImpl<&TomlSchema> for SchemaType {
    open spec fn obeys_from_spec() -> bool {
        true
    }

    open spec fn from_spec(schema: &TomlSchema) -> SchemaType {
        schema_kind(schema@)
    }
}

impl From<&Value> for SchemaType {
    /// The kind of `value`.
    fn from(value: &Value) -> (r: SchemaType) {
        match value {
            Value::String(_) => SchemaType::String,
            Value::Integer(_) => SchemaType::Integer,
            Value::Float(_) => SchemaType::Float,
            Value::Boolean(_) => SchemaType::Bool,
            Value::Datetime(_) => SchemaType::Date,
            Value::Array(_) => SchemaType::Array,
            Value::Table(_) => SchemaType::Table,
        }
    }
}

impl vstd::std_specs::convert::FromSpecImpl<&Value> for SchemaType {
    open spec fn obeys_from_spec() -> bool {
        true
    }

    open spec fn from_spec(value: &Value) -> SchemaType {
        value_kind(value@)
    }
}

impl SchemaType {
    /// The kind that `name` names. A name that names no kind is an error.
    pub fn try_from(name: &str) -> (r: Result<SchemaType, ConstructionError>)
        ensures
            match r {
                Ok(kind) => kind_of_name(name@) == Some(kind),
                Err(e) => kind_of_name(name@) is None && e@ == (FaultModel::UnknownType {
                    name: name@,
                }),
            },
    {
        if str_eq(name, "string") {
            Ok(SchemaType::String)
        } else if str_eq(name, "int") {
            Ok(SchemaType::Integer)
        } else if str_eq(name, "float") {
            Ok(SchemaType::Float)
        } else if str_eq(name, "bool") {
            Ok(SchemaType::Bool)
        } else if str_eq(name, "date") {
            Ok(SchemaType::Date)
        } else if str_eq(name, "array") {
            Ok(SchemaType::Array)
        } else if str_eq(name, "table") {
            Ok(SchemaType::Table)
        } else if str_eq(name, "alternative") {
            Ok(SchemaType::Alternative)
        } else if str_eq(name, "anything") {
            Ok(SchemaType::Anything)
        } else if str_eq(name, "exact") {
            Ok(SchemaType::Exact)
        } else {
            Err(ConstructionError::UnknownType { name: name.to_owned() })
        }
    }
}

} // verus!
