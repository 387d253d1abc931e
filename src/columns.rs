use vstd::prelude::*;

verus! {

/// Declared type of a column in storage.
#[derive(Debug, Clone, Copy, PartialEq, Eq, Structural)]
pub enum ColumnType {
    Integer,
    Real,
    Text,
    Blob,
    Boolean,
    Timestamp,
}

/// Declared type of a column on the wire. Its numeric code is its position
/// in this list, starting at 0.
#[derive(Debug, Clone, Copy, PartialEq, Eq, Structural)]
pub enum DataType {
    Integer,
    Real,
    Text,
    Blob,
    Boolean,
    Timestamp,
}

pub open spec fn data_type_code(t: DataType) -> i32 {
    match t {
        DataType::Integer => 0,
        DataType::Real => 1,
        DataType::Text => 2,
        DataType::Blob => 3,
        DataType::Boolean => 4,
        DataType::Timestamp => 5,
    }
}

impl DataType {
    /// The numeric code sent on the wire.
    pub fn code(self) -> (r: i32)
        ensures
            r == data_type_code(self),
    {
        match self {
            DataType::Integer => 0,
            DataType::Real => 1,
            DataType::Text => 2,
            DataType::Blob => 3,
            DataType::Boolean => 4,
            DataType::Timestamp => 5,
        }
    }

    /// The type with the given code, if there is one.
    pub fn from_code(code: i32) -> (r: Option<DataType>)
        ensures
            r matches Some(t) ==> data_type_code(t) == code,
            r is None <==> (code < 0 || code > 5),
    {
        match code {
            0 => Some(DataType::Integer),
            1 => Some(DataType::Real),
            2 => Some(DataType::Text),
            3 => Some(DataType::Blob),
            4 => Some(DataType::Boolean),
            5 => Some(DataType::Timestamp),
            _ => None,
        }
    }
}

/// A column of a table to be created, in storage form.
#[derive(Debug, Clone)]
pub struct ColumnDef {
    pub name: String,
    pub col_type: ColumnType,
    pub nullable: bool,
    pub primary_key: bool,
    pub unique: bool,
    pub default_value: Option<String>,
}

impl ColumnDef {
    /// A primary key column is never nullable.
    pub open spec fn wf(&self) -> bool {
        self.primary_key ==> !self.nullable
    }
}

/// A column definition as it arrives on the wire; `default_value` is empty
/// when there is none, and `data_type` holds the code of a `DataType`.
#[derive(Debug, Clone)]
pub struct ColumnDefinition {
    pub name: String,
    pub data_type: i32,
    pub nullable: bool,
    pub primary_key: bool,
    pub unique: bool,
    pub default_value: String,
}

pub open spec fn column_type_of(t: DataType) -> ColumnType {
    match t {
        DataType::Integer => ColumnType::Integer,
        DataType::Real => ColumnType::Real,
        DataType::Text => ColumnType::Text,
        DataType::Blob => ColumnType::Blob,
        DataType::Boolean => ColumnType::Boolean,
        DataType::Timestamp => ColumnType::Timestamp,
    }
}

pub open spec fn data_type_of(t: ColumnType) -> DataType {
    match t {
        ColumnType::Integer => DataType::Integer,
        ColumnType::Real => DataType::Real,
        ColumnType::Text => DataType::Text,
        ColumnType::Blob => DataType::Blob,
        ColumnType::Boolean => DataType::Boolean,
        ColumnType::Timestamp => DataType::Timestamp,
    }
}

/// The storage type of a wire code; an unknown code reads as text.
pub open spec fn column_type_of_code(code: i32) -> ColumnType {
    if 0 <= code <= 5 {
        match code {
            0 => ColumnType::Integer,
            1 => ColumnType::Real,
            2 => ColumnType::Text,
            3 => ColumnType::Blob,
            4 => ColumnType::Boolean,
            _ => ColumnType::Timestamp,
        }
    } else {
        ColumnType::Text
    }
}

pub fn proto_to_column_type(data_type: DataType) -> (r: ColumnType)
    ensures
        r == column_type_of(data_type),
        data_type_of(r) == data_type,
{
    match data_type {
        DataType::Integer => ColumnType::Integer,
        DataType::Real => ColumnType::Real,
        DataType::Text => ColumnType::Text,
        DataType::Blob => ColumnType::Blob,
        DataType::Boolean => ColumnType::Boolean,
        DataType::Timestamp => ColumnType::Timestamp,
    }
}

pub fn column_type_to_proto(col_type: &ColumnType) -> (r: DataType)
    ensures
        r == data_type_of(*col_type),
        column_type_of(r) == *col_type,
{
    match col_type {
        ColumnType::Integer => DataType::Integer,
        ColumnType::Real => DataType::Real,
        ColumnType::Text => DataType::Text,
        ColumnType::Blob => DataType::Blob,
        ColumnType::Boolean => DataType::Boolean,
        ColumnType::Timestamp => DataType::Timestamp,
    }
}

/// Builds the storage column from its wire definition. An unknown type code
/// is taken as text, an empty default as none, and a primary key column is
/// made non-nullable.
pub fn proto_to_column_def(def: ColumnDefinition) -> (r: ColumnDef)
    ensures
        r.name@ == def.name@,
        r.col_type == column_type_of_code(def.data_type),
        r.nullable == (def.nullable && !def.primary_key),
        r.primary_key == def.primary_key,
        r.unique == def.unique,
        def.default_value@.len() == 0 ==> r.default_value is None,
        def.default_value@.len() > 0 ==> (r.default_value matches Some(d) && d@
            == def.default_value@),
        r.wf(),
{
    let data_type = match DataType::from_code(def.data_type) {
        Some(t) => t,
        None => DataType::Text,
    };
    let default_value = if def.default_value.as_str().is_empty() {
        None
    } else {
        Some(def.default_value)
    };
    ColumnDef {
        name: def.name,
        col_type: proto_to_column_type(data_type),
        nullable: def.nullable && !def.primary_key,
        primary_key: def.primary_key,
        unique: def.unique,
        default_value,
    }
}

} // verus!
