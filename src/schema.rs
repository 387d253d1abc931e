use vstd::prelude::*;
use crate::columns::{ColumnDef as DbColumnDef, ColumnType};
use crate::fields::FieldMap;
use crate::seed::TomlValue;
use crate::text::{same_text, to_upper, upper_of};

verus! {

/// A column as a schema file declares it.
#[derive(Debug, Clone)]
pub struct ColumnDef {
    pub name: String,
    pub col_type: String,
    pub nullable: bool,
    pub primary_key: bool,
    pub unique: bool,
    pub auto_increment: bool,
    pub default: Option<String>,
    pub foreign_key: Option<ForeignKeyDef>,
}

/// A reference from a column to a column of another table.
#[derive(Debug, Clone)]
pub struct ForeignKeyDef {
    pub table: String,
    pub column: String,
}

/// A table as a schema file declares it.
#[derive(Debug, Clone)]
pub struct TableDef {
    pub name: String,
    pub description: Option<String>,
    pub columns: Vec<ColumnDef>,
}

/// An index as a schema file declares it.
#[derive(Debug, Clone)]
pub struct IndexDef {
    pub table: String,
    pub name: String,
    pub columns: Vec<String>,
}

/// What a schema file says of the database it describes.
#[derive(Debug, Clone)]
pub struct DatabaseInfo {
    pub name: String,
    pub description: String,
    pub version: String,
}

/// A schema file: the database, its tables, seed rows for some tables,
/// and indexes.
#[derive(Debug, Clone)]
pub struct Schema {
    pub database: DatabaseInfo,
    pub tables: Vec<TableDef>,
    pub data: Vec<(String, Vec<FieldMap<TomlValue>>)>,
    pub indexes: Vec<IndexDef>,
}

impl Schema {
    /// The first table declared under `name`.
    pub fn find_table(&self, name: &str) -> (r: Option<&TableDef>)
        ensures
            r matches Some(t) ==> t.name@ == name@ && exists|i: int|
                0 <= i < self.tables@.len() && self.tables@[i] == *t && forall|k: int|
                    0 <= k < i ==> (#[trigger] self.tables@[k]).name@ != name@,
            r is None <==> forall|i: int|
                0 <= i < self.tables@.len() ==> (#[trigger] self.tables@[i]).name@ != name@,
    {
        let mut i: usize = 0;
        while i < self.tables.len()
            invariant
                i <= self.tables.len(),
                forall|k: int| 0 <= k < i ==> (#[trigger] self.tables@[k]).name@ != name@,
            decreases self.tables.len() - i,
        {
            if same_text(self.tables[i].name.as_str(), name) {
                return Some(&self.tables[i]);
            }
            i = i + 1;
        }
        None
    }
}

/// The column type that an upper-case type name stands for.
pub open spec fn column_type_named(u: Seq<char>) -> Option<ColumnType> {
    if u == "INTEGER"@ {
        Some(ColumnType::Integer)
    } else if u == "REAL"@ {
        Some(ColumnType::Real)
    } else if u == "TEXT"@ {
        Some(ColumnType::Text)
    } else if u == "BLOB"@ {
        Some(ColumnType::Blob)
    } else if u == "BOOLEAN"@ {
        Some(ColumnType::Boolean)
    } else if u == "TIMESTAMP"@ {
        Some(ColumnType::Timestamp)
    } else {
        None
    }
}

/// The column type that a type name stands for, in any letter case.
pub fn column_type_from_name(name: &str) -> (r: Option<ColumnType>)
    ensures
        r == column_type_named(upper_of(name@)),
{
    let upper = to_upper(name);
    let u = upper.as_str();
    if same_text(u, "INTEGER") {
        Some(ColumnType::Integer)
    } else if same_text(u, "REAL") {
        Some(ColumnType::Real)
    } else if same_text(u, "TEXT") {
        Some(ColumnType::Text)
    } else if same_text(u, "BLOB") {
        Some(ColumnType::Blob)
    } else if same_text(u, "BOOLEAN") {
        Some(ColumnType::Boolean)
    } else if same_text(u, "TIMESTAMP") {
        Some(ColumnType::Timestamp)
    } else {
        None
    }
}

/// Builds the storage column of a schema column. The type name is read in
/// any letter case; a primary key column is made non-nullable.
pub fn column_def_to_db(col: &ColumnDef) -> (r: Result<DbColumnDef, String>)
    ensures
        column_type_named(upper_of(col.col_type@)) is None <==> r is Err,
        r matches Err(e) ==> e@ == "Unknown column type: "@ + col.col_type@,
        r matches Ok(d) ==> {
            &&& column_type_named(upper_of(col.col_type@)) == Some(d.col_type)
            &&& d.name@ == col.name@
            &&& d.nullable == (col.nullable && !col.primary_key)
            &&& d.primary_key == col.primary_key
            &&& d.unique == col.unique
            &&& d.default_value == col.default
            &&& d.wf()
        },
{
    let col_type = match column_type_from_name(col.col_type.as_str()) {
        Some(t) => t,
        None => {
            let mut msg = String::from_str("Unknown column type: ");
            msg.append(col.col_type.as_str());
            return Err(msg);
        },
    };
    let nullable = if col.primary_key {
        false
    } else {
        col.nullable
    };
    let default_value = match &col.default {
        Some(d) => Some(d.clone()),
        None => None,
    };
    Ok(DbColumnDef {
        name: col.name.clone(),
        col_type,
        nullable,
        primary_key: col.primary_key,
        unique: col.unique,
        default_value,
    })
}

} // verus!
