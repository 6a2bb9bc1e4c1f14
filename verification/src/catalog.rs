//! Column and table metadata, supplied at table-creation time and
//! immutable thereafter.

use vstd::prelude::*;
use crate::types::DataType;

verus! {

/// Identifier of a column within one table.
pub type ColumnId = u32;

/// Globally unique identifier of a table.
#[derive(Clone, Copy, Debug, PartialEq, Eq, Structural)]
pub struct TableRefId {
    pub database_id: u32,
    pub schema_id: u32,
    pub table_id: u32,
}

impl TableRefId {
    pub fn new(database_id: u32, schema_id: u32, table_id: u32) -> (r: Self)
        ensures
            r == (TableRefId { database_id, schema_id, table_id }),
    {
        TableRefId { database_id, schema_id, table_id }
    }
}

/// Globally unique identifier of a column: a table together with one of
/// its columns.
#[derive(Clone, Copy, Debug, PartialEq, Eq, Structural)]
pub struct ColumnRefId {
    pub table_ref_id: TableRefId,
    pub column_id: ColumnId,
}

/// Per-column metadata: name, declared type and nullability. Set once at
/// table construction and never mutated.
#[derive(Debug, PartialEq)]
pub struct ColumnDesc {
    pub name: String,
    pub datatype: DataType,
    pub is_nullable: bool,
}

impl Clone for ColumnDesc {
    fn clone(&self) -> (r: Self)
        ensures
            r == *self,
    {
        ColumnDesc { name: self.name.clone(), datatype: self.datatype, is_nullable: self.is_nullable }
    }
}

impl ColumnDesc {
    pub fn new(name: String, datatype: DataType, is_nullable: bool) -> (r: Self)
        ensures
            r == (ColumnDesc { name, datatype, is_nullable }),
    {
        ColumnDesc { name, datatype, is_nullable }
    }
}

/// One catalog entry: a column identifier together with its descriptor.
#[derive(Debug, PartialEq)]
pub struct ColumnCatalog {
    id: ColumnId,
    desc: ColumnDesc,
}

impl Clone for ColumnCatalog {
    fn clone(&self) -> (r: Self)
        ensures
            r == *self,
    {
        ColumnCatalog { id: self.id, desc: self.desc.clone() }
    }
}

impl ColumnCatalog {
    /// The identifier this entry describes.
    pub closed spec fn spec_id(self) -> ColumnId {
        self.id
    }

    /// The descriptor this entry carries.
    pub closed spec fn spec_desc(self) -> ColumnDesc {
        self.desc
    }

    pub fn new(id: ColumnId, desc: ColumnDesc) -> (r: Self)
        ensures
            r.spec_id() == id,
            r.spec_desc() == desc,
    {
        ColumnCatalog { id, desc }
    }

    pub fn id(&self) -> (r: ColumnId)
        ensures
            r == self.spec_id(),
    {
        self.id
    }

    pub fn desc(&self) -> (r: &ColumnDesc)
        ensures
            *r == self.spec_desc(),
    {
        &self.desc
    }
}

} // verus!
