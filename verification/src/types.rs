//! Primitive data types and runtime values.

use vstd::prelude::*;

verus! {

/// The declared type of a column or of an expression's result.
#[derive(Clone, Copy, Debug, PartialEq, Eq, Structural)]
pub enum DataType {
    Int32,
    Float64,
    Bool,
    String,
}

/// A single runtime value.
///
/// The storage layer never computes on values; it only places them. A
/// 64-bit floating-point value is therefore carried as its IEEE 754 bit
/// pattern, which keeps every field a plain bit-for-bit comparable value.
#[derive(Debug, PartialEq)]
pub enum DataValue {
    Null,
    Bool(bool),
    Int32(i32),
    Float64(u64),
    String(String),
}

impl Clone for DataValue {
    fn clone(&self) -> (r: Self)
        ensures
            r == *self,
    {
        match self {
            DataValue::Null => DataValue::Null,
            DataValue::Bool(b) => DataValue::Bool(*b),
            DataValue::Int32(v) => DataValue::Int32(*v),
            DataValue::Float64(bits) => DataValue::Float64(*bits),
            DataValue::String(s) => DataValue::String(s.clone()),
        }
    }
}

impl DataValue {
    /// The declared type this value belongs to; `None` means NULL.
    pub open spec fn spec_data_type(self) -> Option<DataType> {
        match self {
            DataValue::Null => None,
            DataValue::Bool(_) => Some(DataType::Bool),
            DataValue::Int32(_) => Some(DataType::Int32),
            DataValue::Float64(_) => Some(DataType::Float64),
            DataValue::String(_) => Some(DataType::String),
        }
    }

    /// The declared type this value belongs to; `None` means NULL.
    pub fn data_type(&self) -> (r: Option<DataType>)
        ensures
            r == self.spec_data_type(),
    {
        match self {
            DataValue::Null => None,
            DataValue::Bool(_) => Some(DataType::Bool),
            DataValue::Int32(_) => Some(DataType::Int32),
            DataValue::Float64(_) => Some(DataType::Float64),
            DataValue::String(_) => Some(DataType::String),
        }
    }
}

} // verus!
