//! Tagged scalar literals and the data type each one derives.

use vstd::prelude::*;
use crate::dtypes::DataType;

verus! {

/// Spec-level image of a [`LiteralValue`].
pub enum LiteralV {
    Null,
    Boolean(bool),
    Utf8(Seq<char>),
    UInt8(u8),
    UInt16(u16),
    UInt32(u32),
    UInt64(u64),
    Int8(i8),
    Int16(i16),
    Int32(i32),
    Int64(i64),
    Float32(u32),
    Float64(u64),
    Range { low: i64, high: i64, data_type: DataType },
    DateTime(i64),
    Series { name: Seq<char>, dtype: DataType },
}

/// A scalar literal usable in an expression.
///
/// The two float variants carry the value as its IEEE-754 bit pattern: the
/// plan never computes with it, it only tags the literal's type; the
/// execution engine reinterprets the bits.  `DateTime` carries a naive
/// timestamp as its numeric value, and `Series` stands for an embedded
/// opaque column of which the plan reads only name and data type.
pub enum LiteralValue {
    Null,
    /// A binary true or false.
    Boolean(bool),
    /// A UTF8 encoded string type.
    Utf8(String),
    /// An unsigned 8-bit integer number.
    UInt8(u8),
    /// An unsigned 16-bit integer number.
    UInt16(u16),
    /// An unsigned 32-bit integer number.
    UInt32(u32),
    /// An unsigned 64-bit integer number.
    UInt64(u64),
    /// An 8-bit integer number.
    Int8(i8),
    /// A 16-bit integer number.
    Int16(i16),
    /// A 32-bit integer number.
    Int32(i32),
    /// A 64-bit integer number.
    Int64(i64),
    /// A 32-bit floating point number, as its bit pattern.
    Float32(u32),
    /// A 64-bit floating point number, as its bit pattern.
    Float64(u64),
    Range { low: i64, high: i64, data_type: DataType },
    /// A naive datetime, as a timestamp.
    DateTime(i64),
    /// An embedded opaque column: the plan reads only its name and dtype.
    Series { name: String, dtype: DataType },
}

impl View for LiteralValue {
    type V = LiteralV;

    open spec fn view(&self) -> LiteralV {
        match self {
            LiteralValue::Null => LiteralV::Null,
            LiteralValue::Boolean(b) => LiteralV::Boolean(*b),
            LiteralValue::Utf8(s) => LiteralV::Utf8(s@),
            LiteralValue::UInt8(v) => LiteralV::UInt8(*v),
            LiteralValue::UInt16(v) => LiteralV::UInt16(*v),
            LiteralValue::UInt32(v) => LiteralV::UInt32(*v),
            LiteralValue::UInt64(v) => LiteralV::UInt64(*v),
            LiteralValue::Int8(v) => LiteralV::Int8(*v),
            LiteralValue::Int16(v) => LiteralV::Int16(*v),
            LiteralValue::Int32(v) => LiteralV::Int32(*v),
            LiteralValue::Int64(v) => LiteralV::Int64(*v),
            LiteralValue::Float32(v) => LiteralV::Float32(*v),
            LiteralValue::Float64(v) => LiteralV::Float64(*v),
            LiteralValue::Range { low, high, data_type } => LiteralV::Range {
                low: *low,
                high: *high,
                data_type: *data_type,
            },
            LiteralValue::DateTime(v) => LiteralV::DateTime(*v),
            LiteralValue::Series { name, dtype } => LiteralV::Series {
                name: name@,
                dtype: *dtype,
            },
        }
    }
}

/// The data type a literal derives: fixed per variant, read from the value
/// for `Range` and `Series`.
pub open spec fn spec_lit_datatype(v: LiteralV) -> DataType {
    match v {
        LiteralV::Null => DataType::Null,
        LiteralV::Boolean(_) => DataType::Boolean,
        LiteralV::Utf8(_) => DataType::Utf8,
        LiteralV::UInt8(_) => DataType::UInt8,
        LiteralV::UInt16(_) => DataType::UInt16,
        LiteralV::UInt32(_) => DataType::UInt32,
        LiteralV::UInt64(_) => DataType::UInt64,
        LiteralV::Int8(_) => DataType::Int8,
        LiteralV::Int16(_) => DataType::Int16,
        LiteralV::Int32(_) => DataType::Int32,
        LiteralV::Int64(_) => DataType::Int64,
        LiteralV::Float32(_) => DataType::Float32,
        LiteralV::Float64(_) => DataType::Float64,
        LiteralV::Range { data_type, .. } => data_type,
        LiteralV::DateTime(_) => DataType::Date64,
        LiteralV::Series { dtype, .. } => dtype,
    }
}

impl LiteralValue {
    /// Getter for the `DataType` of the value.
    pub fn get_datatype(&self) -> (r: DataType)
        ensures
            r == spec_lit_datatype(self@),
    {
        match self {
            LiteralValue::Null => DataType::Null,
            LiteralValue::Boolean(_) => DataType::Boolean,
            LiteralValue::Utf8(_) => DataType::Utf8,
            LiteralValue::UInt8(_) => DataType::UInt8,
            LiteralValue::UInt16(_) => DataType::UInt16,
            LiteralValue::UInt32(_) => DataType::UInt32,
            LiteralValue::UInt64(_) => DataType::UInt64,
            LiteralValue::Int8(_) => DataType::Int8,
            LiteralValue::Int16(_) => DataType::Int16,
            LiteralValue::Int32(_) => DataType::Int32,
            LiteralValue::Int64(_) => DataType::Int64,
            LiteralValue::Float32(_) => DataType::Float32,
            LiteralValue::Float64(_) => DataType::Float64,
            LiteralValue::Range { data_type, .. } => *data_type,
            LiteralValue::DateTime(_) => DataType::Date64,
            LiteralValue::Series { dtype, .. } => *dtype,
        }
    }
}

/// A deep copy of a literal, equal in view.
pub fn clone_literal(v: &LiteralValue) -> (r: LiteralValue)
    ensures
        r@ == v@,
{
    match v {
        LiteralValue::Null => LiteralValue::Null,
        LiteralValue::Boolean(b) => LiteralValue::Boolean(*b),
        LiteralValue::Utf8(s) => LiteralValue::Utf8(s.clone()),
        LiteralValue::UInt8(x) => LiteralValue::UInt8(*x),
        LiteralValue::UInt16(x) => LiteralValue::UInt16(*x),
        LiteralValue::UInt32(x) => LiteralValue::UInt32(*x),
        LiteralValue::UInt64(x) => LiteralValue::UInt64(*x),
        LiteralValue::Int8(x) => LiteralValue::Int8(*x),
        LiteralValue::Int16(x) => LiteralValue::Int16(*x),
        LiteralValue::Int32(x) => LiteralValue::Int32(*x),
        LiteralValue::Int64(x) => LiteralValue::Int64(*x),
        LiteralValue::Float32(x) => LiteralValue::Float32(*x),
        LiteralValue::Float64(x) => LiteralValue::Float64(*x),
        LiteralValue::Range { low, high, data_type } => LiteralValue::Range {
            low: *low,
            high: *high,
            data_type: *data_type,
        },
        LiteralValue::DateTime(x) => LiteralValue::DateTime(*x),
        LiteralValue::Series { name, dtype } => LiteralValue::Series {
            name: name.clone(),
            dtype: *dtype,
        },
    }
}

} // verus!
