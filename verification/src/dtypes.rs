//! Scalar data types and the small tag enums carried by plan nodes.

use vstd::prelude::*;

verus! {

/// The data type of a column or of a literal value.
///
/// `List` stands for a list-typed column (the element type is not tracked at
/// the plan level) and `Null` for the type of an untyped null literal.
#[derive(Clone, Copy, PartialEq, Eq, Structural, Debug)]
pub enum DataType {
    Boolean,
    UInt8,
    UInt16,
    UInt32,
    UInt64,
    Int8,
    Int16,
    Int32,
    Int64,
    Float32,
    Float64,
    Utf8,
    Date64,
    List,
    Null,
}

/// Selects how an expression reports its output field: per-row semantics
/// (`Default`) or per-group semantics (`Aggregation`).
#[derive(Clone, Copy, PartialEq, Eq, Structural, Debug)]
pub enum Context {
    /// Any operation that is done on groups.
    Aggregation,
    /// Any operation that is done while projection/selection of data.
    Default,
}

/// The kind of a join.  The plan carries it for the physical planner and does
/// not interpret it.
#[derive(Clone, Copy, PartialEq, Eq, Structural, Debug)]
pub enum JoinType {
    Left,
    Inner,
    Outer,
    Cross,
}

/// Binary operators usable in a [`crate::expr::Expr::BinaryExpr`].
#[derive(Clone, Copy, PartialEq, Eq, Structural, Debug)]
pub enum Operator {
    Eq,
    NotEq,
    Lt,
    LtEq,
    Gt,
    GtEq,
    Plus,
    Minus,
    Multiply,
    Divide,
    Modulus,
    And,
    Or,
}

impl Operator {
    /// True for the operators whose result is a boolean mask.
    pub open spec fn spec_is_comparison(self) -> bool {
        match self {
            Operator::Eq
            | Operator::NotEq
            | Operator::Lt
            | Operator::LtEq
            | Operator::Gt
            | Operator::GtEq
            | Operator::And
            | Operator::Or => true,
            _ => false,
        }
    }

    /// Executable twin of [`Operator::spec_is_comparison`].
    pub fn is_comparison(self) -> (r: bool)
        ensures
            r == self.spec_is_comparison(),
    {
        match self {
            Operator::Eq
            | Operator::NotEq
            | Operator::Lt
            | Operator::LtEq
            | Operator::Gt
            | Operator::GtEq
            | Operator::And
            | Operator::Or => true,
            _ => false,
        }
    }
}

/// Numeric promotion rank; greater rank wins when two numeric types meet in
/// an arithmetic expression.
pub open spec fn spec_numeric_rank(dt: DataType) -> Option<int> {
    match dt {
        DataType::Boolean => Some(0int),
        DataType::UInt8 => Some(1int),
        DataType::Int8 => Some(2int),
        DataType::UInt16 => Some(3int),
        DataType::Int16 => Some(4int),
        DataType::UInt32 => Some(5int),
        DataType::Int32 => Some(6int),
        DataType::UInt64 => Some(7int),
        DataType::Int64 => Some(8int),
        DataType::Float32 => Some(9int),
        DataType::Float64 => Some(10int),
        _ => None,
    }
}

/// The type an arithmetic expression over `a` and `b` reports.
///
/// Two equal types stay; two numeric types promote to the higher rank;
/// anything else falls back to the left-hand type.
pub open spec fn spec_supertype(a: DataType, b: DataType) -> DataType {
    if a == b {
        a
    } else {
        match (spec_numeric_rank(a), spec_numeric_rank(b)) {
            (Some(ra), Some(rb)) => if ra >= rb {
                a
            } else {
                b
            },
            _ => a,
        }
    }
}

/// Executable twin of [`spec_numeric_rank`], returning the rank or `None`.
fn numeric_rank(dt: DataType) -> (r: Option<u8>)
    ensures
        match r {
            Some(n) => spec_numeric_rank(dt) == Some(n as int),
            None => spec_numeric_rank(dt) is None,
        },
{
    match dt {
        DataType::Boolean => Some(0),
        DataType::UInt8 => Some(1),
        DataType::Int8 => Some(2),
        DataType::UInt16 => Some(3),
        DataType::Int16 => Some(4),
        DataType::UInt32 => Some(5),
        DataType::Int32 => Some(6),
        DataType::UInt64 => Some(7),
        DataType::Int64 => Some(8),
        DataType::Float32 => Some(9),
        DataType::Float64 => Some(10),
        _ => None,
    }
}

/// Executable twin of [`spec_supertype`].
pub fn supertype(a: DataType, b: DataType) -> (r: DataType)
    ensures
        r == spec_supertype(a, b),
{
    if a == b {
        a
    } else {
        match (numeric_rank(a), numeric_rank(b)) {
            (Some(ra), Some(rb)) => if ra >= rb {
                a
            } else {
                b
            },
            _ => a,
        }
    }
}

} // verus!
