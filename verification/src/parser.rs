//! The expression syntax the binder consumes, as produced by the
//! surrounding engine's SQL front end.

use vstd::prelude::*;
use crate::types::DataType;

verus! {

/// A literal value.
///
/// A numeric literal carries its text together with the IEEE 754 bit
/// pattern, if any, that the front end's floating-point reader assigned to
/// that text. This crate holds no floating-point values of its own, so a
/// literal that is not an integer travels with its interpretation already
/// decoded; `None` records that the text is not a floating-point literal
/// either.
#[derive(Debug, PartialEq)]
pub enum Value {
    Number(String, Option<u64>),
    SingleQuotedString(String),
    DoubleQuotedString(String),
    Boolean(bool),
    Null,
}

/// A binary operator.
#[derive(Clone, Copy, Debug, PartialEq, Eq, Structural)]
pub enum BinaryOperator {
    Plus,
    Minus,
    Multiply,
    Divide,
    Modulo,
    Gt,
    Lt,
    GtEq,
    LtEq,
    Eq,
    NotEq,
    And,
    Or,
}

/// A unary operator.
#[derive(Clone, Copy, Debug, PartialEq, Eq, Structural)]
pub enum UnaryOperator {
    Plus,
    Minus,
    Not,
}

/// An expression of the engine's syntax tree.
#[derive(Debug, PartialEq)]
pub enum Expr {
    Identifier(String),
    CompoundIdentifier(Vec<String>),
    BinaryOp { left: Box<Expr>, op: BinaryOperator, right: Box<Expr> },
    UnaryOp { op: UnaryOperator, expr: Box<Expr> },
    Value(Value),
    Nested(Box<Expr>),
    Cast { expr: Box<Expr>, data_type: DataType },
}

/// The number of nodes of an expression; a measure for recursion over
/// expression trees.
pub open spec fn expr_size(e: Expr) -> nat
    decreases e,
{
    match e {
        Expr::Identifier(_) => 1,
        Expr::CompoundIdentifier(_) => 1,
        Expr::Value(_) => 1,
        Expr::BinaryOp { left, op, right } => 1 + expr_size(*left) + expr_size(*right),
        Expr::UnaryOp { op, expr } => 1 + expr_size(*expr),
        Expr::Nested(inner) => 1 + expr_size(*inner),
        Expr::Cast { expr, data_type } => 1 + expr_size(*expr),
    }
}

} // verus!
