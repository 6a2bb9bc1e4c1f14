//! The expression binder: resolves identifiers and literals of the raw
//! syntax tree into typed bound expressions.
//!
//! A numeric literal is coerced by first attempting a base-10 integer
//! parse; on failure it falls back to the floating-point interpretation
//! the front end supplied with the literal; when neither applies, binding
//! fails.

use vstd::prelude::*;
use crate::catalog::ColumnRefId;
use crate::numeric::{parse_i32, spec_parse_i32};
use crate::parser::{BinaryOperator, Expr, UnaryOperator, Value, expr_size};
use crate::types::{DataType, DataValue};

verus! {

/// A binding failure.
#[derive(Debug, PartialEq)]
pub enum BindError {
    /// No column of the binder's scope carries the requested name.
    ColumnNotFound(String),
    /// A numeric literal is neither an integer nor a floating-point value.
    InvalidNumber(String),
    /// The expression is malformed, such as an empty compound identifier.
    InvalidExpression,
}

/// One column visible to the binder: its name, its global identity and
/// its declared type.
#[derive(Debug, PartialEq)]
pub struct ScopeColumn {
    pub name: String,
    pub column_ref_id: ColumnRefId,
    pub data_type: DataType,
}

impl Clone for ScopeColumn {
    fn clone(&self) -> (r: Self)
        ensures
            r == *self,
    {
        ScopeColumn {
            name: self.name.clone(),
            column_ref_id: self.column_ref_id,
            data_type: self.data_type,
        }
    }
}

/// A reference to a resolved column.
#[derive(Debug, PartialEq)]
pub struct BoundColumnRef {
    pub column_ref_id: ColumnRefId,
}

/// A binary operation over two bound operands.
#[derive(Debug, PartialEq)]
pub struct BoundBinaryOp {
    pub op: BinaryOperator,
    pub left_expr: Box<BoundExpr>,
    pub right_expr: Box<BoundExpr>,
}

/// A unary operation over one bound operand.
#[derive(Debug, PartialEq)]
pub struct BoundUnaryOp {
    pub op: UnaryOperator,
    pub expr: Box<BoundExpr>,
}

/// A cast of a bound operand to a declared type.
#[derive(Debug, PartialEq)]
pub struct BoundTypeCast {
    pub expr: Box<BoundExpr>,
    pub ty: DataType,
}

/// The content of a bound expression.
#[derive(Debug, PartialEq)]
pub enum BoundExprKind {
    Constant(DataValue),
    ColumnRef(BoundColumnRef),
    BinaryOp(BoundBinaryOp),
    UnaryOp(BoundUnaryOp),
    TypeCast(BoundTypeCast),
}

/// A bound expression: its content together with its result type.
/// A `return_type` of `None` means NULL.
#[derive(Debug, PartialEq)]
pub struct BoundExpr {
    pub kind: BoundExprKind,
    pub return_type: Option<DataType>,
}

/// The constant expression a value binds to: the value itself, typed by
/// the type the value belongs to.
pub open spec fn spec_constant(value: DataValue) -> BoundExpr {
    BoundExpr { kind: BoundExprKind::Constant(value), return_type: value.spec_data_type() }
}

/// The value a literal binds to: integer parse first, then the supplied
/// floating-point interpretation; strings, booleans and NULL map directly.
pub open spec fn spec_bind_value(v: Value) -> Result<DataValue, BindError> {
    match v {
        Value::Number(n, float_bits) => match spec_parse_i32(n@) {
            Some(i) => Ok(DataValue::Int32(i)),
            None => match float_bits {
                Some(bits) => Ok(DataValue::Float64(bits)),
                None => Err(BindError::InvalidNumber(n)),
            },
        },
        Value::SingleQuotedString(s) => Ok(DataValue::String(s)),
        Value::DoubleQuotedString(s) => Ok(DataValue::String(s)),
        Value::Boolean(b) => Ok(DataValue::Bool(b)),
        Value::Null => Ok(DataValue::Null),
    }
}

/// The first column of `scope`, front to back, whose name is `name`.
pub open spec fn spec_lookup(scope: Seq<ScopeColumn>, name: Seq<char>) -> Option<ScopeColumn>
    decreases scope.len(),
{
    if scope.len() == 0 {
        None
    } else if scope[0].name@ == name {
        Some(scope[0])
    } else {
        spec_lookup(scope.drop_first(), name)
    }
}

/// What a single identifier binds to: a reference to the first column of
/// the scope carrying that name, typed by the column's declared type.
pub open spec fn spec_bind_ident(scope: Seq<ScopeColumn>, name: String) -> Result<
    BoundExpr,
    BindError,
> {
    match spec_lookup(scope, name@) {
        Some(c) => Ok(
            BoundExpr {
                kind: BoundExprKind::ColumnRef(BoundColumnRef { column_ref_id: c.column_ref_id }),
                return_type: Some(c.data_type),
            },
        ),
        None => Err(BindError::ColumnNotFound(name)),
    }
}

/// What a possibly qualified identifier binds to: its last component,
/// resolved as a column name; an empty identifier is malformed.
pub open spec fn spec_bind_idents(scope: Seq<ScopeColumn>, idents: Seq<String>) -> Result<
    BoundExpr,
    BindError,
> {
    if idents.len() == 0 {
        Err(BindError::InvalidExpression)
    } else {
        spec_bind_ident(scope, idents.last())
    }
}

/// What a binary operation binds to: both operands bound, in order, the
/// result typed by the left operand.
pub open spec fn spec_bind_binary(
    scope: Seq<ScopeColumn>,
    left: Expr,
    op: BinaryOperator,
    right: Expr,
) -> Result<BoundExpr, BindError>
    decreases expr_size(left) + expr_size(right), 1nat,
{
    match spec_bind_expr(scope, left) {
        Ok(l) => match spec_bind_expr(scope, right) {
            Ok(r) => Ok(
                BoundExpr {
                    return_type: l.return_type,
                    kind: BoundExprKind::BinaryOp(
                        BoundBinaryOp { op, left_expr: Box::new(l), right_expr: Box::new(r) },
                    ),
                },
            ),
            Err(e) => Err(e),
        },
        Err(e) => Err(e),
    }
}

/// What a unary operation binds to: the operand bound, the result typed
/// by the operand.
pub open spec fn spec_bind_unary(scope: Seq<ScopeColumn>, op: UnaryOperator, expr: Expr) -> Result<
    BoundExpr,
    BindError,
>
    decreases expr_size(expr), 1nat,
{
    match spec_bind_expr(scope, expr) {
        Ok(b) => Ok(
            BoundExpr {
                return_type: b.return_type,
                kind: BoundExprKind::UnaryOp(BoundUnaryOp { op, expr: Box::new(b) }),
            },
        ),
        Err(e) => Err(e),
    }
}

/// What a cast binds to: the operand bound, the result typed by the
/// target type.
pub open spec fn spec_bind_cast(scope: Seq<ScopeColumn>, expr: Expr, data_type: DataType) -> Result<
    BoundExpr,
    BindError,
>
    decreases expr_size(expr), 1nat,
{
    match spec_bind_expr(scope, expr) {
        Ok(b) => Ok(
            BoundExpr {
                return_type: Some(data_type),
                kind: BoundExprKind::TypeCast(BoundTypeCast { expr: Box::new(b), ty: data_type }),
            },
        ),
        Err(e) => Err(e),
    }
}

/// What an expression binds to under a given scope.
pub open spec fn spec_bind_expr(scope: Seq<ScopeColumn>, e: Expr) -> Result<BoundExpr, BindError>
    decreases expr_size(e), 0nat,
{
    match e {
        Expr::Value(v) => match spec_bind_value(v) {
            Ok(val) => Ok(spec_constant(val)),
            Err(er) => Err(er),
        },
        Expr::Identifier(name) => spec_bind_ident(scope, name),
        Expr::CompoundIdentifier(idents) => spec_bind_idents(scope, idents@),
        Expr::BinaryOp { left, op, right } => spec_bind_binary(scope, *left, op, *right),
        Expr::UnaryOp { op, expr } => spec_bind_unary(scope, op, *expr),
        Expr::Nested(inner) => spec_bind_expr(scope, *inner),
        Expr::Cast { expr, data_type } => spec_bind_cast(scope, *expr, data_type),
    }
}

impl BoundExpr {
    /// Construct a constant value expression.
    pub fn constant(value: DataValue) -> (r: Self)
        ensures
            r == spec_constant(value),
    {
        let return_type = value.data_type();
        BoundExpr { kind: BoundExprKind::Constant(value), return_type }
    }
}

/// Bind a literal to its value, exactly as [`spec_bind_value`] describes.
pub fn bind_value(v: &Value) -> (r: Result<DataValue, BindError>)
    ensures
        r == spec_bind_value(*v),
{
    match v {
        Value::Number(n, float_bits) => match parse_i32(n.as_str()) {
            Some(i) => Ok(DataValue::Int32(i)),
            None => match float_bits {
                Some(bits) => Ok(DataValue::Float64(*bits)),
                None => Err(BindError::InvalidNumber(n.clone())),
            },
        },
        Value::SingleQuotedString(s) => Ok(DataValue::String(s.clone())),
        Value::DoubleQuotedString(s) => Ok(DataValue::String(s.clone())),
        Value::Boolean(b) => Ok(DataValue::Bool(*b)),
        Value::Null => Ok(DataValue::Null),
    }
}

/// The binder: resolves expressions against a fixed scope of columns.
pub struct Binder {
    scope: Vec<ScopeColumn>,
}

impl Binder {
    /// The columns this binder resolves names against, in priority order.
    pub closed spec fn spec_scope(self) -> Seq<ScopeColumn> {
        self.scope@
    }

    pub fn new(scope: Vec<ScopeColumn>) -> (r: Self)
        ensures
            r.spec_scope() == scope@,
    {
        Binder { scope }
    }

    /// The first column of the scope named `name`, front to back.
    fn lookup(&self, name: &String) -> (r: Option<ScopeColumn>)
        ensures
            r == spec_lookup(self.spec_scope(), name@),
    {
        let n: usize = self.scope.len();
        let mut i: usize = 0;
        proof {
            assert(self.spec_scope().skip(0) =~= self.spec_scope());
        }
        while i < n
            invariant
                i <= n,
                n == self.spec_scope().len(),
                spec_lookup(self.spec_scope(), name@) == spec_lookup(
                    self.spec_scope().skip(i as int),
                    name@,
                ),
            decreases n - i,
        {
            let ghost rest = self.spec_scope().skip(i as int);
            let c = &self.scope[i];
            proof {
                assert(rest.len() == n - i);
                assert(rest[0] == self.spec_scope()[i as int]);
            }
            if c.name.eq(name) {
                proof {
                    assert(rest[0].name@ == name@);
                    assert(spec_lookup(rest, name@) == Some(rest[0]));
                }
                return Some(c.clone());
            }
            proof {
                assert(rest[0].name@ != name@);
                assert(rest.drop_first() =~= self.spec_scope().skip(i as int + 1));
                assert(spec_lookup(rest, name@) == spec_lookup(
                    self.spec_scope().skip(i as int + 1),
                    name@,
                ));
            }
            i = i + 1;
        }
        proof {
            assert(self.spec_scope().skip(n as int) =~= Seq::<ScopeColumn>::empty());
        }
        None
    }

    /// Bind an expression.
    pub fn bind_expr(&mut self, expr: &Expr) -> (r: Result<BoundExpr, BindError>)
        ensures
            *final(self) == *old(self),
            r == spec_bind_expr(old(self).spec_scope(), *expr),
        decreases expr_size(*expr), 0nat,
    {
        match expr {
            Expr::Value(v) => match bind_value(v) {
                Ok(val) => Ok(BoundExpr::constant(val)),
                Err(e) => Err(e),
            },
            Expr::Identifier(name) => self.bind_ident(name),
            Expr::CompoundIdentifier(idents) => self.bind_column_ref(idents.as_slice()),
            Expr::BinaryOp { left, op, right } => self.bind_binary_op(&**left, *op, &**right),
            Expr::UnaryOp { op, expr } => self.bind_unary_op(*op, &**expr),
            Expr::Nested(inner) => self.bind_expr(&**inner),
            Expr::Cast { expr, data_type } => self.bind_type_cast(&**expr, *data_type),
        }
    }

    /// Bind a single identifier to a column of the scope.
    pub fn bind_ident(&mut self, name: &String) -> (r: Result<BoundExpr, BindError>)
        ensures
            *final(self) == *old(self),
            r == spec_bind_ident(old(self).spec_scope(), *name),
    {
        match self.lookup(name) {
            Some(c) => Ok(
                BoundExpr {
                    kind: BoundExprKind::ColumnRef(
                        BoundColumnRef { column_ref_id: c.column_ref_id },
                    ),
                    return_type: Some(c.data_type),
                },
            ),
            None => Err(BindError::ColumnNotFound(name.clone())),
        }
    }

    /// Bind a possibly qualified identifier: its last component names the
    /// column; an empty identifier is malformed.
    pub fn bind_column_ref(&mut self, idents: &[String]) -> (r: Result<BoundExpr, BindError>)
        ensures
            *final(self) == *old(self),
            r == spec_bind_idents(old(self).spec_scope(), idents@),
    {
        let n: usize = idents.len();
        if n == 0 {
            return Err(BindError::InvalidExpression);
        }
        let name = &idents[n - 1];
        proof {
            assert(*name == idents@.last());
        }
        self.bind_ident(name)
    }

    /// Bind a binary operation: both operands, in order; the result takes
    /// the left operand's type.
    pub fn bind_binary_op(&mut self, left: &Expr, op: BinaryOperator, right: &Expr) -> (r: Result<
        BoundExpr,
        BindError,
    >)
        ensures
            *final(self) == *old(self),
            r == spec_bind_binary(old(self).spec_scope(), *left, op, *right),
        decreases expr_size(*left) + expr_size(*right), 1nat,
    {
        let l = match self.bind_expr(left) {
            Ok(l) => l,
            Err(e) => {
                return Err(e);
            },
        };
        let r = match self.bind_expr(right) {
            Ok(r) => r,
            Err(e) => {
                return Err(e);
            },
        };
        let return_type = l.return_type;
        Ok(
            BoundExpr {
                return_type,
                kind: BoundExprKind::BinaryOp(
                    BoundBinaryOp { op, left_expr: Box::new(l), right_expr: Box::new(r) },
                ),
            },
        )
    }

    /// Bind a unary operation; the result takes the operand's type.
    pub fn bind_unary_op(&mut self, op: UnaryOperator, expr: &Expr) -> (r: Result<
        BoundExpr,
        BindError,
    >)
        ensures
            *final(self) == *old(self),
            r == spec_bind_unary(old(self).spec_scope(), op, *expr),
        decreases expr_size(*expr), 1nat,
    {
        let b = match self.bind_expr(expr) {
            Ok(b) => b,
            Err(e) => {
                return Err(e);
            },
        };
        let return_type = b.return_type;
        Ok(
            BoundExpr {
                return_type,
                kind: BoundExprKind::UnaryOp(BoundUnaryOp { op, expr: Box::new(b) }),
            },
        )
    }

    /// Bind a cast; the result takes the target type.
    pub fn bind_type_cast(&mut self, expr: &Expr, data_type: DataType) -> (r: Result<
        BoundExpr,
        BindError,
    >)
        ensures
            *final(self) == *old(self),
            r == spec_bind_cast(old(self).spec_scope(), *expr, data_type),
        decreases expr_size(*expr), 1nat,
    {
        let b = match self.bind_expr(expr) {
            Ok(b) => b,
            Err(e) => {
                return Err(e);
            },
        };
        Ok(
            BoundExpr {
                return_type: Some(data_type),
                kind: BoundExprKind::TypeCast(BoundTypeCast { expr: Box::new(b), ty: data_type }),
            },
        )
    }
}

} // verus!
