use memstore::binder::{
    bind_value, BindError, Binder, BoundExpr, BoundExprKind, ScopeColumn,
};
use memstore::catalog::{ColumnRefId, TableRefId};
use memstore::numeric::parse_i32;
use memstore::parser::{BinaryOperator, Expr, UnaryOperator, Value};
use memstore::types::{DataType, DataValue};

fn col_ref(column_id: u32) -> ColumnRefId {
    ColumnRefId { table_ref_id: TableRefId::new(0, 0, 1), column_id }
}

fn test_binder() -> Binder {
    Binder::new(vec![
        ScopeColumn { name: "id".to_string(), column_ref_id: col_ref(0), data_type: DataType::Int32 },
        ScopeColumn {
            name: "name".to_string(),
            column_ref_id: col_ref(1),
            data_type: DataType::String,
        },
    ])
}

fn int_literal(text: &str) -> Value {
    Value::Number(text.to_string(), None)
}

fn number(text: &str, bits: f64) -> Value {
    Value::Number(text.to_string(), Some(bits.to_bits()))
}

#[test]
fn parse_i32_accepts_plain_and_signed() {
    assert_eq!(parse_i32("42"), Some(42));
    assert_eq!(parse_i32("+123"), Some(123));
    assert_eq!(parse_i32("-123"), Some(-123));
    assert_eq!(parse_i32("0007"), Some(7));
    assert_eq!(parse_i32("2147483647"), Some(2147483647));
    assert_eq!(parse_i32("-2147483648"), Some(i32::MIN));
}

#[test]
fn parse_i32_rejects_malformed_and_out_of_range() {
    assert_eq!(parse_i32(""), None);
    assert_eq!(parse_i32("+"), None);
    assert_eq!(parse_i32("-"), None);
    assert_eq!(parse_i32("1.5"), None);
    assert_eq!(parse_i32("12a"), None);
    assert_eq!(parse_i32("2147483648"), None);
    assert_eq!(parse_i32("-2147483649"), None);
    assert_eq!(parse_i32("99999999999999999999"), None);
}

#[test]
fn integer_literal_binds_before_float() {
    // The text parses as an integer, so the supplied floating-point
    // interpretation is ignored.
    assert_eq!(bind_value(&number("42", 42.0)), Ok(DataValue::Int32(42)));
}

#[test]
fn float_literal_falls_back_to_supplied_bits() {
    let v = bind_value(&number("1.5", 1.5)).unwrap();
    assert_eq!(v, DataValue::Float64(1.5f64.to_bits()));
    // An integer too large for i32 falls back as well.
    let v = bind_value(&number("2147483648", 2147483648.0)).unwrap();
    assert_eq!(v, DataValue::Float64(2147483648.0f64.to_bits()));
}

#[test]
fn malformed_number_fails_binding() {
    assert_eq!(
        bind_value(&int_literal("abc")),
        Err(BindError::InvalidNumber("abc".to_string()))
    );
}

#[test]
fn direct_literals_bind_to_typed_values() {
    assert_eq!(
        bind_value(&Value::SingleQuotedString("x".to_string())),
        Ok(DataValue::String("x".to_string()))
    );
    assert_eq!(
        bind_value(&Value::DoubleQuotedString("y".to_string())),
        Ok(DataValue::String("y".to_string()))
    );
    assert_eq!(bind_value(&Value::Boolean(true)), Ok(DataValue::Bool(true)));
    assert_eq!(bind_value(&Value::Null), Ok(DataValue::Null));
}

#[test]
fn constant_carries_value_type() {
    let c = BoundExpr::constant(DataValue::Int32(5));
    assert_eq!(c.return_type, Some(DataType::Int32));
    assert!(matches!(c.kind, BoundExprKind::Constant(DataValue::Int32(5))));
    let n = BoundExpr::constant(DataValue::Null);
    assert_eq!(n.return_type, None);
}

#[test]
fn bind_expr_resolves_known_column() {
    let mut binder = test_binder();
    let bound = binder.bind_expr(&Expr::Identifier("name".to_string())).unwrap();
    assert_eq!(bound.return_type, Some(DataType::String));
    match bound.kind {
        BoundExprKind::ColumnRef(c) => assert_eq!(c.column_ref_id, col_ref(1)),
        _ => panic!("expected a column reference"),
    }
}

#[test]
fn bind_expr_rejects_unknown_column() {
    let mut binder = test_binder();
    let r = binder.bind_expr(&Expr::Identifier("missing".to_string()));
    assert_eq!(r, Err(BindError::ColumnNotFound("missing".to_string())));
}

#[test]
fn compound_identifier_uses_last_component() {
    let mut binder = test_binder();
    let bound = binder
        .bind_expr(&Expr::CompoundIdentifier(vec!["t".to_string(), "id".to_string()]))
        .unwrap();
    assert_eq!(bound.return_type, Some(DataType::Int32));
    let r = binder.bind_expr(&Expr::CompoundIdentifier(vec![]));
    assert_eq!(r, Err(BindError::InvalidExpression));
}

#[test]
fn binary_op_takes_left_operand_type() {
    let mut binder = test_binder();
    let e = Expr::BinaryOp {
        left: Box::new(Expr::Identifier("id".to_string())),
        op: BinaryOperator::Plus,
        right: Box::new(Expr::Value(int_literal("1"))),
    };
    let bound = binder.bind_expr(&e).unwrap();
    assert_eq!(bound.return_type, Some(DataType::Int32));
    match bound.kind {
        BoundExprKind::BinaryOp(b) => {
            assert_eq!(b.op, BinaryOperator::Plus);
            assert_eq!(b.right_expr.return_type, Some(DataType::Int32));
            assert!(matches!(
                b.right_expr.kind,
                BoundExprKind::Constant(DataValue::Int32(1))
            ));
        },
        _ => panic!("expected a binary operation"),
    }
}

#[test]
fn binary_op_propagates_operand_errors() {
    let mut binder = test_binder();
    let e = Expr::BinaryOp {
        left: Box::new(Expr::Identifier("missing".to_string())),
        op: BinaryOperator::Eq,
        right: Box::new(Expr::Value(int_literal("1"))),
    };
    assert_eq!(
        binder.bind_expr(&e),
        Err(BindError::ColumnNotFound("missing".to_string()))
    );
}

#[test]
fn unary_nested_and_cast_bind() {
    let mut binder = test_binder();
    let e = Expr::UnaryOp {
        op: UnaryOperator::Minus,
        expr: Box::new(Expr::Nested(Box::new(Expr::Value(int_literal("3"))))),
    };
    let bound = binder.bind_expr(&e).unwrap();
    assert_eq!(bound.return_type, Some(DataType::Int32));
    assert!(matches!(bound.kind, BoundExprKind::UnaryOp(_)));

    let cast = Expr::Cast {
        expr: Box::new(Expr::Identifier("id".to_string())),
        data_type: DataType::Float64,
    };
    let bound = binder.bind_expr(&cast).unwrap();
    assert_eq!(bound.return_type, Some(DataType::Float64));
    assert!(matches!(bound.kind, BoundExprKind::TypeCast(_)));
}

#[test]
fn first_scope_match_wins() {
    let mut binder = Binder::new(vec![
        ScopeColumn { name: "x".to_string(), column_ref_id: col_ref(3), data_type: DataType::Bool },
        ScopeColumn { name: "x".to_string(), column_ref_id: col_ref(4), data_type: DataType::Int32 },
    ]);
    let bound = binder.bind_expr(&Expr::Identifier("x".to_string())).unwrap();
    assert_eq!(bound.return_type, Some(DataType::Bool));
}
