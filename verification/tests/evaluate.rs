use systemrdl::ast::AccessType;
use systemrdl::ast::BinaryOp;
use systemrdl::ast::ConstantExpr;
use systemrdl::ast::ConstantExprContinue;
use systemrdl::ast::ConstantPrimary;
use systemrdl::ast::ConstantPrimaryBase;
use systemrdl::ast::InstanceOrPropRef;
use systemrdl::ast::IntegerType;
use systemrdl::ast::LiteralKind;
use systemrdl::ast::PrimaryLiteral;
use systemrdl::ast::UnaryOp;
use systemrdl::error::Construct;
use systemrdl::error::ErrorKind;
use systemrdl::error::Site;
use systemrdl::eval::evaluate_constants;
use systemrdl::eval::shift_left;
use systemrdl::eval::signature;

fn lit(l: PrimaryLiteral) -> ConstantExpr {
    ConstantExpr::ConstantPrimary(ConstantPrimary::Base(ConstantPrimaryBase::PrimaryLiteral(l)), None)
}

fn num(n: u64) -> ConstantExpr {
    lit(PrimaryLiteral::Number(n))
}

fn binary(lhs: PrimaryLiteral, op: BinaryOp, rhs: ConstantExpr) -> ConstantExpr {
    ConstantExpr::ConstantPrimary(
        ConstantPrimary::Base(ConstantPrimaryBase::PrimaryLiteral(lhs)),
        Some(Box::new(ConstantExprContinue::BinaryOp(op, Box::new(rhs), None))),
    )
}

fn base(b: ConstantPrimaryBase) -> ConstantExpr {
    ConstantExpr::ConstantPrimary(ConstantPrimary::Base(b), None)
}

fn unsupported(c: Construct) -> Result<PrimaryLiteral, ErrorKind> {
    Err(ErrorKind::UnsupportedConstruct(c))
}

#[test]
fn number_evaluates_to_itself() {
    assert_eq!(evaluate_constants(&num(42)), Ok(PrimaryLiteral::Number(42)));
}

#[test]
fn leaf_literals_evaluate_to_themselves() {
    assert_eq!(
        evaluate_constants(&lit(PrimaryLiteral::BooleanLiteral(true))),
        Ok(PrimaryLiteral::BooleanLiteral(true))
    );
    assert_eq!(
        evaluate_constants(&lit(PrimaryLiteral::StringLiteral("abc".to_string()))),
        Ok(PrimaryLiteral::StringLiteral("abc".to_string()))
    );
    assert_eq!(
        evaluate_constants(&lit(PrimaryLiteral::AccessTypeLiteral(AccessType::R))),
        Ok(PrimaryLiteral::AccessTypeLiteral(AccessType::R))
    );
}

#[test]
fn left_shift_of_numbers() {
    let e = binary(PrimaryLiteral::Number(1), BinaryOp::LeftShift, num(4));
    assert_eq!(evaluate_constants(&e), Ok(PrimaryLiteral::Number(16)));
    let e = binary(PrimaryLiteral::Number(0x12), BinaryOp::LeftShift, num(8));
    assert_eq!(evaluate_constants(&e), Ok(PrimaryLiteral::Number(0x1200)));
    let e = binary(PrimaryLiteral::Number(5), BinaryOp::LeftShift, num(0));
    assert_eq!(evaluate_constants(&e), Ok(PrimaryLiteral::Number(5)));
}

#[test]
fn left_shift_loses_the_bits_that_leave_the_word() {
    let e = binary(PrimaryLiteral::Number(3), BinaryOp::LeftShift, num(63));
    assert_eq!(evaluate_constants(&e), Ok(PrimaryLiteral::Number(1u64 << 63)));
    assert_eq!(shift_left(u64::MAX, 1), u64::MAX - 1);
}

#[test]
fn left_shift_by_the_word_size_or_more_is_zero() {
    let e = binary(PrimaryLiteral::Number(1), BinaryOp::LeftShift, num(64));
    assert_eq!(evaluate_constants(&e), Ok(PrimaryLiteral::Number(0)));
    let e = binary(PrimaryLiteral::Number(7), BinaryOp::LeftShift, num(u64::MAX));
    assert_eq!(evaluate_constants(&e), Ok(PrimaryLiteral::Number(0)));
}

#[test]
fn left_shift_of_a_string_is_a_type_mismatch() {
    let e = binary(PrimaryLiteral::StringLiteral("x".to_string()), BinaryOp::LeftShift, num(1));
    assert_eq!(
        evaluate_constants(&e),
        Err(ErrorKind::TypeMismatch(
            Site::Operator(BinaryOp::LeftShift),
            LiteralKind::Number,
            LiteralKind::String
        ))
    );
}

#[test]
fn left_shift_by_a_boolean_is_a_type_mismatch() {
    let e = binary(
        PrimaryLiteral::Number(1),
        BinaryOp::LeftShift,
        lit(PrimaryLiteral::BooleanLiteral(true)),
    );
    assert_eq!(
        evaluate_constants(&e),
        Err(ErrorKind::TypeMismatch(
            Site::Operator(BinaryOp::LeftShift),
            LiteralKind::Number,
            LiteralKind::Boolean
        ))
    );
}

#[test]
fn left_operand_is_checked_before_the_right_one_is_evaluated() {
    let rhs = base(ConstantPrimaryBase::ConstantConcat(vec![num(1)]));
    let e = binary(PrimaryLiteral::BooleanLiteral(false), BinaryOp::LeftShift, rhs);
    assert_eq!(
        evaluate_constants(&e),
        Err(ErrorKind::TypeMismatch(
            Site::Operator(BinaryOp::LeftShift),
            LiteralKind::Number,
            LiteralKind::Boolean
        ))
    );
}

#[test]
fn failure_of_the_right_operand_is_handed_on() {
    let rhs = base(ConstantPrimaryBase::ConstantConcat(vec![num(1)]));
    let e = binary(PrimaryLiteral::Number(1), BinaryOp::LeftShift, rhs);
    assert_eq!(evaluate_constants(&e), unsupported(Construct::Concatenation));
}

#[test]
fn chained_shifts_go_from_left_to_right() {
    let e = ConstantExpr::ConstantPrimary(
        ConstantPrimary::Base(ConstantPrimaryBase::PrimaryLiteral(PrimaryLiteral::Number(1))),
        Some(Box::new(ConstantExprContinue::BinaryOp(
            BinaryOp::LeftShift,
            Box::new(num(2)),
            Some(Box::new(ConstantExprContinue::BinaryOp(
                BinaryOp::LeftShift,
                Box::new(num(3)),
                None,
            ))),
        ))),
    );
    assert_eq!(evaluate_constants(&e), Ok(PrimaryLiteral::Number(32)));
}

#[test]
fn right_operand_may_be_an_expression() {
    let rhs = binary(PrimaryLiteral::Number(1), BinaryOp::LeftShift, num(1));
    let e = binary(PrimaryLiteral::Number(1), BinaryOp::LeftShift, rhs);
    assert_eq!(evaluate_constants(&e), Ok(PrimaryLiteral::Number(4)));
}

#[test]
fn parentheses_evaluate_to_what_they_hold() {
    let inner = binary(PrimaryLiteral::Number(1), BinaryOp::LeftShift, num(3));
    let e = ConstantExpr::ConstantPrimary(
        ConstantPrimary::Base(ConstantPrimaryBase::ConstantExpr(Box::new(inner))),
        Some(Box::new(ConstantExprContinue::BinaryOp(
            BinaryOp::LeftShift,
            Box::new(num(1)),
            None,
        ))),
    );
    assert_eq!(evaluate_constants(&e), Ok(PrimaryLiteral::Number(16)));
}

#[test]
fn operators_without_a_rule_are_unsupported() {
    let ops = vec![
        BinaryOp::LogicalAnd,
        BinaryOp::LogicalOr,
        BinaryOp::LessThan,
        BinaryOp::GreaterThan,
        BinaryOp::LessEqual,
        BinaryOp::GreaterEqual,
        BinaryOp::Equal,
        BinaryOp::NotEqual,
        BinaryOp::RightShift,
        BinaryOp::BitAnd,
        BinaryOp::BitOr,
        BinaryOp::BitXor,
        BinaryOp::BitXnor,
        BinaryOp::Multiply,
        BinaryOp::Divide,
        BinaryOp::Modulo,
        BinaryOp::Add,
        BinaryOp::Subtract,
        BinaryOp::Power,
    ];
    for op in ops {
        assert_eq!(signature(op), None);
        let e = binary(PrimaryLiteral::Number(1), op, num(1));
        assert_eq!(evaluate_constants(&e), unsupported(Construct::BinaryOperator(op)));
    }
}

#[test]
fn operator_table_holds_left_shift() {
    let sig = signature(BinaryOp::LeftShift).unwrap();
    assert_eq!(sig.left, LiteralKind::Number);
    assert_eq!(sig.right, LiteralKind::Number);
    assert_eq!(sig.result, LiteralKind::Number);
}

#[test]
fn unsupported_operator_is_reported_before_the_operands_are_looked_at() {
    let e = binary(PrimaryLiteral::StringLiteral("x".to_string()), BinaryOp::Add, num(1));
    assert_eq!(evaluate_constants(&e), unsupported(Construct::BinaryOperator(BinaryOp::Add)));
}

#[test]
fn unsupported_expression_forms() {
    assert_eq!(
        evaluate_constants(&base(ConstantPrimaryBase::ConstantConcat(vec![num(1), num(2)]))),
        unsupported(Construct::Concatenation)
    );
    assert_eq!(
        evaluate_constants(&base(ConstantPrimaryBase::ConstantMultipleConcat(
            Box::new(num(2)),
            vec![num(1)]
        ))),
        unsupported(Construct::MultipleConcatenation)
    );
    assert_eq!(
        evaluate_constants(&base(ConstantPrimaryBase::SimpleTypeCast(
            IntegerType::Bit,
            Box::new(num(1))
        ))),
        unsupported(Construct::SimpleTypeCast)
    );
    assert_eq!(
        evaluate_constants(&base(ConstantPrimaryBase::BooleanCast(Box::new(num(1))))),
        unsupported(Construct::BooleanCast)
    );
    assert_eq!(
        evaluate_constants(&base(ConstantPrimaryBase::InstanceOrPropRef(InstanceOrPropRef {
            instance: vec!["a".to_string()],
            prop: None
        }))),
        unsupported(Construct::InstanceOrPropRef)
    );
    assert_eq!(
        evaluate_constants(&base(ConstantPrimaryBase::StructLiteral("s".to_string(), vec![]))),
        unsupported(Construct::StructLiteral)
    );
    assert_eq!(
        evaluate_constants(&base(ConstantPrimaryBase::ArrayLiteral(vec![num(1)]))),
        unsupported(Construct::ArrayLiteral)
    );
    assert_eq!(
        evaluate_constants(&ConstantExpr::ConstantPrimary(
            ConstantPrimary::Cast(
                ConstantPrimaryBase::PrimaryLiteral(PrimaryLiteral::Number(8)),
                Box::new(num(1))
            ),
            None
        )),
        unsupported(Construct::WidthCast)
    );
    assert_eq!(
        evaluate_constants(&ConstantExpr::UnaryOp(UnaryOp::BitNot, Box::new(num(1)), None)),
        unsupported(Construct::UnaryOperator(UnaryOp::BitNot))
    );
    assert_eq!(
        evaluate_constants(&ConstantExpr::ConstantPrimary(
            ConstantPrimary::Base(ConstantPrimaryBase::PrimaryLiteral(PrimaryLiteral::Number(1))),
            Some(Box::new(ConstantExprContinue::TernaryOp(
                Box::new(num(1)),
                Box::new(num(2)),
                None
            )))
        )),
        unsupported(Construct::TernaryOperator)
    );
}
