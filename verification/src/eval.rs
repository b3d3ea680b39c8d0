//! The constant evaluator: reduces a constant expression to one literal.
//!
//! The evaluator has no side effects and sees no scope. A form that needs
//! one, or that has no evaluation rule, is reported as unsupported.

use vstd::prelude::*;
use vstd::arithmetic::power2::pow2;
use vstd::bits::lemma_u64_shl_is_mul;
use crate::ast::BinaryOp;
use crate::ast::ConstantExpr;
use crate::ast::ConstantExprContinue;
use crate::ast::ConstantPrimary;
use crate::ast::ConstantPrimaryBase;
use crate::ast::Literal;
use crate::ast::LiteralKind;
use crate::ast::PrimaryLiteral;
use crate::error::Construct;
use crate::error::ErrorKind;
use crate::error::ErrorKindView;
use crate::error::Site;

verus! {

/// What a binary operator asks of its operands and what it yields.
#[derive(Clone, Copy, Debug, PartialEq, Eq, Structural)]
pub struct Signature {
    pub left: LiteralKind,
    pub right: LiteralKind,
    pub result: LiteralKind,
}

/// The operator table: the signature of each binary operator that has an
/// evaluation rule; an operator without one is unsupported. Every operator
/// of the grammar is listed, so that a new one cannot go unnoticed.
pub open spec fn spec_signature(op: BinaryOp) -> Option<Signature> {
    match op {
        BinaryOp::LeftShift => Some(
            Signature {
                left: LiteralKind::Number,
                right: LiteralKind::Number,
                result: LiteralKind::Number,
            },
        ),
        BinaryOp::LogicalAnd => None,
        BinaryOp::LogicalOr => None,
        BinaryOp::LessThan => None,
        BinaryOp::GreaterThan => None,
        BinaryOp::LessEqual => None,
        BinaryOp::GreaterEqual => None,
        BinaryOp::Equal => None,
        BinaryOp::NotEqual => None,
        BinaryOp::RightShift => None,
        BinaryOp::BitAnd => None,
        BinaryOp::BitOr => None,
        BinaryOp::BitXor => None,
        BinaryOp::BitXnor => None,
        BinaryOp::Multiply => None,
        BinaryOp::Divide => None,
        BinaryOp::Modulo => None,
        BinaryOp::Add => None,
        BinaryOp::Subtract => None,
        BinaryOp::Power => None,
    }
}

/// Looks an operator up in the operator table.
pub fn signature(op: BinaryOp) -> (res: Option<Signature>)
    ensures
        res == spec_signature(op),
{
    match op {
        BinaryOp::LeftShift => Some(
            Signature {
                left: LiteralKind::Number,
                right: LiteralKind::Number,
                result: LiteralKind::Number,
            },
        ),
        BinaryOp::LogicalAnd => None,
        BinaryOp::LogicalOr => None,
        BinaryOp::LessThan => None,
        BinaryOp::GreaterThan => None,
        BinaryOp::LessEqual => None,
        BinaryOp::GreaterEqual => None,
        BinaryOp::Equal => None,
        BinaryOp::NotEqual => None,
        BinaryOp::RightShift => None,
        BinaryOp::BitAnd => None,
        BinaryOp::BitOr => None,
        BinaryOp::BitXor => None,
        BinaryOp::BitXnor => None,
        BinaryOp::Multiply => None,
        BinaryOp::Divide => None,
        BinaryOp::Modulo => None,
        BinaryOp::Add => None,
        BinaryOp::Subtract => None,
        BinaryOp::Power => None,
    }
}

/// `a` shifted left by `b` bits in 64 bits: bits that leave the word are
/// lost, and a shift by 64 or more leaves nothing.
pub open spec fn spec_shift_left(a: u64, b: u64) -> u64 {
    if b < 64 {
        a << b
    } else {
        0
    }
}

/// Shifts `a` left by `b` bits in 64 bits.
pub fn shift_left(a: u64, b: u64) -> (res: u64)
    ensures
        res == spec_shift_left(a, b),
{
    if b < 64 {
        a << b
    } else {
        0
    }
}

/// The value of `lhs op rhs` for operands of the kinds that the operator
/// table asks for; for any others, the left operand.
pub open spec fn spec_apply(op: BinaryOp, lhs: Literal, rhs: Literal) -> Literal {
    match (op, lhs, rhs) {
        (BinaryOp::LeftShift, Literal::Number(a), Literal::Number(b)) => Literal::Number(
            spec_shift_left(a, b),
        ),
        _ => lhs,
    }
}

/// The value of a constant expression, or why it has none.
pub open spec fn eval_spec(e: ConstantExpr) -> Result<Literal, ErrorKindView>
    decreases e,
{
    match e {
        ConstantExpr::ConstantPrimary(primary, cont) => match eval_primary_spec(primary) {
            Err(k) => Err(k),
            Ok(first) => match cont {
                None => Ok(first),
                Some(c) => eval_continue_spec(first, *c),
            },
        },
        ConstantExpr::UnaryOp(op, _, _) => Err(
            ErrorKindView::UnsupportedConstruct(Construct::UnaryOperator(op)),
        ),
    }
}

/// The value of a first operand.
pub open spec fn eval_primary_spec(p: ConstantPrimary) -> Result<Literal, ErrorKindView>
    decreases p,
{
    match p {
        ConstantPrimary::Base(base) => match base {
            ConstantPrimaryBase::PrimaryLiteral(lit) => Ok(lit@),
            ConstantPrimaryBase::ConstantExpr(inner) => eval_spec(*inner),
            ConstantPrimaryBase::ConstantConcat(_) => Err(
                ErrorKindView::UnsupportedConstruct(Construct::Concatenation),
            ),
            ConstantPrimaryBase::ConstantMultipleConcat(_, _) => Err(
                ErrorKindView::UnsupportedConstruct(Construct::MultipleConcatenation),
            ),
            ConstantPrimaryBase::SimpleTypeCast(_, _) => Err(
                ErrorKindView::UnsupportedConstruct(Construct::SimpleTypeCast),
            ),
            ConstantPrimaryBase::BooleanCast(_) => Err(
                ErrorKindView::UnsupportedConstruct(Construct::BooleanCast),
            ),
            ConstantPrimaryBase::InstanceOrPropRef(_) => Err(
                ErrorKindView::UnsupportedConstruct(Construct::InstanceOrPropRef),
            ),
            ConstantPrimaryBase::StructLiteral(_, _) => Err(
                ErrorKindView::UnsupportedConstruct(Construct::StructLiteral),
            ),
            ConstantPrimaryBase::ArrayLiteral(_) => Err(
                ErrorKindView::UnsupportedConstruct(Construct::ArrayLiteral),
            ),
        },
        ConstantPrimary::Cast(_, _) => Err(
            ErrorKindView::UnsupportedConstruct(Construct::WidthCast),
        ),
    }
}

/// The value of `lhs` followed by the continuation `c`.
///
/// The operator is looked up first, so that its demands on the operands are
/// known before either is looked at. Then the left operand is checked, the
/// right operand is evaluated and checked, and the operator is applied; what
/// comes out is the left operand of the continuation that follows, if any.
pub open spec fn eval_continue_spec(lhs: Literal, c: ConstantExprContinue) -> Result<
    Literal,
    ErrorKindView,
>
    decreases c,
{
    match c {
        ConstantExprContinue::BinaryOp(op, rhs_expr, next) => match spec_signature(op) {
            None => Err(ErrorKindView::UnsupportedConstruct(Construct::BinaryOperator(op))),
            Some(sig) => if lhs.kind() != sig.left {
                Err(ErrorKindView::TypeMismatch(Site::Operator(op), sig.left, lhs.kind()))
            } else {
                match eval_spec(*rhs_expr) {
                    Err(k) => Err(k),
                    Ok(rhs) => if rhs.kind() != sig.right {
                        Err(ErrorKindView::TypeMismatch(Site::Operator(op), sig.right, rhs.kind()))
                    } else {
                        match next {
                            None => Ok(spec_apply(op, lhs, rhs)),
                            Some(n) => eval_continue_spec(spec_apply(op, lhs, rhs), *n),
                        }
                    },
                }
            },
        },
        ConstantExprContinue::TernaryOp(_, _, _) => Err(
            ErrorKindView::UnsupportedConstruct(Construct::TernaryOperator),
        ),
    }
}

/// Whether `res` is the executable form of `expected`.
pub open spec fn is_outcome(
    res: Result<PrimaryLiteral, ErrorKind>,
    expected: Result<Literal, ErrorKindView>,
) -> bool {
    match res {
        Ok(v) => expected == Ok::<Literal, ErrorKindView>(v@),
        Err(k) => expected == Err::<Literal, ErrorKindView>(k@),
    }
}

/// Applies a binary operator to two operands. Where the operands are of
/// the kinds that the operator table asks for, the result is of the kind that
/// the table promises.
pub fn apply(op: BinaryOp, lhs: &PrimaryLiteral, rhs: &PrimaryLiteral) -> (res: PrimaryLiteral)
    ensures
        res@ == spec_apply(op, lhs@, rhs@),
        spec_signature(op) matches Some(sig) ==> (lhs@.kind() == sig.left && rhs@.kind()
            == sig.right ==> res@.kind() == sig.result),
{
    match (op, lhs, rhs) {
        (
            BinaryOp::LeftShift,
            PrimaryLiteral::Number(a),
            PrimaryLiteral::Number(b),
        ) => PrimaryLiteral::Number(shift_left(*a, *b)),
        _ => lhs.clone(),
    }
}

/// Evaluate a constant, resolving it down to a single value.
pub fn evaluate_constants(constexpr: &ConstantExpr) -> (res: Result<PrimaryLiteral, ErrorKind>)
    ensures
        is_outcome(res, eval_spec(*constexpr)),
    decreases constexpr,
{
    match constexpr {
        ConstantExpr::ConstantPrimary(primary, cont) => {
            let first = evaluate_primary(primary)?;
            match cont {
                None => Ok(first),
                Some(c) => evaluate_continue(first, c),
            }
        },
        ConstantExpr::UnaryOp(op, _, _) => Err(
            ErrorKind::UnsupportedConstruct(Construct::UnaryOperator(*op)),
        ),
    }
}

/// Evaluates a first operand.
pub fn evaluate_primary(primary: &ConstantPrimary) -> (res: Result<PrimaryLiteral, ErrorKind>)
    ensures
        is_outcome(res, eval_primary_spec(*primary)),
    decreases primary,
{
    match primary {
        ConstantPrimary::Base(base) => match base {
            ConstantPrimaryBase::PrimaryLiteral(lit) => Ok(lit.clone()),
            ConstantPrimaryBase::ConstantExpr(inner) => evaluate_constants(inner),
            ConstantPrimaryBase::ConstantConcat(_) => Err(
                ErrorKind::UnsupportedConstruct(Construct::Concatenation),
            ),
            ConstantPrimaryBase::ConstantMultipleConcat(_, _) => Err(
                ErrorKind::UnsupportedConstruct(Construct::MultipleConcatenation),
            ),
            ConstantPrimaryBase::SimpleTypeCast(_, _) => Err(
                ErrorKind::UnsupportedConstruct(Construct::SimpleTypeCast),
            ),
            ConstantPrimaryBase::BooleanCast(_) => Err(
                ErrorKind::UnsupportedConstruct(Construct::BooleanCast),
            ),
            ConstantPrimaryBase::InstanceOrPropRef(_) => Err(
                ErrorKind::UnsupportedConstruct(Construct::InstanceOrPropRef),
            ),
            ConstantPrimaryBase::StructLiteral(_, _) => Err(
                ErrorKind::UnsupportedConstruct(Construct::StructLiteral),
            ),
            ConstantPrimaryBase::ArrayLiteral(_) => Err(
                ErrorKind::UnsupportedConstruct(Construct::ArrayLiteral),
            ),
        },
        ConstantPrimary::Cast(_, _) => Err(ErrorKind::UnsupportedConstruct(Construct::WidthCast)),
    }
}

/// Evaluates a left operand followed by a continuation.
pub fn evaluate_continue(lhs: PrimaryLiteral, cont: &ConstantExprContinue) -> (res: Result<
    PrimaryLiteral,
    ErrorKind,
>)
    ensures
        is_outcome(res, eval_continue_spec(lhs@, *cont)),
    decreases cont,
{
    match cont {
        ConstantExprContinue::BinaryOp(op, rhs_expr, next) => {
            let sig = match signature(*op) {
                None => {
                    return Err(ErrorKind::UnsupportedConstruct(Construct::BinaryOperator(*op)));
                },
                Some(sig) => sig,
            };
            let lhs_kind = lhs.kind();
            if lhs_kind != sig.left {
                return Err(ErrorKind::TypeMismatch(Site::Operator(*op), sig.left, lhs_kind));
            }
            let rhs = evaluate_constants(rhs_expr)?;
            let rhs_kind = rhs.kind();
            if rhs_kind != sig.right {
                return Err(ErrorKind::TypeMismatch(Site::Operator(*op), sig.right, rhs_kind));
            }
            let value = apply(*op, &lhs, &rhs);
            match next {
                None => Ok(value),
                Some(n) => evaluate_continue(value, n),
            }
        },
        ConstantExprContinue::TernaryOp(_, _, _) => Err(
            ErrorKind::UnsupportedConstruct(Construct::TernaryOperator),
        ),
    }
}

/// The expression `lhs << rhs` on two literals.
pub open spec fn shift_expr(lhs: PrimaryLiteral, rhs: PrimaryLiteral) -> ConstantExpr {
    ConstantExpr::ConstantPrimary(
        ConstantPrimary::Base(ConstantPrimaryBase::PrimaryLiteral(lhs)),
        Some(
            Box::new(
                ConstantExprContinue::BinaryOp(
                    BinaryOp::LeftShift,
                    Box::new(
                        ConstantExpr::ConstantPrimary(
                            ConstantPrimary::Base(ConstantPrimaryBase::PrimaryLiteral(rhs)),
                            None,
                        ),
                    ),
                    None,
                ),
            ),
        ),
    )
}

/// A left shift of two number literals evaluates to the shifted number. A
/// left shift with an operand of another kind is a type mismatch that names
/// the kind found, the left operand being looked at first: no operand is
/// ever coerced.
pub proof fn lemma_left_shift_of_literals(lhs: PrimaryLiteral, rhs: PrimaryLiteral)
    ensures
        eval_spec(shift_expr(lhs, rhs)) == (match (lhs@, rhs@) {
            (Literal::Number(a), Literal::Number(b)) => Ok::<Literal, ErrorKindView>(
                Literal::Number(spec_shift_left(a, b)),
            ),
            (Literal::Number(_), other) => Err::<Literal, ErrorKindView>(
                ErrorKindView::TypeMismatch(
                    Site::Operator(BinaryOp::LeftShift),
                    LiteralKind::Number,
                    other.kind(),
                ),
            ),
            (other, _) => Err::<Literal, ErrorKindView>(
                ErrorKindView::TypeMismatch(
                    Site::Operator(BinaryOp::LeftShift),
                    LiteralKind::Number,
                    other.kind(),
                ),
            ),
        }),
{
    reveal_with_fuel(eval_spec, 3);
    reveal_with_fuel(eval_primary_spec, 3);
    reveal_with_fuel(eval_continue_spec, 3);
}

/// Where no bit leaves the word, a left shift by `b` multiplies by two to
/// the power of `b`.
pub proof fn lemma_shift_left_multiplies(a: u64, b: u64)
    requires
        b < 64,
        a * pow2(b as nat) <= u64::MAX,
    ensures
        spec_shift_left(a, b) == a * pow2(b as nat),
{
    lemma_u64_shl_is_mul(a, b);
}

} // verus!
