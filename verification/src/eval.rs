//! Evaluation of constant expressions, property assignments and
//! enumerations.
//!
//! The meaning of each construct is given by spec functions returning an
//! `Outcome`: `Some(Ok(v))` for a value, `Some(Err(e))` for a rejected
//! construct, and `None` where evaluation is undefined (an arithmetic
//! overflow, a shift by 64 or more, a division by zero, or a construct that
//! is not implemented); the executable functions return `None` exactly on
//! inputs of the last kind.

use vstd::prelude::*;
use vstd::string::*;
use crate::ast::{
    BinaryOp, ConstantExpr, ConstantExprContinue, ConstantPrimary, ConstantPrimaryBase, EnumDef,
    EnumEntry, ExplicitOrDefaultPropAssignment, ExplicitPropertyAssignment, IdentityOrPropKeyword,
    PrimaryLiteral, PropAssignmentRhs, PropertyAssignment, UnaryOp,
};
use crate::component::{Enum, EnumValue, EnumView, StringOrInt};
use crate::error::{ErrorView, RdlError};
use crate::integer::{bool_int, bool_integer, checked_power, power, Integer};
use crate::world::World;

verus! {

/// A value, a rejection, or `None` where evaluation is undefined.
pub type Outcome<T> = Option<Result<T, ErrorView>>;

/// The view of an executable result.
pub open spec fn res_view<T>(r: Result<T, RdlError>) -> Result<T, ErrorView> {
    match r {
        Ok(v) => Ok(v),
        Err(e) => Err(e@),
    }
}

/// The integer a literal denotes: decimal/hex numbers are 32 bits wide,
/// bit literals keep their width.
pub open spec fn literal_int(p: PrimaryLiteral) -> Result<Integer, ErrorView> {
    match p {
        PrimaryLiteral::Number(n) => Ok(Integer { width: 32, value: n }),
        PrimaryLiteral::Bits(b) => Ok(Integer { width: b.width_spec() as u8, value: b.value_spec() }),
        _ => Err(ErrorView::UnsupportedIntegerLiteral(p)),
    }
}

/// `lhs op rhs`. Shifts keep the left width and accept any right width;
/// every other operator needs equal widths. Comparisons give a one-bit
/// result; arithmetic keeps the width and is undefined where the 64-bit
/// result overflows or the divisor is zero.
pub open spec fn binary_int(op: BinaryOp, lhs: Integer, rhs: Integer) -> Outcome<Integer> {
    let a = lhs.value;
    let b = rhs.value;
    let width = lhs.width;
    match op {
        BinaryOp::RightShift => if b < 64 {
            Some(Ok(Integer { width, value: a >> b }))
        } else {
            None
        },
        BinaryOp::LeftShift => if b < 64 {
            Some(Ok(Integer { width, value: a << b }))
        } else {
            None
        },
        _ => if lhs.width != rhs.width {
            Some(Err(ErrorView::IncompatibleWidths(lhs.width, rhs.width)))
        } else {
            arith_int(op, width, a, b)
        },
    }
}

/// The non-shift operators on operands of equal width.
pub open spec fn arith_int(op: BinaryOp, width: u8, a: u64, b: u64) -> Outcome<Integer> {
    match op {
        BinaryOp::LessThan => Some(Ok(bool_int(a < b))),
        BinaryOp::GreaterThan => Some(Ok(bool_int(a > b))),
        BinaryOp::LessThanOrEqual => Some(Ok(bool_int(a <= b))),
        BinaryOp::GreaterThanOrEqual => Some(Ok(bool_int(a >= b))),
        BinaryOp::EqualsEquals => Some(Ok(bool_int(a == b))),
        BinaryOp::NotEquals => Some(Ok(bool_int(a != b))),
        BinaryOp::AndAnd => Some(Ok(Integer { width, value: a & b })),
        BinaryOp::OrOr => Some(Ok(Integer { width, value: a | b })),
        BinaryOp::And => Some(Ok(Integer { width, value: a & b })),
        BinaryOp::Or => Some(Ok(Integer { width, value: a | b })),
        BinaryOp::Xor => Some(Ok(Integer { width, value: a ^ b })),
        BinaryOp::Xnor => Some(Ok(Integer { width, value: !(a ^ b) })),
        BinaryOp::Times => if a * b <= u64::MAX {
            Some(Ok(Integer { width, value: (a * b) as u64 }))
        } else {
            None
        },
        BinaryOp::Divide => if b == 0 {
            None
        } else {
            Some(Ok(Integer { width, value: a / b }))
        },
        BinaryOp::Modulus => if b == 0 {
            None
        } else {
            Some(Ok(Integer { width, value: a % b }))
        },
        BinaryOp::Plus => if a + b <= u64::MAX {
            Some(Ok(Integer { width, value: (a + b) as u64 }))
        } else {
            None
        },
        BinaryOp::Minus => if a >= b {
            Some(Ok(Integer { width, value: (a - b) as u64 }))
        } else {
            None
        },
        BinaryOp::Power => {
            // the exponent is the low 32 bits of the right operand
            let p = power(a as int, (b % 0x1_0000_0000) as nat);
            if p <= u64::MAX {
                Some(Ok(Integer { width, value: p as u64 }))
            } else {
                None
            }
        },
        // shifts are handled by `binary_int`
        BinaryOp::RightShift | BinaryOp::LeftShift => None,
    }
}

/// `op v`: `!`, `~` complement all 64 bits, `-` is two's complement
/// (undefined for 0), `+` is the identity; reduction operators are
/// rejected. The width is kept.
pub open spec fn unary_int(op: UnaryOp, v: Integer) -> Outcome<Integer> {
    match op {
        UnaryOp::LogicalNot => Some(Ok(Integer { width: v.width, value: !v.value })),
        UnaryOp::Plus => Some(Ok(v)),
        UnaryOp::Minus => if v.value == 0 {
            None
        } else {
            Some(Ok(Integer { width: v.width, value: (!v.value + 1) as u64 }))
        },
        UnaryOp::Not => Some(Ok(Integer { width: v.width, value: !v.value })),
        _ => Some(Err(ErrorView::UnsupportedUnaryOp(op))),
    }
}

/// The integer value of a constant expression.
pub open spec fn eval_int(e: ConstantExpr) -> Outcome<Integer>
    decreases e,
{
    match e {
        ConstantExpr::ConstantPrimary(prim, cont) => match eval_primary(prim) {
            Some(Ok(v)) => eval_cont(v, cont),
            other => other,
        },
        ConstantExpr::UnaryOp(op, inner, cont) => match eval_int(*inner) {
            Some(Ok(v)) => match unary_int(op, v) {
                Some(Ok(u)) => eval_cont(u, cont),
                other => other,
            },
            other => other,
        },
    }
}

/// The value of `val` followed by a continuation. A binary operator takes
/// the whole rest as its right operand; `? :` selects on a one-bit
/// condition after evaluating both branches.
pub open spec fn eval_cont(val: Integer, cont: Option<Box<ConstantExprContinue>>) -> Outcome<Integer>
    decreases cont,
{
    match cont {
        None => Some(Ok(val)),
        Some(c) => match *c {
            ConstantExprContinue::BinaryOp(op, rhs, _rest) => match eval_int(*rhs) {
                Some(Ok(r)) => binary_int(op, val, r),
                other => other,
            },
            ConstantExprContinue::TernaryOp(b, c2, rest) => if val.width != 1 {
                Some(Err(ErrorView::NonBooleanTernaryCondition))
            } else {
                match eval_int(*b) {
                    Some(Ok(bv)) => match eval_int(*c2) {
                        Some(Ok(cv)) => if val.value == 1 {
                            eval_cont(bv, rest)
                        } else {
                            eval_cont(cv, rest)
                        },
                        other => other,
                    },
                    other => other,
                }
            },
        },
    }
}

/// The integer value of an operand; width casts are rejected after the
/// operand is evaluated.
pub open spec fn eval_primary(p: ConstantPrimary) -> Outcome<Integer>
    decreases p,
{
    match p {
        ConstantPrimary::Base(b) => eval_base(b),
        ConstantPrimary::Cast(b, _cast) => match eval_base(b) {
            Some(Ok(_)) => Some(Err(ErrorView::CastNotSupported)),
            other => other,
        },
    }
}

/// The integer value of an operand form: literals and parenthesised
/// expressions have one; references, struct and array literals, casts and
/// concatenations are rejected.
pub open spec fn eval_base(b: ConstantPrimaryBase) -> Outcome<Integer>
    decreases b,
{
    match b {
        ConstantPrimaryBase::PrimaryLiteral(p) => Some(literal_int(p)),
        ConstantPrimaryBase::ConstantExpr(e) => eval_int(*e),
        ConstantPrimaryBase::InstanceOrPropRef(_) => Some(Err(ErrorView::ReferenceInIntegerContext)),
        ConstantPrimaryBase::StructLiteral(_) => Some(Err(ErrorView::StructLiteralInIntegerContext)),
        ConstantPrimaryBase::ArrayLiteral => Some(Err(ErrorView::ArrayLiteralInIntegerContext)),
        ConstantPrimaryBase::SimpleTypeCast => Some(Err(ErrorView::SimpleTypeCastInIntegerContext)),
        ConstantPrimaryBase::BooleanCast => Some(Err(ErrorView::BooleanCastInIntegerContext)),
        ConstantPrimaryBase::ConstantConcat => Some(Err(ErrorView::IntegerConcatenation)),
        ConstantPrimaryBase::ConstantMultipleConcat => Some(Err(ErrorView::IntegerMultipleConcatenation)),
    }
}

/// The string value of a constant expression: only a lone string literal
/// has one.
pub open spec fn eval_str(e: ConstantExpr) -> Result<String, ErrorView> {
    match e {
        ConstantExpr::ConstantPrimary(prim, cont) => if cont is Some {
            Err(ErrorView::ComplexStringExpression)
        } else {
            match prim {
                ConstantPrimary::Base(ConstantPrimaryBase::PrimaryLiteral(
                    PrimaryLiteral::StringLiteral(s),
                )) => Ok(s),
                ConstantPrimary::Base(ConstantPrimaryBase::PrimaryLiteral(l)) => Err(
                    ErrorView::UnsupportedStringLiteral(l),
                ),
                ConstantPrimary::Base(_) => Err(ErrorView::UnsupportedStringExpression),
                ConstantPrimary::Cast(_, _) => Err(ErrorView::StringCastNotSupported),
            }
        },
        ConstantExpr::UnaryOp(op, _, _) => Err(ErrorView::UnsupportedStringUnaryOp(op)),
    }
}

/// The value a right-hand side expression gives a property: its string
/// value if it has one, else its integer value if it has one. Both are
/// always evaluated.
pub open spec fn rhs_value(ce: ConstantExpr) -> Option<Option<StringOrInt>> {
    match eval_int(ce) {
        None => None,
        Some(int_result) => Some(
            match eval_str(ce) {
                Ok(s) => Some(StringOrInt::String(s)),
                Err(_) => match int_result {
                    Ok(i) => Some(StringOrInt::Int(i)),
                    Err(_) => None,
                },
            },
        ),
    }
}

/// The `(name, value)` a property assignment records, `Some(None)` where it
/// records nothing, and `None` where evaluation is undefined (property
/// modifiers, assignments without a value or with a precedence value, and
/// assignments to another instance's property are not implemented).
pub open spec fn eval_property(pa: PropertyAssignment) -> Option<Option<(Seq<char>, StringOrInt)>> {
    match pa {
        PropertyAssignment::ExplicitOrDefaultPropAssignment(epa) => match epa {
            ExplicitOrDefaultPropAssignment::ExplicitPropModifier(_, _) => None,
            ExplicitOrDefaultPropAssignment::ExplicitPropAssignment(_, a) => match a {
                ExplicitPropertyAssignment::Assignment(id, rhs) => {
                    let key = match id {
                        IdentityOrPropKeyword::Id(s) => s@,
                        IdentityOrPropKeyword::PropKeyword(k) => k@,
                    };
                    match rhs {
                        Some(PropAssignmentRhs::ConstantExpr(ce)) => match rhs_value(ce) {
                            None => None,
                            Some(None) => Some(None),
                            Some(Some(v)) => Some(Some((key, v))),
                        },
                        Some(PropAssignmentRhs::PrecedenceType(_)) => None,
                        None => None,
                    }
                },
                ExplicitPropertyAssignment::EncodeAssignment(e) => Some(
                    Some(("encode"@, StringOrInt::String(e))),
                ),
            },
        },
        PropertyAssignment::PostPropAssignment(_) => None,
    }
}

/// The value of an enumeration entry: its expression when it has one,
/// else one more than the previous entry (32-bit 0 for the first).
pub open spec fn entry_value(last: Option<Integer>, entry: EnumEntry) -> Outcome<Integer> {
    match entry.expr {
        Some(x) => eval_int(x),
        None => match last {
            None => Some(Ok(Integer { width: 32, value: 0 })),
            Some(l) => if l.value + 1 <= u64::MAX {
                Some(Ok(Integer { width: l.width, value: (l.value + 1) as u64 }))
            } else {
                None
            },
        },
    }
}

/// The values of entries `i..` appended to `acc`, the previous value being
/// `last`.
pub open spec fn enum_values_from(
    entries: Seq<EnumEntry>,
    i: int,
    last: Option<Integer>,
    acc: Seq<EnumValue>,
) -> Outcome<Seq<EnumValue>>
    decreases entries.len() - i,
{
    if i < 0 || i >= entries.len() {
        Some(Ok(acc))
    } else {
        match entry_value(last, entries[i]) {
            Some(Ok(v)) => enum_values_from(
                entries,
                i + 1,
                Some(v),
                acc.push(EnumValue { name: entries[i].id, value: v }),
            ),
            Some(Err(e)) => Some(Err(e)),
            None => None,
        }
    }
}

/// The enumeration an enum definition declares.
pub open spec fn parse_enum_spec(e: EnumDef) -> Outcome<EnumView> {
    match enum_values_from(e.body@, 0, None, Seq::empty()) {
        Some(Ok(vs)) => Some(Ok(EnumView { name: e.id, values: vs })),
        Some(Err(x)) => Some(Err(x)),
        None => None,
    }
}

/// The outcome of an executable evaluation: `None` where the evaluation is
/// undefined.
pub open spec fn outcome_view<T>(r: Option<Result<T, RdlError>>) -> Outcome<T> {
    match r {
        Some(Ok(v)) => Some(Ok(v)),
        Some(Err(e)) => Some(Err(e@)),
        None => None,
    }
}

/// The view of an evaluated property.
pub open spec fn property_view(p: Option<(String, StringOrInt)>) -> Option<(Seq<char>, StringOrInt)> {
    match p {
        Some((k, v)) => Some((k@, v)),
        None => None,
    }
}

fn evaluate_binary(op: BinaryOp, lhs: Integer, rhs: Integer) -> (r: Option<Result<Integer, RdlError>>)
    ensures
        outcome_view(r) == binary_int(op, lhs, rhs),
{
    let a = lhs.value;
    let b = rhs.value;
    let width = lhs.width;
    // shifts may have different widths
    match op {
        BinaryOp::RightShift => {
            if b >= 64 {
                return None;
            }
            return Some(Ok(Integer { width, value: a >> b }));
        },
        BinaryOp::LeftShift => {
            if b >= 64 {
                return None;
            }
            return Some(Ok(Integer { width, value: a << b }));
        },
        _ => {},
    }
    if lhs.width != rhs.width {
        return Some(Err(RdlError::IncompatibleWidths(lhs.width, rhs.width)));
    }
    let value: u64 = match op {
        BinaryOp::LessThan => {
            return Some(Ok(bool_integer(a < b)));
        },
        BinaryOp::GreaterThan => {
            return Some(Ok(bool_integer(a > b)));
        },
        BinaryOp::LessThanOrEqual => {
            return Some(Ok(bool_integer(a <= b)));
        },
        BinaryOp::GreaterThanOrEqual => {
            return Some(Ok(bool_integer(a >= b)));
        },
        BinaryOp::EqualsEquals => {
            return Some(Ok(bool_integer(a == b)));
        },
        BinaryOp::NotEquals => {
            return Some(Ok(bool_integer(a != b)));
        },
        BinaryOp::AndAnd => a & b,
        BinaryOp::OrOr => a | b,
        BinaryOp::And => a & b,
        BinaryOp::Or => a | b,
        BinaryOp::Xor => a ^ b,
        BinaryOp::Xnor => !(a ^ b),
        BinaryOp::Times => match a.checked_mul(b) {
            Some(v) => v,
            None => {
                return None;
            },
        },
        BinaryOp::Divide => {
            if b == 0 {
                return None;
            }
            a / b
        },
        BinaryOp::Modulus => {
            if b == 0 {
                return None;
            }
            a % b
        },
        BinaryOp::Plus => match a.checked_add(b) {
            Some(v) => v,
            None => {
                return None;
            },
        },
        BinaryOp::Minus => {
            if a < b {
                return None;
            }
            a - b
        },
        BinaryOp::Power => match checked_power(a, b % 0x1_0000_0000) {
            Some(v) => v,
            None => {
                return None;
            },
        },
        BinaryOp::RightShift | BinaryOp::LeftShift => {
            return None;
        },
    };
    Some(Ok(Integer { width, value }))
}

fn evaluate_unary(op: UnaryOp, v: Integer) -> (r: Option<Result<Integer, RdlError>>)
    ensures
        outcome_view(r) == unary_int(op, v),
{
    let width = v.width;
    let val = v.value;
    let new_val = match op {
        UnaryOp::LogicalNot => !val,
        UnaryOp::Plus => val,
        UnaryOp::Minus => {
            if val == 0 {
                return None;
            }
            assert(val != 0 ==> !val < u64::MAX) by (bit_vector);
            (!val) + 1
        },
        UnaryOp::Not => !val,
        _ => {
            return Some(Err(RdlError::UnsupportedUnaryOp(op)));
        },
    };
    Some(Ok(Integer { width, value: new_val }))
}

impl World {
    /// Evaluates `val` followed by `cont`; `None` where undefined.
    pub fn evaluate_constant_expr_cont_int(
        &self,
        val: Integer,
        cont: &Option<Box<ConstantExprContinue>>,
    ) -> (r: Option<Result<Integer, RdlError>>)
        ensures
            outcome_view(r) == eval_cont(val, *cont),
        decreases *cont,
    {
        match cont {
            None => Some(Ok(val)),
            Some(c) => match &**c {
                ConstantExprContinue::BinaryOp(op, expr, _cont) => {
                    let rhs = match self.evaluate_constant_expr_int(&**expr) {
                        Some(Ok(v)) => v,
                        other => {
                            return other;
                        },
                    };
                    evaluate_binary(*op, val, rhs)
                },
                ConstantExprContinue::TernaryOp(b, c2, rest) => {
                    if val.width != 1 {
                        return Some(Err(RdlError::NonBooleanTernaryCondition));
                    }
                    let bv = match self.evaluate_constant_expr_int(&**b) {
                        Some(Ok(v)) => v,
                        other => {
                            return other;
                        },
                    };
                    let cv = match self.evaluate_constant_expr_int(&**c2) {
                        Some(Ok(v)) => v,
                        other => {
                            return other;
                        },
                    };
                    if val.value == 1 {
                        self.evaluate_constant_expr_cont_int(bv, rest)
                    } else {
                        self.evaluate_constant_expr_cont_int(cv, rest)
                    }
                },
            },
        }
    }

    /// The integer value of a literal.
    pub fn evaluate_primary_literal_int(&self, p: &PrimaryLiteral) -> (r: Result<Integer, RdlError>)
        ensures
            res_view(r) == literal_int(*p),
    {
        match p {
            PrimaryLiteral::Number(n) => Ok(Integer { width: 32, value: *n }),
            PrimaryLiteral::Bits(b) => Ok(Integer { width: b.w() as u8, value: b.val() }),
            _ => Err(RdlError::UnsupportedIntegerLiteral(p.duplicate())),
        }
    }

    /// The integer value of an operand form; `None` where undefined.
    pub fn evaluate_constant_primary_base_int(&self, base: &ConstantPrimaryBase) -> (r: Option<
        Result<Integer, RdlError>,
    >)
        ensures
            outcome_view(r) == eval_base(*base),
        decreases *base,
    {
        match base {
            ConstantPrimaryBase::PrimaryLiteral(p) => Some(self.evaluate_primary_literal_int(p)),
            ConstantPrimaryBase::ConstantExpr(c) => self.evaluate_constant_expr_int(&**c),
            ConstantPrimaryBase::InstanceOrPropRef(_) => Some(
                Err(RdlError::ReferenceInIntegerContext),
            ),
            ConstantPrimaryBase::StructLiteral(_) => Some(
                Err(RdlError::StructLiteralInIntegerContext),
            ),
            ConstantPrimaryBase::ArrayLiteral => Some(Err(RdlError::ArrayLiteralInIntegerContext)),
            ConstantPrimaryBase::SimpleTypeCast => Some(
                Err(RdlError::SimpleTypeCastInIntegerContext),
            ),
            ConstantPrimaryBase::BooleanCast => Some(Err(RdlError::BooleanCastInIntegerContext)),
            ConstantPrimaryBase::ConstantConcat => Some(Err(RdlError::IntegerConcatenation)),
            ConstantPrimaryBase::ConstantMultipleConcat => Some(
                Err(RdlError::IntegerMultipleConcatenation),
            ),
        }
    }

    /// Width casts are not evaluated.
    pub fn evaluate_cast(&self, _value: Integer, _expr: &ConstantExpr) -> (r: Result<
        Integer,
        RdlError,
    >)
        ensures
            res_view(r) == Err::<Integer, ErrorView>(ErrorView::CastNotSupported),
    {
        Err(RdlError::CastNotSupported)
    }

    /// The integer value of an operand; `None` where undefined.
    pub fn evaluate_constant_primary_int(&self, prim: &ConstantPrimary) -> (r: Option<
        Result<Integer, RdlError>,
    >)
        ensures
            outcome_view(r) == eval_primary(*prim),
        decreases *prim,
    {
        match prim {
            ConstantPrimary::Base(base) => self.evaluate_constant_primary_base_int(base),
            ConstantPrimary::Cast(base, cast) => {
                let base = match self.evaluate_constant_primary_base_int(base) {
                    Some(Ok(v)) => v,
                    other => {
                        return other;
                    },
                };
                Some(self.evaluate_cast(base, &**cast))
            },
        }
    }

    /// The integer value of a constant expression; `None` where undefined.
    pub fn evaluate_constant_expr_int(&self, expr: &ConstantExpr) -> (r: Option<
        Result<Integer, RdlError>,
    >)
        ensures
            outcome_view(r) == eval_int(*expr),
        decreases *expr,
    {
        match expr {
            ConstantExpr::ConstantPrimary(prim, cont) => {
                let val = match self.evaluate_constant_primary_int(prim) {
                    Some(Ok(v)) => v,
                    other => {
                        return other;
                    },
                };
                self.evaluate_constant_expr_cont_int(val, cont)
            },
            ConstantExpr::UnaryOp(op, inner, cont) => {
                let v = match self.evaluate_constant_expr_int(&**inner) {
                    Some(Ok(v)) => v,
                    other => {
                        return other;
                    },
                };
                let val = match evaluate_unary(*op, v) {
                    Some(Ok(u)) => u,
                    other => {
                        return other;
                    },
                };
                self.evaluate_constant_expr_cont_int(val, cont)
            },
        }
    }

    /// The string value of a constant expression.
    pub fn evaluate_constant_expr_str(&self, expr: &ConstantExpr) -> (r: Result<String, RdlError>)
        ensures
            res_view(r) == eval_str(*expr),
    {
        match expr {
            ConstantExpr::ConstantPrimary(prim, cont) => {
                if cont.is_some() {
                    return Err(RdlError::ComplexStringExpression);
                }
                match prim {
                    ConstantPrimary::Base(constant_primary_base) => match constant_primary_base {
                        ConstantPrimaryBase::PrimaryLiteral(primary_literal) => {
                            match primary_literal {
                                PrimaryLiteral::StringLiteral(s) => Ok(s.clone()),
                                _ => Err(
                                    RdlError::UnsupportedStringLiteral(primary_literal.duplicate()),
                                ),
                            }
                        },
                        _ => Err(RdlError::UnsupportedStringExpression),
                    },
                    ConstantPrimary::Cast(_constant_primary_base, _constant_expr) => {
                        Err(RdlError::StringCastNotSupported)
                    },
                }
            },
            ConstantExpr::UnaryOp(op, _expr, _cont) => Err(RdlError::UnsupportedStringUnaryOp(*op)),
        }
    }

    /// The property name and value a property assignment records, if any;
    /// `None` where the assignment cannot be evaluated.
    pub fn evaluate_property(&self, property_assignment: &PropertyAssignment) -> (r: Option<
        Option<(String, StringOrInt)>,
    >)
        ensures
            match r {
                Some(p) => eval_property(*property_assignment) == Some(property_view(p)),
                None => eval_property(*property_assignment) is None,
            },
    {
        match property_assignment {
            PropertyAssignment::ExplicitOrDefaultPropAssignment(pa) => match pa {
                // property modifiers are not implemented
                ExplicitOrDefaultPropAssignment::ExplicitPropModifier(_, _) => None,
                ExplicitOrDefaultPropAssignment::ExplicitPropAssignment(_default, epa) => match epa {
                    ExplicitPropertyAssignment::Assignment(identity_or_prop_keyword, rhs) => {
                        let id = match identity_or_prop_keyword {
                            IdentityOrPropKeyword::Id(id) => id.clone(),
                            IdentityOrPropKeyword::PropKeyword(prop_keyword) => prop_keyword.clone(),
                        };
                        match rhs {
                            Some(PropAssignmentRhs::ConstantExpr(constant_expr)) => {
                                let as_str = self.evaluate_constant_expr_str(constant_expr);
                                let as_int = match self.evaluate_constant_expr_int(constant_expr) {
                                    Some(x) => x,
                                    None => {
                                        return None;
                                    },
                                };
                                let value = match as_str {
                                    Ok(s) => Some(StringOrInt::String(s)),
                                    Err(_) => match as_int {
                                        Ok(i) => Some(StringOrInt::Int(i)),
                                        Err(_) => None,
                                    },
                                };
                                match value {
                                    Some(v) => Some(Some((id, v))),
                                    None => Some(None),
                                }
                            },
                            // precedence values and valueless assignments are not implemented
                            _ => None,
                        }
                    },
                    ExplicitPropertyAssignment::EncodeAssignment(e) => {
                        Some(Some((String::from_str("encode"), StringOrInt::String(e.clone()))))
                    },
                },
            },
            // assignments to another instance's property are not implemented
            PropertyAssignment::PostPropAssignment(_post_prop_assignment) => None,
        }
    }

    /// The enumeration an enum definition declares; `None` where
    /// undefined.
    pub fn parse_enum(&self, e: &EnumDef) -> (r: Option<Result<Enum, RdlError>>)
        ensures
            parse_enum_spec(*e) == match r {
                Some(Ok(en)) => Some(Ok(en@)),
                Some(Err(x)) => Some(Err::<EnumView, ErrorView>(x@)),
                None => None,
            },
    {
        let mut values: Vec<EnumValue> = Vec::new();
        let mut last_value: Option<Integer> = None;
        let ghost entries = e.body@;
        let n = e.body.len();
        let mut i: usize = 0;
        while i < n
            invariant
                n == entries.len(),
                entries == e.body@,
                0 <= i <= n,
                enum_values_from(entries, i as int, last_value, values@) == enum_values_from(
                    entries,
                    0,
                    None,
                    Seq::empty(),
                ),
            decreases n - i,
        {
            let entry = &e.body[i];
            let val = match &entry.expr {
                Some(expr) => match self.evaluate_constant_expr_int(expr) {
                    Some(Ok(v)) => v,
                    Some(Err(x)) => {
                        return Some(Err(x));
                    },
                    None => {
                        return None;
                    },
                },
                None => match last_value {
                    None => Integer { width: 32, value: 0 },
                    Some(last_val) => {
                        if last_val.value == u64::MAX {
                            return None;
                        }
                        last_val.add(1)
                    },
                },
            };
            last_value = Some(val);
            values.push(EnumValue { name: entry.id.clone(), value: val });
            i = i + 1;
        }
        Some(Ok(Enum { name: e.id.clone(), values }))
    }
}

} // verus!
