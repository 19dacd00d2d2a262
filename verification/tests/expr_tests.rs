use mcu_registers_generator_new::ast::{
    BinaryOp, ConstantExpr, ConstantExprContinue, ConstantPrimary, ConstantPrimaryBase, EnumDef,
    EnumEntry, ExplicitOrDefaultPropAssignment, ExplicitPropModifier, ExplicitPropertyAssignment,
    IdentityOrPropKeyword, InstanceOrPropRef, InterruptType, PostPropAssignment, PrecedenceType,
    PrimaryLiteral, PropAssignmentRhs, PropertyAssignment, UnaryOp,
};
use mcu_registers_generator_new::component::StringOrInt;
use mcu_registers_generator_new::bits::Bits;
use mcu_registers_generator_new::error::RdlError;
use mcu_registers_generator_new::integer::{checked_power, Integer};
use mcu_registers_generator_new::world::World;

fn lit(p: PrimaryLiteral) -> ConstantExpr {
    ConstantExpr::ConstantPrimary(ConstantPrimary::Base(ConstantPrimaryBase::PrimaryLiteral(p)), None)
}

fn num(n: u64) -> ConstantExpr {
    lit(PrimaryLiteral::Number(n))
}

fn bits(w: u64, v: u64) -> ConstantExpr {
    lit(PrimaryLiteral::Bits(Bits::new(w, v).unwrap()))
}

fn string(s: &str) -> ConstantExpr {
    lit(PrimaryLiteral::StringLiteral(s.to_string()))
}

/// `lhs op rhs`
fn bin(lhs: ConstantExpr, op: BinaryOp, rhs: ConstantExpr) -> ConstantExpr {
    match lhs {
        ConstantExpr::ConstantPrimary(p, None) => ConstantExpr::ConstantPrimary(
            p,
            Some(Box::new(ConstantExprContinue::BinaryOp(op, Box::new(rhs), None))),
        ),
        other => ConstantExpr::ConstantPrimary(
            ConstantPrimary::Base(ConstantPrimaryBase::ConstantExpr(Box::new(other))),
            Some(Box::new(ConstantExprContinue::BinaryOp(op, Box::new(rhs), None))),
        ),
    }
}

fn eval(e: &ConstantExpr) -> Option<Result<Integer, RdlError>> {
    World::new().evaluate_constant_expr_int(e)
}

fn value_of(e: &ConstantExpr) -> Integer {
    match eval(e) {
        Some(Ok(v)) => v,
        other => panic!("unexpected {:?}", other),
    }
}

#[test]
fn numbers_are_32_bits_and_bit_literals_keep_their_width() {
    assert_eq!(value_of(&num(42)), Integer { width: 32, value: 42 });
    assert_eq!(value_of(&bits(4, 0xa)), Integer { width: 4, value: 0xa });
}

#[test]
fn arithmetic_keeps_the_left_width() {
    assert_eq!(value_of(&bin(num(6), BinaryOp::Plus, num(7))), Integer { width: 32, value: 13 });
    assert_eq!(value_of(&bin(num(10), BinaryOp::Minus, num(3))).value, 7);
    assert_eq!(value_of(&bin(num(6), BinaryOp::Times, num(7))).value, 42);
    assert_eq!(value_of(&bin(num(45), BinaryOp::Divide, num(6))).value, 7);
    assert_eq!(value_of(&bin(num(45), BinaryOp::Modulus, num(6))).value, 3);
    assert_eq!(value_of(&bin(num(2), BinaryOp::Power, num(10))).value, 1024);
    assert_eq!(value_of(&bin(num(0xc), BinaryOp::And, num(0xa))).value, 0x8);
    assert_eq!(value_of(&bin(num(0xc), BinaryOp::Or, num(0xa))).value, 0xe);
    assert_eq!(value_of(&bin(num(0xc), BinaryOp::Xor, num(0xa))).value, 0x6);
    assert_eq!(value_of(&bin(num(0xc), BinaryOp::Xnor, num(0xa))).value, !0x6u64);
    assert_eq!(value_of(&bin(num(0xc), BinaryOp::AndAnd, num(0xa))).value, 0x8);
    assert_eq!(value_of(&bin(num(0xc), BinaryOp::OrOr, num(0xa))).value, 0xe);
}

#[test]
fn comparisons_give_one_bit() {
    let t = Integer { width: 1, value: 1 };
    let f = Integer { width: 1, value: 0 };
    assert_eq!(value_of(&bin(num(1), BinaryOp::LessThan, num(2))), t);
    assert_eq!(value_of(&bin(num(1), BinaryOp::GreaterThan, num(2))), f);
    assert_eq!(value_of(&bin(num(2), BinaryOp::LessThanOrEqual, num(2))), t);
    assert_eq!(value_of(&bin(num(1), BinaryOp::GreaterThanOrEqual, num(2))), f);
    assert_eq!(value_of(&bin(num(2), BinaryOp::EqualsEquals, num(2))), t);
    assert_eq!(value_of(&bin(num(2), BinaryOp::NotEquals, num(2))), f);
}

#[test]
fn shifts_accept_any_right_width() {
    assert_eq!(value_of(&bin(bits(8, 1), BinaryOp::LeftShift, num(4))), Integer { width: 8, value: 16 });
    assert_eq!(value_of(&bin(num(0x80), BinaryOp::RightShift, bits(3, 7))).value, 1);
}

#[test]
fn other_operators_need_equal_widths() {
    match eval(&bin(bits(4, 1), BinaryOp::Plus, num(1))) {
        Some(Err(RdlError::IncompatibleWidths(4, 32))) => {},
        other => panic!("unexpected {:?}", other),
    }
}

#[test]
fn undefined_arithmetic_gives_none() {
    assert!(eval(&bin(num(1), BinaryOp::Divide, num(0))).is_none());
    assert!(eval(&bin(num(1), BinaryOp::Modulus, num(0))).is_none());
    assert!(eval(&bin(num(1), BinaryOp::Minus, num(2))).is_none());
    assert!(eval(&bin(num(u64::MAX), BinaryOp::Plus, num(1))).is_none());
    assert!(eval(&bin(num(1 << 40), BinaryOp::Times, num(1 << 40))).is_none());
    assert!(eval(&bin(num(2), BinaryOp::Power, num(64))).is_none());
    assert!(eval(&bin(num(1), BinaryOp::LeftShift, num(64))).is_none());
}

#[test]
fn unary_operators() {
    let minus = ConstantExpr::UnaryOp(UnaryOp::Minus, Box::new(num(1)), None);
    assert_eq!(value_of(&minus), Integer { width: 32, value: u64::MAX });
    let not = ConstantExpr::UnaryOp(UnaryOp::Not, Box::new(num(0)), None);
    assert_eq!(value_of(&not).value, u64::MAX);
    let plus = ConstantExpr::UnaryOp(UnaryOp::Plus, Box::new(num(5)), None);
    assert_eq!(value_of(&plus).value, 5);
    let minus_zero = ConstantExpr::UnaryOp(UnaryOp::Minus, Box::new(num(0)), None);
    assert!(eval(&minus_zero).is_none());
    let reduce = ConstantExpr::UnaryOp(UnaryOp::Xor, Box::new(num(5)), None);
    match eval(&reduce) {
        Some(Err(RdlError::UnsupportedUnaryOp(UnaryOp::Xor))) => {},
        other => panic!("unexpected {:?}", other),
    }
}

#[test]
fn ternary_selects_on_a_one_bit_condition() {
    let cond = |c: u64| {
        ConstantExpr::ConstantPrimary(
            ConstantPrimary::Base(ConstantPrimaryBase::PrimaryLiteral(PrimaryLiteral::Bits(
                Bits::new(1, c).unwrap(),
            ))),
            Some(Box::new(ConstantExprContinue::TernaryOp(Box::new(num(10)), Box::new(num(20)), None))),
        )
    };
    assert_eq!(value_of(&cond(1)).value, 10);
    assert_eq!(value_of(&cond(0)).value, 20);
    let wide = ConstantExpr::ConstantPrimary(
        ConstantPrimary::Base(ConstantPrimaryBase::PrimaryLiteral(PrimaryLiteral::Number(1))),
        Some(Box::new(ConstantExprContinue::TernaryOp(Box::new(num(10)), Box::new(num(20)), None))),
    );
    match eval(&wide) {
        Some(Err(RdlError::NonBooleanTernaryCondition)) => {},
        other => panic!("unexpected {:?}", other),
    }
}

#[test]
fn non_integer_operands_are_rejected() {
    match eval(&string("x")) {
        Some(Err(RdlError::UnsupportedIntegerLiteral(PrimaryLiteral::StringLiteral(s)))) => assert_eq!(s, "x"),
        other => panic!("unexpected {:?}", other),
    }
    let reference = ConstantExpr::ConstantPrimary(
        ConstantPrimary::Base(ConstantPrimaryBase::InstanceOrPropRef(InstanceOrPropRef {
            path: vec!["a".to_string()],
            property: None,
        })),
        None,
    );
    match eval(&reference) {
        Some(Err(RdlError::ReferenceInIntegerContext)) => {},
        other => panic!("unexpected {:?}", other),
    }
    let cast = ConstantExpr::ConstantPrimary(
        ConstantPrimary::Cast(ConstantPrimaryBase::PrimaryLiteral(PrimaryLiteral::Number(1)), Box::new(num(8))),
        None,
    );
    match eval(&cast) {
        Some(Err(RdlError::CastNotSupported)) => {},
        other => panic!("unexpected {:?}", other),
    }
}

#[test]
fn parenthesised_expressions() {
    let inner = bin(num(2), BinaryOp::Plus, num(3));
    let e = bin(inner, BinaryOp::Times, num(4));
    assert_eq!(value_of(&e).value, 20);
}

#[test]
fn string_values() {
    let w = World::new();
    assert_eq!(w.evaluate_constant_expr_str(&string("hello")).unwrap(), "hello");
    match w.evaluate_constant_expr_str(&num(1)) {
        Err(RdlError::UnsupportedStringLiteral(PrimaryLiteral::Number(1))) => {},
        other => panic!("unexpected {:?}", other),
    }
    match w.evaluate_constant_expr_str(&bin(string("a"), BinaryOp::Plus, string("b"))) {
        Err(RdlError::ComplexStringExpression) => {},
        other => panic!("unexpected {:?}", other),
    }
}

#[test]
fn powers() {
    assert_eq!(checked_power(3, 4), Some(81));
    assert_eq!(checked_power(0, 0), Some(1));
    assert_eq!(checked_power(0, 5), Some(0));
    assert_eq!(checked_power(1, 1_000_000), Some(1));
    assert_eq!(checked_power(2, 63), Some(1 << 63));
    assert_eq!(checked_power(2, 64), None);
}

#[test]
fn integer_add_keeps_width() {
    assert_eq!(Integer { width: 8, value: 3 }.add(4), Integer { width: 8, value: 7 });
}

fn base(b: ConstantPrimaryBase) -> ConstantExpr {
    ConstantExpr::ConstantPrimary(ConstantPrimary::Base(b), None)
}

#[test]
fn other_operand_forms_are_rejected_as_integers() {
    match eval(&base(ConstantPrimaryBase::StructLiteral("s".to_string()))) {
        Some(Err(RdlError::StructLiteralInIntegerContext)) => {},
        other => panic!("unexpected {:?}", other),
    }
    match eval(&base(ConstantPrimaryBase::ArrayLiteral)) {
        Some(Err(RdlError::ArrayLiteralInIntegerContext)) => {},
        other => panic!("unexpected {:?}", other),
    }
    match eval(&base(ConstantPrimaryBase::SimpleTypeCast)) {
        Some(Err(RdlError::SimpleTypeCastInIntegerContext)) => {},
        other => panic!("unexpected {:?}", other),
    }
    match eval(&base(ConstantPrimaryBase::BooleanCast)) {
        Some(Err(RdlError::BooleanCastInIntegerContext)) => {},
        other => panic!("unexpected {:?}", other),
    }
    match eval(&base(ConstantPrimaryBase::ConstantConcat)) {
        Some(Err(RdlError::IntegerConcatenation)) => {},
        other => panic!("unexpected {:?}", other),
    }
    match eval(&base(ConstantPrimaryBase::ConstantMultipleConcat)) {
        Some(Err(RdlError::IntegerMultipleConcatenation)) => {},
        other => panic!("unexpected {:?}", other),
    }
    // an error in the right operand is reported
    match eval(&bin(num(1), BinaryOp::Plus, base(ConstantPrimaryBase::ArrayLiteral))) {
        Some(Err(RdlError::ArrayLiteralInIntegerContext)) => {},
        other => panic!("unexpected {:?}", other),
    }
}

#[test]
fn other_string_forms_are_rejected() {
    let w = World::new();
    match w.evaluate_constant_expr_str(&base(ConstantPrimaryBase::ArrayLiteral)) {
        Err(RdlError::UnsupportedStringExpression) => {},
        other => panic!("unexpected {:?}", other),
    }
    let cast = ConstantExpr::ConstantPrimary(
        ConstantPrimary::Cast(
            ConstantPrimaryBase::PrimaryLiteral(PrimaryLiteral::StringLiteral("a".to_string())),
            Box::new(num(8)),
        ),
        None,
    );
    match w.evaluate_constant_expr_str(&cast) {
        Err(RdlError::StringCastNotSupported) => {},
        other => panic!("unexpected {:?}", other),
    }
    let negated = ConstantExpr::UnaryOp(UnaryOp::Minus, Box::new(string("a")), None);
    match w.evaluate_constant_expr_str(&negated) {
        Err(RdlError::UnsupportedStringUnaryOp(UnaryOp::Minus)) => {},
        other => panic!("unexpected {:?}", other),
    }
}

fn assign(id: IdentityOrPropKeyword, rhs: Option<PropAssignmentRhs>) -> PropertyAssignment {
    PropertyAssignment::ExplicitOrDefaultPropAssignment(
        ExplicitOrDefaultPropAssignment::ExplicitPropAssignment(
            false,
            ExplicitPropertyAssignment::Assignment(id, rhs),
        ),
    )
}

#[test]
fn property_assignments() {
    let w = World::new();
    let name = assign(
        IdentityOrPropKeyword::Id("name".to_string()),
        Some(PropAssignmentRhs::ConstantExpr(string("Control"))),
    );
    match w.evaluate_property(&name) {
        Some(Some((k, StringOrInt::String(v)))) => {
            assert_eq!(k, "name");
            assert_eq!(v, "Control");
        },
        other => panic!("unexpected {:?}", other),
    }
    let reset = assign(
        IdentityOrPropKeyword::PropKeyword("reset".to_string()),
        Some(PropAssignmentRhs::ConstantExpr(bits(4, 9))),
    );
    match w.evaluate_property(&reset) {
        Some(Some((k, StringOrInt::Int(v)))) => {
            assert_eq!(k, "reset");
            assert_eq!(v, Integer { width: 4, value: 9 });
        },
        other => panic!("unexpected {:?}", other),
    }
    let encode = PropertyAssignment::ExplicitOrDefaultPropAssignment(
        ExplicitOrDefaultPropAssignment::ExplicitPropAssignment(
            true,
            ExplicitPropertyAssignment::EncodeAssignment("modes".to_string()),
        ),
    );
    match w.evaluate_property(&encode) {
        Some(Some((k, StringOrInt::String(v)))) => {
            assert_eq!(k, "encode");
            assert_eq!(v, "modes");
        },
        other => panic!("unexpected {:?}", other),
    }
    // a value that is neither a string nor an integer records nothing
    let reference = assign(
        IdentityOrPropKeyword::Id("next".to_string()),
        Some(PropAssignmentRhs::ConstantExpr(base(ConstantPrimaryBase::InstanceOrPropRef(
            InstanceOrPropRef { path: vec!["a".to_string()], property: None },
        )))),
    );
    assert!(matches!(w.evaluate_property(&reference), Some(None)));
}

#[test]
fn unimplemented_property_forms_give_none() {
    let w = World::new();
    let modifier = PropertyAssignment::ExplicitOrDefaultPropAssignment(
        ExplicitOrDefaultPropAssignment::ExplicitPropModifier(
            false,
            ExplicitPropModifier { modifier: InterruptType::PosEdge, id: "intr".to_string() },
        ),
    );
    assert!(w.evaluate_property(&modifier).is_none());
    let no_value = assign(IdentityOrPropKeyword::Id("hw".to_string()), None);
    assert!(w.evaluate_property(&no_value).is_none());
    let precedence = assign(
        IdentityOrPropKeyword::PropKeyword("precedence".to_string()),
        Some(PropAssignmentRhs::PrecedenceType(PrecedenceType::Hw)),
    );
    assert!(w.evaluate_property(&precedence).is_none());
    let post = PropertyAssignment::PostPropAssignment(PostPropAssignment {
        target: InstanceOrPropRef { path: vec!["r".to_string()], property: Some("reset".to_string()) },
        rhs: Some(PropAssignmentRhs::ConstantExpr(num(0))),
    });
    assert!(w.evaluate_property(&post).is_none());
    // an undefined evaluation
    let overflow = assign(
        IdentityOrPropKeyword::Id("x".to_string()),
        Some(PropAssignmentRhs::ConstantExpr(bin(num(1), BinaryOp::Divide, num(0)))),
    );
    assert!(w.evaluate_property(&overflow).is_none());
}

#[test]
fn enumerations_count_up_from_the_last_value() {
    let w = World::new();
    let e = EnumDef {
        id: "e".to_string(),
        body: vec![
            EnumEntry { id: "a".to_string(), expr: None },
            EnumEntry { id: "b".to_string(), expr: None },
            EnumEntry { id: "c".to_string(), expr: Some(bits(4, 7)) },
            EnumEntry { id: "d".to_string(), expr: None },
        ],
    };
    let en = w.parse_enum(&e).unwrap().unwrap();
    assert_eq!(en.name, "e");
    let values: Vec<(String, Integer)> = en.values.iter().map(|v| (v.name.clone(), v.value)).collect();
    assert_eq!(
        values,
        vec![
            ("a".to_string(), Integer { width: 32, value: 0 }),
            ("b".to_string(), Integer { width: 32, value: 1 }),
            ("c".to_string(), Integer { width: 4, value: 7 }),
            ("d".to_string(), Integer { width: 4, value: 8 }),
        ]
    );
    let bad = EnumDef {
        id: "bad".to_string(),
        body: vec![EnumEntry { id: "a".to_string(), expr: Some(string("s")) }],
    };
    assert!(matches!(w.parse_enum(&bad), Some(Err(RdlError::UnsupportedIntegerLiteral(_)))));
    let past_the_end = EnumDef {
        id: "big".to_string(),
        body: vec![
            EnumEntry { id: "a".to_string(), expr: Some(num(u64::MAX)) },
            EnumEntry { id: "b".to_string(), expr: None },
        ],
    };
    assert!(w.parse_enum(&past_the_end).is_none());
}
