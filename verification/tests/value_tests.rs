use mcu_registers_generator_new::ast::{AccessType, AddressingType, InterruptType};
use mcu_registers_generator_new::error::RdlError;
use mcu_registers_generator_new::bits::Bits;
use mcu_registers_generator_new::value::{PropertyType, Value};

#[test]
fn property_type_of_each_variant() {
    assert_eq!(Value::U64(3).property_type(), PropertyType::U64);
    assert_eq!(Value::Bool(true).property_type(), PropertyType::Boolean);
    assert_eq!(Value::Bits(Bits::new(4, 5).unwrap()).property_type(), PropertyType::Bits);
    assert_eq!(Value::String("x".to_string()).property_type(), PropertyType::String);
}

#[test]
fn property_type_of_the_other_variants() {
    assert_eq!(Value::AccessType(AccessType::Rw).property_type(), PropertyType::AccessType);
    assert_eq!(
        Value::AddressingType(AddressingType::Compact).property_type(),
        PropertyType::AddressingType
    );
    assert_eq!(
        Value::InterruptType(InterruptType::Level).property_type(),
        PropertyType::FieldInterrupt
    );
    assert_eq!(
        Value::EnumReference("e".to_string(), "a".to_string()).property_type(),
        PropertyType::EnumReference
    );
}

#[test]
fn integral_values() {
    assert!(Value::U64(0).is_integral());
    assert!(Value::Bool(false).is_integral());
    assert!(Value::Bits(Bits::new(1, 1).unwrap()).is_integral());
    assert!(!Value::String("0".to_string()).is_integral());
}

#[test]
fn zero_and_truth() {
    assert!(Value::U64(0).is_zero());
    assert!(!Value::U64(7).is_zero());
    assert!(Value::Bool(false).is_zero());
    assert!(Value::Bits(Bits::new(8, 0).unwrap()).is_zero());
    assert!(!Value::String(String::new()).is_zero());
    assert!(Value::U64(7).as_bool());
    assert!(!Value::U64(0).as_bool());
    assert!(Value::Bool(true).as_bool());
    assert!(Value::Bits(Bits::new(8, 2).unwrap()).as_bool());
    assert!(!Value::String("x".to_string()).as_bool());
    match Value::U64(0).logical_not() {
        Value::Bool(b) => assert!(b),
        _ => panic!("not a boolean"),
    }
    match Value::U64(9).logical_not() {
        Value::Bool(b) => assert!(!b),
        _ => panic!("not a boolean"),
    }
}

#[test]
fn usable_as_boolean() {
    assert!(Value::U64(1).is_bool());
    assert!(Value::U64(0).is_bool());
    assert!(!Value::U64(2).is_bool());
    assert!(Value::Bool(true).is_bool());
    assert!(Value::Bits(Bits::new(1, 0).unwrap()).is_bool());
    assert!(!Value::Bits(Bits::new(2, 0).unwrap()).is_bool());
    assert!(!Value::String("true".to_string()).is_bool());
}

#[test]
fn complement_and_negation() {
    match Value::U64(0).not() {
        Value::U64(v) => assert_eq!(v, u64::MAX),
        _ => panic!("wrong variant"),
    }
    match Value::U64(5).neg() {
        Value::U64(v) => assert_eq!(v, 5u64.wrapping_neg()),
        _ => panic!("wrong variant"),
    }
    match Value::Bool(true).not() {
        Value::Bool(b) => assert!(!b),
        _ => panic!("wrong variant"),
    }
    match Value::Bits(Bits::new(4, 0b1010).unwrap()).not() {
        Value::Bits(b) => {
            assert_eq!(b.w(), 4);
            assert_eq!(b.val(), 0b0101);
        },
        _ => panic!("wrong variant"),
    }
    match Value::Bits(Bits::new(4, 3).unwrap()).neg() {
        Value::Bits(b) => {
            assert_eq!(b.w(), 4);
            assert_eq!(b.val(), 13);
        },
        _ => panic!("wrong variant"),
    }
    // twice gives the value back
    match Value::Bits(Bits::new(4, 3).unwrap()).neg().neg() {
        Value::Bits(b) => assert_eq!(b.val(), 3),
        _ => panic!("wrong variant"),
    }
    match Value::U64(12345).not().not() {
        Value::U64(v) => assert_eq!(v, 12345),
        _ => panic!("wrong variant"),
    }
}

#[test]
fn bit_literals_must_fit_their_width() {
    assert!(Bits::new(0, 0).is_none());
    assert!(Bits::new(65, 0).is_none());
    assert!(Bits::new(3, 8).is_none());
    assert!(Bits::new(3, 7).is_some());
    assert_eq!(Bits::new(64, u64::MAX).unwrap().val(), u64::MAX);
    assert_eq!(Bits::new(64, 0).unwrap().not().val(), u64::MAX);
}

#[test]
fn from_then_try_from_gives_the_value_back() {
    assert_eq!(u64::try_from(Value::from(42u64)).unwrap(), 42);
    assert!(bool::try_from(Value::from(true)).unwrap());
    let b = Bits::new(3, 5).unwrap();
    assert_eq!(Bits::try_from(Value::from(b)).unwrap(), b);
    assert_eq!(String::try_from(Value::from("abc".to_string())).unwrap(), "abc");
    assert!(matches!(
        AddressingType::try_from(Value::from(AddressingType::FullAlign)).unwrap(),
        AddressingType::FullAlign
    ));
    assert!(matches!(AccessType::try_from(Value::from(AccessType::R)).unwrap(), AccessType::R));
}

#[test]
fn try_from_rejects_other_types() {
    match u64::try_from(Value::Bool(true)) {
        Err(RdlError::UnexpectedPropertyType { expected, found: Value::Bool(true) }) => {
            assert_eq!(expected, PropertyType::U64)
        },
        other => panic!("unexpected {:?}", other),
    }
    match bool::try_from(Value::U64(1)) {
        Err(RdlError::UnexpectedPropertyType { expected, found: Value::U64(1) }) => {
            assert_eq!(expected, PropertyType::Boolean)
        },
        other => panic!("unexpected {:?}", other),
    }
    match String::try_from(Value::U64(1)) {
        Err(RdlError::UnexpectedPropertyType { expected, .. }) => {
            assert_eq!(expected, PropertyType::String)
        },
        other => panic!("unexpected {:?}", other),
    }
    match Bits::try_from(Value::U64(1)) {
        Err(RdlError::UnexpectedPropertyType { expected, .. }) => {
            assert_eq!(expected, PropertyType::Bits)
        },
        other => panic!("unexpected {:?}", other),
    }
}

#[test]
fn text_becomes_a_string_value() {
    match Value::from("abc") {
        Value::String(s) => assert_eq!(s, "abc"),
        other => panic!("unexpected {:?}", other),
    }
}
