//! Property values and their types.

use vstd::prelude::*;
use vstd::std_specs::convert::{FromSpec, FromSpecImpl, TryFromSpec, TryFromSpecImpl};
use vstd::string::*;
use crate::ast::{
    AccessType, AddressingType, InstanceOrPropRef, InterruptType, OnReadType, OnWriteType,
    PrecedenceType,
};
use crate::bits::{wrapping_neg_u64, Bits};
use crate::error::RdlError;

verus! {

/// The value of a component property.
#[derive(Clone, Debug)]
pub enum Value {
    U64(u64),
    Bool(bool),
    Bits(Bits),
    String(String),
    EnumReference(String, String),
    InstanceOrPropRef(InstanceOrPropRef),
    PrecedenceType(PrecedenceType),
    AccessType(AccessType),
    OnReadType(OnReadType),
    OnWriteType(OnWriteType),
    AddressingType(AddressingType),
    InterruptType(InterruptType),
}

/// The type a property is declared with.
#[derive(Clone, Copy, Debug, PartialEq, Eq, Structural)]
pub enum PropertyType {
    U64,
    Bits,
    Boolean,
    BooleanOrReference,
    BitOrReference,
    EnumReference,
    /// Has posedge | negedge | bothedge | level | nonsticky modifiers.
    FieldInterrupt,
    PrecedenceType,
    String,
    AccessType,
    InstanceOrPropRef,
    OnReadType,
    OnWriteType,
    AddressingType,
}

impl Value {
    /// The property type a value of this variant has.
    pub open spec fn property_type_spec(self) -> PropertyType {
        match self {
            Value::U64(_) => PropertyType::U64,
            Value::Bool(_) => PropertyType::Boolean,
            Value::Bits(_) => PropertyType::Bits,
            Value::String(_) => PropertyType::String,
            Value::EnumReference(_, _) => PropertyType::EnumReference,
            Value::InstanceOrPropRef(_) => PropertyType::InstanceOrPropRef,
            Value::PrecedenceType(_) => PropertyType::PrecedenceType,
            Value::AccessType(_) => PropertyType::AccessType,
            Value::OnReadType(_) => PropertyType::OnReadType,
            Value::OnWriteType(_) => PropertyType::OnWriteType,
            Value::AddressingType(_) => PropertyType::AddressingType,
            Value::InterruptType(_) => PropertyType::FieldInterrupt,
        }
    }

    /// Integers, booleans and bit literals are integral.
    pub open spec fn is_integral_spec(self) -> bool {
        self is U64 || self is Bool || self is Bits
    }

    /// An integral value equal to zero (`false` for booleans); never true
    /// of a non-integral value.
    pub open spec fn is_zero_spec(self) -> bool {
        match self {
            Value::U64(v) => v == 0,
            Value::Bool(v) => !v,
            Value::Bits(b) => b.value_spec() == 0,
            _ => false,
        }
    }

    /// Values usable as a boolean: booleans, integers 0 and 1, and one-bit
    /// literals.
    pub open spec fn is_bool_spec(self) -> bool {
        match self {
            Value::U64(v) => v <= 1,
            Value::Bits(b) => b.width_spec() == 1,
            Value::Bool(_) => true,
            _ => false,
        }
    }

    /// The truth value: the boolean itself, or whether an integer or bit
    /// literal is non-zero; `false` for non-integral values.
    pub open spec fn as_bool_spec(self) -> bool {
        match self {
            Value::Bool(v) => v,
            Value::U64(v) => v != 0,
            Value::Bits(b) => b.value_spec() != 0,
            _ => false,
        }
    }

    /// Bitwise complement of an integral value (logical negation of a boolean).
    pub open spec fn not_spec(self) -> Value {
        match self {
            Value::U64(v) => Value::U64(!v),
            Value::Bits(b) => Value::Bits(b.not_spec()),
            Value::Bool(v) => Value::Bool(!v),
            _ => self,
        }
    }

    /// Two's-complement negation of an integral value (logical negation of
    /// a boolean).
    pub open spec fn neg_spec(self) -> Value {
        match self {
            Value::U64(v) => Value::U64(wrapping_neg_u64(v)),
            Value::Bits(b) => Value::Bits(b.wrapping_neg_spec()),
            Value::Bool(v) => Value::Bool(!v),
            _ => self,
        }
    }

    /// A bit literal held by the value is well formed.
    pub open spec fn wf_spec(self) -> bool {
        match self {
            Value::Bits(b) => b.wf_spec(),
            _ => true,
        }
    }

    pub fn property_type(&self) -> (r: PropertyType)
        ensures
            r == self.property_type_spec(),
    {
        match self {
            Value::U64(_) => PropertyType::U64,
            Value::Bool(_) => PropertyType::Boolean,
            Value::Bits(_) => PropertyType::Bits,
            Value::String(_) => PropertyType::String,
            Value::EnumReference(_, _) => PropertyType::EnumReference,
            Value::InstanceOrPropRef(_) => PropertyType::InstanceOrPropRef,
            Value::PrecedenceType(_) => PropertyType::PrecedenceType,
            Value::AccessType(_) => PropertyType::AccessType,
            Value::OnReadType(_) => PropertyType::OnReadType,
            Value::OnWriteType(_) => PropertyType::OnWriteType,
            Value::AddressingType(_) => PropertyType::AddressingType,
            Value::InterruptType(_) => PropertyType::FieldInterrupt,
        }
    }

    pub fn is_integral(&self) -> (r: bool)
        ensures
            r == self.is_integral_spec(),
    {
        match self {
            Value::U64(_) => true,
            Value::Bool(_) => true,
            Value::Bits(_) => true,
            _ => false,
        }
    }

    pub fn is_zero(&self) -> (r: bool)
        ensures
            r == self.is_zero_spec(),
    {
        match self {
            Value::U64(v) => *v == 0,
            Value::Bool(v) => *v == false,
            Value::Bits(v) => v.val() == 0,
            _ => false,
        }
    }

    /// `true` exactly when the value is zero.
    pub fn logical_not(&self) -> (r: Value)
        ensures
            r == Value::Bool(self.is_zero_spec()),
    {
        if self.is_zero() {
            Value::Bool(true)
        } else {
            Value::Bool(false)
        }
    }

    pub fn is_bool(&self) -> (r: bool)
        ensures
            r == self.is_bool_spec(),
    {
        match self {
            Value::U64(v) => *v <= 1,
            Value::Bits(b) => b.w() == 1,
            Value::Bool(_) => true,
            _ => false,
        }
    }

    pub fn as_bool(&self) -> (r: bool)
        ensures
            r == self.as_bool_spec(),
    {
        match self {
            Value::Bool(v) => *v,
            Value::U64(v) => *v != 0,
            Value::Bits(b) => b.val() != 0,
            _ => false,
        }
    }

    /// Bitwise complement; only integral values have one.
    pub fn not(self) -> (r: Value)
        requires
            self.is_integral_spec(),
        ensures
            r == self.not_spec(),
    {
        match self {
            Value::U64(v) => Value::U64(!v),
            Value::Bits(v) => Value::Bits(v.not()),
            Value::Bool(v) => Value::Bool(!v),
            _ => self,
        }
    }

    /// Two's-complement negation; only integral values have one.
    pub fn neg(self) -> (r: Value)
        requires
            self.is_integral_spec(),
        ensures
            r == self.neg_spec(),
    {
        match self {
            Value::U64(v) => Value::U64(crate::bits::wrapping_neg_of(v)),
            Value::Bits(v) => Value::Bits(v.wrapping_neg()),
            Value::Bool(v) => Value::Bool(!v),
            _ => self,
        }
    }
}

/// A value that can be used as a boolean is integral.
pub proof fn law_bool_is_integral(v: Value)
    ensures
        v.is_bool_spec() ==> v.is_integral_spec(),
{
}

/// For integral values the truth value is "not zero".
pub proof fn law_as_bool_is_not_zero(v: Value)
    requires
        v.is_integral_spec(),
    ensures
        v.as_bool_spec() == !v.is_zero_spec(),
{
}

/// Complement and negation keep the property type of an integral value.
pub proof fn law_not_neg_keep_type(v: Value)
    requires
        v.is_integral_spec(),
    ensures
        v.not_spec().property_type_spec() == v.property_type_spec(),
        v.neg_spec().property_type_spec() == v.property_type_spec(),
        v.not_spec().is_integral_spec(),
        v.neg_spec().is_integral_spec(),
{
}

/// Complementing an integral value twice gives it back.
pub proof fn law_not_involution(v: Value)
    requires
        v.is_integral_spec(),
        v.wf_spec(),
    ensures
        v.not_spec().not_spec() == v,
{
    if let Value::Bits(b) = v {
        b.lemma_not_involution();
    } else if let Value::U64(x) = v {
        assert(!!x == x) by (bit_vector);
    }
}

/// Negating an integral value twice gives it back.
pub proof fn law_neg_involution(v: Value)
    requires
        v.is_integral_spec(),
        v.wf_spec(),
    ensures
        v.neg_spec().neg_spec() == v,
{
    if let Value::Bits(b) = v {
        b.lemma_neg_involution();
    }
}

impl From<u64> for Value {
    fn from(val: u64) -> Value {
        Value::U64(val)
    }
}

impl FromSpecImpl<u64> for Value {
    open spec fn obeys_from_spec() -> bool {
        true
    }

    open spec fn from_spec(v: u64) -> Value {
        Value::U64(v)
    }
}

impl From<bool> for Value {
    fn from(val: bool) -> Value {
        Value::Bool(val)
    }
}

impl FromSpecImpl<bool> for Value {
    open spec fn obeys_from_spec() -> bool {
        true
    }

    open spec fn from_spec(v: bool) -> Value {
        Value::Bool(v)
    }
}

impl From<Bits> for Value {
    fn from(val: Bits) -> Value {
        Value::Bits(val)
    }
}

impl FromSpecImpl<Bits> for Value {
    open spec fn obeys_from_spec() -> bool {
        true
    }

    open spec fn from_spec(v: Bits) -> Value {
        Value::Bits(v)
    }
}

impl From<String> for Value {
    fn from(val: String) -> Value {
        Value::String(val)
    }
}

impl FromSpecImpl<String> for Value {
    open spec fn obeys_from_spec() -> bool {
        true
    }

    open spec fn from_spec(v: String) -> Value {
        Value::String(v)
    }
}

impl<'a> From<&'a str> for Value {
    /// A string value with the text of `val`.
    fn from(val: &'a str) -> (r: Value)
        ensures
            r matches Value::String(s) && s@ == val@,
    {
        Value::String(String::from_str(val))
    }
}

impl<'a> FromSpecImpl<&'a str> for Value {
    /// A `String` is known only by its text, so no single value is named
    /// here; `from` states the text of the string it gives.
    open spec fn obeys_from_spec() -> bool {
        false
    }

    open spec fn from_spec(v: &'a str) -> Value {
        Value::String(choose|s: String| s@ == v@)
    }
}

impl From<PrecedenceType> for Value {
    fn from(val: PrecedenceType) -> Value {
        Value::PrecedenceType(val)
    }
}

impl FromSpecImpl<PrecedenceType> for Value {
    open spec fn obeys_from_spec() -> bool {
        true
    }

    open spec fn from_spec(v: PrecedenceType) -> Value {
        Value::PrecedenceType(v)
    }
}

impl From<AccessType> for Value {
    fn from(val: AccessType) -> Value {
        Value::AccessType(val)
    }
}

impl FromSpecImpl<AccessType> for Value {
    open spec fn obeys_from_spec() -> bool {
        true
    }

    open spec fn from_spec(v: AccessType) -> Value {
        Value::AccessType(v)
    }
}

impl From<OnReadType> for Value {
    fn from(val: OnReadType) -> Value {
        Value::OnReadType(val)
    }
}

impl FromSpecImpl<OnReadType> for Value {
    open spec fn obeys_from_spec() -> bool {
        true
    }

    open spec fn from_spec(v: OnReadType) -> Value {
        Value::OnReadType(v)
    }
}

impl From<OnWriteType> for Value {
    fn from(val: OnWriteType) -> Value {
        Value::OnWriteType(val)
    }
}

impl FromSpecImpl<OnWriteType> for Value {
    open spec fn obeys_from_spec() -> bool {
        true
    }

    open spec fn from_spec(v: OnWriteType) -> Value {
        Value::OnWriteType(v)
    }
}

impl From<AddressingType> for Value {
    fn from(val: AddressingType) -> Value {
        Value::AddressingType(val)
    }
}

impl FromSpecImpl<AddressingType> for Value {
    open spec fn obeys_from_spec() -> bool {
        true
    }

    open spec fn from_spec(v: AddressingType) -> Value {
        Value::AddressingType(v)
    }
}

impl From<InterruptType> for Value {
    fn from(val: InterruptType) -> Value {
        Value::InterruptType(val)
    }
}

impl FromSpecImpl<InterruptType> for Value {
    open spec fn obeys_from_spec() -> bool {
        true
    }

    open spec fn from_spec(v: InterruptType) -> Value {
        Value::InterruptType(v)
    }
}

/// The error for a value that is not of the `expected` property type.
pub open spec fn mismatch(expected: PropertyType, found: Value) -> RdlError {
    RdlError::UnexpectedPropertyType { expected, found }
}

impl TryFrom<Value> for u64 {
    type Error = RdlError;

    fn try_from(value: Value) -> Result<u64, RdlError> {
        match value {
            Value::U64(v) => Ok(v),
            _ => Err(RdlError::UnexpectedPropertyType { expected: PropertyType::U64, found: value }),
        }
    }
}

impl TryFromSpecImpl<Value> for u64 {
    open spec fn obeys_try_from_spec() -> bool {
        true
    }

    open spec fn try_from_spec(v: Value) -> Result<u64, RdlError> {
        match v {
            Value::U64(x) => Ok(x),
            _ => Err(mismatch(PropertyType::U64, v)),
        }
    }
}

impl TryFrom<Value> for bool {
    type Error = RdlError;

    fn try_from(value: Value) -> Result<bool, RdlError> {
        match value {
            Value::Bool(v) => Ok(v),
            _ => Err(
                RdlError::UnexpectedPropertyType { expected: PropertyType::Boolean, found: value },
            ),
        }
    }
}

impl TryFromSpecImpl<Value> for bool {
    open spec fn obeys_try_from_spec() -> bool {
        true
    }

    open spec fn try_from_spec(v: Value) -> Result<bool, RdlError> {
        match v {
            Value::Bool(x) => Ok(x),
            _ => Err(mismatch(PropertyType::Boolean, v)),
        }
    }
}

impl TryFrom<Value> for Bits {
    type Error = RdlError;

    fn try_from(value: Value) -> Result<Bits, RdlError> {
        match value {
            Value::Bits(v) => Ok(v),
            _ => Err(RdlError::UnexpectedPropertyType { expected: PropertyType::Bits, found: value }),
        }
    }
}

impl TryFromSpecImpl<Value> for Bits {
    open spec fn obeys_try_from_spec() -> bool {
        true
    }

    open spec fn try_from_spec(v: Value) -> Result<Bits, RdlError> {
        match v {
            Value::Bits(x) => Ok(x),
            _ => Err(mismatch(PropertyType::Bits, v)),
        }
    }
}

impl TryFrom<Value> for String {
    type Error = RdlError;

    fn try_from(value: Value) -> Result<String, RdlError> {
        match value {
            Value::String(v) => Ok(v),
            _ => Err(
                RdlError::UnexpectedPropertyType { expected: PropertyType::String, found: value },
            ),
        }
    }
}

impl TryFromSpecImpl<Value> for String {
    open spec fn obeys_try_from_spec() -> bool {
        true
    }

    open spec fn try_from_spec(v: Value) -> Result<String, RdlError> {
        match v {
            Value::String(x) => Ok(x),
            _ => Err(mismatch(PropertyType::String, v)),
        }
    }
}

impl TryFrom<Value> for AddressingType {
    type Error = RdlError;

    fn try_from(value: Value) -> Result<AddressingType, RdlError> {
        match value {
            Value::AddressingType(v) => Ok(v),
            _ => Err(
                RdlError::UnexpectedPropertyType {
                    expected: PropertyType::AddressingType,
                    found: value,
                },
            ),
        }
    }
}

impl TryFromSpecImpl<Value> for AddressingType {
    open spec fn obeys_try_from_spec() -> bool {
        true
    }

    open spec fn try_from_spec(v: Value) -> Result<AddressingType, RdlError> {
        match v {
            Value::AddressingType(x) => Ok(x),
            _ => Err(mismatch(PropertyType::AddressingType, v)),
        }
    }
}

impl TryFrom<Value> for AccessType {
    type Error = RdlError;

    fn try_from(value: Value) -> Result<AccessType, RdlError> {
        match value {
            Value::AccessType(v) => Ok(v),
            _ => Err(
                RdlError::UnexpectedPropertyType { expected: PropertyType::AccessType, found: value },
            ),
        }
    }
}

impl TryFromSpecImpl<Value> for AccessType {
    open spec fn obeys_try_from_spec() -> bool {
        true
    }

    open spec fn try_from_spec(v: Value) -> Result<AccessType, RdlError> {
        match v {
            Value::AccessType(x) => Ok(x),
            _ => Err(mismatch(PropertyType::AccessType, v)),
        }
    }
}

/// Putting a plain value into a `Value` and taking it out again gives it
/// back.
pub proof fn law_try_from_undoes_from(
    n: u64,
    b: bool,
    bits: Bits,
    s: String,
    addressing: AddressingType,
    access: AccessType,
)
    ensures
        <u64 as TryFromSpec<Value>>::try_from_spec(<Value as FromSpec<u64>>::from_spec(n))
            == Ok::<u64, RdlError>(n),
        <bool as TryFromSpec<Value>>::try_from_spec(<Value as FromSpec<bool>>::from_spec(b))
            == Ok::<bool, RdlError>(b),
        <Bits as TryFromSpec<Value>>::try_from_spec(<Value as FromSpec<Bits>>::from_spec(bits))
            == Ok::<Bits, RdlError>(bits),
        <String as TryFromSpec<Value>>::try_from_spec(<Value as FromSpec<String>>::from_spec(s))
            == Ok::<String, RdlError>(s),
        <AddressingType as TryFromSpec<Value>>::try_from_spec(
            <Value as FromSpec<AddressingType>>::from_spec(addressing),
        ) == Ok::<AddressingType, RdlError>(addressing),
        <AccessType as TryFromSpec<Value>>::try_from_spec(
            <Value as FromSpec<AccessType>>::from_spec(access),
        ) == Ok::<AccessType, RdlError>(access),
{
}

/// A value converts into a plain type exactly when its property type is
/// that type; otherwise the error names the expected type and the value.
pub proof fn law_try_from_checks_property_type(v: Value)
    ensures
        <u64 as TryFromSpec<Value>>::try_from_spec(v) is Ok <==> v.property_type_spec()
            == PropertyType::U64,
        <bool as TryFromSpec<Value>>::try_from_spec(v) is Ok <==> v.property_type_spec()
            == PropertyType::Boolean,
        <Bits as TryFromSpec<Value>>::try_from_spec(v) is Ok <==> v.property_type_spec()
            == PropertyType::Bits,
        <String as TryFromSpec<Value>>::try_from_spec(v) is Ok <==> v.property_type_spec()
            == PropertyType::String,
        <AddressingType as TryFromSpec<Value>>::try_from_spec(v) is Ok <==> v.property_type_spec()
            == PropertyType::AddressingType,
        <AccessType as TryFromSpec<Value>>::try_from_spec(v) is Ok <==> v.property_type_spec()
            == PropertyType::AccessType,
        v.property_type_spec() != PropertyType::U64 ==> <u64 as TryFromSpec<Value>>::try_from_spec(
            v,
        ) == Err::<u64, RdlError>(mismatch(PropertyType::U64, v)),
        v.property_type_spec() != PropertyType::Boolean ==> <bool as TryFromSpec<
            Value,
        >>::try_from_spec(v) == Err::<bool, RdlError>(mismatch(PropertyType::Boolean, v)),
        v.property_type_spec() != PropertyType::Bits ==> <Bits as TryFromSpec<
            Value,
        >>::try_from_spec(v) == Err::<Bits, RdlError>(mismatch(PropertyType::Bits, v)),
        v.property_type_spec() != PropertyType::String ==> <String as TryFromSpec<
            Value,
        >>::try_from_spec(v) == Err::<String, RdlError>(mismatch(PropertyType::String, v)),
        v.property_type_spec() != PropertyType::AddressingType ==> <AddressingType as TryFromSpec<
            Value,
        >>::try_from_spec(v) == Err::<AddressingType, RdlError>(
            mismatch(PropertyType::AddressingType, v),
        ),
        v.property_type_spec() != PropertyType::AccessType ==> <AccessType as TryFromSpec<
            Value,
        >>::try_from_spec(v) == Err::<AccessType, RdlError>(mismatch(PropertyType::AccessType, v)),
{
}

} // verus!
