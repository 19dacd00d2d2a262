//! Why a description could not be converted.

use vstd::prelude::*;
use crate::ast::{ComponentType, PrimaryLiteral, UnaryOp};
use crate::value::{PropertyType, Value};

verus! {

/// Everything that can reject a description or a property value.
#[derive(Debug)]
pub enum RdlError {
    /// A binary operator other than a shift got operands of different widths.
    IncompatibleWidths(u8, u8),
    /// The condition of `? :` is not one bit wide.
    NonBooleanTernaryCondition,
    /// A literal that has no integer value.
    UnsupportedIntegerLiteral(PrimaryLiteral),
    ReferenceInIntegerContext,
    StructLiteralInIntegerContext,
    ArrayLiteralInIntegerContext,
    SimpleTypeCastInIntegerContext,
    BooleanCastInIntegerContext,
    IntegerConcatenation,
    IntegerMultipleConcatenation,
    /// Width casts `'(expr)` are not evaluated.
    CastNotSupported,
    /// A reduction operator applied to an integer.
    UnsupportedUnaryOp(UnaryOp),
    /// A string value followed by an operator.
    ComplexStringExpression,
    /// A literal that has no string value.
    UnsupportedStringLiteral(PrimaryLiteral),
    /// An operand that is not a literal in a string context.
    UnsupportedStringExpression,
    StringCastNotSupported,
    UnsupportedStringUnaryOp(UnaryOp),
    /// A field instance with more than one array dimension.
    MultiDimensionalFieldArray,
    /// An instantiated type name that is not defined in scope.
    ComponentNotFound(String),
    /// An instantiated type name that is not defined in the scope of the
    /// named register file.
    ComponentNotFoundInRegfile(String, String),
    /// A component kind that cannot appear in an address map.
    UnsupportedComponentType(ComponentType),
    /// A property value of another type than the one asked for.
    UnexpectedPropertyType { expected: PropertyType, found: Value },
}

/// View of an error: names as character sequences.
pub enum ErrorView {
    /// A binary operator other than a shift got operands of different widths.
    IncompatibleWidths(u8, u8),
    /// The condition of `? :` is not one bit wide.
    NonBooleanTernaryCondition,
    /// A literal that has no integer value.
    UnsupportedIntegerLiteral(PrimaryLiteral),
    ReferenceInIntegerContext,
    StructLiteralInIntegerContext,
    ArrayLiteralInIntegerContext,
    SimpleTypeCastInIntegerContext,
    BooleanCastInIntegerContext,
    IntegerConcatenation,
    IntegerMultipleConcatenation,
    /// Width casts `'(expr)` are not evaluated.
    CastNotSupported,
    /// A reduction operator applied to an integer.
    UnsupportedUnaryOp(UnaryOp),
    /// A string value followed by an operator.
    ComplexStringExpression,
    /// A literal that has no string value.
    UnsupportedStringLiteral(PrimaryLiteral),
    /// An operand that is not a literal in a string context.
    UnsupportedStringExpression,
    StringCastNotSupported,
    UnsupportedStringUnaryOp(UnaryOp),
    /// A field instance with more than one array dimension.
    MultiDimensionalFieldArray,
    /// An instantiated type name that is not defined in scope.
    ComponentNotFound(Seq<char>),
    /// An instantiated type name that is not defined in the scope of the
    /// named register file.
    ComponentNotFoundInRegfile(Seq<char>, Seq<char>),
    /// A component kind that cannot appear in an address map.
    UnsupportedComponentType(ComponentType),
    /// A property value of another type than the one asked for.
    UnexpectedPropertyType { expected: PropertyType, found: Value },
}


impl View for RdlError {
    type V = ErrorView;

    open spec fn view(&self) -> ErrorView {
        match *self {
            RdlError::IncompatibleWidths(a0, a1) => ErrorView::IncompatibleWidths(a0, a1),
            RdlError::NonBooleanTernaryCondition => ErrorView::NonBooleanTernaryCondition,
            RdlError::UnsupportedIntegerLiteral(a0) => ErrorView::UnsupportedIntegerLiteral(a0),
            RdlError::ReferenceInIntegerContext => ErrorView::ReferenceInIntegerContext,
            RdlError::StructLiteralInIntegerContext => ErrorView::StructLiteralInIntegerContext,
            RdlError::ArrayLiteralInIntegerContext => ErrorView::ArrayLiteralInIntegerContext,
            RdlError::SimpleTypeCastInIntegerContext => ErrorView::SimpleTypeCastInIntegerContext,
            RdlError::BooleanCastInIntegerContext => ErrorView::BooleanCastInIntegerContext,
            RdlError::IntegerConcatenation => ErrorView::IntegerConcatenation,
            RdlError::IntegerMultipleConcatenation => ErrorView::IntegerMultipleConcatenation,
            RdlError::CastNotSupported => ErrorView::CastNotSupported,
            RdlError::UnsupportedUnaryOp(a0) => ErrorView::UnsupportedUnaryOp(a0),
            RdlError::ComplexStringExpression => ErrorView::ComplexStringExpression,
            RdlError::UnsupportedStringLiteral(a0) => ErrorView::UnsupportedStringLiteral(a0),
            RdlError::UnsupportedStringExpression => ErrorView::UnsupportedStringExpression,
            RdlError::StringCastNotSupported => ErrorView::StringCastNotSupported,
            RdlError::UnsupportedStringUnaryOp(a0) => ErrorView::UnsupportedStringUnaryOp(a0),
            RdlError::MultiDimensionalFieldArray => ErrorView::MultiDimensionalFieldArray,
            RdlError::ComponentNotFound(a0) => ErrorView::ComponentNotFound(a0@),
            RdlError::ComponentNotFoundInRegfile(a0, a1) => ErrorView::ComponentNotFoundInRegfile(a0@, a1@),
            RdlError::UnsupportedComponentType(a0) => ErrorView::UnsupportedComponentType(a0),
            RdlError::UnexpectedPropertyType { expected, found } => ErrorView::UnexpectedPropertyType { expected, found },
        }
    }
}

} // verus!
