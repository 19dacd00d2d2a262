//! The parts of a SystemRDL description that the generator reads: component
//! definitions and instantiations, enumerations, property assignments and
//! constant expressions.

use vstd::prelude::*;
use crate::bits::Bits;

verus! {

/// The kind of a component definition.
#[derive(Clone, Copy, Debug, PartialEq, Eq, Structural)]
pub enum ComponentType {
    Field,
    Reg,
    RegFile,
    AddrMap,
    Signal,
    Mem,
}

/// Binary operators of constant expressions.
#[derive(Clone, Copy, Debug, PartialEq, Eq, Structural)]
pub enum BinaryOp {
    AndAnd,
    OrOr,
    LessThan,
    GreaterThan,
    LessThanOrEqual,
    GreaterThanOrEqual,
    EqualsEquals,
    NotEquals,
    RightShift,
    LeftShift,
    And,
    Or,
    Xor,
    Xnor,
    Times,
    Divide,
    Modulus,
    Plus,
    Minus,
    Power,
}

/// Unary operators of constant expressions.
#[derive(Clone, Copy, Debug, PartialEq, Eq, Structural)]
pub enum UnaryOp {
    LogicalNot,
    Plus,
    Minus,
    Not,
    And,
    Nand,
    Or,
    Nor,
    Xor,
    Xnor,
}

/// Software/hardware access of a field (`accesstype`).
#[derive(Clone, Copy, Debug, PartialEq, Eq, Structural)]
pub enum AccessType {
    Na,
    Rw,
    Wr,
    R,
    W,
    Rw1,
    W1,
}

/// Side effect of a software read (`onreadtype`).
#[derive(Clone, Copy, Debug, PartialEq, Eq, Structural)]
pub enum OnReadType {
    RClr,
    RSet,
    RUser,
}

/// Side effect of a software write (`onwritetype`).
#[derive(Clone, Copy, Debug, PartialEq, Eq, Structural)]
pub enum OnWriteType {
    WoSet,
    WoClr,
    Wot,
    Wzs,
    Wzc,
    Wzt,
    WClr,
    WSet,
    WUser,
}

/// Address allocation mode of an address map (`addressingtype`).
#[derive(Clone, Copy, Debug, PartialEq, Eq, Structural)]
pub enum AddressingType {
    Compact,
    RegAlign,
    FullAlign,
}

/// Which side wins on a simultaneous write (`precedencetype`).
#[derive(Clone, Copy, Debug, PartialEq, Eq, Structural)]
pub enum PrecedenceType {
    Hw,
    Sw,
}

/// Interrupt modifier of a field.
#[derive(Clone, Copy, Debug, PartialEq, Eq, Structural)]
pub enum InterruptType {
    Level,
    PosEdge,
    NegEdge,
    BothEdge,
    NonSticky,
}

/// A reference to an instance, optionally followed by `->property`.
#[derive(Clone, Debug)]
pub struct InstanceOrPropRef {
    pub path: Vec<String>,
    pub property: Option<String>,
}

/// Literals.
#[derive(Clone, Debug)]
pub enum PrimaryLiteral {
    Number(u64),
    Bits(Bits),
    StringLiteral(String),
    BooleanLiteral(bool),
    /// `EnumName::Entry`
    EnumeratorLiteral(String, String),
    AccessTypeLiteral(AccessType),
    OnReadTypeLiteral(OnReadType),
    OnWriteTypeLiteral(OnWriteType),
    AddressingTypeLiteral(AddressingType),
    This,
}

impl PrimaryLiteral {
    /// A copy of the literal.
    pub fn duplicate(&self) -> (r: PrimaryLiteral)
        ensures
            r == *self,
    {
        match self {
            PrimaryLiteral::Number(n) => PrimaryLiteral::Number(*n),
            PrimaryLiteral::Bits(b) => PrimaryLiteral::Bits(*b),
            PrimaryLiteral::StringLiteral(s) => PrimaryLiteral::StringLiteral(s.clone()),
            PrimaryLiteral::BooleanLiteral(b) => PrimaryLiteral::BooleanLiteral(*b),
            PrimaryLiteral::EnumeratorLiteral(a, b) => PrimaryLiteral::EnumeratorLiteral(
                a.clone(),
                b.clone(),
            ),
            PrimaryLiteral::AccessTypeLiteral(a) => PrimaryLiteral::AccessTypeLiteral(*a),
            PrimaryLiteral::OnReadTypeLiteral(a) => PrimaryLiteral::OnReadTypeLiteral(*a),
            PrimaryLiteral::OnWriteTypeLiteral(a) => PrimaryLiteral::OnWriteTypeLiteral(*a),
            PrimaryLiteral::AddressingTypeLiteral(a) => PrimaryLiteral::AddressingTypeLiteral(*a),
            PrimaryLiteral::This => PrimaryLiteral::This,
        }
    }
}

/// The operand forms of a constant expression.
#[derive(Debug)]
pub enum ConstantPrimaryBase {
    PrimaryLiteral(PrimaryLiteral),
    /// A parenthesised expression.
    ConstantExpr(Box<ConstantExpr>),
    InstanceOrPropRef(InstanceOrPropRef),
    /// A struct literal, by the name of its struct type.
    StructLiteral(String),
    ArrayLiteral,
    SimpleTypeCast,
    BooleanCast,
    ConstantConcat,
    ConstantMultipleConcat,
}

/// An operand, possibly followed by a width cast `'(expr)`.
#[derive(Debug)]
pub enum ConstantPrimary {
    Base(ConstantPrimaryBase),
    Cast(ConstantPrimaryBase, Box<ConstantExpr>),
}

/// What may follow an operand: a binary operator with its right operand, or
/// `? b : c`; each may be followed by a further continuation.
#[derive(Debug)]
pub enum ConstantExprContinue {
    BinaryOp(BinaryOp, Box<ConstantExpr>, Option<Box<ConstantExprContinue>>),
    TernaryOp(Box<ConstantExpr>, Box<ConstantExpr>, Option<Box<ConstantExprContinue>>),
}

/// A constant expression.
#[derive(Debug)]
pub enum ConstantExpr {
    ConstantPrimary(ConstantPrimary, Option<Box<ConstantExprContinue>>),
    UnaryOp(UnaryOp, Box<ConstantExpr>, Option<Box<ConstantExprContinue>>),
}

/// The name on the left of a property assignment.
#[derive(Clone, Debug)]
pub enum IdentityOrPropKeyword {
    Id(String),
    /// A reserved property keyword, by its text (`sw`, `reset`, ...).
    PropKeyword(String),
}

/// The right-hand side of a property assignment.
#[derive(Debug)]
pub enum PropAssignmentRhs {
    ConstantExpr(ConstantExpr),
    PrecedenceType(PrecedenceType),
}

/// `name = rhs;`, `name;` or `encode = EnumName;`.
#[derive(Debug)]
pub enum ExplicitPropertyAssignment {
    Assignment(IdentityOrPropKeyword, Option<PropAssignmentRhs>),
    EncodeAssignment(String),
}

/// A property modifier such as `posedge intr;`.
#[derive(Clone, Debug)]
pub struct ExplicitPropModifier {
    pub modifier: InterruptType,
    pub id: String,
}

/// An assignment, optionally prefixed by `default`.
#[derive(Debug)]
pub enum ExplicitOrDefaultPropAssignment {
    ExplicitPropModifier(bool, ExplicitPropModifier),
    ExplicitPropAssignment(bool, ExplicitPropertyAssignment),
}

/// `instance->property = rhs;`
#[derive(Debug)]
pub struct PostPropAssignment {
    pub target: InstanceOrPropRef,
    pub rhs: Option<PropAssignmentRhs>,
}

/// A property assignment in a component body.
#[derive(Debug)]
pub enum PropertyAssignment {
    ExplicitOrDefaultPropAssignment(ExplicitOrDefaultPropAssignment),
    PostPropAssignment(PostPropAssignment),
}

/// One entry `NAME [= expr] [{ properties }];` of an enumeration.
#[derive(Debug)]
pub struct EnumEntry {
    pub id: String,
    pub expr: Option<ConstantExpr>,
}

/// `enum NAME { entries };`
#[derive(Debug)]
pub struct EnumDef {
    pub id: String,
    pub body: Vec<EnumEntry>,
}

/// `[expr][expr]...` or `[msb:lsb]` after an instance name.
#[derive(Debug)]
pub enum ArrayOrRange {
    Array(Vec<ConstantExpr>),
    Range(ConstantExpr, ConstantExpr),
}

/// One instance `name [array] [= reset] [@ addr]` of a component.
#[derive(Debug)]
pub struct ComponentInst {
    pub id: String,
    pub array_or_range: Option<ArrayOrRange>,
    pub equals: Option<ConstantExpr>,
    pub at: Option<ConstantExpr>,
}

/// The instances declared together after a component definition or type name.
#[derive(Debug)]
pub struct ComponentInsts {
    pub component_insts: Vec<ComponentInst>,
}

/// `type_name instances;` where `type_name` names a component defined elsewhere.
#[derive(Debug)]
pub struct ExplicitComponentInst {
    pub id: String,
    pub component_insts: ComponentInsts,
}

/// `kind [name] { body }`
#[derive(Debug)]
pub struct ComponentDef {
    pub type_: ComponentType,
    pub name: Option<String>,
    pub body: ComponentBody,
}

/// A component definition, optionally instantiated on the spot.
#[derive(Debug)]
pub struct Component {
    pub def: ComponentDef,
    pub insts: Option<ComponentInsts>,
}

/// The elements of a component body.
#[derive(Debug)]
pub enum ComponentBodyElem {
    ComponentDef(Component),
    EnumDef(EnumDef),
    /// A struct definition, by name.
    StructDef(String),
    /// A constraint definition, by name.
    ConstraintDef(String),
    ExplicitComponentInst(ExplicitComponentInst),
    PropertyAssignment(PropertyAssignment),
}

/// `{ elements }`
#[derive(Debug)]
pub struct ComponentBody {
    pub elements: Vec<ComponentBodyElem>,
}

/// A top-level description.
#[derive(Debug)]
pub enum Description {
    ComponentDef(Component),
    EnumDef(EnumDef),
    /// A user-defined property, by name.
    PropertyDefinition(String),
    /// A struct definition, by name.
    StructDef(String),
    /// A constraint definition, by name.
    ConstraintDef(String),
    ExplicitComponentInst(ExplicitComponentInst),
    PropertyAssignment(PropertyAssignment),
}

/// A whole description file.
#[derive(Debug)]
pub struct Root {
    pub descriptions: Vec<Description>,
}

} // verus!
