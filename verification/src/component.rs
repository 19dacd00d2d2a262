//! Components (address maps, register files, registers, fields) as they are
//! held in the arena, and their mathematical views.

use vstd::prelude::*;
use vstd::hash_map::StringHashMap;
use vstd::string::*;
use crate::ast::ComponentType;
use crate::integer::Integer;

verus! {

/// Position of a component in the arena.
pub type ComponentIdx = usize;

/// Position of an instance in the instance arena.
pub type InstanceIdx = usize;

/// A property value: a string or a sized integer.
#[derive(Clone, Debug)]
pub enum StringOrInt {
    String(String),
    Int(Integer),
}

/// The character of a decimal digit.
pub open spec fn digit_char(d: nat) -> char {
    if d == 0 {
        '0'
    } else if d == 1 {
        '1'
    } else if d == 2 {
        '2'
    } else if d == 3 {
        '3'
    } else if d == 4 {
        '4'
    } else if d == 5 {
        '5'
    } else if d == 6 {
        '6'
    } else if d == 7 {
        '7'
    } else if d == 8 {
        '8'
    } else {
        '9'
    }
}

/// The decimal digits of `n`, most significant first, without leading
/// zeros ("0" for zero).
pub open spec fn decimal(n: nat) -> Seq<char>
    decreases n,
{
    if n < 10 {
        seq![digit_char(n)]
    } else {
        decimal(n / 10).push(digit_char(n % 10))
    }
}

/// The text of one decimal digit.
fn digit_str(d: u64) -> (r: &'static str)
    requires
        d < 10,
    ensures
        r@ == seq![digit_char(d as nat)],
{
    if d == 0 {
        proof {
            reveal_strlit("0");
        }
        "0"
    } else if d == 1 {
        proof {
            reveal_strlit("1");
        }
        "1"
    } else if d == 2 {
        proof {
            reveal_strlit("2");
        }
        "2"
    } else if d == 3 {
        proof {
            reveal_strlit("3");
        }
        "3"
    } else if d == 4 {
        proof {
            reveal_strlit("4");
        }
        "4"
    } else if d == 5 {
        proof {
            reveal_strlit("5");
        }
        "5"
    } else if d == 6 {
        proof {
            reveal_strlit("6");
        }
        "6"
    } else if d == 7 {
        proof {
            reveal_strlit("7");
        }
        "7"
    } else if d == 8 {
        proof {
            reveal_strlit("8");
        }
        "8"
    } else {
        proof {
            reveal_strlit("9");
        }
        "9"
    }
}

/// `n` written in decimal.
fn decimal_string(n: u64) -> (r: String)
    ensures
        r@ == decimal(n as nat),
    decreases n,
{
    if n < 10 {
        String::from_str(digit_str(n))
    } else {
        let mut s = decimal_string(n / 10);
        s.append(digit_str(n % 10));
        s
    }
}

impl StringOrInt {
    /// How the value is written out: a string as it is, an integer in
    /// decimal (its width is not shown).
    pub open spec fn display(self) -> Seq<char> {
        match self {
            StringOrInt::String(s) => s@,
            StringOrInt::Int(i) => decimal(i.value as nat),
        }
    }

    /// The value written out (see `display`).
    pub fn to_string(&self) -> (r: String)
        ensures
            r@ == self.display(),
    {
        match self {
            StringOrInt::String(s) => s.clone(),
            StringOrInt::Int(i) => decimal_string(i.value),
        }
    }
}

/// One named value of an enumeration.
#[derive(Clone, Debug)]
pub struct EnumValue {
    pub name: String,
    pub value: Integer,
}

/// An enumeration with its values in declaration order.
#[derive(Debug)]
pub struct Enum {
    pub name: String,
    pub values: Vec<EnumValue>,
}

/// View of an enumeration.
pub struct EnumView {
    pub name: String,
    pub values: Seq<EnumValue>,
}

impl View for Enum {
    type V = EnumView;

    open spec fn view(&self) -> EnumView {
        EnumView { name: self.name, values: self.values@ }
    }
}

/// The view of a sequence of enumerations.
pub open spec fn enums_view(v: Seq<Enum>) -> Seq<EnumView> {
    v.map_values(|e: Enum| e@)
}

/// A field placed in a register: its name, least significant bit and width.
#[derive(Clone, Debug)]
pub struct FieldInstance {
    pub id: String,
    pub offset: usize,
    pub width: usize,
}

/// A register placed in an address map, at `offset` when one is given.
#[derive(Clone, Debug)]
pub struct RegisterInstance {
    pub name: String,
    pub offset: Option<usize>,
    pub width: usize,
    pub type_: ComponentIdx,
}

/// An instance of a component (not yet produced by the conversion).
#[derive(Debug)]
pub struct Instance {
    pub name: String,
    pub offset: usize,
    pub width: usize,
    pub desc: Option<String>,
    pub array_size: Option<Vec<usize>>,
    pub type_idx: ComponentIdx,
    pub parent: Option<ComponentIdx>,
    pub children: Vec<InstanceIdx>,
}

/// A field definition.
pub struct FieldType {
    pub parent: Option<ComponentIdx>,
    pub name: Option<String>,
    pub properties: StringHashMap<StringOrInt>,
    /// Always empty: fields have no sub-fields.
    pub _fields: StringHashMap<ComponentIdx>,
}

/// A register definition.
pub struct RegisterType {
    pub parent: Option<ComponentIdx>,
    pub name: Option<String>,
    pub fields: StringHashMap<ComponentIdx>,
    pub field_instances: Vec<FieldInstance>,
    pub enums: Vec<Enum>,
    pub properties: StringHashMap<StringOrInt>,
}

/// A register file definition.
pub struct RegisterFileType {
    pub parent: Option<ComponentIdx>,
    pub name: String,
    pub fields: StringHashMap<ComponentIdx>,
    pub field_instances: Vec<FieldInstance>,
    pub enums: Vec<Enum>,
    pub properties: StringHashMap<StringOrInt>,
}

/// An address map definition.
pub struct AddrMapType {
    pub name: String,
    pub offset: usize,
    pub width: usize,
    pub parent: Option<ComponentIdx>,
    pub children: Vec<ComponentIdx>,
    pub fields: StringHashMap<ComponentIdx>,
    pub instances: Vec<RegisterInstance>,
    pub enums: Vec<Enum>,
    pub properties: StringHashMap<StringOrInt>,
}

/// Any component held in the arena.
pub enum AllComponent {
    AddrMap(AddrMapType),
    Reg(RegisterType),
    RegFile(RegisterFileType),
    Field(FieldType),
}

/// View of a field definition.
pub struct FieldView {
    pub parent: Option<ComponentIdx>,
    pub name: Option<Seq<char>>,
    pub properties: Map<Seq<char>, StringOrInt>,
    pub fields: Map<Seq<char>, ComponentIdx>,
}

/// View of a register or register file definition.
pub struct RegView {
    pub parent: Option<ComponentIdx>,
    pub name: Option<Seq<char>>,
    pub fields: Map<Seq<char>, ComponentIdx>,
    pub field_instances: Seq<FieldInstance>,
    pub enums: Seq<EnumView>,
    pub properties: Map<Seq<char>, StringOrInt>,
}

/// View of an address map definition.
pub struct AddrMapView {
    pub name: Seq<char>,
    pub offset: usize,
    pub width: usize,
    pub parent: Option<ComponentIdx>,
    pub children: Seq<ComponentIdx>,
    pub fields: Map<Seq<char>, ComponentIdx>,
    pub instances: Seq<RegisterInstance>,
    pub enums: Seq<EnumView>,
    pub properties: Map<Seq<char>, StringOrInt>,
}

/// View of any component. A register file always has a name.
pub enum ComponentView {
    AddrMap(AddrMapView),
    Reg(RegView),
    RegFile(RegView),
    Field(FieldView),
}

impl View for FieldType {
    type V = FieldView;

    open spec fn view(&self) -> FieldView {
        FieldView {
            parent: self.parent,
            name: match self.name {
                Some(n) => Some(n@),
                None => None,
            },
            properties: self.properties@,
            fields: self._fields@,
        }
    }
}

impl View for RegisterType {
    type V = RegView;

    open spec fn view(&self) -> RegView {
        RegView {
            parent: self.parent,
            name: match self.name {
                Some(n) => Some(n@),
                None => None,
            },
            fields: self.fields@,
            field_instances: self.field_instances@,
            enums: enums_view(self.enums@),
            properties: self.properties@,
        }
    }
}

impl View for RegisterFileType {
    type V = RegView;

    open spec fn view(&self) -> RegView {
        RegView {
            parent: self.parent,
            name: Some(self.name@),
            fields: self.fields@,
            field_instances: self.field_instances@,
            enums: enums_view(self.enums@),
            properties: self.properties@,
        }
    }
}

impl View for AddrMapType {
    type V = AddrMapView;

    open spec fn view(&self) -> AddrMapView {
        AddrMapView {
            name: self.name@,
            offset: self.offset,
            width: self.width,
            parent: self.parent,
            children: self.children@,
            fields: self.fields@,
            instances: self.instances@,
            enums: enums_view(self.enums@),
            properties: self.properties@,
        }
    }
}

impl View for AllComponent {
    type V = ComponentView;

    open spec fn view(&self) -> ComponentView {
        match self {
            AllComponent::AddrMap(a) => ComponentView::AddrMap(a@),
            AllComponent::Reg(r) => ComponentView::Reg(r@),
            AllComponent::RegFile(r) => ComponentView::RegFile(r@),
            AllComponent::Field(f) => ComponentView::Field(f@),
        }
    }
}

impl ComponentView {
    /// The component's name, if it has one.
    pub open spec fn name(self) -> Option<Seq<char>> {
        match self {
            ComponentView::AddrMap(a) => Some(a.name),
            ComponentView::Reg(r) => r.name,
            ComponentView::RegFile(r) => r.name,
            ComponentView::Field(f) => f.name,
        }
    }

    /// The component the definition is nested in.
    pub open spec fn parent(self) -> Option<ComponentIdx> {
        match self {
            ComponentView::AddrMap(a) => a.parent,
            ComponentView::Reg(r) => r.parent,
            ComponentView::RegFile(r) => r.parent,
            ComponentView::Field(f) => f.parent,
        }
    }

    /// Components defined inside (only address maps record them).
    pub open spec fn children(self) -> Seq<ComponentIdx> {
        match self {
            ComponentView::AddrMap(a) => a.children,
            _ => Seq::empty(),
        }
    }

    /// Named field definitions in scope of the component.
    pub open spec fn fields(self) -> Map<Seq<char>, ComponentIdx> {
        match self {
            ComponentView::AddrMap(a) => a.fields,
            ComponentView::Reg(r) => r.fields,
            ComponentView::RegFile(r) => r.fields,
            ComponentView::Field(f) => f.fields,
        }
    }

    /// Property values of the component.
    pub open spec fn properties(self) -> Map<Seq<char>, StringOrInt> {
        match self {
            ComponentView::AddrMap(a) => a.properties,
            ComponentView::Reg(r) => r.properties,
            ComponentView::RegFile(r) => r.properties,
            ComponentView::Field(f) => f.properties,
        }
    }

    /// Enumerations reported for the component (only address maps report them).
    pub open spec fn enums(self) -> Seq<EnumView> {
        match self {
            ComponentView::AddrMap(a) => a.enums,
            _ => Seq::empty(),
        }
    }

    /// The component kind.
    pub open spec fn component_type(self) -> ComponentType {
        match self {
            ComponentView::AddrMap(_) => ComponentType::AddrMap,
            ComponentView::Reg(_) => ComponentType::Reg,
            ComponentView::RegFile(_) => ComponentType::RegFile,
            ComponentView::Field(_) => ComponentType::Field,
        }
    }

    /// Width (only address maps carry one).
    pub open spec fn width(self) -> usize {
        match self {
            ComponentView::AddrMap(a) => a.width,
            _ => 0,
        }
    }

    /// Offset (only address maps carry one).
    pub open spec fn offset(self) -> usize {
        match self {
            ComponentView::AddrMap(a) => a.offset,
            _ => 0,
        }
    }
}


/// What every component definition answers: its name, kind, enclosing
/// definition, size, and what it holds. A kind that has no such thing
/// answers 0 or nothing.
pub trait Component {
    /// The component as the contracts see it.
    spec fn component_view(&self) -> ComponentView;

    /// The field definition this is, where the kind reports itself as one.
    fn as_field(&self) -> (r: Option<&FieldType>)
        ensures
            r matches Some(f) ==> self.component_view() == ComponentView::Field(f@),
        default_ensures
            r is None,
    {
        None
    }

    /// The component's name, if it has one.
    fn name(&self) -> (r: Option<&str>)
        ensures
            match r {
                Some(s) => self.component_view().name() == Some(s@),
                None => self.component_view().name() is None,
            },
    ;

    /// The component kind.
    fn component_type(&self) -> (r: ComponentType)
        ensures
            r == self.component_view().component_type(),
    ;

    /// The component the definition is nested in.
    fn parent(&self) -> (r: Option<ComponentIdx>)
        ensures
            r == self.component_view().parent(),
    ;

    /// Width (0 except for address maps).
    fn width(&self) -> (r: usize)
        ensures
            r == self.component_view().width(),
    ;

    /// Offset (0 except for address maps).
    fn offset(&self) -> (r: usize)
        ensures
            r == self.component_view().offset(),
    ;

    /// Named field definitions in scope of the component.
    fn fields(&self) -> (r: &StringHashMap<ComponentIdx>)
        ensures
            r@ == self.component_view().fields(),
    ;

    /// Components defined inside (only address maps record them).
    fn children(&self) -> (r: &[ComponentIdx])
        ensures
            r@ == self.component_view().children(),
    ;

    /// Enumerations reported for the component (only address maps report them).
    fn enums(&self) -> (r: &[Enum])
        ensures
            enums_view(r@) == self.component_view().enums(),
    ;

    /// Property values of the component.
    fn properties(&self) -> (r: &StringHashMap<StringOrInt>)
        ensures
            r@ == self.component_view().properties(),
    ;
}

impl Component for FieldType {
    open spec fn component_view(&self) -> ComponentView {
        ComponentView::Field(self@)
    }

    fn as_field(&self) -> (r: Option<&FieldType>)
        ensures
            r == Some(self),
    {
        Some(self)
    }

    fn name(&self) -> (r: Option<&str>) {
        match &self.name {
            Some(n) => Some(n.as_str()),
            None => None,
        }
    }

    fn component_type(&self) -> (r: ComponentType) {
        ComponentType::Field
    }

    fn parent(&self) -> (r: Option<ComponentIdx>) {
        self.parent
    }

    fn width(&self) -> (r: usize) {
        0
    }

    fn offset(&self) -> (r: usize) {
        0
    }

    fn fields(&self) -> (r: &StringHashMap<ComponentIdx>) {
        &self._fields
    }

    fn children(&self) -> (r: &[ComponentIdx]) {
        &[]
    }

    fn enums(&self) -> (r: &[Enum]) {
        &[]
    }

    fn properties(&self) -> (r: &StringHashMap<StringOrInt>) {
        &self.properties
    }
}

impl Component for RegisterType {
    open spec fn component_view(&self) -> ComponentView {
        ComponentView::Reg(self@)
    }

    fn name(&self) -> (r: Option<&str>) {
        match &self.name {
            Some(n) => Some(n.as_str()),
            None => None,
        }
    }

    fn component_type(&self) -> (r: ComponentType) {
        ComponentType::Reg
    }

    fn parent(&self) -> (r: Option<ComponentIdx>) {
        self.parent
    }

    fn width(&self) -> (r: usize) {
        0
    }

    fn offset(&self) -> (r: usize) {
        0
    }

    fn fields(&self) -> (r: &StringHashMap<ComponentIdx>) {
        &self.fields
    }

    fn children(&self) -> (r: &[ComponentIdx]) {
        &[]
    }

    fn enums(&self) -> (r: &[Enum]) {
        &[]
    }

    fn properties(&self) -> (r: &StringHashMap<StringOrInt>) {
        &self.properties
    }
}

impl Component for RegisterFileType {
    open spec fn component_view(&self) -> ComponentView {
        ComponentView::RegFile(self@)
    }

    fn name(&self) -> (r: Option<&str>) {
        Some(self.name.as_str())
    }

    fn component_type(&self) -> (r: ComponentType) {
        ComponentType::RegFile
    }

    fn parent(&self) -> (r: Option<ComponentIdx>) {
        self.parent
    }

    fn width(&self) -> (r: usize) {
        0
    }

    fn offset(&self) -> (r: usize) {
        0
    }

    fn fields(&self) -> (r: &StringHashMap<ComponentIdx>) {
        &self.fields
    }

    fn children(&self) -> (r: &[ComponentIdx]) {
        &[]
    }

    fn enums(&self) -> (r: &[Enum]) {
        &[]
    }

    fn properties(&self) -> (r: &StringHashMap<StringOrInt>) {
        &self.properties
    }
}

impl Component for AddrMapType {
    open spec fn component_view(&self) -> ComponentView {
        ComponentView::AddrMap(self@)
    }

    fn name(&self) -> (r: Option<&str>) {
        Some(self.name.as_str())
    }

    fn component_type(&self) -> (r: ComponentType) {
        ComponentType::AddrMap
    }

    fn parent(&self) -> (r: Option<ComponentIdx>) {
        self.parent
    }

    fn width(&self) -> (r: usize) {
        self.width
    }

    fn offset(&self) -> (r: usize) {
        self.offset
    }

    fn fields(&self) -> (r: &StringHashMap<ComponentIdx>) {
        &self.fields
    }

    fn children(&self) -> (r: &[ComponentIdx]) {
        self.children.as_slice()
    }

    fn enums(&self) -> (r: &[Enum]) {
        self.enums.as_slice()
    }

    fn properties(&self) -> (r: &StringHashMap<StringOrInt>) {
        &self.properties
    }
}

} // verus!
