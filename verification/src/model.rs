//! What converting a description does to the component arena, as spec
//! functions over views.
//!
//! Each conversion is a state transformer on the arena (`Seq<ComponentView>`):
//! it returns the arena after the conversion together with its result, or
//! `None` where the conversion is undefined (an undefined evaluation, or a
//! construct that is not implemented). A rejected element stops the
//! conversion; the arena keeps what was added before it.

use vstd::prelude::*;
use crate::ast::{
    ArrayOrRange, Description, Component, ComponentBody, ComponentBodyElem, ComponentInst, ComponentInsts,
    ComponentType,
};
use crate::component::{
    AddrMapView, ComponentIdx, ComponentView, EnumView, FieldInstance, FieldView, RegView,
    RegisterInstance, StringOrInt,
};
use crate::error::ErrorView;
use crate::eval::{eval_int, eval_property, parse_enum_spec, Outcome};

verus! {

/// The arena after a conversion step and its result, or `None` where the
/// step is undefined.
pub type Step<T> = Option<(Seq<ComponentView>, Result<T, ErrorView>)>;

/// Every definition's parent comes before it in the arena.
pub open spec fn parents_ordered(arena: Seq<ComponentView>) -> bool {
    forall|i: int|
        #![trigger arena[i]]
        0 <= i < arena.len() ==> match arena[i].parent() {
            Some(p) => p < i,
            None => true,
        }
}

/// The arena is well formed: parents come first, and every child index of
/// an address map and every top-level index is in the arena.
pub open spec fn arena_wf(arena: Seq<ComponentView>, roots: Seq<ComponentIdx>) -> bool {
    &&& parents_ordered(arena)
    &&& forall|i: int, j: int|
        #![trigger arena[i].children()[j]]
        0 <= i < arena.len() && 0 <= j < arena[i].children().len() ==> arena[i].children()[j]
            < arena.len()
    &&& forall|j: int| #![trigger roots[j]] 0 <= j < roots.len() ==> roots[j] < arena.len()
}

/// The number of proper ancestors a definition may still have.
pub open spec fn parent_rank(c: ComponentView) -> nat {
    match c.parent() {
        Some(p) => (p + 1) as nat,
        None => 0,
    }
}

/// The first of `children[j..]` whose component is named `name`.
pub open spec fn find_child(
    arena: Seq<ComponentView>,
    children: Seq<ComponentIdx>,
    name: Seq<char>,
    j: int,
) -> Option<ComponentIdx>
    decreases children.len() - j,
{
    if j < 0 || j >= children.len() {
        None
    } else if arena[children[j] as int].name() == Some(name) {
        Some(children[j])
    } else {
        find_child(arena, children, name, j + 1)
    }
}

/// The component definition named `name` visible from `src`: among its
/// children, else among its parent's scope, else among the top-level
/// definitions.
pub open spec fn find_component_spec(
    arena: Seq<ComponentView>,
    roots: Seq<ComponentIdx>,
    src: ComponentView,
    name: Seq<char>,
) -> Option<ComponentIdx>
    decreases parent_rank(src),
    when parents_ordered(arena) && (src.parent() matches Some(p) ==> p < arena.len())
{
    match find_child(arena, src.children(), name, 0) {
        Some(c) => Some(c),
        None => match src.parent() {
            Some(p) => find_component_spec(arena, roots, arena[p as int], name),
            None => find_child(arena, roots, name, 0),
        },
    }
}

/// The field definition named `name` visible from `src`: among its fields,
/// else in its parent's scope.
pub open spec fn find_field_spec(arena: Seq<ComponentView>, src: ComponentView, name: Seq<char>) -> Option<
    ComponentIdx,
>
    decreases parent_rank(src),
    when parents_ordered(arena) && (src.parent() matches Some(p) ==> p < arena.len())
{
    if src.fields().contains_key(name) {
        Some(src.fields()[name])
    } else {
        match src.parent() {
            Some(p) => find_field_spec(arena, arena[p as int], name),
            None => None,
        }
    }
}


/// The view of an optional component name.
pub open spec fn name_view(n: Option<String>) -> Option<Seq<char>> {
    match n {
        Some(s) => Some(s@),
        None => None,
    }
}

/// The width of a field instance: its single array dimension, else 1.
pub open spec fn field_width(inst: ComponentInst) -> Outcome<u64> {
    match inst.array_or_range {
        Some(ArrayOrRange::Array(exprs)) => if exprs.len() != 1 {
            Some(Err(ErrorView::MultiDimensionalFieldArray))
        } else {
            match eval_int(exprs@[0]) {
                Some(Ok(v)) => Some(Ok(v.value)),
                Some(Err(e)) => Some(Err(e)),
                None => None,
            }
        },
        _ => Some(Ok(1)),
    }
}

/// The least significant bit of a field instance: its `= value`, else the
/// bit after the previous instance (0 for the first).
pub open spec fn field_lsb(inst: ComponentInst, last_msb: Option<u64>) -> Outcome<u64> {
    match inst.equals {
        Some(eq) => match eval_int(eq) {
            Some(Ok(v)) => Some(Ok(v.value)),
            Some(Err(e)) => Some(Err(e)),
            None => None,
        },
        None => match last_msb {
            Some(b) => if b + 1 <= u64::MAX {
                Some(Ok((b + 1) as u64))
            } else {
                None
            },
            None => Some(Ok(0)),
        },
    }
}

/// The placements of field instances `i..` appended to `acc`, the previous
/// instance ending at `last_msb`.
pub open spec fn field_insts_from(
    insts: Seq<ComponentInst>,
    i: int,
    last_msb: Option<u64>,
    acc: Seq<FieldInstance>,
) -> Outcome<Seq<FieldInstance>>
    decreases insts.len() - i,
{
    if i < 0 || i >= insts.len() {
        Some(Ok(acc))
    } else {
        match field_width(insts[i]) {
            Some(Ok(w)) => match field_lsb(insts[i], last_msb) {
                Some(Ok(lsb)) => if 1 <= lsb + w <= u64::MAX {
                    field_insts_from(
                        insts,
                        i + 1,
                        Some((lsb + w - 1) as u64),
                        acc.push(FieldInstance { id: insts[i].id, width: w as usize, offset: lsb as usize }),
                    )
                } else {
                    None
                },
                Some(Err(e)) => Some(Err(e)),
                None => None,
            },
            Some(Err(e)) => Some(Err(e)),
            None => None,
        }
    }
}

/// The placements of a group of field instances.
pub open spec fn field_insts_spec(insts: ComponentInsts) -> Outcome<Seq<FieldInstance>> {
    field_insts_from(insts.component_insts@, 0, None, Seq::empty())
}

/// The register instances `i..` of type `reg` appended to `acc`: 32 bits
/// wide, at their `= address` when one is given.
pub open spec fn reg_insts_from(
    reg: ComponentIdx,
    insts: Seq<ComponentInst>,
    i: int,
    acc: Seq<RegisterInstance>,
) -> Outcome<Seq<RegisterInstance>>
    decreases insts.len() - i,
{
    if i < 0 || i >= insts.len() {
        Some(Ok(acc))
    } else {
        let offset: Outcome<Option<usize>> = match insts[i].equals {
            Some(eq) => match eval_int(eq) {
                Some(Ok(v)) => Some(Ok(Some(v.value as usize))),
                Some(Err(e)) => Some(Err(e)),
                None => None,
            },
            None => Some(Ok(None)),
        };
        match offset {
            Some(Ok(o)) => reg_insts_from(
                reg,
                insts,
                i + 1,
                acc.push(RegisterInstance { name: insts[i].id, offset: o, width: 32, type_: reg }),
            ),
            Some(Err(e)) => Some(Err(e)),
            None => None,
        }
    }
}

/// The register instances of a group.
pub open spec fn reg_insts_spec(reg: ComponentIdx, insts: ComponentInsts) -> Outcome<
    Seq<RegisterInstance>,
> {
    reg_insts_from(reg, insts.component_insts@, 0, Seq::empty())
}

/// A field body is converted only when it holds nothing but property
/// assignments that evaluate.
pub open spec fn field_body_ok(elems: Seq<ComponentBodyElem>) -> bool {
    forall|i: int|
        #![trigger elems[i]]
        0 <= i < elems.len() ==> match elems[i] {
            ComponentBodyElem::PropertyAssignment(pa) => eval_property(pa) is Some,
            _ => false,
        }
}

/// A converted field: its properties are evaluated but not recorded.
pub open spec fn field_view(parent: Option<ComponentIdx>, name: Option<String>) -> FieldView {
    FieldView { parent, name: name_view(name), properties: Map::empty(), fields: Map::empty() }
}

/// Converting a definition nested in a register (file): fields are added to
/// the arena, other kinds are skipped.
pub open spec fn component_field_spec(
    arena: Seq<ComponentView>,
    parent: Option<ComponentIdx>,
    c: Component,
) -> Step<Option<ComponentIdx>> {
    if c.def.type_ == ComponentType::Field {
        if field_body_ok(c.def.body.elements@) {
            Some(
                (
                    arena.push(ComponentView::Field(field_view(parent, c.def.name))),
                    Ok(Some(arena.len() as ComponentIdx)),
                ),
            )
        } else {
            None
        }
    } else {
        Some((arena, Ok(None)))
    }
}

/// An empty register (file) definition.
pub open spec fn empty_reg(parent: Option<ComponentIdx>, name: Option<Seq<char>>) -> RegView {
    RegView {
        parent,
        name,
        fields: Map::empty(),
        field_instances: Seq::empty(),
        enums: Seq::empty(),
        properties: Map::empty(),
    }
}

/// Records the component just converted at `idx` in a register (file):
/// by name among its fields, and its instances among its field instances.
pub open spec fn reg_record_component(
    arena: Seq<ComponentView>,
    reg: RegView,
    c: Component,
    idx: ComponentIdx,
) -> Step<RegView> {
    let reg1 = match arena[idx as int].name() {
        Some(n) => RegView { fields: reg.fields.insert(n, idx), ..reg },
        None => reg,
    };
    match c.insts {
        Some(insts) => match field_insts_spec(insts) {
            Some(Ok(fi)) => Some(
                (arena, Ok(RegView { field_instances: reg1.field_instances + fi, ..reg1 })),
            ),
            Some(Err(e)) => Some((arena, Err(e))),
            None => None,
        },
        None => Some((arena, Ok(reg1))),
    }
}

/// Continues a register (file) conversion after a nested definition was
/// converted.
pub open spec fn reg_after_component(
    step: Step<Option<ComponentIdx>>,
    reg: RegView,
    c: Component,
) -> Step<RegView> {
    match step {
        None => None,
        Some((a1, Err(e))) => Some((a1, Err(e))),
        Some((a1, Ok(None))) => Some((a1, Ok(reg))),
        Some((a1, Ok(Some(idx)))) => reg_record_component(a1, reg, c, idx),
    }
}

/// An enumeration of a register (file) named `name`.
pub open spec fn has_enum_named(enums: Seq<EnumView>, name: Seq<char>) -> bool {
    exists|k: int| 0 <= k < enums.len() && (#[trigger] enums[k]).name@ == name
}

/// The error for a type name `id` not in scope of a register
/// (`file == None`) or of the register file named `file`.
pub open spec fn not_found_error(id: Seq<char>, file: Option<Seq<char>>) -> ErrorView {
    match file {
        Some(f) => ErrorView::ComponentNotFoundInRegfile(id, f),
        None => ErrorView::ComponentNotFound(id),
    }
}

/// The elements that register and register file bodies treat alike
/// (`file` names the register file).
pub open spec fn reg_common_step(
    arena: Seq<ComponentView>,
    parent: Option<ComponentIdx>,
    reg: RegView,
    elem: ComponentBodyElem,
    file: Option<Seq<char>>,
) -> Step<RegView> {
    match elem {
        ComponentBodyElem::PropertyAssignment(pa) => match eval_property(pa) {
            None => None,
            Some(None) => Some((arena, Ok(reg))),
            Some(Some((k, v))) => Some(
                (arena, Ok(RegView { properties: reg.properties.insert(k, v), ..reg })),
            ),
        },
        ComponentBodyElem::EnumDef(ed) => match parse_enum_spec(ed) {
            Some(Ok(ev)) => Some((arena, Ok(RegView { enums: reg.enums.push(ev), ..reg }))),
            Some(Err(e)) => Some((arena, Err(e))),
            None => None,
        },
        ComponentBodyElem::ExplicitComponentInst(inst) => if reg.fields.contains_key(inst.id@) {
            match field_insts_spec(inst.component_insts) {
                Some(Ok(fi)) => Some(
                    (arena, Ok(RegView { field_instances: reg.field_instances + fi, ..reg })),
                ),
                Some(Err(e)) => Some((arena, Err(e))),
                None => None,
            }
        } else if has_enum_named(reg.enums, inst.id@) {
            Some((arena, Ok(reg)))
        } else {
            match parent {
                // resolving a type in an enclosing scope is not implemented
                Some(_) => None,
                None => Some((arena, Err(not_found_error(inst.id@, file)))),
            }
        },
        _ => None,
    }
}

/// One element of a register body.
pub open spec fn reg_step(
    arena: Seq<ComponentView>,
    parent: Option<ComponentIdx>,
    reg: RegView,
    elem: ComponentBodyElem,
) -> Step<RegView> {
    match elem {
        ComponentBodyElem::ComponentDef(c) => reg_after_component(
            component_field_spec(arena, parent, c),
            reg,
            c,
        ),
        _ => reg_common_step(arena, parent, reg, elem, None),
    }
}

/// Register body elements `i..` applied to `reg`.
pub open spec fn reg_from(
    arena: Seq<ComponentView>,
    parent: Option<ComponentIdx>,
    elems: Seq<ComponentBodyElem>,
    i: int,
    reg: RegView,
) -> Step<RegView>
    decreases elems.len() - i,
{
    if i < 0 || i >= elems.len() {
        Some((arena, Ok(reg)))
    } else {
        match reg_step(arena, parent, reg, elems[i]) {
            Some((a1, Ok(r1))) => reg_from(a1, parent, elems, i + 1, r1),
            other => other,
        }
    }
}

/// Converting a register definition; its fields are added to the arena.
pub open spec fn convert_reg_spec(
    arena: Seq<ComponentView>,
    parent: Option<ComponentIdx>,
    name: Option<Seq<char>>,
    body: ComponentBody,
) -> Step<RegView> {
    reg_from(arena, parent, body.elements@, 0, empty_reg(parent, name))
}

/// Converting a definition nested in a register file as a register: other
/// kinds are skipped.
pub open spec fn component_reg_spec(
    arena: Seq<ComponentView>,
    parent: Option<ComponentIdx>,
    c: Component,
) -> Step<Option<ComponentIdx>> {
    if c.def.type_ == ComponentType::Reg {
        match convert_reg_spec(arena, parent, name_view(c.def.name), c.def.body) {
            Some((a1, Ok(r))) => Some(
                (a1.push(ComponentView::Reg(r)), Ok(Some(a1.len() as ComponentIdx))),
            ),
            Some((a1, Err(e))) => Some((a1, Err(e))),
            None => None,
        }
    } else {
        Some((arena, Ok(None)))
    }
}

/// One element of a register file body named `name`: a nested definition
/// is tried as a field and then as a register.
pub open spec fn regfile_step(
    arena: Seq<ComponentView>,
    parent: Option<ComponentIdx>,
    name: Seq<char>,
    reg: RegView,
    elem: ComponentBodyElem,
) -> Step<RegView> {
    match elem {
        ComponentBodyElem::ComponentDef(c) => match reg_after_component(
            component_field_spec(arena, parent, c),
            reg,
            c,
        ) {
            Some((a1, Ok(r1))) => reg_after_component(component_reg_spec(a1, parent, c), r1, c),
            other => other,
        },
        _ => reg_common_step(arena, parent, reg, elem, Some(name)),
    }
}

/// Register file body elements `i..` applied to `reg`.
pub open spec fn regfile_from(
    arena: Seq<ComponentView>,
    parent: Option<ComponentIdx>,
    name: Seq<char>,
    elems: Seq<ComponentBodyElem>,
    i: int,
    reg: RegView,
) -> Step<RegView>
    decreases elems.len() - i,
{
    if i < 0 || i >= elems.len() {
        Some((arena, Ok(reg)))
    } else {
        match regfile_step(arena, parent, name, reg, elems[i]) {
            Some((a1, Ok(r1))) => regfile_from(a1, parent, name, elems, i + 1, r1),
            other => other,
        }
    }
}

/// Converting a register file definition; its fields and registers are
/// added to the arena.
pub open spec fn convert_regfile_spec(
    arena: Seq<ComponentView>,
    parent: Option<ComponentIdx>,
    name: Seq<char>,
    body: ComponentBody,
) -> Step<RegView> {
    regfile_from(arena, parent, name, body.elements@, 0, empty_reg(parent, Some(name)))
}


/// An empty address map definition.
pub open spec fn empty_addrmap(parent: Option<ComponentIdx>, name: Seq<char>) -> AddrMapView {
    AddrMapView {
        name,
        offset: 0,
        width: 0,
        parent,
        children: Seq::empty(),
        fields: Map::empty(),
        instances: Seq::empty(),
        enums: Seq::empty(),
        properties: Map::empty(),
    }
}

/// An address map with one more child.
pub open spec fn with_child(a: AddrMapView, c: ComponentIdx) -> AddrMapView {
    AddrMapView { children: a.children.push(c), ..a }
}

/// An address map with more register instances.
pub open spec fn with_instances(a: AddrMapView, ri: Seq<RegisterInstance>) -> AddrMapView {
    AddrMapView { instances: a.instances + ri, ..a }
}

/// An address map with one more enumeration.
pub open spec fn with_enum(a: AddrMapView, ev: EnumView) -> AddrMapView {
    AddrMapView { enums: a.enums.push(ev), ..a }
}

/// An address map with a property set.
pub open spec fn with_property(a: AddrMapView, k: Seq<char>, v: StringOrInt) -> AddrMapView {
    AddrMapView { properties: a.properties.insert(k, v), ..a }
}

/// The address map a component view holds.
pub open spec fn addrmap_of(c: ComponentView) -> AddrMapView {
    match c {
        ComponentView::AddrMap(a) => a,
        _ => vstd::pervasive::arbitrary(),
    }
}

/// The arena with the address map at `idx` replaced.
pub open spec fn set_addrmap(arena: Seq<ComponentView>, idx: ComponentIdx, a: AddrMapView) -> Seq<
    ComponentView,
> {
    arena.update(idx as int, ComponentView::AddrMap(a))
}

/// Records the component `ci` just converted inside the address map at
/// `idx`: registers instantiated on the spot become register instances,
/// and every converted component becomes a child.
pub open spec fn addrmap_record_component(
    arena: Seq<ComponentView>,
    idx: ComponentIdx,
    c: Component,
    ci: ComponentIdx,
) -> Step<()> {
    let am = addrmap_of(arena[idx as int]);
    let with_insts: Outcome<AddrMapView> = match c.insts {
        Some(insts) => if arena[ci as int] is Reg {
            match reg_insts_spec(ci, insts) {
                Some(Ok(ri)) => Some(Ok(with_instances(am, ri))),
                Some(Err(e)) => Some(Err(e)),
                None => None,
            }
        } else {
            Some(Ok(am))
        },
        None => Some(Ok(am)),
    };
    match with_insts {
        Some(Ok(am1)) => Some(
            (set_addrmap(arena, idx, with_child(am1, ci)), Ok(())),
        ),
        Some(Err(e)) => Some((arena, Err(e))),
        None => None,
    }
}

/// An address map body element other than a nested definition.
pub open spec fn addrmap_local_step(
    arena: Seq<ComponentView>,
    roots: Seq<ComponentIdx>,
    idx: ComponentIdx,
    elem: ComponentBodyElem,
) -> Step<()> {
    let am = addrmap_of(arena[idx as int]);
    match elem {
        ComponentBodyElem::EnumDef(ed) => match parse_enum_spec(ed) {
            Some(Ok(ev)) => Some(
                (set_addrmap(arena, idx, with_enum(am, ev)), Ok(())),
            ),
            Some(Err(e)) => Some((arena, Err(e))),
            None => None,
        },
        ComponentBodyElem::ExplicitComponentInst(inst) => match find_component_spec(
            arena,
            roots,
            arena[idx as int],
            inst.id@,
        ) {
            // instantiating a type defined in scope is not implemented
            Some(_) => None,
            None => Some((arena, Err(ErrorView::ComponentNotFound(inst.id@)))),
        },
        ComponentBodyElem::PropertyAssignment(pa) => match eval_property(pa) {
            None => None,
            Some(None) => Some((arena, Ok(()))),
            Some(Some((k, v))) => Some(
                (set_addrmap(arena, idx, with_property(am, k, v)), Ok(())),
            ),
        },
        // struct and constraint definitions are not implemented
        _ => None,
    }
}

/// Converting an address map definition: the map is added to the arena
/// first, then its body is converted into it. Its index is the result.
pub open spec fn add_addrmap_spec(
    arena: Seq<ComponentView>,
    roots: Seq<ComponentIdx>,
    parent: Option<ComponentIdx>,
    name: Seq<char>,
    body: ComponentBody,
) -> Step<ComponentIdx>
    decreases body, body.elements@.len() + 2,
{
    let idx = arena.len() as ComponentIdx;
    let a0 = arena.push(ComponentView::AddrMap(empty_addrmap(parent, name)));
    match addrmap_from(a0, roots, parent, idx, body, 0) {
        Some((a1, Ok(()))) => Some((a1, Ok(idx))),
        Some((a1, Err(e))) => Some((a1, Err(e))),
        None => None,
    }
}

/// Converting address map body element `i` into the map at `idx`.
pub open spec fn addrmap_step(
    arena: Seq<ComponentView>,
    roots: Seq<ComponentIdx>,
    parent: Option<ComponentIdx>,
    idx: ComponentIdx,
    body: ComponentBody,
    i: int,
) -> Step<()>
    decreases body, body.elements@.len() - i,
{
    if 0 <= i < body.elements@.len() {
        match body.elements@[i] {
            ComponentBodyElem::ComponentDef(c) => {
                proof {
                    assert(decreases_to!(body => body.elements));
                    assert(decreases_to!(body.elements => body.elements@));
                }
                match convert_component_spec(arena, roots, parent, c) {
                    None => None,
                    Some((a1, Err(e))) => Some((a1, Err(e))),
                    Some((a1, Ok(None))) => Some((a1, Ok(()))),
                    Some((a1, Ok(Some(ci)))) => addrmap_record_component(a1, idx, c, ci),
                }
            },
            elem => addrmap_local_step(arena, roots, idx, elem),
        }
    } else {
        Some((arena, Ok(())))
    }
}

/// Address map body elements `i..` converted into the map at `idx`.
pub open spec fn addrmap_from(
    arena: Seq<ComponentView>,
    roots: Seq<ComponentIdx>,
    parent: Option<ComponentIdx>,
    idx: ComponentIdx,
    body: ComponentBody,
    i: int,
) -> Step<()>
    decreases body, body.elements@.len() - i + 1,
{
    if i < 0 || i >= body.elements@.len() {
        Some((arena, Ok(())))
    } else {
        match addrmap_step(arena, roots, parent, idx, body, i) {
            Some((a1, Ok(()))) => addrmap_from(a1, roots, parent, idx, body, i + 1),
            other => other,
        }
    }
}

/// The name an anonymous definition gets.
pub open spec fn def_name(c: Component) -> Seq<char> {
    match c.def.name {
        Some(n) => n@,
        None => "anon"@,
    }
}

/// Converting a definition nested in an address map: address maps,
/// fields, registers and register files are added to the arena (registers
/// and register files converted without a parent), signals are skipped,
/// memories are rejected. The new index is the result.
pub open spec fn convert_component_spec(
    arena: Seq<ComponentView>,
    roots: Seq<ComponentIdx>,
    parent: Option<ComponentIdx>,
    c: Component,
) -> Step<Option<ComponentIdx>>
    decreases c, 0int,
{
    match c.def.type_ {
        ComponentType::AddrMap => {
            proof {
                assert(decreases_to!(c => c.def));
            }
            match add_addrmap_spec(arena, roots, parent, def_name(c), c.def.body) {
                Some((a, Ok(i))) => Some((a, Ok(Some(i)))),
                Some((a, Err(e))) => Some((a, Err(e))),
                None => None,
            }
        },
        ComponentType::Signal => Some((arena, Ok(None))),
        ComponentType::Field => component_field_spec(arena, parent, c),
        ComponentType::Reg => match convert_reg_spec(arena, None, Some(def_name(c)), c.def.body) {
            Some((a1, Ok(r))) => Some(
                (a1.push(ComponentView::Reg(r)), Ok(Some(a1.len() as ComponentIdx))),
            ),
            Some((a1, Err(e))) => Some((a1, Err(e))),
            None => None,
        },
        ComponentType::RegFile => match convert_regfile_spec(arena, None, def_name(c), c.def.body) {
            Some((a1, Ok(r))) => Some(
                (a1.push(ComponentView::RegFile(r)), Ok(Some(a1.len() as ComponentIdx))),
            ),
            Some((a1, Err(e))) => Some((a1, Err(e))),
            None => None,
        },
        ComponentType::Mem => Some((arena, Err(ErrorView::UnsupportedComponentType(c.def.type_)))),
    }
}

/// The outcome of converting top-level descriptions: the arena, the
/// top-level enumerations, the top-level component definitions, and the
/// result.
pub type RootStep = Option<
    (Seq<ComponentView>, Seq<EnumView>, Seq<ComponentIdx>, Result<(), ErrorView>),
>;

/// The arena, top-level enumerations and top-level definitions after
/// top-level descriptions `i..`, or `None` where undefined: enumerations
/// are recorded, address maps converted (anonymous ones named "anon") and
/// their index recorded among the top-level definitions, everything else
/// skipped.
pub open spec fn root_from(
    arena: Seq<ComponentView>,
    enums: Seq<EnumView>,
    roots: Seq<ComponentIdx>,
    descriptions: Seq<Description>,
    i: int,
) -> RootStep
    decreases descriptions.len() - i,
{
    if i < 0 || i >= descriptions.len() {
        Some((arena, enums, roots, Ok(())))
    } else {
        match descriptions[i] {
            Description::EnumDef(e) => match parse_enum_spec(e) {
                Some(Ok(ev)) => root_from(arena, enums.push(ev), roots, descriptions, i + 1),
                Some(Err(x)) => Some((arena, enums, roots, Err(x))),
                None => None,
            },
            Description::ComponentDef(c) => if c.def.type_ == ComponentType::AddrMap {
                match add_addrmap_spec(arena, roots, None, def_name(c), c.def.body) {
                    Some((a1, Ok(idx))) => root_from(a1, enums, roots.push(idx), descriptions, i + 1),
                    Some((a1, Err(x))) => Some((a1, enums, roots, Err(x))),
                    None => None,
                }
            } else {
                root_from(arena, enums, roots, descriptions, i + 1)
            },
            _ => root_from(arena, enums, roots, descriptions, i + 1),
        }
    }
}

} // verus!
