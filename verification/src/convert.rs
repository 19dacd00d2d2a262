//! Converting component definitions into the arena.

use vstd::prelude::*;
use vstd::hash_map::StringHashMap;
use vstd::string::*;
use crate::ast::{
    ArrayOrRange, Component, ComponentBody, ComponentBodyElem, ComponentInsts, ComponentType,
};
use crate::component::Component as _;
use crate::component::{
    enums_view, AddrMapType, AllComponent, ComponentIdx, ComponentView, Enum, FieldInstance, FieldType,
    RegView, RegisterFileType, RegisterInstance, RegisterType, StringOrInt,
};
use crate::error::RdlError;
use crate::eval::{eval_property, res_view, Outcome};
use crate::model::{
    add_addrmap_spec, addrmap_from, addrmap_step, component_field_spec, component_reg_spec,
    convert_component_spec, def_name, empty_addrmap, set_addrmap, with_child, with_enum,
    with_instances, with_property, convert_reg_spec, convert_regfile_spec, empty_reg,
    field_body_ok, field_insts_from, field_insts_spec, field_view, has_enum_named, name_view,
    reg_from, reg_insts_from, reg_insts_spec, reg_record_component, regfile_from, Step,
};
use crate::world::{is_prefix, is_prefix_except, World};

verus! {

/// The outcome of an evaluation holding a vector.
pub open spec fn vec_outcome_view<T>(r: Option<Result<Vec<T>, RdlError>>) -> Outcome<Seq<T>> {
    match r {
        Some(Ok(v)) => Some(Ok(v@)),
        Some(Err(e)) => Some(Err(e@)),
        None => None,
    }
}

/// The result of an arena conversion step: the arena after it together
/// with the result, or `None`.
pub open spec fn step_view<T>(arena: Seq<ComponentView>, r: Option<Result<T, RdlError>>) -> Step<T> {
    match r {
        Some(res) => Some((arena, res_view(res))),
        None => None,
    }
}

impl World {
    /// Converts a field definition. Its property assignments are evaluated
    /// but not recorded; it declares no instances of its own.
    pub fn convert_field(
        &self,
        parent: Option<ComponentIdx>,
        name: Option<&str>,
        body: &ComponentBody,
    ) -> (r: Option<Result<(FieldType, Vec<FieldInstance>), RdlError>>)
        ensures
            match r {
                Some(Ok((f, insts))) => field_body_ok(body.elements@) && f@ == field_view_of(
                    parent,
                    name,
                ) && insts@.len() == 0,
                Some(Err(_)) => false,
                None => !field_body_ok(body.elements@),
            },
    {
        let instances: Vec<FieldInstance> = Vec::new();
        let n = body.elements.len();
        let mut i: usize = 0;
        while i < n
            invariant
                n == body.elements@.len(),
                0 <= i <= n,
                forall|k: int|
                    #![trigger body.elements@[k]]
                    0 <= k < i ==> match body.elements@[k] {
                        ComponentBodyElem::PropertyAssignment(pa) => eval_property(pa) is Some,
                        _ => false,
                    },
            decreases n - i,
        {
            match &body.elements[i] {
                ComponentBodyElem::PropertyAssignment(pa) => {
                    if self.evaluate_property(pa).is_none() {
                        return None;
                    }
                },
                // other elements in a field body are not implemented
                _ => {
                    return None;
                },
            }
            i = i + 1;
        }
        let owned_name = match name {
            Some(s) => Some(s.to_owned()),
            None => None,
        };
        Some(
            Ok(
                (
                    FieldType {
                        parent,
                        name: owned_name,
                        properties: StringHashMap::new(),
                        _fields: StringHashMap::new(),
                    },
                    instances,
                ),
            ),
        )
    }

    /// Places a group of field instances: each is as wide as its single
    /// array dimension (else 1 bit) and starts at its `= value` (else right
    /// after the previous one, or at bit 0).
    pub fn convert_field_instances(
        &self,
        _field_idx: ComponentIdx,
        insts: &ComponentInsts,
    ) -> (r: Option<Result<Vec<FieldInstance>, RdlError>>)
        ensures
            field_insts_spec(*insts) == vec_outcome_view(r),
    {
        let mut instances: Vec<FieldInstance> = Vec::new();
        let mut last_msb: Option<u64> = None;
        let ghost all = insts.component_insts@;
        let n = insts.component_insts.len();
        let mut i: usize = 0;
        while i < n
            invariant
                n == all.len(),
                all == insts.component_insts@,
                0 <= i <= n,
                field_insts_from(all, i as int, last_msb, instances@) == field_insts_spec(*insts),
            decreases n - i,
        {
            let inst = &insts.component_insts[i];
            let fieldwidth = match &inst.array_or_range {
                Some(ArrayOrRange::Array(expr)) => {
                    if expr.len() != 1 {
                        return Some(Err(RdlError::MultiDimensionalFieldArray));
                    }
                    let x = &expr[0];
                    match self.evaluate_constant_expr_int(x) {
                        Some(Ok(v)) => v.value,
                        Some(Err(e)) => {
                            return Some(Err(e));
                        },
                        None => {
                            return None;
                        },
                    }
                },
                _ => 1,
            };
            let lsb = match &inst.equals {
                Some(eq) => match self.evaluate_constant_expr_int(eq) {
                    Some(Ok(v)) => v.value,
                    Some(Err(e)) => {
                        return Some(Err(e));
                    },
                    None => {
                        return None;
                    },
                },
                None => match last_msb {
                    Some(b) => {
                        if b == u64::MAX {
                            return None;
                        }
                        b + 1
                    },
                    None => 0,
                },
            };
            if lsb > u64::MAX - fieldwidth || lsb + fieldwidth == 0 {
                return None;
            }
            let msb = lsb + fieldwidth - 1;
            last_msb = Some(msb);
            let instance = FieldInstance {
                id: inst.id.clone(),
                width: fieldwidth as usize,
                offset: lsb as usize,
            };
            instances.push(instance);
            i = i + 1;
        }
        Some(Ok(instances))
    }

    /// The register instances of type `reg` in a group: 32 bits wide, at
    /// their `= address` when one is given.
    pub fn convert_instances(&self, reg: ComponentIdx, insts: &ComponentInsts) -> (r: Option<
        Result<Vec<RegisterInstance>, RdlError>,
    >)
        ensures
            reg_insts_spec(reg, *insts) == vec_outcome_view(r),
    {
        let mut instances: Vec<RegisterInstance> = Vec::new();
        let ghost all = insts.component_insts@;
        let n = insts.component_insts.len();
        let mut i: usize = 0;
        while i < n
            invariant
                n == all.len(),
                all == insts.component_insts@,
                0 <= i <= n,
                reg_insts_from(reg, all, i as int, instances@) == reg_insts_spec(reg, *insts),
            decreases n - i,
        {
            let inst = &insts.component_insts[i];
            let offset = match &inst.equals {
                Some(eq) => match self.evaluate_constant_expr_int(eq) {
                    Some(Ok(v)) => Some(v.value as usize),
                    Some(Err(e)) => {
                        return Some(Err(e));
                    },
                    None => {
                        return None;
                    },
                },
                None => None,
            };
            // register width is not read from `regwidth` yet
            instances.push(RegisterInstance { name: inst.id.clone(), offset, width: 32, type_: reg });
            i = i + 1;
        }
        Some(Ok(instances))
    }

    /// Converts a definition nested in a register (file): a field is added
    /// to the arena and its index returned; other kinds are skipped.
    pub fn convert_component_field(
        &mut self,
        parent: Option<ComponentIdx>,
        component: &Component,
    ) -> (r: Option<Result<Option<ComponentIdx>, RdlError>>)
        requires
            old(self).wf(),
            parent matches Some(p) ==> p < old(self).component_arena.len(),
        ensures
            component_field_spec(old(self).arena_view(), parent, *component) == step_view(
                final(self).arena_view(),
                r,
            ),
            final(self).wf(),
            final(self).same_but_arena(old(self)),
            is_prefix(old(self).arena_view(), final(self).arena_view()),
            r matches Some(Ok(Some(ci))) ==> ci < final(self).component_arena.len(),
    {
        let t = component.def.type_;
        let body = &component.def.body;
        match t {
            ComponentType::Field => {
                let name = match &component.def.name {
                    Some(n) => Some(n.as_str()),
                    None => None,
                };
                let (field, _insts) = match self.convert_field(parent, name, body) {
                    Some(Ok(x)) => x,
                    Some(Err(e)) => {
                        return Some(Err(e));
                    },
                    None => {
                        return None;
                    },
                };
                let ghost old_arena = self.arena_view();
                self.component_arena.push(AllComponent::Field(field));
                proof {
                    assert(self.arena_view() =~= old_arena.push(ComponentView::Field(field@)));
                    assert(field@ == field_view(parent, component.def.name));
                }
                Some(Ok(Some(self.component_arena.len() - 1)))
            },
            _ => Some(Ok(None)),
        }
    }
}

/// The view of a converted field named by a string slice.
pub open spec fn field_view_of(parent: Option<ComponentIdx>, name: Option<&str>) -> crate::component::FieldView {
    crate::component::FieldView {
        parent,
        name: match name {
            Some(s) => Some(s@),
            None => None,
        },
        properties: Map::empty(),
        fields: Map::empty(),
    }
}

/// The view of an optional string slice.
pub open spec fn opt_str_view(n: Option<&str>) -> Option<Seq<char>> {
    match n {
        Some(s) => Some(s@),
        None => None,
    }
}

/// The view of a converted register.
pub open spec fn reg_res_view(r: Result<RegisterType, RdlError>) -> Result<RegView, crate::error::ErrorView> {
    match r {
        Ok(v) => Ok(v@),
        Err(e) => Err(e@),
    }
}

/// The view of a converted register file.
pub open spec fn regfile_res_view(r: Result<RegisterFileType, RdlError>) -> Result<
    RegView,
    crate::error::ErrorView,
> {
    match r {
        Ok(v) => Ok(v@),
        Err(e) => Err(e@),
    }
}

/// Whether one of `enums` is named `name`.
fn has_enum(enums: &Vec<Enum>, name: &String) -> (r: bool)
    ensures
        r == has_enum_named(enums_view(enums@), name@),
{
    let n = enums.len();
    let mut i: usize = 0;
    while i < n
        invariant
            n == enums@.len(),
            0 <= i <= n,
            forall|k: int| 0 <= k < i ==> enums@[k].name@ != name@,
        decreases n - i,
    {
        if enums[i].name == *name {
            proof {
                assert(enums_view(enums@)[i as int].name@ == name@);
            }
            return true;
        }
        i = i + 1;
    }
    proof {
        assert forall|k: int| 0 <= k < enums_view(enums@).len() implies (#[trigger] enums_view(
            enums@,
        )[k]).name@ != name@ by {
            assert(enums_view(enums@)[k] == enums@[k]@);
        }
    }
    false
}

impl World {
    /// Records the field component just converted at `comp_idx` in a
    /// register (file) whose view is `reg`: by name among its fields, and its
    /// on-the-spot instances among its field instances.
    fn record_field_component(
        &self,
        component: &Component,
        comp_idx: ComponentIdx,
        fields: &mut StringHashMap<ComponentIdx>,
        field_instances: &mut Vec<FieldInstance>,
        Ghost(reg): Ghost<RegView>,
    ) -> (r: Option<Result<(), RdlError>>)
        requires
            comp_idx < self.component_arena.len(),
            reg.fields == old(fields)@,
            reg.field_instances == old(field_instances)@,
        ensures
            reg_record_component(self.arena_view(), reg, *component, comp_idx) == match r {
                Some(Ok(())) => Some(
                    (
                        self.arena_view(),
                        Ok(
                            RegView {
                                fields: final(fields)@,
                                field_instances: final(field_instances)@,
                                ..reg
                            },
                        ),
                    ),
                ),
                Some(Err(e)) => Some((self.arena_view(), Err(e@))),
                None => None,
            },
    {
        let ghost arena = self.arena_view();
        let comp_name = match self.component_arena[comp_idx].name() {
            Some(n) => Some(n.to_owned()),
            None => None,
        };
        proof {
            assert(arena[comp_idx as int] == self.component_arena@[comp_idx as int]@);
        }
        if let Some(n) = comp_name {
            fields.insert(n, comp_idx);
        }
        let ghost reg1 = RegView { fields: fields@, ..reg };
        if let Some(insts) = &component.insts {
            let mut new_insts = match self.convert_field_instances(comp_idx, insts) {
                Some(Ok(v)) => v,
                Some(Err(e)) => {
                    return Some(Err(e));
                },
                None => {
                    return None;
                },
            };
            let ghost fi = new_insts@;
            field_instances.append(&mut new_insts);
            proof {
                assert(field_instances@ == reg1.field_instances + fi);
            }
        }
        Some(Ok(()))
    }

    /// Converts a register definition. Nested field definitions are added
    /// to the arena and recorded by name; field instances are placed;
    /// properties and enumerations are recorded.
    pub fn convert_reg(
        &mut self,
        parent: Option<ComponentIdx>,
        name: Option<&str>,
        body: &ComponentBody,
    ) -> (r: Option<Result<RegisterType, RdlError>>)
        requires
            old(self).wf(),
            parent matches Some(p) ==> p < old(self).component_arena.len(),
        ensures
            convert_reg_spec(old(self).arena_view(), parent, opt_str_view(name), *body) == match r {
                Some(x) => Some((final(self).arena_view(), reg_res_view(x))),
                None => None,
            },
            final(self).wf(),
            final(self).same_but_arena(old(self)),
            is_prefix(old(self).arena_view(), final(self).arena_view()),
            r matches Some(Ok(reg)) ==> reg.parent == parent,
    {
        let owned_name = match name {
            Some(s) => Some(s.to_owned()),
            None => None,
        };
        let mut reg = RegisterType {
            parent,
            name: owned_name,
            fields: StringHashMap::new(),
            field_instances: Vec::new(),
            enums: Vec::new(),
            properties: StringHashMap::new(),
        };
        let ghost arena0 = self.arena_view();
        let ghost elems = body.elements@;
        let ghost target = convert_reg_spec(arena0, parent, opt_str_view(name), *body);
        proof {
            assert(enums_view(reg.enums@) =~= Seq::empty());
            assert(reg.field_instances@ =~= Seq::empty());
            assert(reg@ == empty_reg(parent, opt_str_view(name)));
        }
        let n = body.elements.len();
        let mut i: usize = 0;
        while i < n
            invariant
                n == elems.len(),
                elems == body.elements@,
                0 <= i <= n,
                target == convert_reg_spec(arena0, parent, opt_str_view(name), *body),
                reg_from(self.arena_view(), parent, elems, i as int, reg@) == target,
                self.wf(),
                self.same_but_arena(old(self)),
                arena0 == old(self).arena_view(),
                is_prefix(arena0, self.arena_view()),
                parent matches Some(p) ==> p < self.component_arena.len(),
                reg.parent == parent,
            decreases n - i,
        {
            let ghost arena = self.arena_view();
            let ghost before = reg@;
            match &body.elements[i] {
                ComponentBodyElem::PropertyAssignment(pa) => {
                    match self.evaluate_property(pa) {
                        Some(Some((key, value))) => {
                            reg.properties.insert(key, value);
                        },
                        Some(None) => {},
                        None => {
                            return None;
                        },
                    }
                },
                ComponentBodyElem::ComponentDef(component) => {
                    let comp = match self.convert_component_field(parent, component) {
                        Some(Ok(c)) => c,
                        Some(Err(e)) => {
                            return Some(Err(e));
                        },
                        None => {
                            return None;
                        },
                    };
                    if let Some(comp_idx) = comp {
                        let ghost mid = reg@;
                        match self.record_field_component(
                            component,
                            comp_idx,
                            &mut reg.fields,
                            &mut reg.field_instances,
                            Ghost(mid),
                        ) {
                            Some(Ok(())) => {},
                            Some(Err(e)) => {
                                return Some(Err(e));
                            },
                            None => {
                                return None;
                            },
                        }
                    }
                },
                ComponentBodyElem::EnumDef(enum_def) => {
                    let e = match self.parse_enum(enum_def) {
                        Some(Ok(e)) => e,
                        Some(Err(x)) => {
                            return Some(Err(x));
                        },
                        None => {
                            return None;
                        },
                    };
                    reg.enums.push(e);
                    proof {
                        assert(enums_view(reg.enums@) =~= before.enums.push(e@));
                    }
                },
                ComponentBodyElem::ExplicitComponentInst(inst) => {
                    // look in the register components first
                    if reg.fields.contains_key(inst.id.as_str()) {
                        let field_idx = match reg.fields.get(inst.id.as_str()) {
                            Some(f) => *f,
                            None => 0,
                        };
                        let mut new_insts = match self.convert_field_instances(
                            field_idx,
                            &inst.component_insts,
                        ) {
                            Some(Ok(v)) => v,
                            Some(Err(e)) => {
                                return Some(Err(e));
                            },
                            None => {
                                return None;
                            },
                        };
                        reg.field_instances.append(&mut new_insts);
                    } else if has_enum(&reg.enums, &inst.id) {
                        // found in enums
                    } else if parent.is_some() {
                        // resolving the type in the parent's scope is not implemented
                        return None;
                    } else {
                        return Some(Err(RdlError::ComponentNotFound(inst.id.clone())));
                    }
                },
                _ => {
                    return None;
                },
            }
            i = i + 1;
        }
        Some(Ok(reg))
    }
}

impl World {
    /// Converts a definition nested in a register file as a register: a
    /// register is added to the arena and its index returned; other kinds
    /// are skipped.
    pub fn convert_component_reg(
        &mut self,
        parent: Option<ComponentIdx>,
        component: &Component,
    ) -> (r: Option<Result<Option<ComponentIdx>, RdlError>>)
        requires
            old(self).wf(),
            parent matches Some(p) ==> p < old(self).component_arena.len(),
        ensures
            component_reg_spec(old(self).arena_view(), parent, *component) == step_view(
                final(self).arena_view(),
                r,
            ),
            final(self).wf(),
            final(self).same_but_arena(old(self)),
            is_prefix(old(self).arena_view(), final(self).arena_view()),
            r matches Some(Ok(Some(ci))) ==> ci < final(self).component_arena.len(),
    {
        let t = component.def.type_;
        let body = &component.def.body;
        match t {
            ComponentType::Reg => {
                let name = match &component.def.name {
                    Some(n) => Some(n.as_str()),
                    None => None,
                };
                proof {
                    assert(opt_str_view(name) == name_view(component.def.name));
                }
                let reg = match self.convert_reg(parent, name, body) {
                    Some(Ok(r)) => r,
                    Some(Err(e)) => {
                        return Some(Err(e));
                    },
                    None => {
                        return None;
                    },
                };
                let ghost arena1 = self.arena_view();
                self.component_arena.push(AllComponent::Reg(reg));
                proof {
                    assert(self.arena_view() =~= arena1.push(ComponentView::Reg(reg@)));
                }
                Some(Ok(Some(self.component_arena.len() - 1)))
            },
            _ => Some(Ok(None)),
        }
    }

    /// Converts a register file definition named `name`. Nested definitions
    /// are tried as fields and then as registers, added to the arena and
    /// recorded by name; field instances are placed; properties and
    /// enumerations are recorded.
    pub fn convert_regfile(
        &mut self,
        parent: Option<ComponentIdx>,
        name: &str,
        body: &ComponentBody,
    ) -> (r: Option<Result<RegisterFileType, RdlError>>)
        requires
            old(self).wf(),
            parent matches Some(p) ==> p < old(self).component_arena.len(),
        ensures
            convert_regfile_spec(old(self).arena_view(), parent, name@, *body) == match r {
                Some(x) => Some((final(self).arena_view(), regfile_res_view(x))),
                None => None,
            },
            final(self).wf(),
            final(self).same_but_arena(old(self)),
            is_prefix(old(self).arena_view(), final(self).arena_view()),
            r matches Some(Ok(regfile)) ==> regfile.parent == parent,
    {
        let mut regfile = RegisterFileType {
            parent,
            name: name.to_owned(),
            fields: StringHashMap::new(),
            field_instances: Vec::new(),
            enums: Vec::new(),
            properties: StringHashMap::new(),
        };
        let ghost arena0 = self.arena_view();
        let ghost elems = body.elements@;
        let ghost target = convert_regfile_spec(arena0, parent, name@, *body);
        proof {
            assert(enums_view(regfile.enums@) =~= Seq::empty());
            assert(regfile.field_instances@ =~= Seq::empty());
            assert(regfile@ == empty_reg(parent, Some(name@)));
        }
        let n = body.elements.len();
        let mut i: usize = 0;
        while i < n
            invariant
                n == elems.len(),
                elems == body.elements@,
                0 <= i <= n,
                target == convert_regfile_spec(arena0, parent, name@, *body),
                regfile_from(self.arena_view(), parent, name@, elems, i as int, regfile@) == target,
                self.wf(),
                self.same_but_arena(old(self)),
                arena0 == old(self).arena_view(),
                is_prefix(arena0, self.arena_view()),
                parent matches Some(p) ==> p < self.component_arena.len(),
                regfile.parent == parent,
                regfile.name@ == name@,
            decreases n - i,
        {
            let ghost before = regfile@;
            match &body.elements[i] {
                ComponentBodyElem::PropertyAssignment(pa) => {
                    match self.evaluate_property(pa) {
                        Some(Some((key, value))) => {
                            regfile.properties.insert(key, value);
                        },
                        Some(None) => {},
                        None => {
                            return None;
                        },
                    }
                },
                ComponentBodyElem::ComponentDef(component) => {
                    let comp = match self.convert_component_field(parent, component) {
                        Some(Ok(c)) => c,
                        Some(Err(e)) => {
                            return Some(Err(e));
                        },
                        None => {
                            return None;
                        },
                    };
                    if let Some(comp_idx) = comp {
                        let ghost mid = regfile@;
                        match self.record_field_component(
                            component,
                            comp_idx,
                            &mut regfile.fields,
                            &mut regfile.field_instances,
                            Ghost(mid),
                        ) {
                            Some(Ok(())) => {},
                            Some(Err(e)) => {
                                return Some(Err(e));
                            },
                            None => {
                                return None;
                            },
                        }
                    }
                    let comp = match self.convert_component_reg(parent, component) {
                        Some(Ok(c)) => c,
                        Some(Err(e)) => {
                            return Some(Err(e));
                        },
                        None => {
                            return None;
                        },
                    };
                    if let Some(comp_idx) = comp {
                        let ghost mid = regfile@;
                        match self.record_field_component(
                            component,
                            comp_idx,
                            &mut regfile.fields,
                            &mut regfile.field_instances,
                            Ghost(mid),
                        ) {
                            Some(Ok(())) => {},
                            Some(Err(e)) => {
                                return Some(Err(e));
                            },
                            None => {
                                return None;
                            },
                        }
                    }
                },
                ComponentBodyElem::EnumDef(enum_def) => {
                    let e = match self.parse_enum(enum_def) {
                        Some(Ok(e)) => e,
                        Some(Err(x)) => {
                            return Some(Err(x));
                        },
                        None => {
                            return None;
                        },
                    };
                    regfile.enums.push(e);
                    proof {
                        assert(enums_view(regfile.enums@) =~= before.enums.push(e@));
                    }
                },
                ComponentBodyElem::ExplicitComponentInst(inst) => {
                    // look in the register file components first
                    if regfile.fields.contains_key(inst.id.as_str()) {
                        let field_idx = match regfile.fields.get(inst.id.as_str()) {
                            Some(f) => *f,
                            None => 0,
                        };
                        let mut new_insts = match self.convert_field_instances(
                            field_idx,
                            &inst.component_insts,
                        ) {
                            Some(Ok(v)) => v,
                            Some(Err(e)) => {
                                return Some(Err(e));
                            },
                            None => {
                                return None;
                            },
                        };
                        regfile.field_instances.append(&mut new_insts);
                    } else if has_enum(&regfile.enums, &inst.id) {
                        // found in enums
                    } else if parent.is_some() {
                        // resolving the type in the parent's scope is not implemented
                        return None;
                    } else {
                        return Some(
                            Err(RdlError::ComponentNotFoundInRegfile(inst.id.clone(), name.to_owned())),
                        );
                    }
                },
                _ => {
                    return None;
                },
            }
            i = i + 1;
        }
        Some(Ok(regfile))
    }
}

/// Adds register instances to an address map.
fn append_instances(mut a: AddrMapType, more: Vec<RegisterInstance>) -> (r: (AddrMapType, ()))
    ensures
        r.0@ == with_instances(a@, more@),
{
    let mut more = more;
    a.instances.append(&mut more);
    (a, ())
}

/// Adds a child to an address map.
fn push_child(mut a: AddrMapType, c: ComponentIdx) -> (r: (AddrMapType, ()))
    ensures
        r.0@ == with_child(a@, c),
{
    a.children.push(c);
    (a, ())
}

/// Adds an enumeration to an address map.
fn push_enum(mut a: AddrMapType, e: Enum) -> (r: (AddrMapType, ()))
    ensures
        r.0@ == with_enum(a@, e@),
{
    let ghost before = a@;
    a.enums.push(e);
    proof {
        assert(enums_view(a.enums@) =~= before.enums.push(e@));
    }
    (a, ())
}

/// Sets a property of an address map.
fn set_property(mut a: AddrMapType, kv: (String, StringOrInt)) -> (r: (AddrMapType, ()))
    ensures
        r.0@ == with_property(a@, kv.0@, kv.1),
{
    let (k, v) = kv;
    a.properties.insert(k, v);
    (a, ())
}

/// A prefix of `b` that stops before `idx` stays a prefix when `b` changes
/// only at `idx`.
proof fn lemma_prefix_through<T>(a: Seq<T>, b: Seq<T>, c: Seq<T>, idx: int)
    requires
        is_prefix(a, b),
        is_prefix_except(b, c, idx),
        idx >= a.len(),
    ensures
        is_prefix(a, c),
{
}

impl World {
    /// Replaces the address map at `idx` through `with_addrmap`, keeping the
    /// views of all other components.
    proof fn lemma_set_addrmap(old_w: &World, new_w: &World, idx: ComponentIdx)
        requires
            idx < old_w.component_arena.len(),
            new_w.component_arena@ == old_w.component_arena@.update(
                idx as int,
                new_w.component_arena@[idx as int],
            ),
            new_w.component_arena@[idx as int] is AddrMap,
        ensures
            new_w.arena_view() == set_addrmap(
                old_w.arena_view(),
                idx,
                new_w.component_arena@[idx as int]->AddrMap_0@,
            ),
    {
        assert(new_w.arena_view() =~= set_addrmap(
            old_w.arena_view(),
            idx,
            new_w.component_arena@[idx as int]->AddrMap_0@,
        ));
    }

    /// Converts an address map definition: the map is added to the arena,
    /// then each element of its body is converted into it. Nested
    /// definitions become children (registers instantiated on the spot also
    /// become register instances); enumerations and properties are
    /// recorded. Returns the map's index.
    #[verifier::rlimit(50)]
    pub fn add_addrmap(&mut self, parent: Option<ComponentIdx>, name: &str, body: &ComponentBody) -> (r:
        Option<Result<ComponentIdx, RdlError>>)
        requires
            old(self).wf(),
            parent matches Some(p) ==> p < old(self).component_arena.len(),
        ensures
            add_addrmap_spec(
                old(self).arena_view(),
                old(self).child_components@,
                parent,
                name@,
                *body,
            ) == step_view(final(self).arena_view(), r),
            final(self).wf(),
            final(self).same_but_arena(old(self)),
            is_prefix(old(self).arena_view(), final(self).arena_view()),
            r matches Some(Ok(idx)) ==> {
                &&& idx == old(self).component_arena.len()
                &&& idx < final(self).component_arena.len()
                &&& final(self).arena_view()[idx as int] matches ComponentView::AddrMap(m)
                &&& m.name == name@
                &&& m.parent == parent
            },
        decreases *body, body.elements@.len() + 2,
    {
        let ghost roots = self.child_components@;
        let ghost arena_start = self.arena_view();
        let addrmap = AddrMapType {
            name: name.to_owned(),
            offset: 0,
            width: 0,
            parent,
            children: Vec::new(),
            fields: StringHashMap::new(),
            instances: Vec::new(),
            enums: Vec::new(),
            properties: StringHashMap::new(),
        };
        proof {
            assert(enums_view(addrmap.enums@) =~= Seq::empty());
            assert(addrmap.instances@ =~= Seq::empty());
            assert(addrmap.children@ =~= Seq::empty());
            assert(addrmap@ == empty_addrmap(parent, name@));
        }
        self.component_arena.push(AllComponent::AddrMap(addrmap));
        let addrmap_idx = self.component_arena.len() - 1;
        let ghost a0 = self.arena_view();
        proof {
            assert(a0 =~= arena_start.push(ComponentView::AddrMap(empty_addrmap(parent, name@))));
        }
        let ghost target = addrmap_from(a0, roots, parent, addrmap_idx, *body, 0);
        proof {
            assert(add_addrmap_spec(arena_start, roots, parent, name@, *body) == match target {
                Some((a1, Ok(()))) => Some((a1, Ok(addrmap_idx))),
                Some((a1, Err(e))) => Some((a1, Err(e))),
                None => None,
            });
        }
        let n = body.elements.len();
        let mut i: usize = 0;
        while i < n
            invariant
                n == body.elements@.len(),
                0 <= i <= n,
                addrmap_idx == arena_start.len(),
                addrmap_idx < self.component_arena.len(),
                self.component_arena@[addrmap_idx as int] is AddrMap,
                self.component_arena@[addrmap_idx as int]->AddrMap_0.parent == parent,
                self.component_arena@[addrmap_idx as int]->AddrMap_0.name@ == name@,
                target == addrmap_from(a0, roots, parent, addrmap_idx, *body, 0),
                addrmap_from(self.arena_view(), roots, parent, addrmap_idx, *body, i as int)
                    == target,
                add_addrmap_spec(arena_start, roots, parent, name@, *body) == match target {
                    Some((a1, Ok(()))) => Some((a1, Ok(addrmap_idx))),
                    Some((a1, Err(e))) => Some((a1, Err(e))),
                    None => None,
                },
                self.wf(),
                roots == self.child_components@,
                self.same_but_arena(old(self)),
                arena_start == old(self).arena_view(),
                is_prefix(arena_start, self.arena_view()),
                parent matches Some(p) ==> p < addrmap_idx,
            decreases n - i,
        {
            let ghost before = self.arena_view();
            match self.add_addrmap_element(parent, addrmap_idx, body, i) {
                Some(Ok(())) => {
                    proof {
                        lemma_prefix_through(arena_start, before, self.arena_view(), addrmap_idx as int);
                    }
                },
                Some(Err(e)) => {
                    proof {
                        lemma_prefix_through(arena_start, before, self.arena_view(), addrmap_idx as int);
                        assert(addrmap_from(before, roots, parent, addrmap_idx, *body, i as int)
                            == Some((self.arena_view(), Err::<(), crate::error::ErrorView>(e@))));
                    }
                    return Some(Err(e));
                },
                None => {
                    proof {
                        lemma_prefix_through(arena_start, before, self.arena_view(), addrmap_idx as int);
                    }
                    return None;
                },
            }
            i = i + 1;
        }
        proof {
            assert(self.arena_view()[addrmap_idx as int] == self.component_arena@[addrmap_idx as int]@);
        }
        Some(Ok(addrmap_idx))
    }

    /// Converts element `i` of an address map body into the map at
    /// `addrmap_idx`.
    fn add_addrmap_element(
        &mut self,
        parent: Option<ComponentIdx>,
        addrmap_idx: ComponentIdx,
        body: &ComponentBody,
        i: usize,
    ) -> (r: Option<Result<(), RdlError>>)
        requires
            old(self).wf(),
            i < body.elements@.len(),
            addrmap_idx < old(self).component_arena.len(),
            old(self).component_arena@[addrmap_idx as int] is AddrMap,
            old(self).component_arena@[addrmap_idx as int]->AddrMap_0.parent == parent,
            parent matches Some(p) ==> p < addrmap_idx,
        ensures
            addrmap_step(
                old(self).arena_view(),
                old(self).child_components@,
                parent,
                addrmap_idx,
                *body,
                i as int,
            ) == step_view(final(self).arena_view(), r),
            final(self).wf(),
            final(self).same_but_arena(old(self)),
            is_prefix_except(old(self).arena_view(), final(self).arena_view(), addrmap_idx as int),
            addrmap_idx < final(self).component_arena.len(),
            final(self).component_arena@[addrmap_idx as int] is AddrMap,
            final(self).component_arena@[addrmap_idx as int]->AddrMap_0.parent == parent,
            final(self).component_arena@[addrmap_idx as int]->AddrMap_0.name@
                == old(self).component_arena@[addrmap_idx as int]->AddrMap_0.name@,
        decreases *body, body.elements@.len() - i,
    {
        let ghost arena = self.arena_view();
        proof {
            assert(arena[addrmap_idx as int] == self.component_arena@[addrmap_idx as int]@);
        }
        match &body.elements[i] {
            ComponentBodyElem::ComponentDef(component) => {
                proof {
                    assert(decreases_to!(*body => body.elements));
                    assert(decreases_to!(body.elements => body.elements@));
                }
                let res = self.convert_component(parent, component);
                proof {
                    assert(self.arena_view()[addrmap_idx as int] == arena[addrmap_idx as int]);
                    assert(self.arena_view()[addrmap_idx as int]
                        == self.component_arena@[addrmap_idx as int]@);
                }
                let comp = match res {
                    Some(Ok(c)) => c,
                    Some(Err(e)) => {
                        return Some(Err(e));
                    },
                    None => {
                        return None;
                    },
                };
                if let Some(comp_idx) = comp {
                    let ghost a1 = self.arena_view();
                    proof {
                        assert(a1[addrmap_idx as int] == self.component_arena@[addrmap_idx as int]@);
                        assert(a1[comp_idx as int] == self.component_arena@[comp_idx as int]@);
                    }
                    if component.insts.is_some() {
                        let is_reg = match &self.component_arena[comp_idx] {
                            AllComponent::Reg(_) => true,
                            _ => false,
                        };
                        if is_reg {
                            let new_insts = match self.convert_instances(
                                comp_idx,
                                component.insts.as_ref().unwrap(),
                            ) {
                                Some(Ok(v)) => v,
                                Some(Err(e)) => {
                                    return Some(Err(e));
                                },
                                None => {
                                    return None;
                                },
                            };
                            let ghost w1 = *self;
                            let ghost ni = new_insts@;
                            self.with_addrmap(addrmap_idx, new_insts, append_instances);
                            proof {
                                World::lemma_set_addrmap(&w1, self, addrmap_idx);
                            }
                        }
                    }
                    let ghost w2 = *self;
                    self.with_addrmap(addrmap_idx, comp_idx, push_child);
                    proof {
                        World::lemma_set_addrmap(&w2, self, addrmap_idx);
                    }
                }
            },
            ComponentBodyElem::EnumDef(enum_def) => {
                let e = match self.parse_enum(enum_def) {
                    Some(Ok(e)) => e,
                    Some(Err(x)) => {
                        return Some(Err(x));
                    },
                    None => {
                        return None;
                    },
                };
                let ghost ev = e@;
                let ghost w1 = *self;
                self.with_addrmap(addrmap_idx, e, push_enum);
                proof {
                    World::lemma_set_addrmap(&w1, self, addrmap_idx);
                }
            },
            ComponentBodyElem::StructDef(_struct_def) => {
                return None;
            },
            ComponentBodyElem::ConstraintDef(_constraint_def) => {
                return None;
            },
            ComponentBodyElem::ExplicitComponentInst(explicit_component_inst) => {
                if let Some(_component_idx) = self.find_component(
                    &self.component_arena[addrmap_idx],
                    explicit_component_inst.id.as_str(),
                ) {
                    // instantiating a type defined in scope is not implemented
                    return None;
                } else {
                    return Some(Err(RdlError::ComponentNotFound(explicit_component_inst.id.clone())));
                }
            },
            ComponentBodyElem::PropertyAssignment(property_assignment) => {
                match self.evaluate_property(property_assignment) {
                    Some(Some((key, value))) => {
                        let ghost w1 = *self;
                        self.with_addrmap(addrmap_idx, (key, value), set_property);
                        proof {
                            World::lemma_set_addrmap(&w1, self, addrmap_idx);
                        }
                    },
                    Some(None) => {},
                    None => {
                        return None;
                    },
                }
            },
        }
        Some(Ok(()))
    }

    /// Converts a definition nested in an address map: address maps,
    /// fields, registers and register files are added to the arena and
    /// their index returned (registers and register files are converted
    /// without a parent; anonymous definitions are named "anon"); signals
    /// are skipped; other kinds are rejected.
    pub fn convert_component(&mut self, parent: Option<ComponentIdx>, component: &Component) -> (r:
        Option<Result<Option<ComponentIdx>, RdlError>>)
        requires
            old(self).wf(),
            parent matches Some(p) ==> p < old(self).component_arena.len(),
        ensures
            convert_component_spec(
                old(self).arena_view(),
                old(self).child_components@,
                parent,
                *component,
            ) == step_view(final(self).arena_view(), r),
            final(self).wf(),
            final(self).same_but_arena(old(self)),
            is_prefix(old(self).arena_view(), final(self).arena_view()),
            r matches Some(Ok(Some(ci))) ==> ci < final(self).component_arena.len(),
        decreases *component, 0int,
    {
        let t = component.def.type_;
        let name = match &component.def.name {
            Some(n) => n.clone(),
            None => String::from_str("anon"),
        };
        proof {
            assert(name@ == def_name(*component));
        }
        let body = &component.def.body;
        match t {
            ComponentType::AddrMap => {
                proof {
                    assert(decreases_to!(*component => component.def));
                }
                let idx = match self.add_addrmap(parent, name.as_str(), body) {
                    Some(Ok(idx)) => idx,
                    Some(Err(e)) => {
                        return Some(Err(e));
                    },
                    None => {
                        return None;
                    },
                };
                Some(Ok(Some(idx)))
            },
            ComponentType::Signal => Some(Ok(None)),
            ComponentType::Field => self.convert_component_field(parent, component),
            ComponentType::Reg => {
                let reg = match self.convert_reg(None, Some(name.as_str()), body) {
                    Some(Ok(r)) => r,
                    Some(Err(e)) => {
                        return Some(Err(e));
                    },
                    None => {
                        return None;
                    },
                };
                let ghost arena1 = self.arena_view();
                self.component_arena.push(AllComponent::Reg(reg));
                proof {
                    assert(self.arena_view() =~= arena1.push(ComponentView::Reg(reg@)));
                }
                Some(Ok(Some(self.component_arena.len() - 1)))
            },
            ComponentType::RegFile => {
                let regfile = match self.convert_regfile(None, name.as_str(), body) {
                    Some(Ok(r)) => r,
                    Some(Err(e)) => {
                        return Some(Err(e));
                    },
                    None => {
                        return None;
                    },
                };
                let ghost arena1 = self.arena_view();
                self.component_arena.push(AllComponent::RegFile(regfile));
                proof {
                    assert(self.arena_view() =~= arena1.push(ComponentView::RegFile(regfile@)));
                }
                Some(Ok(Some(self.component_arena.len() - 1)))
            },
            _ => Some(Err(RdlError::UnsupportedComponentType(t))),
        }
    }
}

} // verus!
