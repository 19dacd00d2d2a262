//! The component arena built from a description, and the conversion of
//! address maps, register files, registers and fields into it.

use vstd::prelude::*;
use vstd::hash_map::StringHashMap;
use crate::ast::ComponentType;
use crate::component::{
    AddrMapType, AllComponent, Component, ComponentIdx, ComponentView, Enum, EnumView, Instance,
    InstanceIdx, StringOrInt, enums_view,
};
use crate::model::{arena_wf, find_child, find_component_spec, find_field_spec, parent_rank};

verus! {

/// Everything converted from a description. Components and instances are
/// referenced by their position in the arenas; they are added but never
/// removed.
pub struct World {
    /// Top-level component definitions.
    pub child_components: Vec<ComponentIdx>,
    /// Top-level instances.
    pub child_instances: Vec<InstanceIdx>,
    /// Top-level enumerations.
    pub enums: Vec<Enum>,
    /// All components, by index.
    pub component_arena: Vec<AllComponent>,
    /// All instances, by index.
    pub instance_arena: Vec<Instance>,
}

/// `a` is a prefix of `b`.
pub open spec fn is_prefix<T>(a: Seq<T>, b: Seq<T>) -> bool {
    a.len() <= b.len() && forall|k: int| 0 <= k < a.len() ==> #[trigger] b[k] == a[k]
}

/// `b` extends `a` and agrees with it everywhere except at `idx`.
pub open spec fn is_prefix_except<T>(a: Seq<T>, b: Seq<T>, idx: int) -> bool {
    a.len() <= b.len() && forall|k: int| 0 <= k < a.len() && k != idx ==> #[trigger] b[k] == a[k]
}

impl World {
    /// The components, by index.
    pub open spec fn arena_view(&self) -> Seq<ComponentView> {
        self.component_arena@.map_values(|c: AllComponent| c@)
    }

    /// The top-level enumerations.
    pub open spec fn enums_view(&self) -> Seq<EnumView> {
        enums_view(self.enums@)
    }

    /// The arena is well formed (see `arena_wf`).
    pub open spec fn wf(&self) -> bool {
        arena_wf(self.arena_view(), self.child_components@)
    }

    /// `self` and `other` differ at most in their component arenas.
    pub open spec fn same_but_arena(&self, other: &World) -> bool {
        &&& self.child_components@ == other.child_components@
        &&& self.child_instances@ == other.child_instances@
        &&& self.enums@ == other.enums@
        &&& self.instance_arena@ == other.instance_arena@
    }

    /// An empty world.
    pub fn new() -> (w: World)
        ensures
            w.arena_view() == Seq::<ComponentView>::empty(),
            w.child_components@ == Seq::<ComponentIdx>::empty(),
            w.child_instances@ == Seq::<InstanceIdx>::empty(),
            w.enums@ == Seq::<Enum>::empty(),
            w.instance_arena@ == Seq::<Instance>::empty(),
            w.wf(),
    {
        let w = World {
            child_components: Vec::new(),
            child_instances: Vec::new(),
            enums: Vec::new(),
            component_arena: Vec::new(),
            instance_arena: Vec::new(),
        };
        assert(w.arena_view() =~= Seq::<ComponentView>::empty());
        w
    }

    /// Calls `f` on the address map at `idx` (and `arg`) and keeps the map
    /// it gives back.
    pub fn with_addrmap<A, T, F: FnOnce(AddrMapType, A) -> (AddrMapType, T)>(
        &mut self,
        idx: ComponentIdx,
        arg: A,
        f: F,
    ) -> (r: T)
        requires
            idx < old(self).component_arena.len(),
            old(self).component_arena@[idx as int] is AddrMap,
            f.requires((old(self).component_arena@[idx as int]->AddrMap_0, arg)),
        ensures
            final(self).component_arena@[idx as int] is AddrMap,
            f.ensures(
                (old(self).component_arena@[idx as int]->AddrMap_0, arg),
                (final(self).component_arena@[idx as int]->AddrMap_0, r),
            ),
            final(self).component_arena@ == old(self).component_arena@.update(
                idx as int,
                final(self).component_arena@[idx as int],
            ),
            final(self).same_but_arena(old(self)),
    {
        let mut slot = AllComponent::AddrMap(AddrMapType::empty());
        self.component_arena.set_and_swap(idx, &mut slot);
        match slot {
            AllComponent::AddrMap(addrmap) => {
                let (updated, r) = f(addrmap, arg);
                self.component_arena.set(idx, AllComponent::AddrMap(updated));
                r
            },
            _ => {
                proof {
                    assert(false);
                }
                vstd::pervasive::unreached()
            },
        }
    }
}

impl AddrMapType {
    /// An address map with no name, contents or properties.
    pub fn empty() -> (r: AddrMapType)
        ensures
            r.name@ == Seq::<char>::empty(),
            r.offset == 0,
            r.width == 0,
            r.parent is None,
            r.children@ == Seq::<ComponentIdx>::empty(),
            r.fields@ == Map::<Seq<char>, ComponentIdx>::empty(),
            r.instances@.len() == 0,
            r.enums@.len() == 0,
            r.properties@ == Map::<Seq<char>, StringOrInt>::empty(),
    {
        AddrMapType {
            name: String::new(),
            offset: 0,
            width: 0,
            parent: None,
            children: Vec::new(),
            fields: StringHashMap::new(),
            instances: Vec::new(),
            enums: Vec::new(),
            properties: StringHashMap::new(),
        }
    }
}

impl AllComponent {
    /// The address map this component is, if it is one.
    pub fn as_addrmap(&mut self) -> (r: Option<&mut AddrMapType>)
        ensures
            *old(self) is AddrMap <==> r is Some,
            r matches Some(m) ==> *m == (*old(self))->AddrMap_0 && *final(self)
                == AllComponent::AddrMap(*final(m)),
            !(*old(self) is AddrMap) ==> *final(self) == *old(self),
    {
        if let AllComponent::AddrMap(addrmap) = self {
            Some(addrmap)
        } else {
            None
        }
    }
}

impl Component for AllComponent {
    open spec fn component_view(&self) -> ComponentView {
        self@
    }

    fn name(&self) -> (r: Option<&str>) {
        match self {
            AllComponent::AddrMap(addrmap) => addrmap.name(),
            AllComponent::Reg(reg) => reg.name(),
            AllComponent::RegFile(regfile) => regfile.name(),
            AllComponent::Field(field) => field.name(),
        }
    }

    fn component_type(&self) -> (r: ComponentType) {
        match self {
            AllComponent::AddrMap(addrmap) => addrmap.component_type(),
            AllComponent::Reg(reg) => reg.component_type(),
            AllComponent::RegFile(regfile) => regfile.component_type(),
            AllComponent::Field(field) => field.component_type(),
        }
    }

    fn parent(&self) -> (r: Option<ComponentIdx>) {
        match self {
            AllComponent::AddrMap(addrmap) => addrmap.parent(),
            AllComponent::Reg(reg) => reg.parent(),
            AllComponent::RegFile(regfile) => regfile.parent(),
            AllComponent::Field(field) => field.parent(),
        }
    }

    fn width(&self) -> (r: usize) {
        match self {
            AllComponent::AddrMap(addrmap) => addrmap.width(),
            AllComponent::Reg(reg) => reg.width(),
            AllComponent::RegFile(regfile) => regfile.width(),
            AllComponent::Field(field) => field.width(),
        }
    }

    fn offset(&self) -> (r: usize) {
        match self {
            AllComponent::AddrMap(addrmap) => addrmap.offset(),
            AllComponent::Reg(reg) => reg.offset(),
            AllComponent::RegFile(regfile) => regfile.offset(),
            AllComponent::Field(field) => field.offset(),
        }
    }

    fn fields(&self) -> (r: &StringHashMap<ComponentIdx>) {
        match self {
            AllComponent::AddrMap(addrmap) => addrmap.fields(),
            AllComponent::Reg(reg) => reg.fields(),
            AllComponent::RegFile(regfile) => regfile.fields(),
            AllComponent::Field(field) => field.fields(),
        }
    }

    fn children(&self) -> (r: &[ComponentIdx]) {
        match self {
            AllComponent::AddrMap(addrmap) => addrmap.children(),
            AllComponent::Reg(reg) => reg.children(),
            AllComponent::RegFile(regfile) => regfile.children(),
            AllComponent::Field(field) => field.children(),
        }
    }

    fn enums(&self) -> (r: &[Enum]) {
        match self {
            AllComponent::AddrMap(addrmap) => addrmap.enums(),
            AllComponent::Reg(reg) => reg.enums(),
            AllComponent::RegFile(regfile) => regfile.enums(),
            AllComponent::Field(field) => field.enums(),
        }
    }

    fn properties(&self) -> (r: &StringHashMap<StringOrInt>) {
        match self {
            AllComponent::AddrMap(addrmap) => addrmap.properties(),
            AllComponent::Reg(reg) => reg.properties(),
            AllComponent::RegFile(regfile) => regfile.properties(),
            AllComponent::Field(field) => field.properties(),
        }
    }
}

/// Whether two strings are equal.
pub fn str_eq(a: &str, b: &str) -> (r: bool)
    ensures
        r == (a@ == b@),
{
    a.to_owned() == b.to_owned()
}

impl World {
    /// The first of `children` whose component is named `name`.
    fn find_child(&self, children: &[ComponentIdx], name: &str) -> (r: Option<ComponentIdx>)
        requires
            forall|j: int| 0 <= j < children@.len() ==> children@[j] < self.component_arena.len(),
        ensures
            r == find_child(self.arena_view(), children@, name@, 0),
    {
        let n = children.len();
        let mut i: usize = 0;
        while i < n
            invariant
                n == children@.len(),
                0 <= i <= n,
                forall|j: int| 0 <= j < children@.len() ==> children@[j] < self.component_arena.len(),
                find_child(self.arena_view(), children@, name@, i as int) == find_child(
                    self.arena_view(),
                    children@,
                    name@,
                    0,
                ),
            decreases n - i,
        {
            let child_idx = children[i];
            let child = &self.component_arena[child_idx];
            let matches = match child.name() {
                Some(child_name) => str_eq(child_name, name),
                None => false,
            };
            if matches {
                return Some(child_idx);
            }
            i = i + 1;
        }
        None
    }

    /// The component definition named `name` visible from `src`: among its
    /// children, else in its parent's scope, else among the top-level
    /// definitions.
    pub fn find_component(&self, src: &AllComponent, name: &str) -> (r: Option<ComponentIdx>)
        requires
            self.wf(),
            src@.parent() matches Some(p) ==> p < self.component_arena.len(),
            forall|j: int|
                0 <= j < src@.children().len() ==> src@.children()[j]
                    < self.component_arena.len(),
        ensures
            r == find_component_spec(self.arena_view(), self.child_components@, src@, name@),
        decreases parent_rank(src@),
    {
        if let Some(c) = self.find_child(src.children(), name) {
            return Some(c);
        }
        match src.parent() {
            Some(parent) => {
                let ghost arena = self.arena_view();
                proof {
                    assert(arena[parent as int] == self.component_arena@[parent as int]@);
                }
                self.find_component(&self.component_arena[parent], name)
            },
            None => self.find_child(self.child_components.as_slice(), name),
        }
    }

    /// The field definition named `name` visible from `src`: among its
    /// fields, else in its parent's scope.
    pub fn find_field(&self, src: &AllComponent, name: &str) -> (r: Option<ComponentIdx>)
        requires
            self.wf(),
            src@.parent() matches Some(p) ==> p < self.component_arena.len(),
        ensures
            r == find_field_spec(self.arena_view(), src@, name@),
        decreases parent_rank(src@),
    {
        if let Some(f) = src.fields().get(name) {
            Some(*f)
        } else if let Some(parent) = src.parent() {
            let ghost arena = self.arena_view();
            proof {
                assert(arena[parent as int] == self.component_arena@[parent as int]@);
            }
            self.find_field(&self.component_arena[parent], name)
        } else {
            None
        }
    }
}

} // verus!
