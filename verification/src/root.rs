//! Converting a whole description.

use vstd::prelude::*;
use crate::ast::{ComponentType, Description, Root};
use crate::component::{enums_view, ComponentView, EnumView};
use crate::error::{ErrorView, RdlError};
use crate::eval::res_view;
use crate::model::{root_from, RootStep};
use crate::world::{is_prefix, str_eq, World};

verus! {

/// The outcome of converting a whole description into the world `w`: its
/// arena, top-level enumerations and top-level definitions, and the result.
pub open spec fn root_outcome(r: Option<Result<(), RdlError>>, w: &World) -> RootStep {
    match r {
        Some(res) => Some((w.arena_view(), w.enums_view(), w.child_components@, res_view(res))),
        None => None,
    }
}

impl World {
    /// Converts the top-level descriptions into the world; `None` where
    /// the conversion is undefined (see `root_from`). Enumerations are
    /// recorded, address maps converted (anonymous ones named "anon"), other
    /// descriptions skipped; the index of each converted top-level address
    /// map is recorded among the top-level definitions. A rejected element
    /// stops the conversion and what was converted before it stays.
    /// Components, enumerations and top-level definitions are only ever
    /// added.
    pub fn try_parse_root(&mut self, root: &Root) -> (r: Option<Result<(), RdlError>>)
        requires
            old(self).wf(),
        ensures
            root_from(
                old(self).arena_view(),
                old(self).enums_view(),
                old(self).child_components@,
                root.descriptions@,
                0,
            ) == root_outcome(r, final(self)),
            final(self).wf(),
            is_prefix(old(self).child_components@, final(self).child_components@),
            final(self).child_instances@ == old(self).child_instances@,
            final(self).instance_arena@ == old(self).instance_arena@,
            is_prefix(old(self).arena_view(), final(self).arena_view()),
            is_prefix(old(self).enums@, final(self).enums@),
    {
        let ghost target = root_from(
            self.arena_view(),
            self.enums_view(),
            self.child_components@,
            root.descriptions@,
            0,
        );
        let n = root.descriptions.len();
        let mut i: usize = 0;
        while i < n
            invariant
                n == root.descriptions@.len(),
                0 <= i <= n,
                target == root_from(
                    old(self).arena_view(),
                    old(self).enums_view(),
                    old(self).child_components@,
                    root.descriptions@,
                    0,
                ),
                root_from(
                    self.arena_view(),
                    self.enums_view(),
                    self.child_components@,
                    root.descriptions@,
                    i as int,
                ) == target,
                self.wf(),
                is_prefix(old(self).child_components@, self.child_components@),
                self.child_instances@ == old(self).child_instances@,
                self.instance_arena@ == old(self).instance_arena@,
                is_prefix(old(self).arena_view(), self.arena_view()),
                is_prefix(old(self).enums@, self.enums@),
            decreases n - i,
        {
            match &root.descriptions[i] {
                Description::EnumDef(e) => {
                    let e = match self.parse_enum(e) {
                        Some(Ok(e)) => e,
                        Some(Err(x)) => {
                            return Some(Err(x));
                        },
                        None => {
                            return None;
                        },
                    };
                    let ghost before = self.enums_view();
                    self.enums.push(e);
                    proof {
                        assert(self.enums_view() =~= before.push(e@));
                    }
                },
                Description::ComponentDef(c) => {
                    if c.def.type_ == ComponentType::AddrMap {
                        let name = match &c.def.name {
                            Some(n) => n.as_str(),
                            None => "anon",
                        };
                        proof {
                            assert(name@ == crate::model::def_name(*c));
                        }
                        match self.add_addrmap(None, name, &c.def.body) {
                            Some(Ok(idx)) => {
                                self.child_components.push(idx);
                            },
                            Some(Err(e)) => {
                                return Some(Err(e));
                            },
                            None => {
                                return None;
                            },
                        }
                    }
                },
                _ => {},
            }
            i = i + 1;
        }
        Some(Ok(()))
    }

    /// Converts the top-level descriptions into the world, as
    /// `try_parse_root` does, for descriptions whose conversion is defined.
    pub fn parse_root(&mut self, root: &Root) -> (r: Result<(), RdlError>)
        requires
            old(self).wf(),
            root_from(
                old(self).arena_view(),
                old(self).enums_view(),
                old(self).child_components@,
                root.descriptions@,
                0,
            ) is Some,
        ensures
            root_from(
                old(self).arena_view(),
                old(self).enums_view(),
                old(self).child_components@,
                root.descriptions@,
                0,
            ) == Some(
                (
                    final(self).arena_view(),
                    final(self).enums_view(),
                    final(self).child_components@,
                    res_view(r),
                ),
            ),
            final(self).wf(),
            is_prefix(old(self).child_components@, final(self).child_components@),
            final(self).child_instances@ == old(self).child_instances@,
            final(self).instance_arena@ == old(self).instance_arena@,
            is_prefix(old(self).arena_view(), final(self).arena_view()),
            is_prefix(old(self).enums@, final(self).enums@),
    {
        match self.try_parse_root(root) {
            Some(r) => r,
            None => {
                proof {
                    assert(false);
                }
                Ok(())
            },
        }
    }

    /// The world a description converts into, or why it was rejected;
    /// `None` where the conversion is undefined.
    pub fn try_parse(root: &Root) -> (r: Option<Result<World, RdlError>>)
        ensures
            match r {
                Some(Ok(w)) => {
                    &&& root_from(Seq::empty(), Seq::empty(), Seq::empty(), root.descriptions@, 0)
                        == Some(
                        (w.arena_view(), w.enums_view(), w.child_components@, Ok::<(), ErrorView>(())),
                    )
                    &&& w.wf()
                    &&& w.child_instances@.len() == 0
                    &&& w.instance_arena@.len() == 0
                },
                Some(Err(e)) => root_from(
                    Seq::empty(),
                    Seq::empty(),
                    Seq::empty(),
                    root.descriptions@,
                    0,
                ) matches Some((_, _, _, Err(x))) && x == e@,
                None => root_from(
                    Seq::empty(),
                    Seq::empty(),
                    Seq::empty(),
                    root.descriptions@,
                    0,
                ) is None,
            },
    {
        let mut world = World::new();
        proof {
            assert(world.enums_view() =~= Seq::<EnumView>::empty());
        }
        match world.try_parse_root(root) {
            Some(Ok(())) => Some(Ok(world)),
            Some(Err(e)) => Some(Err(e)),
            None => None,
        }
    }

    /// The world a description converts into, or why it was rejected, for
    /// descriptions whose conversion is defined.
    pub fn parse(root: &Root) -> (r: Result<World, RdlError>)
        requires
            root_from(Seq::empty(), Seq::empty(), Seq::empty(), root.descriptions@, 0) is Some,
        ensures
            match r {
                Ok(w) => {
                    &&& root_from(Seq::empty(), Seq::empty(), Seq::empty(), root.descriptions@, 0)
                        == Some(
                        (w.arena_view(), w.enums_view(), w.child_components@, Ok::<(), ErrorView>(())),
                    )
                    &&& w.wf()
                    &&& w.child_instances@.len() == 0
                    &&& w.instance_arena@.len() == 0
                },
                Err(e) => root_from(
                    Seq::empty(),
                    Seq::empty(),
                    Seq::empty(),
                    root.descriptions@,
                    0,
                ) matches Some((_, _, _, Err(x))) && x == e@,
            },
    {
        match World::try_parse(root) {
            Some(r) => r,
            None => {
                proof {
                    assert(false);
                }
                Err(RdlError::CastNotSupported)
            },
        }
    }
}

/// Whether `name` is one of `names`.
fn contains_name(names: &[&str], name: &str) -> (r: bool)
    ensures
        r == exists|k: int| 0 <= k < names@.len() && (#[trigger] names@[k])@ == name@,
{
    let n = names.len();
    let mut i: usize = 0;
    while i < n
        invariant
            n == names@.len(),
            0 <= i <= n,
            forall|k: int| 0 <= k < i ==> (#[trigger] names@[k])@ != name@,
        decreases n - i,
    {
        if str_eq(names[i], name) {
            return true;
        }
        i = i + 1;
    }
    false
}

/// The names of the top-level address maps that are listed in `addrmaps`,
/// in description order.
pub open spec fn selected_addrmaps(descriptions: Seq<Description>, addrmaps: Seq<Seq<char>>) -> Seq<
    Seq<char>,
>
    decreases descriptions.len(),
{
    if descriptions.len() == 0 {
        Seq::empty()
    } else {
        let rest = selected_addrmaps(descriptions.drop_last(), addrmaps);
        match descriptions.last() {
            Description::ComponentDef(c) => match c.def.name {
                Some(n) => if c.def.type_ == ComponentType::AddrMap && addrmaps.contains(n@) {
                    rest.push(n@)
                } else {
                    rest
                },
                None => rest,
            },
            _ => rest,
        }
    }
}

/// Converts a description and picks out the top-level address maps named
/// in `addrmaps`, whose instances the generator enumerates. Fails where
/// the description is rejected.
pub fn generate_tock_registers_from_root(root: &Root, addrmaps: &[&str]) -> (r: Option<
    Result<Vec<String>, RdlError>,
>)
    ensures
        match r {
            Some(Ok(names)) => {
                &&& root_from(Seq::empty(), Seq::empty(), Seq::empty(), root.descriptions@, 0) matches Some(
                    (_, _, _, Ok(())),
                )
                &&& names@.map_values(|s: String| s@) == selected_addrmaps(
                    root.descriptions@,
                    addrmaps@.map_values(|s: &str| s@),
                )
            },
            Some(Err(e)) => root_from(
                Seq::empty(),
                Seq::empty(),
                Seq::empty(),
                root.descriptions@,
                0,
            ) matches Some((_, _, _, Err(x))) && x == e@,
            None => root_from(Seq::empty(), Seq::empty(), Seq::empty(), root.descriptions@, 0) is None,
        },
{
    let _world = match World::try_parse(root) {
        Some(Ok(w)) => w,
        Some(Err(e)) => {
            return Some(Err(e));
        },
        None => {
            return None;
        },
    };
    let ghost wanted = addrmaps@.map_values(|s: &str| s@);
    let mut selected: Vec<String> = Vec::new();
    let n = root.descriptions.len();
    let mut i: usize = 0;
    while i < n
        invariant
            n == root.descriptions@.len(),
            0 <= i <= n,
            wanted == addrmaps@.map_values(|s: &str| s@),
            selected@.map_values(|s: String| s@) == selected_addrmaps(
                root.descriptions@.subrange(0, i as int),
                wanted,
            ),
        decreases n - i,
    {
        let ghost prefix = root.descriptions@.subrange(0, i as int);
        let ghost next = root.descriptions@.subrange(0, i + 1);
        let ghost before = selected@.map_values(|s: String| s@);
        proof {
            assert(next.drop_last() =~= prefix);
        }
        match &root.descriptions[i] {
            Description::ComponentDef(c) => {
                if let Some(name) = &c.def.name {
                    let listed = contains_name(addrmaps, name.as_str());
                    proof {
                        if listed {
                            let k = choose|k: int| 0 <= k < addrmaps@.len() && (#[trigger] addrmaps@[k])@ == name@;
                            assert(wanted[k] == name@);
                        } else {
                            assert forall|k: int| 0 <= k < wanted.len() implies wanted[k] != name@ by {
                                assert(wanted[k] == addrmaps@[k]@);
                            }
                        }
                    }
                    if c.def.type_ == ComponentType::AddrMap && listed {
                        selected.push(name.clone());
                        proof {
                            assert(selected@.map_values(|s: String| s@) =~= before.push(name@));
                        }
                    }
                }
            },
            _ => {},
        }
        i = i + 1;
    }
    proof {
        assert(root.descriptions@.subrange(0, n as int) =~= root.descriptions@);
    }
    Some(Ok(selected))
}

} // verus!
