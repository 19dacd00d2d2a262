//! Properties of the conversion that hold for every input.

use vstd::prelude::*;
use crate::ast::{
    BinaryOp, Component, ComponentBody, ComponentBodyElem, ComponentInst, ComponentInsts, ComponentType, ConstantExpr, ConstantExprContinue,
    ConstantPrimary, ConstantPrimaryBase, Description, EnumDef, ExplicitOrDefaultPropAssignment,
    ExplicitPropertyAssignment, IdentityOrPropKeyword, PrimaryLiteral, PropAssignmentRhs,
    PropertyAssignment, UnaryOp,
};
use crate::component::{
    AddrMapView, ComponentIdx, ComponentView, EnumView, FieldInstance, RegView, RegisterInstance, StringOrInt,
};
use crate::error::ErrorView;
use crate::eval::{
    binary_int, entry_value, enum_values_from, eval_base, eval_cont, eval_int, eval_primary,
    eval_property, eval_str, unary_int,
    parse_enum_spec, Outcome,
};
use crate::integer::{power, Integer};
use crate::world::is_prefix;
use crate::model::{
    add_addrmap_spec, addrmap_step, component_field_spec, convert_component_spec, convert_reg_spec,
    field_view, name_view, reg_after_component, convert_regfile_spec, def_name, empty_reg,
    reg_from, reg_step, regfile_from, regfile_step, field_insts_from, field_insts_spec, root_from, find_child, find_component_spec, find_field_spec, parent_rank,
    parents_ordered,
    reg_insts_from, reg_insts_spec,
};

verus! {

/// Whether an operator compares its operands.
pub open spec fn is_comparison(op: BinaryOp) -> bool {
    op == BinaryOp::LessThan || op == BinaryOp::GreaterThan || op == BinaryOp::LessThanOrEqual
        || op == BinaryOp::GreaterThanOrEqual || op == BinaryOp::EqualsEquals || op
        == BinaryOp::NotEquals
}

/// Comparisons give a one-bit result (1 for true, 0 for false); every
/// other operator keeps the width of its left operand.
pub proof fn law_binary_result_width(op: BinaryOp, lhs: Integer, rhs: Integer)
    ensures
        binary_int(op, lhs, rhs) matches Some(Ok(v)) ==> if is_comparison(op) {
            v.width == 1 && v.value <= 1
        } else {
            v.width == lhs.width
        },
{
}

/// Operators other than shifts reject operands of different widths.
pub proof fn law_widths_must_agree(op: BinaryOp, lhs: Integer, rhs: Integer)
    requires
        op != BinaryOp::LeftShift,
        op != BinaryOp::RightShift,
        lhs.width != rhs.width,
    ensures
        binary_int(op, lhs, rhs) == Some(
            Err::<Integer, ErrorView>(ErrorView::IncompatibleWidths(lhs.width, rhs.width)),
        ),
{
}

proof fn lemma_reg_insts_from(
    reg: ComponentIdx,
    insts: Seq<ComponentInst>,
    i: int,
    acc: Seq<RegisterInstance>,
)
    requires
        0 <= i <= insts.len(),
    ensures
        reg_insts_from(reg, insts, i, acc) matches Some(Ok(v)) ==> {
            &&& v.len() == acc.len() + insts.len() - i
            &&& forall|k: int| 0 <= k < acc.len() ==> v[k] == acc[k]
            &&& forall|k: int|
                i <= k < insts.len() ==> {
                    let ri = #[trigger] v[acc.len() + k - i];
                    &&& ri.width == 32
                    &&& ri.type_ == reg
                    &&& ri.name == insts[k].id
                }
        },
    decreases insts.len() - i,
{
    if i < insts.len() {
        let offset: Outcome<Option<usize>> = match insts[i].equals {
            Some(eq) => match crate::eval::eval_int(eq) {
                Some(Ok(v)) => Some(Ok(Some(v.value as usize))),
                Some(Err(e)) => Some(Err(e)),
                None => None,
            },
            None => Some(Ok(None)),
        };
        if let Some(Ok(o)) = offset {
            let acc1 = acc.push(RegisterInstance { name: insts[i].id, offset: o, width: 32, type_: reg });
            lemma_reg_insts_from(reg, insts, i + 1, acc1);
            if let Some(Ok(v)) = reg_insts_from(reg, insts, i, acc) {
                assert forall|k: int| i <= k < insts.len() implies {
                    let ri = #[trigger] v[acc.len() + k - i];
                    &&& ri.width == 32
                    &&& ri.type_ == reg
                    &&& ri.name == insts[k].id
                } by {
                    if k > i {
                        assert(acc1.len() + k - (i + 1) == acc.len() + k - i);
                    } else {
                        assert(v[acc.len() as int] == acc1[acc.len() as int]);
                    }
                }
            }
        }
    }
}

/// Every register instance is 32 bits wide, of the register it was
/// declared with, and named as declared; there is one per declaration.
pub proof fn law_register_instances(reg: ComponentIdx, insts: ComponentInsts)
    ensures
        reg_insts_spec(reg, insts) matches Some(Ok(v)) ==> {
            &&& v.len() == insts.component_insts@.len()
            &&& forall|k: int|
                0 <= k < v.len() ==> (#[trigger] v[k]).width == 32 && v[k].type_ == reg && v[k].name
                    == insts.component_insts@[k].id
        },
{
    lemma_reg_insts_from(reg, insts.component_insts@, 0, Seq::empty());
    if let Some(Ok(v)) = reg_insts_spec(reg, insts) {
        assert forall|k: int| 0 <= k < v.len() implies (#[trigger] v[k]).width == 32 && v[k].type_
            == reg && v[k].name == insts.component_insts@[k].id by {
            assert(v[0 + k - 0] == v[k]);
        }
    }
}

proof fn lemma_usize_add_wraps(a: u64, b: u64)
    requires
        a + b <= u64::MAX,
    ensures
        ((a as usize) + (b as usize)) as usize == ((a + b) as u64) as usize,
{
    assert(a + b <= u64::MAX ==> ((a as usize) + (b as usize)) as usize == ((a + b) as u64) as usize)
        by (bit_vector);
}

/// Where an instance without a given position starts: right after the
/// previous one (which ended at `last_msb`), or at bit 0.
pub open spec fn next_offset(last_msb: Option<u64>) -> usize {
    match last_msb {
        Some(b) => ((b + 1) as u64) as usize,
        None => 0,
    }
}

proof fn lemma_field_insts_from(
    insts: Seq<ComponentInst>,
    i: int,
    last_msb: Option<u64>,
    acc: Seq<FieldInstance>,
)
    requires
        0 <= i <= insts.len(),
    ensures
        field_insts_from(insts, i, last_msb, acc) matches Some(Ok(v)) ==> {
            &&& v.len() == acc.len() + insts.len() - i
            &&& forall|k: int| 0 <= k < acc.len() ==> v[k] == acc[k]
            &&& forall|k: int|
                i <= k < insts.len() ==> {
                    let fi = #[trigger] v[acc.len() + k - i];
                    &&& fi.id == insts[k].id
                    &&& !(insts[k].array_or_range matches Some(
                        crate::ast::ArrayOrRange::Array(_),
                    )) ==> fi.width == 1
                    &&& insts[k].equals is None ==> fi.offset == if k == i {
                        next_offset(last_msb)
                    } else {
                        (v[acc.len() + k - i - 1].offset + v[acc.len() + k - i - 1].width) as usize
                    }
                }
        },
    decreases insts.len() - i,
{
    if i < insts.len() {
        if let Some(Ok(w)) = crate::model::field_width(insts[i]) {
            if let Some(Ok(lsb)) = crate::model::field_lsb(insts[i], last_msb) {
                if 1 <= lsb + w <= u64::MAX {
                    let msb = (lsb + w - 1) as u64;
                    let fi0 = FieldInstance { id: insts[i].id, width: w as usize, offset: lsb as usize };
                    let acc1 = acc.push(fi0);
                    lemma_field_insts_from(insts, i + 1, Some(msb), acc1);
                    if let Some(Ok(v)) = field_insts_from(insts, i, last_msb, acc) {
                        assert(v[acc.len() as int] == fi0);
                        lemma_usize_add_wraps(lsb, w);
                        assert forall|k: int| i <= k < insts.len() implies {
                            let fi = #[trigger] v[acc.len() + k - i];
                            &&& fi.id == insts[k].id
                            &&& !(insts[k].array_or_range matches Some(
                                crate::ast::ArrayOrRange::Array(_),
                            )) ==> fi.width == 1
                            &&& insts[k].equals is None ==> fi.offset == if k == i {
                                next_offset(last_msb)
                            } else {
                                (v[acc.len() + k - i - 1].offset + v[acc.len() + k - i
                                    - 1].width) as usize
                            }
                        } by {
                            if k > i {
                                assert(acc1.len() + k - (i + 1) == acc.len() + k - i);
                                if k == i + 1 {
                                    assert(v[acc.len() + k - i - 1] == fi0);
                                    assert(next_offset(Some(msb)) == ((lsb + w) as u64) as usize);
                                }
                            }
                        }
                    }
                }
            }
        }
    }
}

/// Field placement: one instance per declaration, named as declared; an
/// instance without an array dimension is one bit wide; an instance
/// without a given position starts at bit 0 if it is the first, else
/// right after the previous instance.
pub proof fn law_fields_packed(insts: ComponentInsts)
    ensures
        field_insts_spec(insts) matches Some(Ok(v)) ==> {
            let decl = insts.component_insts@;
            &&& v.len() == decl.len()
            &&& forall|k: int|
                0 <= k < v.len() ==> {
                    &&& (#[trigger] v[k]).id == decl[k].id
                    &&& !(decl[k].array_or_range matches Some(crate::ast::ArrayOrRange::Array(_)))
                        ==> v[k].width == 1
                    &&& decl[k].equals is None ==> v[k].offset == if k == 0 {
                        0
                    } else {
                        (v[k - 1].offset + v[k - 1].width) as usize
                    }
                }
        },
{
    lemma_field_insts_from(insts.component_insts@, 0, None, Seq::empty());
    if let Some(Ok(v)) = field_insts_spec(insts) {
        let decl = insts.component_insts@;
        assert forall|k: int| 0 <= k < v.len() implies {
            &&& (#[trigger] v[k]).id == decl[k].id
            &&& !(decl[k].array_or_range matches Some(crate::ast::ArrayOrRange::Array(_))) ==> v[k].width
                == 1
            &&& decl[k].equals is None ==> v[k].offset == if k == 0 {
                0
            } else {
                (v[k - 1].offset + v[k - 1].width) as usize
            }
        } by {
            assert(v[0 + k - 0] == v[k]);
        }
    }
}

/// The value an entry without an expression gets after `last`.
pub open spec fn implicit_value(last: Option<Integer>) -> Integer {
    match last {
        Some(l) => Integer { width: l.width, value: (l.value + 1) as u64 },
        None => Integer { width: 32, value: 0 },
    }
}

proof fn lemma_enum_values_from(
    entries: Seq<crate::ast::EnumEntry>,
    i: int,
    last: Option<Integer>,
    acc: Seq<crate::component::EnumValue>,
)
    requires
        0 <= i <= entries.len(),
    ensures
        enum_values_from(entries, i, last, acc) matches Some(Ok(v)) ==> {
            &&& v.len() == acc.len() + entries.len() - i
            &&& forall|k: int| 0 <= k < acc.len() ==> v[k] == acc[k]
            &&& forall|k: int|
                i <= k < entries.len() ==> {
                    let ev = #[trigger] v[acc.len() + k - i];
                    &&& ev.name == entries[k].id
                    &&& entries[k].expr is None ==> ev.value == if k == i {
                        implicit_value(last)
                    } else {
                        implicit_value(Some(v[acc.len() + k - i - 1].value))
                    }
                }
        },
    decreases entries.len() - i,
{
    if i < entries.len() {
        if let Some(Ok(val)) = entry_value(last, entries[i]) {
            let ev0 = crate::component::EnumValue { name: entries[i].id, value: val };
            let acc1 = acc.push(ev0);
            lemma_enum_values_from(entries, i + 1, Some(val), acc1);
            if let Some(Ok(v)) = enum_values_from(entries, i, last, acc) {
                assert(v[acc.len() as int] == ev0);
                assert forall|k: int| i <= k < entries.len() implies {
                    let ev = #[trigger] v[acc.len() + k - i];
                    &&& ev.name == entries[k].id
                    &&& entries[k].expr is None ==> ev.value == if k == i {
                        implicit_value(last)
                    } else {
                        implicit_value(Some(v[acc.len() + k - i - 1].value))
                    }
                } by {
                    if k > i {
                        assert(acc1.len() + k - (i + 1) == acc.len() + k - i);
                        if k == i + 1 {
                            assert(v[acc.len() + k - i - 1] == ev0);
                        }
                    }
                }
            }
        }
    }
}

/// Enumerations: one value per entry, named as declared; an entry without
/// an expression is 32-bit 0 if it is the first, else one more than the
/// previous entry with the previous entry's width.
pub proof fn law_enum_values_count_up(e: EnumDef)
    ensures
        parse_enum_spec(e) matches Some(Ok(en)) ==> {
            let entries = e.body@;
            &&& en.name == e.id
            &&& en.values.len() == entries.len()
            &&& forall|k: int|
                0 <= k < entries.len() ==> {
                    &&& (#[trigger] en.values[k]).name == entries[k].id
                    &&& entries[k].expr is None ==> en.values[k].value == if k == 0 {
                        Integer { width: 32, value: 0 }
                    } else {
                        implicit_value(Some(en.values[k - 1].value))
                    }
                }
        },
{
    lemma_enum_values_from(e.body@, 0, None, Seq::empty());
    if let Some(Ok(en)) = parse_enum_spec(e) {
        let entries = e.body@;
        assert forall|k: int| 0 <= k < entries.len() implies {
            &&& (#[trigger] en.values[k]).name == entries[k].id
            &&& entries[k].expr is None ==> en.values[k].value == if k == 0 {
                Integer { width: 32, value: 0 }
            } else {
                implicit_value(Some(en.values[k - 1].value))
            }
        } by {
            assert(en.values[0 + k - 0] == en.values[k]);
        }
    }
}

proof fn lemma_find_child(
    arena: Seq<ComponentView>,
    children: Seq<ComponentIdx>,
    name: Seq<char>,
    j: int,
)
    ensures
        find_child(arena, children, name, j) matches Some(c) ==> arena[c as int].name() == Some(
            name,
        ) && children.contains(c),
    decreases children.len() - j,
{
    if 0 <= j < children.len() {
        if arena[children[j] as int].name() != Some(name) {
            lemma_find_child(arena, children, name, j + 1);
        } else {
            assert(children[j] == children[j]);
        }
    }
}

/// `c` is a child of `src`, of a definition enclosing it, or (past the
/// outermost one) a top-level definition.
pub open spec fn in_scope(
    arena: Seq<ComponentView>,
    roots: Seq<ComponentIdx>,
    src: ComponentView,
    c: ComponentIdx,
) -> bool
    decreases parent_rank(src),
    when parents_ordered(arena) && (src.parent() matches Some(p) ==> p < arena.len())
{
    src.children().contains(c) || match src.parent() {
        Some(p) => in_scope(arena, roots, arena[p as int], c),
        None => roots.contains(c),
    }
}

/// A component found by name from some scope is named so, and is a child
/// of that scope or of an enclosing one, or a top-level definition.
pub proof fn law_found_component_has_name(
    arena: Seq<ComponentView>,
    roots: Seq<ComponentIdx>,
    src: ComponentView,
    name: Seq<char>,
)
    requires
        parents_ordered(arena),
        src.parent() matches Some(p) ==> p < arena.len(),
    ensures
        find_component_spec(arena, roots, src, name) matches Some(c) ==> {
            &&& arena[c as int].name() == Some(name)
            &&& in_scope(arena, roots, src, c)
        },
    decreases parent_rank(src),
{
    lemma_find_child(arena, src.children(), name, 0);
    lemma_find_child(arena, roots, name, 0);
    if let Some(p) = src.parent() {
        assert(arena[p as int].parent() matches Some(q) ==> q < p);
        law_found_component_has_name(arena, roots, arena[p as int], name);
    }
}

/// A field found by name from some scope is one of the named fields of
/// that scope or of an enclosing one, under that name.
pub open spec fn field_in_scope(
    arena: Seq<ComponentView>,
    src: ComponentView,
    name: Seq<char>,
    f: ComponentIdx,
) -> bool
    decreases parent_rank(src),
    when parents_ordered(arena) && (src.parent() matches Some(p) ==> p < arena.len())
{
    (src.fields().contains_key(name) && src.fields()[name] == f) || match src.parent() {
        Some(p) => field_in_scope(arena, arena[p as int], name, f),
        None => false,
    }
}

/// A field found by name is recorded under that name in the scope it was
/// looked up from or in an enclosing one; the nearest scope that records
/// the name wins.
pub proof fn law_found_field_in_scope(arena: Seq<ComponentView>, src: ComponentView, name: Seq<char>)
    requires
        parents_ordered(arena),
        src.parent() matches Some(p) ==> p < arena.len(),
    ensures
        find_field_spec(arena, src, name) matches Some(f) ==> field_in_scope(arena, src, name, f),
        src.fields().contains_key(name) ==> find_field_spec(arena, src, name) == Some(
            src.fields()[name],
        ),
    decreases parent_rank(src),
{
    if let Some(p) = src.parent() {
        assert(arena[p as int].parent() matches Some(q) ==> q < p);
        law_found_field_in_scope(arena, arena[p as int], name);
    }
}

/// The number of top-level address map definitions among descriptions
/// `i..`.
pub open spec fn addrmaps_from(descriptions: Seq<Description>, i: int) -> nat
    decreases descriptions.len() - i,
{
    if i < 0 || i >= descriptions.len() {
        0
    } else {
        let here: nat = match descriptions[i] {
            Description::ComponentDef(c) => if c.def.type_ == ComponentType::AddrMap {
                1
            } else {
                0
            },
            _ => 0,
        };
        here + addrmaps_from(descriptions, i + 1)
    }
}

/// Converting top-level descriptions successfully records one top-level
/// definition per top-level address map, after the ones recorded before.
pub proof fn law_root_records_each_address_map(
    arena: Seq<ComponentView>,
    enums: Seq<EnumView>,
    roots: Seq<ComponentIdx>,
    descriptions: Seq<Description>,
    i: int,
)
    requires
        0 <= i <= descriptions.len(),
    ensures
        root_from(arena, enums, roots, descriptions, i) matches Some((_, _, r, Ok(()))) ==> {
            &&& is_prefix(roots, r)
            &&& r.len() == roots.len() + addrmaps_from(descriptions, i)
        },
    decreases descriptions.len() - i,
{
    if i < descriptions.len() {
        match descriptions[i] {
            Description::EnumDef(e) => {
                if let Some(Ok(ev)) = parse_enum_spec(e) {
                    law_root_records_each_address_map(arena, enums.push(ev), roots, descriptions, i + 1);
                }
            },
            Description::ComponentDef(c) => {
                if c.def.type_ == ComponentType::AddrMap {
                    if let Some((a1, Ok(idx))) = add_addrmap_spec(arena, roots, None, def_name(c), c.def.body) {
                        law_root_records_each_address_map(a1, enums, roots.push(idx), descriptions, i + 1);
                    }
                } else {
                    law_root_records_each_address_map(arena, enums, roots, descriptions, i + 1);
                }
            },
            _ => {
                law_root_records_each_address_map(arena, enums, roots, descriptions, i + 1);
            },
        }
    }
}

/// A 32-bit number literal standing alone.
pub open spec fn number_expr(n: u64) -> ConstantExpr {
    ConstantExpr::ConstantPrimary(
        ConstantPrimary::Base(ConstantPrimaryBase::PrimaryLiteral(PrimaryLiteral::Number(n))),
        None,
    )
}

/// `a op b` on two number literals.
pub open spec fn binary_expr(a: u64, op: BinaryOp, b: u64) -> ConstantExpr {
    ConstantExpr::ConstantPrimary(
        ConstantPrimary::Base(ConstantPrimaryBase::PrimaryLiteral(PrimaryLiteral::Number(a))),
        Some(Box::new(ConstantExprContinue::BinaryOp(op, Box::new(number_expr(b)), None))),
    )
}

/// A number literal is a 32-bit integer of its value, and `a op b` on two
/// number literals applies the operator to the left operand and the right
/// one, in that order.
pub proof fn law_binary_expression(a: u64, op: BinaryOp, b: u64)
    ensures
        eval_int(number_expr(a)) == Some(Ok::<Integer, ErrorView>(Integer { width: 32, value: a })),
        eval_int(binary_expr(a, op, b)) == binary_int(
            op,
            Integer { width: 32, value: a },
            Integer { width: 32, value: b },
        ),
{
    lemma_number_expr(a);
    lemma_number_expr(b);
    let va = Integer { width: 32, value: a };
    let vb = Integer { width: 32, value: b };
    let cont = Some(Box::new(ConstantExprContinue::BinaryOp(op, Box::new(number_expr(b)), None)));
    let prim = ConstantPrimary::Base(ConstantPrimaryBase::PrimaryLiteral(PrimaryLiteral::Number(a)));
    assert(eval_primary(prim) == Some(Ok::<Integer, ErrorView>(va))) by {
        assert(eval_base(ConstantPrimaryBase::PrimaryLiteral(PrimaryLiteral::Number(a))) == Some(
            Ok::<Integer, ErrorView>(va),
        ));
    }
    assert(eval_cont(va, cont) == binary_int(op, va, vb));
}

proof fn lemma_number_expr(n: u64)
    ensures
        eval_int(number_expr(n)) == Some(Ok::<Integer, ErrorView>(Integer { width: 32, value: n })),
{
    let v = Integer { width: 32, value: n };
    let prim = ConstantPrimary::Base(ConstantPrimaryBase::PrimaryLiteral(PrimaryLiteral::Number(n)));
    assert(eval_base(ConstantPrimaryBase::PrimaryLiteral(PrimaryLiteral::Number(n))) == Some(
        Ok::<Integer, ErrorView>(v),
    ));
    assert(eval_primary(prim) == Some(Ok::<Integer, ErrorView>(v)));
    assert(eval_cont(v, None) == Some(Ok::<Integer, ErrorView>(v)));
}

/// On operands of equal width, each comparison gives the one-bit integer
/// that is 1 exactly when the relation holds between the operand values.
pub proof fn law_comparisons_compare_values(lhs: Integer, rhs: Integer)
    requires
        lhs.width == rhs.width,
    ensures
        binary_int(BinaryOp::LessThan, lhs, rhs) == Some(
            Ok::<Integer, ErrorView>(
                Integer { width: 1, value: if lhs.value < rhs.value { 1u64 } else { 0u64 } },
            ),
        ),
        binary_int(BinaryOp::GreaterThan, lhs, rhs) == Some(
            Ok::<Integer, ErrorView>(
                Integer { width: 1, value: if lhs.value > rhs.value { 1u64 } else { 0u64 } },
            ),
        ),
        binary_int(BinaryOp::LessThanOrEqual, lhs, rhs) == Some(
            Ok::<Integer, ErrorView>(
                Integer { width: 1, value: if lhs.value <= rhs.value { 1u64 } else { 0u64 } },
            ),
        ),
        binary_int(BinaryOp::GreaterThanOrEqual, lhs, rhs) == Some(
            Ok::<Integer, ErrorView>(
                Integer { width: 1, value: if lhs.value >= rhs.value { 1u64 } else { 0u64 } },
            ),
        ),
        binary_int(BinaryOp::EqualsEquals, lhs, rhs) == Some(
            Ok::<Integer, ErrorView>(
                Integer { width: 1, value: if lhs.value == rhs.value { 1u64 } else { 0u64 } },
            ),
        ),
        binary_int(BinaryOp::NotEquals, lhs, rhs) == Some(
            Ok::<Integer, ErrorView>(
                Integer { width: 1, value: if lhs.value != rhs.value { 1u64 } else { 0u64 } },
            ),
        ),
{
}

/// On operands of equal width, arithmetic and bitwise operators compute on
/// the operand values and keep the width; sums, differences and products
/// that do not fit in 64 bits, and division or remainder by zero, are
/// undefined.
pub proof fn law_arithmetic_on_values(lhs: Integer, rhs: Integer)
    requires
        lhs.width == rhs.width,
    ensures
        ({
            let (a, b, w) = (lhs.value, rhs.value, lhs.width);
            &&& a + b <= u64::MAX ==> binary_int(BinaryOp::Plus, lhs, rhs) == Some(
                Ok::<Integer, ErrorView>(Integer { width: w, value: (a + b) as u64 }),
            )
            &&& a + b > u64::MAX ==> binary_int(BinaryOp::Plus, lhs, rhs) is None
            &&& a >= b ==> binary_int(BinaryOp::Minus, lhs, rhs) == Some(
                Ok::<Integer, ErrorView>(Integer { width: w, value: (a - b) as u64 }),
            )
            &&& a < b ==> binary_int(BinaryOp::Minus, lhs, rhs) is None
            &&& a * b <= u64::MAX ==> binary_int(BinaryOp::Times, lhs, rhs) == Some(
                Ok::<Integer, ErrorView>(Integer { width: w, value: (a * b) as u64 }),
            )
            &&& a * b > u64::MAX ==> binary_int(BinaryOp::Times, lhs, rhs) is None
            &&& b != 0 ==> binary_int(BinaryOp::Divide, lhs, rhs) == Some(
                Ok::<Integer, ErrorView>(Integer { width: w, value: a / b }),
            )
            &&& b != 0 ==> binary_int(BinaryOp::Modulus, lhs, rhs) == Some(
                Ok::<Integer, ErrorView>(Integer { width: w, value: a % b }),
            )
            &&& b == 0 ==> binary_int(BinaryOp::Divide, lhs, rhs) is None
            &&& b == 0 ==> binary_int(BinaryOp::Modulus, lhs, rhs) is None
            &&& binary_int(BinaryOp::And, lhs, rhs) == Some(
                Ok::<Integer, ErrorView>(Integer { width: w, value: a & b }),
            )
            &&& binary_int(BinaryOp::AndAnd, lhs, rhs) == Some(
                Ok::<Integer, ErrorView>(Integer { width: w, value: a & b }),
            )
            &&& binary_int(BinaryOp::Or, lhs, rhs) == Some(
                Ok::<Integer, ErrorView>(Integer { width: w, value: a | b }),
            )
            &&& binary_int(BinaryOp::OrOr, lhs, rhs) == Some(
                Ok::<Integer, ErrorView>(Integer { width: w, value: a | b }),
            )
            &&& binary_int(BinaryOp::Xor, lhs, rhs) == Some(
                Ok::<Integer, ErrorView>(Integer { width: w, value: a ^ b }),
            )
            &&& binary_int(BinaryOp::Xnor, lhs, rhs) == Some(
                Ok::<Integer, ErrorView>(Integer { width: w, value: !(a ^ b) }),
            )
            &&& b == 0 ==> binary_int(BinaryOp::Power, lhs, rhs) == Some(
                Ok::<Integer, ErrorView>(Integer { width: w, value: 1 }),
            )
            &&& b == 1 ==> binary_int(BinaryOp::Power, lhs, rhs) == Some(
                Ok::<Integer, ErrorView>(Integer { width: w, value: a }),
            )
        }),
{
    let a = lhs.value;
    let b = rhs.value;
    if b == 1 {
        assert(power(a as int, 1) == a * power(a as int, 0));
    }
}

/// Shifts by less than 64 move the left operand's value and keep its width,
/// whatever the right operand's width.
pub proof fn law_shifts_on_values(lhs: Integer, rhs: Integer)
    requires
        rhs.value < 64,
    ensures
        binary_int(BinaryOp::LeftShift, lhs, rhs) == Some(
            Ok::<Integer, ErrorView>(Integer { width: lhs.width, value: lhs.value << rhs.value }),
        ),
        binary_int(BinaryOp::RightShift, lhs, rhs) == Some(
            Ok::<Integer, ErrorView>(Integer { width: lhs.width, value: lhs.value >> rhs.value }),
        ),
{
}

/// A string literal standing alone.
pub open spec fn string_expr(t: String) -> ConstantExpr {
    ConstantExpr::ConstantPrimary(
        ConstantPrimary::Base(ConstantPrimaryBase::PrimaryLiteral(PrimaryLiteral::StringLiteral(t))),
        None,
    )
}

/// `[default] name = rhs;`
pub open spec fn assignment(
    default: bool,
    name: IdentityOrPropKeyword,
    rhs: ConstantExpr,
) -> PropertyAssignment {
    PropertyAssignment::ExplicitOrDefaultPropAssignment(
        ExplicitOrDefaultPropAssignment::ExplicitPropAssignment(
            default,
            ExplicitPropertyAssignment::Assignment(name, Some(PropAssignmentRhs::ConstantExpr(rhs))),
        ),
    )
}

/// The name an assignment's left side gives the property.
pub open spec fn property_name(name: IdentityOrPropKeyword) -> Seq<char> {
    match name {
        IdentityOrPropKeyword::Id(s) => s@,
        IdentityOrPropKeyword::PropKeyword(k) => k@,
    }
}

/// Whether an assignment is marked `default` does not change what it
/// records.
pub proof fn law_default_flag_is_ignored(default: bool, a: ExplicitPropertyAssignment)
    ensures
        eval_property(
            PropertyAssignment::ExplicitOrDefaultPropAssignment(
                ExplicitOrDefaultPropAssignment::ExplicitPropAssignment(default, a),
            ),
        ) == eval_property(
            PropertyAssignment::ExplicitOrDefaultPropAssignment(
                ExplicitOrDefaultPropAssignment::ExplicitPropAssignment(!default, a),
            ),
        ),
{
}

/// An assignment of a string literal records the property under its name
/// with that string; one of a number records it with the 32-bit integer of
/// that number; `default` or not.
pub proof fn law_assignment_records_its_value(
    default: bool,
    name: IdentityOrPropKeyword,
    t: String,
    n: u64,
)
    ensures
        eval_property(assignment(default, name, string_expr(t))) == Some(
            Some((property_name(name), StringOrInt::String(t))),
        ),
        eval_property(assignment(default, name, number_expr(n))) == Some(
            Some((property_name(name), StringOrInt::Int(Integer { width: 32, value: n }))),
        ),
{
    lemma_number_expr(n);
    let lit = PrimaryLiteral::StringLiteral(t);
    let prim = ConstantPrimary::Base(ConstantPrimaryBase::PrimaryLiteral(lit));
    assert(eval_base(ConstantPrimaryBase::PrimaryLiteral(lit)) is Some);
    assert(eval_primary(prim) is Some);
    assert(eval_int(string_expr(t)) is Some);
    assert(eval_str(string_expr(t)) == Ok::<String, ErrorView>(t));
    assert(eval_str(number_expr(n)) is Err);
}

/// The enumerations declared by the enum definitions among body elements
/// `i..`, in order.
pub open spec fn body_enums_from(elems: Seq<ComponentBodyElem>, i: int) -> Seq<EnumView>
    decreases elems.len() - i,
{
    if i < 0 || i >= elems.len() {
        Seq::empty()
    } else {
        let here: Seq<EnumView> = match elems[i] {
            ComponentBodyElem::EnumDef(ed) => match parse_enum_spec(ed) {
                Some(Ok(ev)) => seq![ev],
                _ => Seq::empty(),
            },
            _ => Seq::empty(),
        };
        here + body_enums_from(elems, i + 1)
    }
}

/// `props` with every property that an assignment among body elements
/// `i..` records set, in order (a later assignment to the same name wins).
pub open spec fn body_properties_from(
    elems: Seq<ComponentBodyElem>,
    i: int,
    props: Map<Seq<char>, StringOrInt>,
) -> Map<Seq<char>, StringOrInt>
    decreases elems.len() - i,
{
    if i < 0 || i >= elems.len() {
        props
    } else {
        let next = match elems[i] {
            ComponentBodyElem::PropertyAssignment(pa) => match eval_property(pa) {
                Some(Some((k, v))) => props.insert(k, v),
                _ => props,
            },
            _ => props,
        };
        body_properties_from(elems, i + 1, next)
    }
}

proof fn lemma_reg_from_records(
    arena: Seq<ComponentView>,
    parent: Option<ComponentIdx>,
    elems: Seq<ComponentBodyElem>,
    i: int,
    reg: RegView,
)
    requires
        0 <= i <= elems.len(),
    ensures
        reg_from(arena, parent, elems, i, reg) matches Some((af, Ok(r))) ==> {
            &&& r.enums == reg.enums + body_enums_from(elems, i)
            &&& r.properties == body_properties_from(elems, i, reg.properties)
            &&& r.name == reg.name
            &&& r.parent == reg.parent
            &&& af.len() >= arena.len()
        },
    decreases elems.len() - i,
{
    if i == elems.len() {
        assert(reg.enums + body_enums_from(elems, i) =~= reg.enums);
    } else {
        if let Some((a1, Ok(r1))) = reg_step(arena, parent, reg, elems[i]) {
            lemma_reg_from_records(a1, parent, elems, i + 1, r1);
            lemma_common_step_records(arena, parent, reg, elems[i], None, a1, r1);
            assert(reg.enums + body_enums_from(elems, i) =~= r1.enums + body_enums_from(
                elems,
                i + 1,
            ));
        }
    }
}

proof fn lemma_regfile_from_records(
    arena: Seq<ComponentView>,
    parent: Option<ComponentIdx>,
    name: Seq<char>,
    elems: Seq<ComponentBodyElem>,
    i: int,
    reg: RegView,
)
    requires
        0 <= i <= elems.len(),
    ensures
        regfile_from(arena, parent, name, elems, i, reg) matches Some((_, Ok(r))) ==> {
            &&& r.enums == reg.enums + body_enums_from(elems, i)
            &&& r.properties == body_properties_from(elems, i, reg.properties)
            &&& r.name == reg.name
            &&& r.parent == reg.parent
        },
    decreases elems.len() - i,
{
    if i == elems.len() {
        assert(reg.enums + body_enums_from(elems, i) =~= reg.enums);
    } else {
        if let Some((a1, Ok(r1))) = regfile_step(arena, parent, name, reg, elems[i]) {
            lemma_regfile_from_records(a1, parent, name, elems, i + 1, r1);
            lemma_common_step_records(arena, parent, reg, elems[i], Some(name), a1, r1);
            assert(reg.enums + body_enums_from(elems, i) =~= r1.enums + body_enums_from(
                elems,
                i + 1,
            ));
        }
    }
}

/// One register (file) body element adds the enumeration it declares and
/// sets the property it records, and changes neither otherwise.
proof fn lemma_common_step_records(
    arena: Seq<ComponentView>,
    parent: Option<ComponentIdx>,
    reg: RegView,
    elem: ComponentBodyElem,
    file: Option<Seq<char>>,
    a1: Seq<ComponentView>,
    r1: RegView,
)
    requires
        match file {
            None => reg_step(arena, parent, reg, elem) == Some((a1, Ok::<RegView, ErrorView>(r1))),
            Some(n) => regfile_step(arena, parent, n, reg, elem) == Some(
                (a1, Ok::<RegView, ErrorView>(r1)),
            ),
        },
    ensures
        r1.enums == reg.enums + match elem {
            ComponentBodyElem::EnumDef(ed) => match parse_enum_spec(ed) {
                Some(Ok(ev)) => seq![ev],
                _ => Seq::<EnumView>::empty(),
            },
            _ => Seq::<EnumView>::empty(),
        },
        r1.properties == match elem {
            ComponentBodyElem::PropertyAssignment(pa) => match eval_property(pa) {
                Some(Some((k, v))) => reg.properties.insert(k, v),
                _ => reg.properties,
            },
            _ => reg.properties,
        },
{
    match elem {
        ComponentBodyElem::EnumDef(ed) => {
            if let Some(Ok(ev)) = parse_enum_spec(ed) {
                assert(reg.enums.push(ev) =~= reg.enums + seq![ev]);
            }
        },
        _ => {
            assert(reg.enums + Seq::<EnumView>::empty() =~= reg.enums);
        },
    }
}

/// A register or register file body that converts records, in order, the
/// enumeration of each of its enum definitions, and every property its
/// assignments record (a later assignment to the same name wins).
pub proof fn law_registers_record_enums_and_properties(
    arena: Seq<ComponentView>,
    parent: Option<ComponentIdx>,
    name: Option<Seq<char>>,
    file_name: Seq<char>,
    body: ComponentBody,
)
    ensures
        convert_reg_spec(arena, parent, name, body) matches Some((_, Ok(r))) ==> {
            &&& r.enums == body_enums_from(body.elements@, 0)
            &&& r.properties == body_properties_from(body.elements@, 0, Map::empty())
        },
        convert_regfile_spec(arena, parent, file_name, body) matches Some((_, Ok(r))) ==> {
            &&& r.enums == body_enums_from(body.elements@, 0)
            &&& r.properties == body_properties_from(body.elements@, 0, Map::empty())
        },
{
    let elems = body.elements@;
    lemma_reg_from_records(arena, parent, elems, 0, empty_reg(parent, name));
    lemma_regfile_from_records(arena, parent, file_name, elems, 0, empty_reg(parent, Some(file_name)));
    assert(Seq::<EnumView>::empty() + body_enums_from(elems, 0) =~= body_enums_from(elems, 0));
}

/// `m2` is `m1` with only its children, register instances, enumerations
/// and properties possibly different.
pub open spec fn same_map_header(m1: AddrMapView, m2: AddrMapView) -> bool {
    &&& m2.name == m1.name
    &&& m2.parent == m1.parent
    &&& m2.offset == m1.offset
    &&& m2.width == m1.width
    &&& m2.fields == m1.fields
}

/// Converting one element of an address map body into the map at `idx`,
/// when it succeeds: a nested definition that converts to a component
/// (of any kind) makes that component the map's next child, and a
/// register instantiated on the spot adds its register instances; an enum
/// definition adds its enumeration; an assignment sets the property it
/// records. Nothing else of the map changes, and no other component
/// changes in that step.
pub proof fn law_address_map_records_each_element(
    arena: Seq<ComponentView>,
    roots: Seq<ComponentIdx>,
    parent: Option<ComponentIdx>,
    idx: ComponentIdx,
    body: ComponentBody,
    i: int,
)
    requires
        0 <= i < body.elements@.len(),
        idx < arena.len(),
        arena[idx as int] is AddrMap,
    ensures
        addrmap_step(arena, roots, parent, idx, body, i) matches Some((a2, Ok(()))) ==> match body.elements@[i] {
            ComponentBodyElem::ComponentDef(c) => {
                &&& convert_component_spec(arena, roots, parent, c) matches Some((a1, Ok(oc)))
                &&& match oc {
                    None => a2 == a1,
                    Some(ci) => idx < a1.len() ==> {
                        &&& a2.len() == a1.len()
                        &&& forall|k: int| 0 <= k < a1.len() && k != idx ==> #[trigger] a2[k] == a1[k]
                        &&& a1[idx as int] matches ComponentView::AddrMap(m1) ==> {
                            &&& a2[idx as int] matches ComponentView::AddrMap(m2)
                            &&& same_map_header(m1, m2)
                            &&& m2.children == m1.children.push(ci)
                            &&& m2.enums == m1.enums
                            &&& m2.properties == m1.properties
                            &&& if c.insts is Some && a1[ci as int] is Reg {
                                reg_insts_spec(ci, c.insts->0) matches Some(Ok(ri)) && m2.instances
                                    == m1.instances + ri
                            } else {
                                m2.instances == m1.instances
                            }
                        }
                    },
                }
            },
            ComponentBodyElem::EnumDef(ed) => {
                &&& parse_enum_spec(ed) matches Some(Ok(ev))
                &&& a2 == arena.update(
                    idx as int,
                    a2[idx as int],
                )
                &&& a2[idx as int] matches ComponentView::AddrMap(m2)
                &&& arena[idx as int] matches ComponentView::AddrMap(m)
                &&& same_map_header(m, m2)
                &&& m2.enums == m.enums.push(ev)
                &&& m2.children == m.children
                &&& m2.instances == m.instances
                &&& m2.properties == m.properties
            },
            ComponentBodyElem::PropertyAssignment(pa) => match eval_property(pa) {
                Some(Some((k, v))) => {
                    &&& a2 == arena.update(idx as int, a2[idx as int])
                    &&& a2[idx as int] matches ComponentView::AddrMap(m2)
                    &&& arena[idx as int] matches ComponentView::AddrMap(m)
                    &&& same_map_header(m, m2)
                    &&& m2.properties == m.properties.insert(k, v)
                    &&& m2.children == m.children
                    &&& m2.instances == m.instances
                    &&& m2.enums == m.enums
                },
                _ => a2 == arena,
            },
            _ => false,
        },
{
    if let Some((a2, Ok(()))) = addrmap_step(arena, roots, parent, idx, body, i) {
        match body.elements@[i] {
            ComponentBodyElem::EnumDef(ed) => {
                assert(a2 =~= arena.update(idx as int, a2[idx as int]));
            },
            ComponentBodyElem::PropertyAssignment(pa) => {
                if let Some(Some((k, v))) = eval_property(pa) {
                    assert(a2 =~= arena.update(idx as int, a2[idx as int]));
                }
            },
            ComponentBodyElem::ComponentDef(c) => {
                if let Some((a1, Ok(Some(ci)))) = convert_component_spec(arena, roots, parent, c) {
                    if idx < a1.len() {
                        if let ComponentView::AddrMap(m1) = a1[idx as int] {
                            assert(crate::model::addrmap_of(a1[idx as int]) == m1);
                        }
                    }
                }
            },
            _ => {},
        }
    }
}

/// `!` and `~` flip all 64 bits, `+` changes nothing, `-` negates modulo
/// 2^64 (undefined for 0); reduction operators are rejected. The width is
/// kept.
pub proof fn law_unary_operators(v: Integer)
    ensures
        unary_int(UnaryOp::LogicalNot, v) == Some(
            Ok::<Integer, ErrorView>(Integer { width: v.width, value: !v.value }),
        ),
        unary_int(UnaryOp::Not, v) == Some(
            Ok::<Integer, ErrorView>(Integer { width: v.width, value: !v.value }),
        ),
        unary_int(UnaryOp::Plus, v) == Some(Ok::<Integer, ErrorView>(v)),
        v.value != 0 ==> (unary_int(UnaryOp::Minus, v) matches Some(Ok(r)) && r.width == v.width
            && r.value + v.value == 0x1_0000_0000_0000_0000),
        v.value == 0 ==> unary_int(UnaryOp::Minus, v) is None,
        forall|op: UnaryOp|
            op != UnaryOp::LogicalNot && op != UnaryOp::Not && op != UnaryOp::Plus && op
                != UnaryOp::Minus ==> #[trigger] unary_int(op, v) == Some(
                Err::<Integer, ErrorView>(ErrorView::UnsupportedUnaryOp(op)),
            ),
{
    let x = v.value;
    assert(x != 0 ==> (!x) + 1 + x == 0x1_0000_0000_0000_0000) by (bit_vector);
}

/// `cond ? b : c` with a one-bit condition gives `b` when the condition is
/// 1 and `c` otherwise, once both branches have values; a wider condition
/// is rejected.
pub proof fn law_ternary_selects(cond: Integer, b: ConstantExpr, c: ConstantExpr)
    ensures
        cond.width != 1 ==> eval_cont(
            cond,
            Some(Box::new(ConstantExprContinue::TernaryOp(Box::new(b), Box::new(c), None))),
        ) == Some(Err::<Integer, ErrorView>(ErrorView::NonBooleanTernaryCondition)),
        cond.width == 1 ==> (eval_int(b) matches Some(Ok(bv)) ==> (eval_int(c) matches Some(
            Ok(cv),
        ) ==> eval_cont(
            cond,
            Some(Box::new(ConstantExprContinue::TernaryOp(Box::new(b), Box::new(c), None))),
        ) == Some(Ok::<Integer, ErrorView>(if cond.value == 1 { bv } else { cv })))),
{
    if cond.width == 1 {
        if let Some(Ok(bv)) = eval_int(b) {
            if let Some(Ok(cv)) = eval_int(c) {
                assert(eval_cont(bv, None) == Some(Ok::<Integer, ErrorView>(bv)));
                assert(eval_cont(cv, None) == Some(Ok::<Integer, ErrorView>(cv)));
            }
        }
    }
}

/// Whether a definition nested in a register (`file == false`) or
/// register file (`file == true`) is recorded there by name: fields, and
/// in a register file also registers.
pub open spec fn recorded_kind(c: Component, file: bool) -> bool {
    c.def.type_ == ComponentType::Field || (file && c.def.type_ == ComponentType::Reg)
}

/// The field instances a group places, or none.
pub open spec fn placed(insts: ComponentInsts) -> Seq<FieldInstance> {
    match field_insts_spec(insts) {
        Some(Ok(fi)) => fi,
        _ => Seq::empty(),
    }
}

/// The names recorded by body elements `i..` on top of `names`.
pub open spec fn body_field_names_from(
    elems: Seq<ComponentBodyElem>,
    i: int,
    names: Set<Seq<char>>,
    file: bool,
) -> Set<Seq<char>>
    decreases elems.len() - i,
{
    if i < 0 || i >= elems.len() {
        names
    } else {
        let next = match elems[i] {
            ComponentBodyElem::ComponentDef(c) => if recorded_kind(c, file) {
                match c.def.name {
                    Some(n) => names.insert(n@),
                    None => names,
                }
            } else {
                names
            },
            _ => names,
        };
        body_field_names_from(elems, i + 1, next, file)
    }
}

/// The field instances placed by body elements `i..`, the names recorded
/// before them being `names`: the instances declared with a recorded
/// definition, and those of an instantiation of a recorded name, in order.
pub open spec fn body_field_instances_from(
    elems: Seq<ComponentBodyElem>,
    i: int,
    names: Set<Seq<char>>,
    file: bool,
) -> Seq<FieldInstance>
    decreases elems.len() - i,
{
    if i < 0 || i >= elems.len() {
        Seq::empty()
    } else {
        match elems[i] {
            ComponentBodyElem::ComponentDef(c) => if recorded_kind(c, file) {
                let next = match c.def.name {
                    Some(n) => names.insert(n@),
                    None => names,
                };
                let here = match c.insts {
                    Some(insts) => placed(insts),
                    None => Seq::empty(),
                };
                here + body_field_instances_from(elems, i + 1, next, file)
            } else {
                body_field_instances_from(elems, i + 1, names, file)
            },
            ComponentBodyElem::ExplicitComponentInst(inst) => if names.contains(inst.id@) {
                placed(inst.component_insts) + body_field_instances_from(elems, i + 1, names, file)
            } else {
                body_field_instances_from(elems, i + 1, names, file)
            },
            _ => body_field_instances_from(elems, i + 1, names, file),
        }
    }
}

/// One register (file) body element: what it adds to the field instances
/// and to the recorded names.
proof fn lemma_step_places(
    arena: Seq<ComponentView>,
    parent: Option<ComponentIdx>,
    reg: RegView,
    elem: ComponentBodyElem,
    file: Option<Seq<char>>,
    a1: Seq<ComponentView>,
    r1: RegView,
)
    requires
        match file {
            None => reg_step(arena, parent, reg, elem) == Some((a1, Ok::<RegView, ErrorView>(r1))),
            Some(n) => regfile_step(arena, parent, n, reg, elem) == Some(
                (a1, Ok::<RegView, ErrorView>(r1)),
            ),
        },
    ensures
        a1.len() >= arena.len(),
        a1.len() <= usize::MAX ==> ({
            let f = file is Some;
            let names = reg.fields.dom();
            match elem {
                ComponentBodyElem::ComponentDef(c) => if recorded_kind(c, f) {
                    &&& r1.fields.dom() == match c.def.name {
                        Some(n) => names.insert(n@),
                        None => names,
                    }
                    &&& r1.field_instances == reg.field_instances + match c.insts {
                        Some(insts) => placed(insts),
                        None => Seq::<FieldInstance>::empty(),
                    }
                } else {
                    &&& r1.fields.dom() == names
                    &&& r1.field_instances == reg.field_instances
                },
                ComponentBodyElem::ExplicitComponentInst(inst) => {
                    &&& r1.fields.dom() == names
                    &&& r1.field_instances == reg.field_instances + if names.contains(inst.id@) {
                        placed(inst.component_insts)
                    } else {
                        Seq::<FieldInstance>::empty()
                    }
                },
                _ => {
                    &&& r1.fields.dom() == names
                    &&& r1.field_instances == reg.field_instances
                },
            }
        }),
{
    let names = reg.fields.dom();
    assert(reg.field_instances + Seq::<FieldInstance>::empty() =~= reg.field_instances);
    match elem {
        ComponentBodyElem::ComponentDef(c) => {
            if c.def.type_ == ComponentType::Field {
                let a0 = arena.push(ComponentView::Field(field_view(parent, c.def.name)));
                if a1.len() <= usize::MAX {
                    let idx = arena.len() as ComponentIdx;
                    assert(idx == arena.len());
                    assert(a0[idx as int].name() == name_view(c.def.name));
                    if let Some(n) = c.def.name {
                        assert(reg.fields.insert(n@, idx).dom() =~= names.insert(n@));
                    }
                }
            } else if file is Some && c.def.type_ == ComponentType::Reg {
                let fa = reg_after_component(component_field_spec(arena, parent, c), reg, c);
                assert(fa == Some((arena, Ok::<RegView, ErrorView>(reg))));
                lemma_reg_from_records(
                    arena,
                    parent,
                    c.def.body.elements@,
                    0,
                    empty_reg(parent, name_view(c.def.name)),
                );
                if let Some((a2, Ok(rr))) = convert_reg_spec(arena, parent, name_view(c.def.name), c.def.body) {
                    let a3 = a2.push(ComponentView::Reg(rr));
                    if a1.len() <= usize::MAX {
                        let idx = a2.len() as ComponentIdx;
                        assert(idx == a2.len());
                        assert(a3[idx as int].name() == name_view(c.def.name));
                        if let Some(n) = c.def.name {
                            assert(reg.fields.insert(n@, idx).dom() =~= names.insert(n@));
                        }
                    }
                }
            } else if file is Some {
                let fa = reg_after_component(component_field_spec(arena, parent, c), reg, c);
                assert(fa == Some((arena, Ok::<RegView, ErrorView>(reg))));
            }
        },
        _ => {},
    }
}

proof fn lemma_reg_from_places(
    arena: Seq<ComponentView>,
    parent: Option<ComponentIdx>,
    elems: Seq<ComponentBodyElem>,
    i: int,
    reg: RegView,
)
    requires
        0 <= i <= elems.len(),
    ensures
        reg_from(arena, parent, elems, i, reg) matches Some((af, Ok(r))) ==> af.len() >= arena.len() && (af.len() <= usize::MAX ==> {
            &&& r.field_instances == reg.field_instances + body_field_instances_from(
                elems,
                i,
                reg.fields.dom(),
                false,
            )
            &&& r.fields.dom() == body_field_names_from(elems, i, reg.fields.dom(), false)
        }),
    decreases elems.len() - i,
{
    if i == elems.len() {
        assert(reg.field_instances + Seq::<FieldInstance>::empty() =~= reg.field_instances);
    } else {
        if let Some((a1, Ok(r1))) = reg_step(arena, parent, reg, elems[i]) {
            lemma_reg_from_places(a1, parent, elems, i + 1, r1);
            lemma_step_places(arena, parent, reg, elems[i], None, a1, r1);
            if let Some((af, Ok(r))) = reg_from(a1, parent, elems, i + 1, r1) {
                if af.len() <= usize::MAX {
                    let rest = body_field_instances_from(elems, i + 1, r1.fields.dom(), false);
                    assert(reg.field_instances + body_field_instances_from(
                        elems,
                        i,
                        reg.fields.dom(),
                        false,
                    ) =~= r1.field_instances + rest);
                }
            }
        }
    }
}

proof fn lemma_regfile_from_places(
    arena: Seq<ComponentView>,
    parent: Option<ComponentIdx>,
    name: Seq<char>,
    elems: Seq<ComponentBodyElem>,
    i: int,
    reg: RegView,
)
    requires
        0 <= i <= elems.len(),
    ensures
        regfile_from(arena, parent, name, elems, i, reg) matches Some((af, Ok(r))) ==> af.len() >= arena.len() && (af.len() <= usize::MAX ==> {
            &&& r.field_instances == reg.field_instances + body_field_instances_from(
                elems,
                i,
                reg.fields.dom(),
                true,
            )
            &&& r.fields.dom() == body_field_names_from(elems, i, reg.fields.dom(), true)
        }),
    decreases elems.len() - i,
{
    if i == elems.len() {
        assert(reg.field_instances + Seq::<FieldInstance>::empty() =~= reg.field_instances);
    } else {
        if let Some((a1, Ok(r1))) = regfile_step(arena, parent, name, reg, elems[i]) {
            lemma_regfile_from_places(a1, parent, name, elems, i + 1, r1);
            lemma_step_places(arena, parent, reg, elems[i], Some(name), a1, r1);
            if let Some((af, Ok(r))) = regfile_from(a1, parent, name, elems, i + 1, r1) {
                if af.len() <= usize::MAX {
                    let rest = body_field_instances_from(elems, i + 1, r1.fields.dom(), true);
                    assert(reg.field_instances + body_field_instances_from(
                        elems,
                        i,
                        reg.fields.dom(),
                        true,
                    ) =~= r1.field_instances + rest);
                }
            }
        }
    }
}

/// A register body that converts records by name each field it defines
/// (a register file body also each register) and places, in order, the
/// instances declared with those definitions and the instances of every
/// instantiation of a name recorded before it. (Arena indices are `usize`,
/// so the arena's length fits in one.)
pub proof fn law_registers_place_field_instances(
    arena: Seq<ComponentView>,
    parent: Option<ComponentIdx>,
    name: Option<Seq<char>>,
    file_name: Seq<char>,
    body: ComponentBody,
)
    ensures
        convert_reg_spec(arena, parent, name, body) matches Some((af, Ok(r))) ==> (af.len() <= usize::MAX ==> {
            &&& r.field_instances == body_field_instances_from(body.elements@, 0, Set::empty(), false)
            &&& r.fields.dom() == body_field_names_from(body.elements@, 0, Set::empty(), false)
        }),
        convert_regfile_spec(arena, parent, file_name, body) matches Some((af, Ok(r))) ==> (af.len() <= usize::MAX ==> {
            &&& r.field_instances == body_field_instances_from(body.elements@, 0, Set::empty(), true)
            &&& r.fields.dom() == body_field_names_from(body.elements@, 0, Set::empty(), true)
        }),
{
    let elems = body.elements@;
    let e0 = empty_reg(parent, name);
    let e1 = empty_reg(parent, Some(file_name));
    assert(e0.fields.dom() =~= Set::<Seq<char>>::empty());
    assert(e1.fields.dom() =~= Set::<Seq<char>>::empty());
    lemma_reg_from_places(arena, parent, elems, 0, e0);
    lemma_regfile_from_places(arena, parent, file_name, elems, 0, e1);
    assert(Seq::<FieldInstance>::empty() + body_field_instances_from(elems, 0, Set::empty(), false)
        =~= body_field_instances_from(elems, 0, Set::empty(), false));
    assert(Seq::<FieldInstance>::empty() + body_field_instances_from(elems, 0, Set::empty(), true)
        =~= body_field_instances_from(elems, 0, Set::empty(), true));
}

/// Converting a definition nested in an address map: a signal is skipped
/// and leaves the arena as it was; a memory is rejected; a field, register
/// or register file that converts is added as the component of that kind
/// at the returned index, named as defined (registers and register files
/// "anon" when anonymous) — registers and register files without a parent,
/// a field with the address map's. (Arena indices are `usize`, so the
/// arena's length fits in one.)
pub proof fn law_nested_definition_kinds(
    arena: Seq<ComponentView>,
    roots: Seq<ComponentIdx>,
    parent: Option<ComponentIdx>,
    c: Component,
)
    ensures
        c.def.type_ == ComponentType::Signal ==> convert_component_spec(arena, roots, parent, c)
            == Some((arena, Ok::<Option<ComponentIdx>, ErrorView>(None))),
        c.def.type_ == ComponentType::Mem ==> convert_component_spec(arena, roots, parent, c)
            == Some(
            (
                arena,
                Err::<Option<ComponentIdx>, ErrorView>(
                    ErrorView::UnsupportedComponentType(ComponentType::Mem),
                ),
            ),
        ),
        convert_component_spec(arena, roots, parent, c) matches Some((af, Ok(Some(ci)))) ==> (
        af.len() <= usize::MAX ==> {
            &&& c.def.type_ != ComponentType::AddrMap ==> ci < af.len()
            &&& c.def.type_ == ComponentType::Field ==> af[ci as int] == ComponentView::Field(
                field_view(parent, c.def.name),
            )
            &&& c.def.type_ == ComponentType::Reg ==> (af[ci as int] matches ComponentView::Reg(r)
                && r.name == Some(def_name(c)) && r.parent is None)
            &&& c.def.type_ == ComponentType::RegFile ==> (af[ci as int] matches ComponentView::RegFile(
                r,
            ) && r.name == Some(def_name(c)) && r.parent is None)
        }),
{
    if c.def.type_ == ComponentType::Field {
        if arena.len() < usize::MAX {
            assert((arena.len() as ComponentIdx) == arena.len());
        }
    } else if c.def.type_ == ComponentType::Reg {
        lemma_reg_from_records(arena, None, c.def.body.elements@, 0, empty_reg(None, Some(def_name(c))));
        if let Some((a1, Ok(r))) = convert_reg_spec(arena, None, Some(def_name(c)), c.def.body) {
            if a1.len() < usize::MAX {
                assert((a1.len() as ComponentIdx) == a1.len());
            }
        }
    } else if c.def.type_ == ComponentType::RegFile {
        lemma_regfile_from_records(
            arena,
            None,
            def_name(c),
            c.def.body.elements@,
            0,
            empty_reg(None, Some(def_name(c))),
        );
        if let Some((a1, Ok(r))) = convert_regfile_spec(arena, None, def_name(c), c.def.body) {
            if a1.len() < usize::MAX {
                assert((a1.len() as ComponentIdx) == a1.len());
            }
        }
    }
}

} // verus!
