use mcu_registers_generator_new::ast::{
    ArrayOrRange, Component, ComponentBody, ComponentBodyElem, ComponentDef, ComponentInst,
    ComponentInsts, ComponentType, ConstantExpr, ConstantPrimary, ConstantPrimaryBase, Description,
    EnumDef, EnumEntry, ExplicitComponentInst, ExplicitOrDefaultPropAssignment,
    ExplicitPropertyAssignment, IdentityOrPropKeyword, PrimaryLiteral, PropAssignmentRhs,
    PropertyAssignment, Root,
};
use mcu_registers_generator_new::component::Component as _;
use mcu_registers_generator_new::component::{AddrMapType, AllComponent, StringOrInt};
use mcu_registers_generator_new::integer::Integer;
use mcu_registers_generator_new::error::RdlError;
use mcu_registers_generator_new::root::generate_tock_registers_from_root;
use mcu_registers_generator_new::world::World;

fn num(n: u64) -> ConstantExpr {
    ConstantExpr::ConstantPrimary(
        ConstantPrimary::Base(ConstantPrimaryBase::PrimaryLiteral(PrimaryLiteral::Number(n))),
        None,
    )
}

fn string(s: &str) -> ConstantExpr {
    ConstantExpr::ConstantPrimary(
        ConstantPrimary::Base(ConstantPrimaryBase::PrimaryLiteral(PrimaryLiteral::StringLiteral(
            s.to_string(),
        ))),
        None,
    )
}

fn prop(name: &str, rhs: ConstantExpr) -> ComponentBodyElem {
    ComponentBodyElem::PropertyAssignment(PropertyAssignment::ExplicitOrDefaultPropAssignment(
        ExplicitOrDefaultPropAssignment::ExplicitPropAssignment(
            false,
            ExplicitPropertyAssignment::Assignment(
                IdentityOrPropKeyword::Id(name.to_string()),
                Some(PropAssignmentRhs::ConstantExpr(rhs)),
            ),
        ),
    ))
}

fn inst(id: &str, width: Option<u64>, at: Option<u64>) -> ComponentInst {
    ComponentInst {
        id: id.to_string(),
        array_or_range: width.map(|w| ArrayOrRange::Array(vec![num(w)])),
        equals: at.map(num),
        at: None,
    }
}

fn component(
    type_: ComponentType,
    name: Option<&str>,
    elements: Vec<ComponentBodyElem>,
    insts: Option<Vec<ComponentInst>>,
) -> Component {
    Component {
        def: ComponentDef {
            type_,
            name: name.map(|s| s.to_string()),
            body: ComponentBody { elements },
        },
        insts: insts.map(|v| ComponentInsts { component_insts: v }),
    }
}

fn field(name: &str, insts: Vec<ComponentInst>) -> ComponentBodyElem {
    ComponentBodyElem::ComponentDef(component(
        ComponentType::Field,
        Some(name),
        vec![prop("desc", string("a field"))],
        Some(insts),
    ))
}

fn sample_root() -> Root {
    let ctrl = component(
        ComponentType::Reg,
        Some("ctrl_t"),
        vec![
            prop("name", string("Control")),
            prop("regwidth", num(32)),
            field("enable", vec![inst("enable", None, None)]),
            field("mode", vec![inst("mode", Some(3), None)]),
            field("level", vec![inst("level", Some(4), Some(8))]),
        ],
        Some(vec![inst("ctrl", None, Some(0x10)), inst("ctrl2", None, None)]),
    );
    let modes = EnumDef {
        id: "modes".to_string(),
        body: vec![
            EnumEntry { id: "a".to_string(), expr: None },
            EnumEntry { id: "b".to_string(), expr: Some(num(5)) },
            EnumEntry { id: "c".to_string(), expr: None },
        ],
    };
    let top = component(
        ComponentType::AddrMap,
        Some("top"),
        vec![
            prop("desc", string("Top map")),
            ComponentBodyElem::ComponentDef(ctrl),
            ComponentBodyElem::EnumDef(modes),
            ComponentBodyElem::ComponentDef(component(ComponentType::Signal, Some("s"), vec![], None)),
        ],
        None,
    );
    let other = component(ComponentType::Reg, Some("loose"), vec![], None);
    Root {
        descriptions: vec![
            Description::ComponentDef(top),
            Description::ComponentDef(other),
            Description::EnumDef(EnumDef {
                id: "global".to_string(),
                body: vec![EnumEntry { id: "x".to_string(), expr: None }],
            }),
        ],
    }
}

#[test]
fn converts_an_address_map() {
    let root = sample_root();
    let world = match World::try_parse(&root) {
        Some(Ok(w)) => w,
        other => panic!("unexpected {:?}", other.map(|r| r.err())),
    };
    // top, three fields, the register
    assert_eq!(world.component_arena.len(), 5);
    let top = &world.component_arena[0];
    assert_eq!(top.name(), Some("top"));
    assert_eq!(top.children(), &[4]);
    assert_eq!(top.parent(), None);
    match top.properties().get("desc") {
        Some(StringOrInt::String(s)) => assert_eq!(s, "Top map"),
        other => panic!("unexpected {:?}", other),
    }
    let am = match top {
        AllComponent::AddrMap(a) => a,
        _ => panic!("not an address map"),
    };
    assert_eq!(am.instances.len(), 2);
    assert_eq!(am.instances[0].name, "ctrl");
    assert_eq!(am.instances[0].offset, Some(0x10));
    assert_eq!(am.instances[0].width, 32);
    assert_eq!(am.instances[0].type_, 4);
    assert_eq!(am.instances[1].offset, None);
    assert_eq!(am.enums.len(), 1);
    let values: Vec<(String, u64)> =
        am.enums[0].values.iter().map(|v| (v.name.clone(), v.value.value)).collect();
    assert_eq!(values, vec![("a".to_string(), 0), ("b".to_string(), 5), ("c".to_string(), 6)]);

    let reg = match &world.component_arena[4] {
        AllComponent::Reg(r) => r,
        _ => panic!("not a register"),
    };
    assert_eq!(world.component_arena[4].name(), Some("ctrl_t"));
    assert_eq!(reg.parent, None);
    let placed: Vec<(String, usize, usize)> =
        reg.field_instances.iter().map(|f| (f.id.clone(), f.offset, f.width)).collect();
    assert_eq!(
        placed,
        vec![
            ("enable".to_string(), 0, 1),
            ("mode".to_string(), 0, 3),
            ("level".to_string(), 8, 4),
        ]
    );
    assert_eq!(reg.fields.get("mode"), Some(&2));
    match reg.properties.get("regwidth") {
        Some(StringOrInt::Int(i)) => assert_eq!(i.value, 32),
        other => panic!("unexpected {:?}", other),
    }
    // field properties are evaluated but not kept
    assert!(world.component_arena[1].properties().get("desc").is_none());
    assert_eq!(world.enums.len(), 1);
    assert_eq!(world.enums[0].name, "global");
    // the top-level address map is recorded among the top-level definitions
    assert_eq!(world.child_components, vec![0]);
}

#[test]
fn parse_root_appends_to_an_existing_world() {
    let root = sample_root();
    let mut world = World::new();
    world.parse_root(&root).unwrap();
    let before = world.component_arena.len();
    world.parse_root(&root).unwrap();
    assert_eq!(world.component_arena.len(), 2 * before);
    assert_eq!(world.enums.len(), 2);
    // the first conversion is untouched
    assert_eq!(world.component_arena[0].children(), &[4]);
    assert_eq!(world.component_arena[before].children(), &[before + 4]);
    assert_eq!(world.child_components, vec![0, before]);
}

#[test]
fn unknown_type_name_in_address_map() {
    let top = component(
        ComponentType::AddrMap,
        None,
        vec![ComponentBodyElem::ExplicitComponentInst(ExplicitComponentInst {
            id: "missing_t".to_string(),
            component_insts: ComponentInsts { component_insts: vec![inst("m", None, None)] },
        })],
        None,
    );
    let root = Root { descriptions: vec![Description::ComponentDef(top)] };
    match World::parse(&root) {
        Err(RdlError::ComponentNotFound(id)) => assert_eq!(id, "missing_t"),
        other => panic!("unexpected {:?}", other.err()),
    }
    let mut world = World::new();
    assert!(world.parse_root(&root).is_err());
    // the address map was added before its body was rejected
    assert_eq!(world.component_arena.len(), 1);
    assert_eq!(world.component_arena[0].name(), Some("anon"));
    // but it is not recorded as a top-level definition
    assert!(world.child_components.is_empty());
}

#[test]
fn unknown_type_name_in_register_file() {
    let rf = component(
        ComponentType::RegFile,
        None,
        vec![ComponentBodyElem::ExplicitComponentInst(ExplicitComponentInst {
            id: "missing_t".to_string(),
            component_insts: ComponentInsts { component_insts: vec![] },
        })],
        None,
    );
    let top = component(ComponentType::AddrMap, Some("top"), vec![ComponentBodyElem::ComponentDef(rf)], None);
    let root = Root { descriptions: vec![Description::ComponentDef(top)] };
    match World::parse(&root) {
        Err(RdlError::ComponentNotFoundInRegfile(id, file)) => {
            assert_eq!(id, "missing_t");
            assert_eq!(file, "anon");
        },
        other => panic!("unexpected {:?}", other.err()),
    }
}

#[test]
fn memories_are_rejected() {
    let top = component(
        ComponentType::AddrMap,
        Some("top"),
        vec![ComponentBodyElem::ComponentDef(component(ComponentType::Mem, Some("m"), vec![], None))],
        None,
    );
    let root = Root { descriptions: vec![Description::ComponentDef(top)] };
    match World::parse(&root) {
        Err(RdlError::UnsupportedComponentType(ComponentType::Mem)) => {},
        other => panic!("unexpected {:?}", other.err()),
    }
}

#[test]
fn register_files_hold_fields_and_registers() {
    let reg = component(
        ComponentType::Reg,
        Some("r_t"),
        vec![field("f", vec![inst("f", Some(2), None)])],
        Some(vec![inst("r", None, None)]),
    );
    let rf = component(
        ComponentType::RegFile,
        Some("rf_t"),
        vec![field("g", vec![inst("g", None, Some(5))]), ComponentBodyElem::ComponentDef(reg)],
        None,
    );
    let top = component(ComponentType::AddrMap, Some("top"), vec![ComponentBodyElem::ComponentDef(rf)], None);
    let root = Root { descriptions: vec![Description::ComponentDef(top)] };
    let world = World::parse(&root).unwrap();
    // top, field g, field f, register r_t, register file
    assert_eq!(world.component_arena.len(), 5);
    let rf = match &world.component_arena[4] {
        AllComponent::RegFile(r) => r,
        _ => panic!("not a register file"),
    };
    assert_eq!(rf.name, "rf_t");
    assert_eq!(rf.fields.get("g"), Some(&1));
    assert_eq!(rf.fields.get("r_t"), Some(&3));
    let placed: Vec<(String, usize, usize)> =
        rf.field_instances.iter().map(|f| (f.id.clone(), f.offset, f.width)).collect();
    assert_eq!(placed, vec![("g".to_string(), 5, 1), ("r".to_string(), 0, 1)]);
}

#[test]
fn unimplemented_constructs_give_none() {
    let top = component(
        ComponentType::AddrMap,
        Some("top"),
        vec![ComponentBodyElem::StructDef("s".to_string())],
        None,
    );
    let root = Root { descriptions: vec![Description::ComponentDef(top)] };
    assert!(World::try_parse(&root).is_none());
}

#[test]
fn lookups() {
    let world = World::parse(&sample_root()).unwrap();
    let top = &world.component_arena[0];
    assert_eq!(world.find_component(top, "ctrl_t"), Some(4));
    assert_eq!(world.find_component(top, "enable"), None);
    let reg = &world.component_arena[4];
    assert_eq!(world.find_field(reg, "level"), Some(3));
    assert_eq!(world.find_field(reg, "nothing"), None);
}

#[test]
fn with_addrmap_and_as_addrmap() {
    let mut world = World::parse(&sample_root()).unwrap();
    let n = world.with_addrmap(0, 7usize, |mut a: AddrMapType, w: usize| {
        a.width = w;
        let c = a.children.len();
        (a, c)
    });
    assert_eq!(n, 1);
    assert_eq!(world.component_arena[0].width(), 7);
    assert!(world.component_arena[0].as_addrmap().is_some());
    assert!(world.component_arena[4].as_addrmap().is_none());
    if let Some(a) = world.component_arena[0].as_addrmap() {
        a.offset = 0x100;
    }
    assert_eq!(world.component_arena[0].offset(), 0x100);
}

#[test]
fn selects_listed_address_maps() {
    let root = sample_root();
    let selected = generate_tock_registers_from_root(&root, &["top", "loose", "absent"]).unwrap().unwrap();
    assert_eq!(selected, vec!["top".to_string()]);
    let none = generate_tock_registers_from_root(&root, &[]).unwrap().unwrap();
    assert!(none.is_empty());
}

#[test]
fn property_values_are_written_out() {
    assert_eq!(StringOrInt::String("Top map".to_string()).to_string(), "Top map");
    assert_eq!(StringOrInt::Int(Integer { width: 32, value: 0 }).to_string(), "0");
    assert_eq!(StringOrInt::Int(Integer { width: 8, value: 7 }).to_string(), "7");
    assert_eq!(StringOrInt::Int(Integer { width: 32, value: 4096 }).to_string(), "4096");
    assert_eq!(
        StringOrInt::Int(Integer { width: 64, value: u64::MAX }).to_string(),
        "18446744073709551615"
    );
}

#[test]
fn component_queries_by_kind() {
    let world = World::parse(&sample_root()).unwrap();
    let reg = match &world.component_arena[4] {
        AllComponent::Reg(r) => r,
        _ => panic!("not a register"),
    };
    assert_eq!(reg.name(), Some("ctrl_t"));
    assert_eq!(reg.component_type(), ComponentType::Reg);
    assert_eq!(reg.width(), 0);
    assert_eq!(reg.offset(), 0);
    assert!(reg.children().is_empty());
    assert!(reg.enums().is_empty());
    assert!(reg.as_field().is_none());
    assert_eq!(reg.fields().get("enable"), Some(&1));
    match reg.properties().get("name") {
        Some(v) => assert_eq!(v.to_string(), "Control"),
        None => panic!("missing property"),
    }
    let field = match &world.component_arena[1] {
        AllComponent::Field(f) => f,
        _ => panic!("not a field"),
    };
    assert_eq!(field.name(), Some("enable"));
    assert_eq!(field.component_type(), ComponentType::Field);
    assert!(field.as_field().is_some());
    assert!(field.fields().get("enable").is_none());
    assert!(field.children().is_empty());
    // the arena entry does not report itself as a field
    assert!(world.component_arena[1].as_field().is_none());
    assert_eq!(world.component_arena[1].component_type(), ComponentType::Field);
    let top = match &world.component_arena[0] {
        AllComponent::AddrMap(a) => a,
        _ => panic!("not an address map"),
    };
    assert_eq!(top.name(), Some("top"));
    assert_eq!(top.component_type(), ComponentType::AddrMap);
    assert_eq!(top.children(), &[4]);
    assert_eq!(top.enums().len(), 1);
    assert_eq!(world.component_arena[0].enums().len(), 1);
    assert!(world.component_arena[4].enums().is_empty());
    assert_eq!(top.fields().get("ctrl_t"), None);
}

#[test]
fn instances_of_one_field_definition_are_packed() {
    let reg = component(
        ComponentType::Reg,
        Some("r_t"),
        vec![field(
            "f",
            vec![inst("a", Some(2), None), inst("b", None, None), inst("c", Some(3), Some(9)), inst("d", None, None)],
        )],
        None,
    );
    let top = component(ComponentType::AddrMap, Some("top"), vec![ComponentBodyElem::ComponentDef(reg)], None);
    let world = World::parse(&Root { descriptions: vec![Description::ComponentDef(top)] }).unwrap();
    let reg = match &world.component_arena[2] {
        AllComponent::Reg(r) => r,
        _ => panic!("not a register"),
    };
    let placed: Vec<(String, usize, usize)> =
        reg.field_instances.iter().map(|f| (f.id.clone(), f.offset, f.width)).collect();
    assert_eq!(
        placed,
        vec![
            ("a".to_string(), 0, 2),
            ("b".to_string(), 2, 1),
            ("c".to_string(), 9, 3),
            ("d".to_string(), 12, 1),
        ]
    );
}

#[test]
fn multi_dimensional_field_arrays_are_rejected() {
    let two_dims = ComponentInst {
        id: "a".to_string(),
        array_or_range: Some(ArrayOrRange::Array(vec![num(2), num(3)])),
        equals: None,
        at: None,
    };
    let reg = component(ComponentType::Reg, Some("r_t"), vec![field("f", vec![two_dims])], None);
    let top = component(ComponentType::AddrMap, Some("top"), vec![ComponentBodyElem::ComponentDef(reg)], None);
    match World::parse(&Root { descriptions: vec![Description::ComponentDef(top)] }) {
        Err(RdlError::MultiDimensionalFieldArray) => {},
        other => panic!("unexpected {:?}", other.err()),
    }
}

#[test]
fn register_instances_are_32_bits_at_their_address() {
    let world = World::parse(&sample_root()).unwrap();
    let am = match &world.component_arena[0] {
        AllComponent::AddrMap(a) => a,
        _ => panic!("not an address map"),
    };
    let placed: Vec<(String, Option<usize>, usize, usize)> =
        am.instances.iter().map(|r| (r.name.clone(), r.offset, r.width, r.type_)).collect();
    assert_eq!(
        placed,
        vec![("ctrl".to_string(), Some(0x10), 32, 4), ("ctrl2".to_string(), None, 32, 4)]
    );
}

#[test]
fn top_level_address_maps_are_found_from_a_later_map() {
    // a later top-level map can see an earlier one by name; instantiating
    // it is not implemented yet, so the conversion is undefined
    let first = component(ComponentType::AddrMap, Some("first"), vec![], None);
    let second = component(
        ComponentType::AddrMap,
        Some("second"),
        vec![ComponentBodyElem::ExplicitComponentInst(ExplicitComponentInst {
            id: "first".to_string(),
            component_insts: ComponentInsts { component_insts: vec![inst("f", None, None)] },
        })],
        None,
    );
    let root = Root {
        descriptions: vec![Description::ComponentDef(first), Description::ComponentDef(second)],
    };
    assert!(World::try_parse(&root).is_none());
    let lookup = World::parse(&Root {
        descriptions: vec![Description::ComponentDef(component(
            ComponentType::AddrMap,
            Some("first"),
            vec![],
            None,
        ))],
    })
    .unwrap();
    let top = &lookup.component_arena[0];
    assert_eq!(lookup.find_component(top, "first"), Some(0));
}

#[test]
fn nested_address_map_keeps_its_name() {
    let inner = component(ComponentType::AddrMap, Some("inner"), vec![prop("desc", string("x"))], None);
    let top = component(ComponentType::AddrMap, None, vec![ComponentBodyElem::ComponentDef(inner)], None);
    let mut world = World::new();
    let idx = world.add_addrmap(None, "outer", &top.def.body).unwrap().unwrap();
    assert_eq!(idx, 0);
    assert_eq!(world.component_arena[0].name(), Some("outer"));
    assert_eq!(world.component_arena[1].name(), Some("inner"));
    assert_eq!(world.component_arena[0].children(), &[1]);
    assert_eq!(world.component_arena[0].parent(), None);
}
