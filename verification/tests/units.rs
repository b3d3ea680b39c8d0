use systemrdl::ast::AccessType;
use systemrdl::ast::ArrayOrRange;
use systemrdl::ast::BinaryOp;
use systemrdl::ast::ComponentBody;
use systemrdl::ast::ComponentBodyElem;
use systemrdl::ast::ComponentDef;
use systemrdl::ast::ComponentInst;
use systemrdl::ast::ComponentType;
use systemrdl::ast::ConstantExpr;
use systemrdl::ast::ConstantPrimary;
use systemrdl::ast::ConstantPrimaryBase;
use systemrdl::ast::DefaultKeyword;
use systemrdl::ast::Description;
use systemrdl::ast::EnumDef;
use systemrdl::ast::ExplicitOrDefaultPropAssignment;
use systemrdl::ast::ExplicitPropertyAssignment;
use systemrdl::ast::IdentityOrPropKeyword;
use systemrdl::ast::LiteralKind;
use systemrdl::ast::PrimaryLiteral;
use systemrdl::ast::PropAssignmentRhs;
use systemrdl::ast::PropKeyword;
use systemrdl::ast::PropertyAssignment;
use systemrdl::elaborator::elaborate_addrmap;
use systemrdl::elaborator::elaborate_children;
use systemrdl::elaborator::elaborate_field;
use systemrdl::elaborator::elaborate_instance;
use systemrdl::elaborator::elaborate_mem;
use systemrdl::elaborator::finish_node;
use systemrdl::elaborator::open_node;
use systemrdl::elaborator::elaborate_reg;
use systemrdl::elaborator::elaborate_regfile;
use systemrdl::elaborator::elaborate_signal;
use systemrdl::elaborator::instantiate;
use systemrdl::elaborator::node_kind;
use systemrdl::elaborator::resolve_body;
use systemrdl::elaborator::nested;
use systemrdl::elaborator::top_level;
use systemrdl::error::extend_path;
use systemrdl::error::fail_at;
use systemrdl::error::Construct;
use systemrdl::error::ErrorKind;
use systemrdl::error::Site;
use systemrdl::error::TopLevelKind;
use systemrdl::eval::apply;
use systemrdl::eval::evaluate_continue;
use systemrdl::eval::evaluate_primary;
use systemrdl::layout::arrange;
use systemrdl::layout::bytes;
use systemrdl::layout::evaluate_number;
use systemrdl::layout::is_array;
use systemrdl::layout::literal_number;
use systemrdl::layout::number_property;
use systemrdl::layout::field_request;
use systemrdl::layout::memory_size;
use systemrdl::layout::placed_request;
use systemrdl::layout::register_size;
use systemrdl::layout::unplaced_request;
use systemrdl::layout::resolve_bits;
use systemrdl::layout::resolve_count;
use systemrdl::layout::unsupported_part;
use systemrdl::layout::Layout;
use systemrdl::layout::Request;
use systemrdl::node::clone_nodes;
use systemrdl::node::Node;
use systemrdl::node::NodeContent;
use systemrdl::node::NodeKind;
use systemrdl::node::Placement;
use systemrdl::property::resolve_assignment;
use systemrdl::property::PropertyMap;
use systemrdl::scope::builtin;
use systemrdl::scope::declared;
use systemrdl::scope::extend_chain;

fn num(n: u64) -> ConstantExpr {
    ConstantExpr::ConstantPrimary(
        ConstantPrimary::Base(ConstantPrimaryBase::PrimaryLiteral(PrimaryLiteral::Number(n))),
        None,
    )
}

fn s(x: &str) -> String {
    x.to_string()
}

fn inst(id: &str) -> ComponentInst {
    ComponentInst {
        id: s(id),
        array_or_range: None,
        equals: None,
        at: None,
        plus_equals: None,
        percent_equals: None,
    }
}

fn set(default: bool, name: &str, value: u64) -> PropertyAssignment {
    PropertyAssignment::ExplicitOrDefaultPropAssignment(
        ExplicitOrDefaultPropAssignment::ExplicitPropAssignment(
            if default { Some(DefaultKeyword) } else { None },
            ExplicitPropertyAssignment::Assignment(
                IdentityOrPropKeyword::Id(s(name)),
                Some(PropAssignmentRhs::ConstantExpr(num(value))),
            ),
        ),
    )
}

fn map(pairs: &[(&str, u64)]) -> PropertyMap {
    let mut m = PropertyMap::new();
    for (k, v) in pairs {
        m.insert(s(k), PrimaryLiteral::Number(*v)).unwrap();
    }
    m
}

fn start_at(next_offset: u64, extent: u64, next_bit: u64) -> Layout {
    Layout { next_offset, extent, next_bit }
}

#[test]
fn property_map_starts_empty() {
    let m = PropertyMap::new();
    assert_eq!(m.len(), 0);
    assert!(!m.contains_key(&s("a")));
    assert_eq!(m.get(&s("a")), None);
}

#[test]
fn property_map_binds_each_name_once() {
    let mut m = PropertyMap::new();
    assert_eq!(m.insert(s("a"), PrimaryLiteral::Number(1)), Ok(()));
    assert_eq!(m.insert(s("b"), PrimaryLiteral::BooleanLiteral(true)), Ok(()));
    assert_eq!(
        m.insert(s("a"), PrimaryLiteral::Number(2)),
        Err(ErrorKind::DuplicateProperty(s("a")))
    );
    assert_eq!(m.len(), 2);
    assert_eq!(m.get(&s("a")), Some(&PrimaryLiteral::Number(1)));
    assert_eq!(m.get(&s("b")), Some(&PrimaryLiteral::BooleanLiteral(true)));
    assert!(m.contains_key(&s("b")));
    assert!(!m.contains_key(&s("c")));
}

#[test]
fn property_map_keeps_the_order_of_binding() {
    let m = map(&[("z", 1), ("a", 2), ("m", 3)]);
    let names: Vec<String> = (0..m.len()).map(|i| m.entry(i).name.clone()).collect();
    assert_eq!(names, vec![s("z"), s("a"), s("m")]);
    assert_eq!(m.entry(1).value, PrimaryLiteral::Number(2));
    let c = m.clone();
    let copied: Vec<String> = (0..c.len()).map(|i| c.entry(i).name.clone()).collect();
    assert_eq!(copied, names);
    assert_eq!(c.get(&s("m")), Some(&PrimaryLiteral::Number(3)));
}

#[test]
fn assignment_goes_to_the_namespace_it_names() {
    let mut local = PropertyMap::new();
    let mut defaults = PropertyMap::new();
    assert_eq!(resolve_assignment(&set(false, "x", 1), &mut local, &mut defaults), Ok(()));
    assert_eq!(resolve_assignment(&set(true, "x", 2), &mut local, &mut defaults), Ok(()));
    assert_eq!(resolve_assignment(&set(true, "y", 3), &mut local, &mut defaults), Ok(()));
    assert_eq!(local.get(&s("x")), Some(&PrimaryLiteral::Number(1)));
    assert_eq!(defaults.get(&s("x")), Some(&PrimaryLiteral::Number(2)));
    assert_eq!(local.len(), 1);
    assert_eq!(defaults.len(), 2);
}

#[test]
fn failed_assignment_leaves_both_namespaces_as_they_were() {
    let mut local = map(&[("x", 1)]);
    let mut defaults = map(&[("y", 2)]);
    assert_eq!(
        resolve_assignment(&set(false, "x", 5), &mut local, &mut defaults),
        Err(ErrorKind::DuplicateProperty(s("x")))
    );
    assert_eq!(
        resolve_assignment(&set(true, "y", 5), &mut local, &mut defaults),
        Err(ErrorKind::DuplicateProperty(s("y")))
    );
    assert_eq!(local.len(), 1);
    assert_eq!(defaults.len(), 1);
    assert_eq!(local.get(&s("x")), Some(&PrimaryLiteral::Number(1)));
    assert_eq!(defaults.get(&s("y")), Some(&PrimaryLiteral::Number(2)));
}

#[test]
fn names_of_assignment_targets() {
    assert_eq!(IdentityOrPropKeyword::Id(s("Name")).name(), "Name");
    assert_eq!(IdentityOrPropKeyword::PropKeyword(PropKeyword::Woclr).name(), "woclr");
}

#[test]
fn literals_know_their_kind() {
    assert_eq!(PrimaryLiteral::Number(1).kind(), LiteralKind::Number);
    assert_eq!(PrimaryLiteral::StringLiteral(s("x")).kind(), LiteralKind::String);
    assert_eq!(PrimaryLiteral::BooleanLiteral(false).kind(), LiteralKind::Boolean);
    assert_eq!(PrimaryLiteral::AccessTypeLiteral(AccessType::Na).kind(), LiteralKind::AccessType);
    assert_eq!(PrimaryLiteral::EnumeratorLiteral(s("e")).kind(), LiteralKind::Enumerator);
    let l = PrimaryLiteral::StringLiteral(s("copy"));
    assert_eq!(l.clone(), l);
}

#[test]
fn apply_shifts() {
    assert_eq!(
        apply(BinaryOp::LeftShift, &PrimaryLiteral::Number(3), &PrimaryLiteral::Number(2)),
        PrimaryLiteral::Number(12)
    );
}

#[test]
fn primary_and_continuation_are_evaluated_apart() {
    let p = ConstantPrimary::Base(ConstantPrimaryBase::PrimaryLiteral(PrimaryLiteral::Number(9)));
    assert_eq!(evaluate_primary(&p), Ok(PrimaryLiteral::Number(9)));
    let c = systemrdl::ast::ConstantExprContinue::BinaryOp(
        BinaryOp::LeftShift,
        Box::new(num(1)),
        None,
    );
    assert_eq!(evaluate_continue(PrimaryLiteral::Number(9), &c), Ok(PrimaryLiteral::Number(18)));
}

#[test]
fn builtin_defaults() {
    let rw = Some(PrimaryLiteral::AccessTypeLiteral(AccessType::Rw));
    assert_eq!(builtin(NodeKind::Field, &s("sw")), rw);
    assert_eq!(builtin(NodeKind::Field, &s("hw")), rw);
    assert_eq!(builtin(NodeKind::Mem, &s("sw")), rw);
    assert_eq!(builtin(NodeKind::Mem, &s("hw")), None);
    assert_eq!(builtin(NodeKind::Register, &s("regwidth")), Some(PrimaryLiteral::Number(32)));
    assert_eq!(builtin(NodeKind::Mem, &s("memwidth")), Some(PrimaryLiteral::Number(32)));
    assert_eq!(builtin(NodeKind::Mem, &s("mementries")), Some(PrimaryLiteral::Number(1)));
    assert_eq!(builtin(NodeKind::Register, &s("sw")), None);
    assert_eq!(builtin(NodeKind::AddrMap, &s("regwidth")), None);
    assert_eq!(builtin(NodeKind::Field, &s("regwidth")), None);
    assert_eq!(builtin(NodeKind::Signal, &s("sw")), None);
    assert_eq!(builtin(NodeKind::RegFile, &s("sw")), None);
}

#[test]
fn declared_value_walks_the_chain_from_the_parent_outward() {
    let outer = map(&[("a", 1), ("b", 1)]);
    let middle = map(&[("b", 2), ("c", 2)]);
    let parent = map(&[("c", 3)]);
    let local = map(&[("d", 4)]);
    let chain = vec![&outer, &middle, &parent];
    assert_eq!(declared(&local, &chain, &s("a")), Some(PrimaryLiteral::Number(1)));
    assert_eq!(declared(&local, &chain, &s("b")), Some(PrimaryLiteral::Number(2)));
    assert_eq!(declared(&local, &chain, &s("c")), Some(PrimaryLiteral::Number(3)));
    assert_eq!(declared(&local, &chain, &s("d")), Some(PrimaryLiteral::Number(4)));
    assert_eq!(declared(&local, &chain, &s("e")), None);
    let local = map(&[("c", 9)]);
    assert_eq!(declared(&local, &chain, &s("c")), Some(PrimaryLiteral::Number(9)));
    assert_eq!(declared(&local, &vec![], &s("a")), None);
}

#[test]
fn chain_is_extended_at_its_end() {
    let a = map(&[("x", 1)]);
    let b = map(&[("x", 2)]);
    let chain = vec![&a];
    let longer = extend_chain(&chain, &b);
    assert_eq!(longer.len(), 2);
    assert_eq!(declared(&PropertyMap::new(), &longer, &s("x")), Some(PrimaryLiteral::Number(2)));
    assert_eq!(declared(&PropertyMap::new(), &chain, &s("x")), Some(PrimaryLiteral::Number(1)));
}

#[test]
fn paths_and_failures() {
    let p = extend_path(&vec![s("a"), s("b")], &s("c"));
    assert_eq!(p, vec![s("a"), s("b"), s("c")]);
    assert_eq!(extend_path(&vec![], &s("x")), vec![s("x")]);
    let e = fail_at(ErrorKind::LayoutOverflow, &p);
    assert_eq!(e.kind, ErrorKind::LayoutOverflow);
    assert_eq!(e.path, p);
    assert_eq!(e.clone(), e);
    let k = ErrorKind::MalformedRange(s("f"));
    assert_eq!(k.clone(), k);
}

#[test]
fn constructs_have_names() {
    assert_eq!(Construct::Concatenation.name(), "concatenation");
    assert_eq!(Construct::Address.name(), "address on an instance that has none");
    assert_eq!(Construct::FlagAssignment.name(), "property assignment without a value");
    assert_eq!(TopLevelKind::Enum.name(), "enum");
    assert_eq!(TopLevelKind::ComponentInstance.name(), "component instance");
}

#[test]
fn bytes_round_up() {
    assert_eq!(bytes(0), 0);
    assert_eq!(bytes(1), 1);
    assert_eq!(bytes(8), 1);
    assert_eq!(bytes(9), 2);
    assert_eq!(bytes(32), 4);
    assert_eq!(bytes(u64::MAX), 0x2000_0000_0000_0000);
}

#[test]
fn numbers_are_read_from_literals_and_expressions() {
    assert_eq!(literal_number(&PrimaryLiteral::Number(7), Site::Address), Ok(7));
    assert_eq!(
        literal_number(&PrimaryLiteral::BooleanLiteral(true), Site::Address),
        Err(ErrorKind::TypeMismatch(Site::Address, LiteralKind::Number, LiteralKind::Boolean))
    );
    assert_eq!(evaluate_number(&num(5), Site::RangeBound), Ok(5));
    let bad = ConstantExpr::ConstantPrimary(
        ConstantPrimary::Base(ConstantPrimaryBase::ArrayLiteral(vec![])),
        None,
    );
    assert_eq!(
        evaluate_number(&bad, Site::RangeBound),
        Err(ErrorKind::UnsupportedConstruct(Construct::ArrayLiteral))
    );
}

#[test]
fn number_properties_fall_back_where_nothing_is_declared() {
    let local = map(&[("w", 16)]);
    let parent = map(&[("v", 8)]);
    let chain = vec![&parent];
    assert_eq!(number_property(&local, &chain, &s("w"), Site::RegWidth, 32), Ok(16));
    assert_eq!(number_property(&local, &chain, &s("v"), Site::RegWidth, 32), Ok(8));
    assert_eq!(number_property(&local, &chain, &s("u"), Site::RegWidth, 32), Ok(32));
}

#[test]
fn sizes_of_registers_and_memories() {
    let none = PropertyMap::new();
    let chain: Vec<&PropertyMap> = vec![];
    assert_eq!(register_size(&none, &chain), Ok(4));
    assert_eq!(register_size(&map(&[("regwidth", 64)]), &chain), Ok(8));
    assert_eq!(register_size(&map(&[("regwidth", 9)]), &chain), Ok(2));
    let wide = map(&[("regwidth", 128)]);
    assert_eq!(register_size(&none, &vec![&wide]), Ok(16));
    assert_eq!(memory_size(&none, &chain), Ok(4));
    let m = map(&[("memwidth", 12), ("mementries", 10)]);
    assert_eq!(memory_size(&m, &chain), Ok(20));
    let big = map(&[("memwidth", 64), ("mementries", 1 << 61)]);
    assert_eq!(memory_size(&big, &chain), Err(ErrorKind::LayoutOverflow));
    let fits = map(&[("memwidth", 8), ("mementries", u64::MAX)]);
    assert_eq!(memory_size(&fits, &chain), Ok(u64::MAX));
    let mut odd = PropertyMap::new();
    odd.insert(s("regwidth"), PrimaryLiteral::StringLiteral(s("x"))).unwrap();
    assert_eq!(
        register_size(&odd, &chain),
        Err(ErrorKind::TypeMismatch(Site::RegWidth, LiteralKind::Number, LiteralKind::String))
    );
}

#[test]
fn clause_parts_that_are_not_handled() {
    assert_eq!(unsupported_part(&inst("a")), None);
    let i = ComponentInst { equals: Some(num(0)), plus_equals: Some(num(1)), ..inst("a") };
    assert_eq!(unsupported_part(&i), Some(Construct::ResetAssignment));
    let i = ComponentInst { plus_equals: Some(num(1)), percent_equals: Some(num(1)), ..inst("a") };
    assert_eq!(unsupported_part(&i), Some(Construct::AddressStride));
    let i = ComponentInst { percent_equals: Some(num(1)), ..inst("a") };
    assert_eq!(unsupported_part(&i), Some(Construct::AddressAlignment));
}

#[test]
fn requests_of_fields() {
    let name = s("f");
    let r = resolve_bits(&name, &None).unwrap();
    assert!(matches!(r, Request::Bits { lsb: None, span: 0 }));
    let r = resolve_bits(&name, &Some(ArrayOrRange::Array(vec![num(8)]))).unwrap();
    assert!(matches!(r, Request::Bits { lsb: None, span: 7 }));
    let r = resolve_bits(&name, &Some(ArrayOrRange::Range(num(7), num(0)))).unwrap();
    assert!(matches!(r, Request::Bits { lsb: Some(0), span: 7 }));
    let r = resolve_bits(&name, &Some(ArrayOrRange::Range(num(0), num(0)))).unwrap();
    assert!(matches!(r, Request::Bits { lsb: Some(0), span: 0 }));
    let r = resolve_bits(&name, &Some(ArrayOrRange::Range(num(u64::MAX), num(0)))).unwrap();
    assert!(matches!(r, Request::Bits { lsb: Some(0), span: u64::MAX }));
    let e = resolve_bits(&name, &Some(ArrayOrRange::Range(num(3), num(5)))).unwrap_err();
    assert_eq!(e, ErrorKind::MalformedRange(s("f")));
    let r = field_request(&name, None).unwrap();
    assert!(matches!(r, Request::Bits { lsb: None, span: 0 }));
    let i = ComponentInst { array_or_range: Some(ArrayOrRange::Array(vec![num(4)])), ..inst("f") };
    let r = field_request(&name, Some(&i)).unwrap();
    assert!(matches!(r, Request::Bits { lsb: None, span: 3 }));
    let i = ComponentInst { at: Some(num(0)), ..inst("f") };
    assert_eq!(
        field_request(&name, Some(&i)).unwrap_err(),
        ErrorKind::UnsupportedConstruct(Construct::Address)
    );
}

#[test]
fn requests_of_other_kinds() {
    assert_eq!(resolve_count(&None), Ok(1));
    assert_eq!(resolve_count(&Some(ArrayOrRange::Array(vec![num(6)]))), Ok(6));
    assert_eq!(
        resolve_count(&Some(ArrayOrRange::Range(num(1), num(0)))),
        Err(ErrorKind::UnsupportedConstruct(Construct::BitRange))
    );
    let r = placed_request(None).unwrap();
    assert!(matches!(r, Request::Instances { count: 1, base: None }));
    let i = ComponentInst {
        array_or_range: Some(ArrayOrRange::Array(vec![num(3)])),
        at: Some(num(0x20)),
        ..inst("r")
    };
    let r = placed_request(Some(&i)).unwrap();
    assert!(matches!(r, Request::Instances { count: 3, base: Some(0x20) }));
    assert_eq!(
        unplaced_request(Some(&i)).unwrap_err(),
        ErrorKind::UnsupportedConstruct(Construct::Address)
    );
    let j = ComponentInst { array_or_range: Some(ArrayOrRange::Array(vec![num(5)])), ..inst("s") };
    let r = unplaced_request(Some(&j)).unwrap();
    assert!(matches!(r, Request::Instances { count: 5, base: None }));
    let r = unplaced_request(None).unwrap();
    assert!(matches!(r, Request::Instances { count: 1, base: None }));
    assert!(is_array(NodeKind::Register, Some(&i)));
    assert!(!is_array(NodeKind::Field, Some(&i)));
    assert!(!is_array(NodeKind::Register, Some(&inst("r"))));
    assert!(!is_array(NodeKind::Register, None));
}

#[test]
fn arrangement_of_addressable_instances() {
    let (places, next) = arrange(
        NodeKind::Register,
        Request::Instances { count: 3, base: None },
        4,
        start_at(8, 100, 5),
    )
    .unwrap();
    assert_eq!(
        places,
        vec![
            Placement::Address { offset: 8, size: 4 },
            Placement::Address { offset: 12, size: 4 },
            Placement::Address { offset: 16, size: 4 }
        ]
    );
    assert_eq!(next, start_at(20, 100, 5));
    let (places, next) = arrange(
        NodeKind::AddrMap,
        Request::Instances { count: 2, base: Some(0x1000) },
        0x100,
        start_at(8, 8, 0),
    )
    .unwrap();
    assert_eq!(
        places,
        vec![
            Placement::Address { offset: 0x1000, size: 0x100 },
            Placement::Address { offset: 0x1100, size: 0x100 }
        ]
    );
    assert_eq!(next, start_at(0x1200, 0x1200, 0));
    let (places, next) = arrange(
        NodeKind::Register,
        Request::Instances { count: 0, base: Some(0x1000) },
        4,
        start_at(8, 8, 0),
    )
    .unwrap();
    assert_eq!(places, vec![]);
    assert_eq!(next, start_at(8, 8, 0));
    let (places, next) = arrange(
        NodeKind::Register,
        Request::Instances { count: 2, base: None },
        0,
        start_at(8, 8, 0),
    )
    .unwrap();
    assert_eq!(places.len(), 2);
    assert_eq!(next, start_at(8, 8, 0));
}

#[test]
fn arrangement_overflows() {
    let r = arrange(
        NodeKind::Register,
        Request::Instances { count: 2, base: None },
        1 << 63,
        start_at(1, 1, 0),
    );
    assert_eq!(r, Err(ErrorKind::LayoutOverflow));
    let r = arrange(
        NodeKind::Register,
        Request::Instances { count: 1 << 32, base: None },
        1 << 32,
        start_at(0, 0, 0),
    );
    assert_eq!(r, Err(ErrorKind::LayoutOverflow));
    let (places, next) = arrange(
        NodeKind::Register,
        Request::Instances { count: 1, base: None },
        u64::MAX,
        start_at(0, 0, 0),
    )
    .unwrap();
    assert_eq!(places, vec![Placement::Address { offset: 0, size: u64::MAX }]);
    assert_eq!(next.next_offset, u64::MAX);
    let r = arrange(
        NodeKind::Field,
        Request::Bits { lsb: None, span: 0 },
        0,
        start_at(0, 0, u64::MAX),
    );
    assert_eq!(r, Err(ErrorKind::LayoutOverflow));
}

#[test]
fn arrangement_of_fields_and_signals() {
    let (places, next) =
        arrange(NodeKind::Field, Request::Bits { lsb: None, span: 7 }, 0, start_at(4, 4, 3))
            .unwrap();
    assert_eq!(places, vec![Placement::Bits { msb: 10, lsb: 3 }]);
    assert_eq!(next, start_at(4, 4, 11));
    let (places, next) =
        arrange(NodeKind::Field, Request::Bits { lsb: Some(16), span: 15 }, 0, start_at(4, 4, 3))
            .unwrap();
    assert_eq!(places, vec![Placement::Bits { msb: 31, lsb: 16 }]);
    assert_eq!(next, start_at(4, 4, 32));
    let (places, next) = arrange(
        NodeKind::Signal,
        Request::Instances { count: 2, base: None },
        0,
        start_at(4, 4, 3),
    )
    .unwrap();
    assert_eq!(places, vec![Placement::Unplaced, Placement::Unplaced]);
    assert_eq!(next, start_at(4, 4, 3));
}

#[test]
fn kinds_of_components_and_descriptions() {
    assert_eq!(node_kind(ComponentType::Field), Some(NodeKind::Field));
    assert_eq!(node_kind(ComponentType::Reg), Some(NodeKind::Register));
    assert_eq!(node_kind(ComponentType::RegFile), Some(NodeKind::RegFile));
    assert_eq!(node_kind(ComponentType::AddrMap), Some(NodeKind::AddrMap));
    assert_eq!(node_kind(ComponentType::Signal), Some(NodeKind::Signal));
    assert_eq!(node_kind(ComponentType::Mem), Some(NodeKind::Mem));
    assert_eq!(node_kind(ComponentType::Enum), None);
    assert_eq!(node_kind(ComponentType::EnumVariant), None);
    assert_eq!(node_kind(ComponentType::Constraint), None);
    assert!(NodeKind::Mem.is_addressable());
    assert!(!NodeKind::Signal.is_addressable());
    assert!(!NodeKind::Field.is_addressable());
    assert_eq!(
        top_level(&Description::EnumDef(EnumDef { id: s("e") })).unwrap_err(),
        TopLevelKind::Enum
    );
    assert!(nested(&ComponentBodyElem::EnumDef(EnumDef { id: s("e") })).is_none());
    let def = ComponentDef::Named(
        ComponentType::Mem,
        s("m"),
        None,
        ComponentBody { elements: vec![] },
    );
    assert_eq!(def.component_type(), ComponentType::Mem);
    assert_eq!(def.body().elements.len(), 0);
}

#[test]
fn body_properties_are_resolved_in_order() {
    let body = ComponentBody {
        elements: vec![
            ComponentBodyElem::PropertyAssignment(set(false, "a", 1)),
            ComponentBodyElem::PropertyAssignment(set(true, "a", 2)),
            ComponentBodyElem::PropertyAssignment(set(false, "b", 3)),
        ],
    };
    let (local, defaults) = resolve_body(&body).unwrap();
    assert_eq!(local.len(), 2);
    assert_eq!(defaults.len(), 1);
    assert_eq!(local.entry(0).name, "a");
    assert_eq!(local.entry(1).name, "b");
    assert_eq!(defaults.get(&s("a")), Some(&PrimaryLiteral::Number(2)));
    let body = ComponentBody {
        elements: vec![
            ComponentBodyElem::PropertyAssignment(set(false, "a", 1)),
            ComponentBodyElem::EnumDef(EnumDef { id: s("e") }),
            ComponentBodyElem::PropertyAssignment(set(false, "a", 3)),
        ],
    };
    assert_eq!(
        resolve_body(&body).unwrap_err(),
        ErrorKind::UnsupportedConstruct(Construct::EnumDefinition)
    );
}

#[test]
fn instances_are_built_one_per_place() {
    let places = vec![
        Placement::Address { offset: 0, size: 4 },
        Placement::Address { offset: 4, size: 4 },
    ];
    let child = Node::new(
        NodeContent::new(
            NodeKind::Field,
            s("f"),
            PropertyMap::new(),
            PropertyMap::new(),
            Placement::Bits { msb: 3, lsb: 0 },
        ),
        vec![],
        None,
    );
    let nodes = instantiate(
        NodeKind::Register,
        &s("r"),
        map(&[("x", 1)]),
        map(&[("y", 2)]),
        vec![child],
        &places,
        true,
    );
    assert_eq!(nodes.len(), 2);
    for (i, n) in nodes.iter().enumerate() {
        assert_eq!(n.kind(), NodeKind::Register);
        assert_eq!(n.name(), "r");
        assert_eq!(n.index(), Some(i as u64));
        assert_eq!(n.placement(), places[i]);
        assert_eq!(n.properties().get(&s("x")), Some(&PrimaryLiteral::Number(1)));
        assert_eq!(n.default_properties().get(&s("y")), Some(&PrimaryLiteral::Number(2)));
        assert_eq!(n.children().len(), 1);
        assert_eq!(n.children()[0].width(), Some(4));
        assert_eq!(n.content().name(), "r");
        assert_eq!(n.content().kind(), NodeKind::Register);
        assert_eq!(n.content().placement(), places[i]);
        assert_eq!(n.content().properties().len(), 1);
        assert_eq!(n.content().default_properties().len(), 1);
    }
    let copies = clone_nodes(&nodes);
    assert_eq!(copies.len(), 2);
    assert_eq!(copies[1].offset(), Some(4));
    assert_eq!(copies[1].index(), Some(1));
    let single = instantiate(
        NodeKind::Signal,
        &s("s"),
        PropertyMap::new(),
        PropertyMap::new(),
        vec![],
        &vec![Placement::Unplaced],
        false,
    );
    assert_eq!(single.len(), 1);
    assert_eq!(single[0].index(), None);
    let nothing = instantiate(
        NodeKind::Register,
        &s("r"),
        PropertyMap::new(),
        PropertyMap::new(),
        vec![],
        &vec![],
        true,
    );
    assert_eq!(nothing.len(), 0);
}

#[test]
fn each_kind_has_its_own_entry_point() {
    let body = ComponentBody { elements: vec![] };
    let chain: Vec<&PropertyMap> = vec![];
    let path: Vec<String> = vec![];
    let at = start_at(8, 8, 2);
    let name = s("n");
    let (n, l) = elaborate_addrmap(&name, &body, None, &chain, at, &path).unwrap();
    assert_eq!(n[0].kind(), NodeKind::AddrMap);
    assert_eq!(n[0].placement(), Placement::Address { offset: 8, size: 0 });
    assert_eq!(l, at);
    let (n, l) = elaborate_regfile(&name, &body, None, &chain, at, &path).unwrap();
    assert_eq!(n[0].kind(), NodeKind::RegFile);
    assert_eq!(l, at);
    let (n, l) = elaborate_reg(&name, &body, None, &chain, at, &path).unwrap();
    assert_eq!(n[0].kind(), NodeKind::Register);
    assert_eq!(n[0].placement(), Placement::Address { offset: 8, size: 4 });
    assert_eq!(l, start_at(12, 12, 2));
    let (n, l) = elaborate_field(&name, &body, None, &chain, at, &path).unwrap();
    assert_eq!(n[0].kind(), NodeKind::Field);
    assert_eq!(n[0].placement(), Placement::Bits { msb: 2, lsb: 2 });
    assert_eq!(l, start_at(8, 8, 3));
    let (n, l) = elaborate_mem(&name, &body, None, &chain, at, &path).unwrap();
    assert_eq!(n[0].kind(), NodeKind::Mem);
    assert_eq!(n[0].size(), Some(4));
    assert_eq!(l, start_at(12, 12, 2));
    let (n, l) = elaborate_signal(&name, &body, None, &chain, at, &path).unwrap();
    assert_eq!(n[0].kind(), NodeKind::Signal);
    assert_eq!(l, at);
    let (n, _) = elaborate_instance(NodeKind::Mem, &name, &body, None, &chain, at, &path).unwrap();
    assert_eq!(n[0].kind(), NodeKind::Mem);
    let (here, local, defaults) = open_node(&name, &body, None, &vec![s("top")]).unwrap();
    assert_eq!(here, vec![s("top"), s("n")]);
    assert_eq!(local.len(), 0);
    assert_eq!(defaults.len(), 0);
    let (n, l) = finish_node(
        NodeKind::Register,
        &name,
        &body,
        local,
        defaults,
        Request::Instances { count: 2, base: None },
        Some(8),
        true,
        &chain,
        at,
        &here,
    )
    .unwrap();
    assert_eq!(n.len(), 2);
    assert_eq!(n[1].placement(), Placement::Address { offset: 16, size: 8 });
    assert_eq!(n[1].index(), Some(1));
    assert_eq!(l, start_at(24, 24, 2));
    let (n, l) = elaborate_children(&body, &chain, &path).unwrap();
    assert_eq!(n.len(), 0);
    assert_eq!(l, Layout::start());
}

#[test]
fn ancestors_reach_a_node_through_the_chain() {
    let body = ComponentBody { elements: vec![] };
    let wide = map(&[("regwidth", 128)]);
    let chain = vec![&wide];
    let path = vec![s("top")];
    let (n, l) =
        elaborate_reg(&s("r"), &body, None, &chain, Layout::start(), &path).unwrap();
    assert_eq!(n[0].size(), Some(16));
    assert_eq!(l.next_offset, 16);
    let i = ComponentInst { equals: Some(num(1)), ..inst("r") };
    let e = elaborate_reg(&s("r"), &body, Some(&i), &chain, Layout::start(), &path).unwrap_err();
    assert_eq!(e.path, vec![s("top"), s("r")]);
}
