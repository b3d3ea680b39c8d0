//! The elaborator: walks the descriptions of a syntax tree and builds the
//! node tree.
//!
//! A component body is read in two passes, each in the order of
//! declaration. The first resolves the property assignments of the body, so
//! that the defaults of a node are complete before any descendant looks
//! them up. Then the clause of the instance is read and the size of the
//! node is fixed. The second pass elaborates the nested components. The
//! first failure ends the whole elaboration.

use vstd::prelude::*;
use crate::ast::Component;
use crate::ast::ComponentBody;
use crate::ast::ComponentBodyElem;
use crate::ast::ComponentDef;
use crate::ast::ComponentInst;
use crate::ast::ComponentType;
use crate::ast::Description;
use crate::ast::Literal;
use crate::ast::Root;
use crate::error::fail_at;
use crate::error::extend_path;
use crate::error::path_view;
use crate::error::Construct;
use crate::error::ElabError;
use crate::error::ErrorKind;
use crate::error::ErrorKindView;
use crate::error::ErrorView;
use crate::error::TopLevelKind;
use crate::layout::arrange;
use crate::layout::arrange_spec;
use crate::layout::is_array;
use crate::layout::field_request;
use crate::layout::memory_size;
use crate::layout::placed_request;
use crate::layout::register_size;
use crate::layout::unplaced_request;
use crate::layout::Request;
use crate::layout::own_size_spec;
use crate::layout::request_spec;
use crate::layout::spec_is_array;
use crate::layout::spec_unsupported_part;
use crate::layout::unsupported_part;
use crate::layout::Layout;
use crate::node::clone_nodes;
use crate::node::lemma_views_add;
use crate::node::views;
use crate::node::Node;
use crate::node::NodeContent;
use crate::node::NodeKind;
use crate::node::NodeView;
use crate::node::Placement;
use crate::property::resolve_assignment;
use crate::property::resolve_spec;
use crate::property::Namespaces;
use crate::property::PropertyMap;
use crate::scope::chain_view;
use crate::scope::extend_chain;

verus! {

/// The top-level nodes of an elaborated description, in source order.
#[derive(Debug)]
pub struct RootNamespace {
    nodes: Vec<Node>,
}

impl View for RootNamespace {
    type V = Seq<NodeView>;

    closed spec fn view(&self) -> Seq<NodeView> {
        views(self.nodes@)
    }
}

impl RootNamespace {
    /// The top-level nodes in source order.
    pub fn nodes(&self) -> (res: &Vec<Node>)
        ensures
            views(res@) == self@,
    {
        &self.nodes
    }
}

impl Clone for RootNamespace {
    fn clone(&self) -> (res: Self)
        ensures
            res@ == self@,
    {
        RootNamespace { nodes: clone_nodes(&self.nodes) }
    }
}

/// What a piece of the tree elaborates to: the nodes it yields, and the
/// layout of the enclosing scope behind them.
pub struct Expansion {
    pub nodes: Seq<NodeView>,
    pub layout: Layout,
}

/// The kind of node that a component keyword stands for, if it stands for
/// one.
pub open spec fn spec_node_kind(t: ComponentType) -> Option<NodeKind> {
    match t {
        ComponentType::Field => Some(NodeKind::Field),
        ComponentType::Reg => Some(NodeKind::Register),
        ComponentType::RegFile => Some(NodeKind::RegFile),
        ComponentType::AddrMap => Some(NodeKind::AddrMap),
        ComponentType::Signal => Some(NodeKind::Signal),
        ComponentType::Mem => Some(NodeKind::Mem),
        ComponentType::Enum => None,
        ComponentType::EnumVariant => None,
        ComponentType::Constraint => None,
    }
}

/// The kind of node that a component keyword stands for.
pub fn node_kind(t: ComponentType) -> (res: Option<NodeKind>)
    ensures
        res == spec_node_kind(t),
{
    match t {
        ComponentType::Field => Some(NodeKind::Field),
        ComponentType::Reg => Some(NodeKind::Register),
        ComponentType::RegFile => Some(NodeKind::RegFile),
        ComponentType::AddrMap => Some(NodeKind::AddrMap),
        ComponentType::Signal => Some(NodeKind::Signal),
        ComponentType::Mem => Some(NodeKind::Mem),
        ComponentType::Enum => None,
        ComponentType::EnumVariant => None,
        ComponentType::Constraint => None,
    }
}

/// The component that a top-level description defines, or the kind of a
/// description that cannot stand at top level. Only a definition of an
/// address map, a register file, a register, a field, a memory or a signal
/// can.
pub open spec fn spec_top_level(d: Description) -> Result<Component, TopLevelKind> {
    match d {
        Description::ComponentDef(c) => match c.def.spec_component_type() {
            ComponentType::Enum => Err(TopLevelKind::Enum),
            ComponentType::EnumVariant => Err(TopLevelKind::EnumVariant),
            ComponentType::Constraint => Err(TopLevelKind::Constraint),
            ComponentType::Field => Ok(c),
            ComponentType::Reg => Ok(c),
            ComponentType::RegFile => Ok(c),
            ComponentType::AddrMap => Ok(c),
            ComponentType::Signal => Ok(c),
            ComponentType::Mem => Ok(c),
        },
        Description::EnumDef(_) => Err(TopLevelKind::Enum),
        Description::PropertyDefinition(_) => Err(TopLevelKind::PropertyDefinition),
        Description::StructDef(_) => Err(TopLevelKind::Struct),
        Description::ConstraintDef(_) => Err(TopLevelKind::Constraint),
        Description::ExplicitComponentInst(_) => Err(TopLevelKind::ComponentInstance),
        Description::PropertyAssignment(_) => Err(TopLevelKind::PropertyAssignment),
    }
}

/// The component that a top-level description defines, or the kind of a
/// description that cannot stand at top level.
pub fn top_level(d: &Description) -> (res: Result<&Component, TopLevelKind>)
    ensures
        match res {
            Ok(c) => spec_top_level(*d) == Ok::<Component, TopLevelKind>(*c),
            Err(kind) => spec_top_level(*d) == Err::<Component, TopLevelKind>(kind),
        },
{
    match d {
        Description::ComponentDef(c) => match c.def.component_type() {
            ComponentType::Enum => Err(TopLevelKind::Enum),
            ComponentType::EnumVariant => Err(TopLevelKind::EnumVariant),
            ComponentType::Constraint => Err(TopLevelKind::Constraint),
            ComponentType::Field => Ok(c),
            ComponentType::Reg => Ok(c),
            ComponentType::RegFile => Ok(c),
            ComponentType::AddrMap => Ok(c),
            ComponentType::Signal => Ok(c),
            ComponentType::Mem => Ok(c),
        },
        Description::EnumDef(_) => Err(TopLevelKind::Enum),
        Description::PropertyDefinition(_) => Err(TopLevelKind::PropertyDefinition),
        Description::StructDef(_) => Err(TopLevelKind::Struct),
        Description::ConstraintDef(_) => Err(TopLevelKind::Constraint),
        Description::ExplicitComponentInst(_) => Err(TopLevelKind::ComponentInstance),
        Description::PropertyAssignment(_) => Err(TopLevelKind::PropertyAssignment),
    }
}

/// The component that a body element defines, if it defines one.
pub open spec fn spec_nested(elem: ComponentBodyElem) -> Option<Component> {
    match elem {
        ComponentBodyElem::ComponentDef(c) => Some(c),
        ComponentBodyElem::EnumDef(_) => None,
        ComponentBodyElem::StructDef(_) => None,
        ComponentBodyElem::ConstraintDef(_) => None,
        ComponentBodyElem::ExplicitComponentInst(_) => None,
        ComponentBodyElem::PropertyAssignment(_) => None,
    }
}

/// The component that a body element defines, if it defines one.
pub fn nested(elem: &ComponentBodyElem) -> (res: Option<&Component>)
    ensures
        match res {
            Some(c) => spec_nested(*elem) == Some(*c),
            None => spec_nested(*elem) is None,
        },
{
    match elem {
        ComponentBodyElem::ComponentDef(c) => Some(c),
        ComponentBodyElem::EnumDef(_) => None,
        ComponentBodyElem::StructDef(_) => None,
        ComponentBodyElem::ConstraintDef(_) => None,
        ComponentBodyElem::ExplicitComponentInst(_) => None,
        ComponentBodyElem::PropertyAssignment(_) => None,
    }
}

/// The namespaces of a node after one more element of its body. A nested
/// component leaves them as they are; an assignment is resolved into them;
/// every other element is rejected.
pub open spec fn element_spec(elem: ComponentBodyElem, scope: Namespaces) -> Result<
    Namespaces,
    ErrorKindView,
> {
    match elem {
        ComponentBodyElem::ComponentDef(_) => Ok(scope),
        ComponentBodyElem::EnumDef(_) => Err(
            ErrorKindView::UnsupportedConstruct(Construct::EnumDefinition),
        ),
        ComponentBodyElem::StructDef(_) => Err(
            ErrorKindView::UnsupportedConstruct(Construct::StructDefinition),
        ),
        ComponentBodyElem::ConstraintDef(_) => Err(
            ErrorKindView::UnsupportedConstruct(Construct::ConstraintDefinition),
        ),
        ComponentBodyElem::ExplicitComponentInst(_) => Err(
            ErrorKindView::UnsupportedConstruct(Construct::InstanceReference),
        ),
        ComponentBodyElem::PropertyAssignment(a) => resolve_spec(a, scope),
    }
}

/// The namespaces of a node after the first `n` elements of its body, or
/// the first failure among them.
pub open spec fn namespaces_spec(elems: Seq<ComponentBodyElem>, n: nat) -> Result<
    Namespaces,
    ErrorKindView,
>
    decreases n,
{
    if n == 0 || n > elems.len() {
        Ok(Namespaces { local: Map::empty(), defaults: Map::empty() })
    } else {
        match namespaces_spec(elems, (n - 1) as nat) {
            Err(k) => Err(k),
            Ok(scope) => element_spec(elems[n - 1], scope),
        }
    }
}

/// The nodes that the instances of a request are, one per place: alike
/// in name, properties and children. The instances of an array carry their
/// position in it.
pub open spec fn instances_spec(
    kind: NodeKind,
    name: Seq<char>,
    scope: Namespaces,
    children: Seq<NodeView>,
    places: Seq<Placement>,
    array: bool,
) -> Seq<NodeView> {
    Seq::new(
        places.len(),
        |i: int|
            NodeView {
                kind,
                name,
                properties: scope.local,
                default_properties: scope.defaults,
                placement: places[i],
                index: if array {
                    Some(i as u64)
                } else {
                    None
                },
                children,
            },
    )
}

/// The children of a node after the first `n` elements of its body: the
/// nodes of the nested components in the order of declaration, laid out from
/// the base of the node. Elements that define no component were dealt with
/// when the properties of the body were resolved. `chain` holds the defaults
/// of the node and of its ancestors, `path` leads to the node.
pub open spec fn children_spec(
    body: ComponentBody,
    n: nat,
    chain: Seq<Map<Seq<char>, Literal>>,
    path: Seq<Seq<char>>,
) -> Result<Expansion, ErrorView>
    decreases body, 0nat, n,
{
    if n == 0 || n > body.elements.len() {
        Ok(Expansion { nodes: Seq::empty(), layout: Layout::spec_start() })
    } else {
        match children_spec(body, (n - 1) as nat, chain, path) {
            Err(e) => Err(e),
            Ok(before) => match spec_nested(body.elements[n - 1]) {
                Some(c) => match component_spec(c, chain, before.layout, path) {
                    Err(e) => Err(e),
                    Ok(x) => Ok(Expansion { nodes: before.nodes + x.nodes, layout: x.layout }),
                },
                None => Ok(before),
            },
        }
    }
}

/// What a component elaborates to in a scope that is filled up to
/// `layout`: the nodes of all its instances. A definition without a clause
/// is one instance under the name of the definition.
pub open spec fn component_spec(
    c: Component,
    chain: Seq<Map<Seq<char>, Literal>>,
    layout: Layout,
    path: Seq<Seq<char>>,
) -> Result<Expansion, ErrorView>
    decreases c, 0nat, 0nat,
{
    if c.inst_type is Some {
        Err(ErrorView { kind: ErrorKindView::UnsupportedConstruct(Construct::InstanceType), path })
    } else {
        match spec_node_kind(c.def.spec_component_type()) {
            None => Err(
                ErrorView {
                    kind: ErrorKindView::UnsupportedConstruct(
                        Construct::ComponentKind(c.def.spec_component_type()),
                    ),
                    path,
                },
            ),
            Some(kind) => match c.def {
                ComponentDef::Named(_, name, params, body) => if params is Some {
                    Err(
                        ErrorView {
                            kind: ErrorKindView::UnsupportedConstruct(
                                Construct::ParameterDefinition,
                            ),
                            path,
                        },
                    )
                } else {
                    match c.insts {
                        None => node_spec(kind, name@, body, None, chain, layout, path),
                        Some(insts) => if insts.param_insts.len() > 0 {
                            Err(
                                ErrorView {
                                    kind: ErrorKindView::UnsupportedConstruct(
                                        Construct::ParameterizedInstantiation,
                                    ),
                                    path,
                                },
                            )
                        } else {
                            clauses_spec(
                                kind,
                                body,
                                insts.component_insts@,
                                insts.component_insts.len() as nat,
                                chain,
                                layout,
                                path,
                            )
                        },
                    }
                },
                ComponentDef::Anon(_, body) => match c.insts {
                    None => Err(
                        ErrorView {
                            kind: ErrorKindView::UnsupportedConstruct(
                                Construct::AnonymousDefinition,
                            ),
                            path,
                        },
                    ),
                    Some(insts) => if insts.param_insts.len() > 0 {
                        Err(
                            ErrorView {
                                kind: ErrorKindView::UnsupportedConstruct(
                                    Construct::ParameterizedInstantiation,
                                ),
                                path,
                            },
                        )
                    } else {
                        clauses_spec(
                            kind,
                            body,
                            insts.component_insts@,
                            insts.component_insts.len() as nat,
                            chain,
                            layout,
                            path,
                        )
                    },
                },
            },
        }
    }
}

/// What the first `n` instances of an instantiation clause elaborate to,
/// one after the other.
pub open spec fn clauses_spec(
    kind: NodeKind,
    body: ComponentBody,
    insts: Seq<ComponentInst>,
    n: nat,
    chain: Seq<Map<Seq<char>, Literal>>,
    layout: Layout,
    path: Seq<Seq<char>>,
) -> Result<Expansion, ErrorView>
    decreases body, 2nat, n,
{
    if n == 0 || n > insts.len() {
        Ok(Expansion { nodes: Seq::empty(), layout })
    } else {
        match clauses_spec(kind, body, insts, (n - 1) as nat, chain, layout, path) {
            Err(e) => Err(e),
            Ok(before) => match node_spec(
                kind,
                insts[n - 1].id@,
                body,
                Some(&insts[n - 1]),
                chain,
                before.layout,
                path,
            ) {
                Err(e) => Err(e),
                Ok(x) => Ok(Expansion { nodes: before.nodes + x.nodes, layout: x.layout }),
            },
        }
    }
}

/// The namespaces of one instance of a definition, or why the instance
/// is not elaborated: the parts of its clause that are not handled are
/// rejected, then the properties of the body are resolved. A failure carries
/// the path to the node.
pub open spec fn scope_spec(
    name: Seq<char>,
    body: ComponentBody,
    clause: Option<&ComponentInst>,
    path: Seq<Seq<char>>,
) -> Result<Namespaces, ErrorView> {
    let here = path.push(name);
    let rejected = match clause {
        Some(inst) => spec_unsupported_part(inst),
        None => None,
    };
    match rejected {
        Some(part) => Err(
            ErrorView { kind: ErrorKindView::UnsupportedConstruct(part), path: here },
        ),
        None => match namespaces_spec(body.elements@, body.elements.len() as nat) {
            Err(k) => Err(ErrorView { kind: k, path: here }),
            Ok(scope) => Ok(scope),
        },
    }
}

/// The instances of a node whose namespaces, request and own size are
/// known: the children are elaborated, with the defaults of the node at the
/// end of their chain, and the instances are laid out. A node without a size
/// of its own is as large as its children reach. `here` is the path to the
/// node.
pub open spec fn finish_spec(
    kind: NodeKind,
    name: Seq<char>,
    body: ComponentBody,
    scope: Namespaces,
    request: Request,
    own: Option<u64>,
    array: bool,
    chain: Seq<Map<Seq<char>, Literal>>,
    layout: Layout,
    here: Seq<Seq<char>>,
) -> Result<Expansion, ErrorView>
    decreases body, 1nat, 0nat,
{
    match children_spec(body, body.elements.len() as nat, chain.push(scope.defaults), here) {
        Err(e) => Err(e),
        Ok(inner) => {
            let size = match own {
                Some(s) => s,
                None => inner.layout.extent,
            };
            match arrange_spec(kind, request, size, layout) {
                Err(k) => Err(ErrorView { kind: k, path: here }),
                Ok(a) => Ok(
                    Expansion {
                        nodes: instances_spec(kind, name, scope, inner.nodes, a.places, array),
                        layout: a.layout,
                    },
                ),
            }
        },
    }
}

/// What one instance of a definition elaborates to: the node, once for
/// each place that its clause asks for.
///
/// In this order: the parts of the clause that are not handled are
/// rejected; the properties of the body are resolved; the clause is read by
/// the rules of the kind; the size that a node of the kind has by its
/// properties is computed; the children are elaborated; the instances are
/// laid out.
pub open spec fn node_spec(
    kind: NodeKind,
    name: Seq<char>,
    body: ComponentBody,
    clause: Option<&ComponentInst>,
    chain: Seq<Map<Seq<char>, Literal>>,
    layout: Layout,
    path: Seq<Seq<char>>,
) -> Result<Expansion, ErrorView>
    decreases body, 1nat, 1nat,
{
    let here = path.push(name);
    match scope_spec(name, body, clause, path) {
        Err(e) => Err(e),
        Ok(scope) => match request_spec(kind, name, clause) {
            Err(k) => Err(ErrorView { kind: k, path: here }),
            Ok(request) => match own_size_spec(kind, scope.local, chain) {
                Err(k) => Err(ErrorView { kind: k, path: here }),
                Ok(own) => finish_spec(
                    kind,
                    name,
                    body,
                    scope,
                    request,
                    own,
                    spec_is_array(kind, clause),
                    chain,
                    layout,
                    here,
                ),
            },
        },
    }
}

/// What the first `n` top-level descriptions elaborate to. The top level
/// is a scope of its own, without properties: its nodes are laid out one
/// behind the other like the children of a node.
pub open spec fn descriptions_spec(descriptions: Seq<Description>, n: nat) -> Result<
    Expansion,
    ErrorView,
>
    decreases n,
{
    if n == 0 || n > descriptions.len() {
        Ok(Expansion { nodes: Seq::empty(), layout: Layout::spec_start() })
    } else {
        match descriptions_spec(descriptions, (n - 1) as nat) {
            Err(e) => Err(e),
            Ok(before) => match spec_top_level(descriptions[n - 1]) {
                Err(kind) => Err(
                    ErrorView {
                        kind: ErrorKindView::UnsupportedTopLevelConstruct(kind),
                        path: Seq::empty(),
                    },
                ),
                Ok(c) => match component_spec(c, Seq::empty(), before.layout, Seq::empty()) {
                    Err(e) => Err(e),
                    Ok(x) => Ok(Expansion { nodes: before.nodes + x.nodes, layout: x.layout }),
                },
            },
        }
    }
}

/// The top-level nodes that a syntax tree elaborates to, or the first
/// failure.
pub open spec fn elaborate_spec(ast: Root) -> Result<Seq<NodeView>, ErrorView> {
    match descriptions_spec(ast.descriptions@, ast.descriptions.len() as nat) {
        Err(e) => Err(e),
        Ok(x) => Ok(x.nodes),
    }
}

/// Whether `res` is the executable form of `expected`.
pub open spec fn is_expansion(
    res: Result<(Vec<Node>, Layout), ElabError>,
    expected: Result<Expansion, ErrorView>,
) -> bool {
    match res {
        Ok(r) => expected == Ok::<Expansion, ErrorView>(
            Expansion { nodes: views(r.0@), layout: r.1 },
        ),
        Err(e) => expected == Err::<Expansion, ErrorView>(e@),
    }
}

/// A failure among the first elements of a body is the failure of the
/// whole body.
pub proof fn lemma_namespaces_failure_stays(elems: Seq<ComponentBodyElem>, i: nat, n: nat)
    requires
        i <= n <= elems.len(),
        namespaces_spec(elems, i) is Err,
    ensures
        namespaces_spec(elems, n) == namespaces_spec(elems, i),
    decreases n,
{
    if i < n {
        lemma_namespaces_failure_stays(elems, i, (n - 1) as nat);
    }
}

/// A failure among the first children of a node is the failure of all its
/// children.
pub proof fn lemma_children_failure_stays(
    body: ComponentBody,
    i: nat,
    n: nat,
    chain: Seq<Map<Seq<char>, Literal>>,
    path: Seq<Seq<char>>,
)
    requires
        i <= n <= body.elements.len(),
        children_spec(body, i, chain, path) is Err,
    ensures
        children_spec(body, n, chain, path) == children_spec(body, i, chain, path),
    decreases n,
{
    if i < n {
        lemma_children_failure_stays(body, i, (n - 1) as nat, chain, path);
    }
}

/// A failure among the first instances of a clause is the failure of the
/// whole clause.
pub proof fn lemma_clauses_failure_stays(
    kind: NodeKind,
    body: ComponentBody,
    insts: Seq<ComponentInst>,
    i: nat,
    n: nat,
    chain: Seq<Map<Seq<char>, Literal>>,
    layout: Layout,
    path: Seq<Seq<char>>,
)
    requires
        i <= n <= insts.len(),
        clauses_spec(kind, body, insts, i, chain, layout, path) is Err,
    ensures
        clauses_spec(kind, body, insts, n, chain, layout, path) == clauses_spec(
            kind,
            body,
            insts,
            i,
            chain,
            layout,
            path,
        ),
    decreases n,
{
    if i < n {
        lemma_clauses_failure_stays(kind, body, insts, i, (n - 1) as nat, chain, layout, path);
    }
}

/// A failure among the first descriptions is the failure of the whole
/// elaboration: no part of the tree is handed out.
pub proof fn lemma_descriptions_failure_stays(descriptions: Seq<Description>, i: nat, n: nat)
    requires
        i <= n <= descriptions.len(),
        descriptions_spec(descriptions, i) is Err,
    ensures
        descriptions_spec(descriptions, n) == descriptions_spec(descriptions, i),
    decreases n,
{
    if i < n {
        lemma_descriptions_failure_stays(descriptions, i, (n - 1) as nat);
    }
}

/// Resolves the property assignments of a body, in the order of
/// declaration, into the two namespaces of the node.
pub fn resolve_body(body: &ComponentBody) -> (res: Result<(PropertyMap, PropertyMap), ErrorKind>)
    ensures
        match res {
            Ok(scope) => namespaces_spec(body.elements@, body.elements.len() as nat) == Ok::<
                Namespaces,
                ErrorKindView,
            >(Namespaces { local: scope.0@, defaults: scope.1@ }),
            Err(k) => namespaces_spec(body.elements@, body.elements.len() as nat) == Err::<
                Namespaces,
                ErrorKindView,
            >(k@),
        },
{
    let mut local = PropertyMap::new();
    let mut defaults = PropertyMap::new();
    let mut i: usize = 0;
    while i < body.elements.len()
        invariant
            i <= body.elements.len(),
            namespaces_spec(body.elements@, i as nat) == Ok::<Namespaces, ErrorKindView>(
                Namespaces { local: local@, defaults: defaults@ },
            ),
        decreases body.elements.len() - i,
    {
        let step: Result<(), ErrorKind> = match &body.elements[i] {
            ComponentBodyElem::ComponentDef(_) => Ok(()),
            ComponentBodyElem::EnumDef(_) => Err(
                ErrorKind::UnsupportedConstruct(Construct::EnumDefinition),
            ),
            ComponentBodyElem::StructDef(_) => Err(
                ErrorKind::UnsupportedConstruct(Construct::StructDefinition),
            ),
            ComponentBodyElem::ConstraintDef(_) => Err(
                ErrorKind::UnsupportedConstruct(Construct::ConstraintDefinition),
            ),
            ComponentBodyElem::ExplicitComponentInst(_) => Err(
                ErrorKind::UnsupportedConstruct(Construct::InstanceReference),
            ),
            ComponentBodyElem::PropertyAssignment(a) => resolve_assignment(
                a,
                &mut local,
                &mut defaults,
            ),
        };
        match step {
            Ok(_) => {},
            Err(k) => {
                proof {
                    lemma_namespaces_failure_stays(
                        body.elements@,
                        (i + 1) as nat,
                        body.elements.len() as nat,
                    );
                }
                return Err(k);
            },
        }
        i += 1;
    }
    Ok((local, defaults))
}

/// Builds the instances of a node, one for each place.
pub fn instantiate(
    kind: NodeKind,
    name: &String,
    local: PropertyMap,
    defaults: PropertyMap,
    children: Vec<Node>,
    places: &Vec<Placement>,
    array: bool,
) -> (res: Vec<Node>)
    requires
        forall|i: int| 0 <= i < places.len() ==> (#[trigger] places[i]).fits(kind),
    ensures
        views(res@) == instances_spec(
            kind,
            name@,
            Namespaces { local: local@, defaults: defaults@ },
            views(children@),
            places@,
            array,
        ),
{
    let mut nodes: Vec<Node> = Vec::new();
    let n = places.len();
    let ghost expected = instances_spec(
        kind,
        name@,
        Namespaces { local: local@, defaults: defaults@ },
        views(children@),
        places@,
        array,
    );
    if n == 0 {
        return nodes;
    }
    let mut i: usize = 0;
    while i + 1 < n
        invariant
            n == places.len(),
            0 < n,
            i + 1 <= n,
            nodes.len() == i,
            forall|j: int| 0 <= j < places.len() ==> (#[trigger] places[j]).fits(kind),
            expected == instances_spec(
                kind,
                name@,
                Namespaces { local: local@, defaults: defaults@ },
                views(children@),
                places@,
                array,
            ),
            forall|j: int| 0 <= j < i ==> nodes[j]@ == expected[j],
        decreases n - i,
    {
        let content = NodeContent::new(
            kind,
            name.clone(),
            local.clone(),
            defaults.clone(),
            places[i],
        );
        let index = if array {
            Some(i as u64)
        } else {
            None
        };
        let node = Node::new(content, clone_nodes(&children), index);
        nodes.push(node);
        i += 1;
    }
    let content = NodeContent::new(kind, name.clone(), local, defaults, places[n - 1]);
    let index = if array {
        Some((n - 1) as u64)
    } else {
        None
    };
    let node = Node::new(content, children, index);
    nodes.push(node);
    nodes
}

/// Elaborates the nested components of a body in the order of declaration
/// and lays the nodes out from the base of the enclosing node.
pub fn elaborate_children(body: &ComponentBody, chain: &Vec<&PropertyMap>, path: &Vec<String>) -> (res:
    Result<(Vec<Node>, Layout), ElabError>)
    ensures
        is_expansion(
            res,
            children_spec(
                *body,
                body.elements.len() as nat,
                chain_view(chain@),
                path_view(path@),
            ),
        ),
    decreases body, 0nat,
{
    let mut nodes: Vec<Node> = Vec::new();
    let mut layout = Layout::start();
    let mut i: usize = 0;
    assert(views(nodes@) =~= Seq::<NodeView>::empty());
    while i < body.elements.len()
        invariant
            i <= body.elements.len(),
            children_spec(*body, i as nat, chain_view(chain@), path_view(path@)) == Ok::<
                Expansion,
                ErrorView,
            >(Expansion { nodes: views(nodes@), layout }),
        decreases body.elements.len() - i,
    {
        let ghost before = nodes@;
        match nested(&body.elements[i]) {
            Some(c) => match elaborate_component(c, chain, layout, path) {
                Err(e) => {
                    proof {
                        lemma_children_failure_stays(
                            *body,
                            (i + 1) as nat,
                            body.elements.len() as nat,
                            chain_view(chain@),
                            path_view(path@),
                        );
                    }
                    return Err(e);
                },
                Ok(x) => {
                    let (mut more, next) = x;
                    proof {
                        lemma_views_add(before, more@);
                    }
                    nodes.append(&mut more);
                    layout = next;
                },
            },
            None => {},
        }
        i += 1;
    }
    Ok((nodes, layout))
}

/// Elaborates a component: every instance of its instantiation clause, or
/// the definition itself where it stands without one.
pub fn elaborate_component(
    component: &Component,
    chain: &Vec<&PropertyMap>,
    layout: Layout,
    path: &Vec<String>,
) -> (res: Result<(Vec<Node>, Layout), ElabError>)
    ensures
        is_expansion(
            res,
            component_spec(*component, chain_view(chain@), layout, path_view(path@)),
        ),
    decreases component, 0nat,
{
    if component.inst_type.is_some() {
        return Err(fail_at(ErrorKind::UnsupportedConstruct(Construct::InstanceType), path));
    }
    let component_type = component.def.component_type();
    let kind = match node_kind(component_type) {
        None => {
            return Err(
                fail_at(
                    ErrorKind::UnsupportedConstruct(Construct::ComponentKind(component_type)),
                    path,
                ),
            );
        },
        Some(kind) => kind,
    };
    let body = match &component.def {
        ComponentDef::Named(_, name, params, body) => {
            if params.is_some() {
                return Err(
                    fail_at(ErrorKind::UnsupportedConstruct(Construct::ParameterDefinition), path),
                );
            }
            if component.insts.is_none() {
                return elaborate_instance(kind, name, body, None, chain, layout, path);
            }
            body
        },
        ComponentDef::Anon(_, body) => {
            if component.insts.is_none() {
                return Err(
                    fail_at(ErrorKind::UnsupportedConstruct(Construct::AnonymousDefinition), path),
                );
            }
            body
        },
    };
    let insts = match &component.insts {
        Some(insts) => insts,
        None => {
            return Err(
                fail_at(ErrorKind::UnsupportedConstruct(Construct::AnonymousDefinition), path),
            );
        },
    };
    if insts.param_insts.len() > 0 {
        return Err(
            fail_at(ErrorKind::UnsupportedConstruct(Construct::ParameterizedInstantiation), path),
        );
    }
    let mut nodes: Vec<Node> = Vec::new();
    let mut next = layout;
    let mut i: usize = 0;
    assert(views(nodes@) =~= Seq::<NodeView>::empty());
    while i < insts.component_insts.len()
        invariant
            i <= insts.component_insts.len(),
            decreases_to!(component => body),
            component_spec(*component, chain_view(chain@), layout, path_view(path@))
                == clauses_spec(
                kind,
                *body,
                insts.component_insts@,
                insts.component_insts.len() as nat,
                chain_view(chain@),
                layout,
                path_view(path@),
            ),
            clauses_spec(
                kind,
                *body,
                insts.component_insts@,
                i as nat,
                chain_view(chain@),
                layout,
                path_view(path@),
            ) == Ok::<Expansion, ErrorView>(Expansion { nodes: views(nodes@), layout: next }),
        decreases insts.component_insts.len() - i,
    {
        let inst = &insts.component_insts[i];
        let ghost before = nodes@;
        match elaborate_instance(kind, &inst.id, body, Some(inst), chain, next, path) {
            Err(e) => {
                proof {
                    lemma_clauses_failure_stays(
                        kind,
                        *body,
                        insts.component_insts@,
                        (i + 1) as nat,
                        insts.component_insts.len() as nat,
                        chain_view(chain@),
                        layout,
                        path_view(path@),
                    );
                }
                return Err(e);
            },
            Ok(x) => {
                let (mut more, behind) = x;
                proof {
                    lemma_views_add(before, more@);
                }
                nodes.append(&mut more);
                next = behind;
            },
        }
        i += 1;
    }
    Ok((nodes, next))
}

/// Elaborates one instance of a definition of kind `kind`, by the rules
/// of the kind.
pub fn elaborate_instance(
    kind: NodeKind,
    name: &String,
    body: &ComponentBody,
    clause: Option<&ComponentInst>,
    chain: &Vec<&PropertyMap>,
    layout: Layout,
    path: &Vec<String>,
) -> (res: Result<(Vec<Node>, Layout), ElabError>)
    ensures
        is_expansion(
            res,
            node_spec(kind, name@, *body, clause, chain_view(chain@), layout, path_view(path@)),
        ),
    decreases body, 3nat,
{
    match kind {
        NodeKind::AddrMap => elaborate_addrmap(name, body, clause, chain, layout, path),
        NodeKind::RegFile => elaborate_regfile(name, body, clause, chain, layout, path),
        NodeKind::Register => elaborate_reg(name, body, clause, chain, layout, path),
        NodeKind::Field => elaborate_field(name, body, clause, chain, layout, path),
        NodeKind::Mem => elaborate_mem(name, body, clause, chain, layout, path),
        NodeKind::Signal => elaborate_signal(name, body, clause, chain, layout, path),
    }
}

/// Elaborates one instance of an address map: it has an address, and is as
/// large as its children reach.
pub fn elaborate_addrmap(
    name: &String,
    body: &ComponentBody,
    clause: Option<&ComponentInst>,
    chain: &Vec<&PropertyMap>,
    layout: Layout,
    path: &Vec<String>,
) -> (res: Result<(Vec<Node>, Layout), ElabError>)
    ensures
        is_expansion(
            res,
            node_spec(
                NodeKind::AddrMap,
                name@,
                *body,
                clause,
                chain_view(chain@),
                layout,
                path_view(path@),
            ),
        ),
    decreases body, 2nat,
{
    let (here, local, defaults) = open_node(name, body, clause, path)?;
    let request = match placed_request(clause) {
        Err(k) => {
            return Err(fail_at(k, &here));
        },
        Ok(request) => request,
    };
    finish_node(
        NodeKind::AddrMap,
        name,
        body,
        local,
        defaults,
        request,
        None,
        is_array(NodeKind::AddrMap, clause),
        chain,
        layout,
        &here,
    )
}

/// Elaborates one instance of a register file: it has an address, and is
/// as large as its children reach.
pub fn elaborate_regfile(
    name: &String,
    body: &ComponentBody,
    clause: Option<&ComponentInst>,
    chain: &Vec<&PropertyMap>,
    layout: Layout,
    path: &Vec<String>,
) -> (res: Result<(Vec<Node>, Layout), ElabError>)
    ensures
        is_expansion(
            res,
            node_spec(
                NodeKind::RegFile,
                name@,
                *body,
                clause,
                chain_view(chain@),
                layout,
                path_view(path@),
            ),
        ),
    decreases body, 2nat,
{
    let (here, local, defaults) = open_node(name, body, clause, path)?;
    let request = match placed_request(clause) {
        Err(k) => {
            return Err(fail_at(k, &here));
        },
        Ok(request) => request,
    };
    finish_node(
        NodeKind::RegFile,
        name,
        body,
        local,
        defaults,
        request,
        None,
        is_array(NodeKind::RegFile, clause),
        chain,
        layout,
        &here,
    )
}

/// Elaborates one instance of a register: it has an address, and its size
/// is that of its `regwidth`.
pub fn elaborate_reg(
    name: &String,
    body: &ComponentBody,
    clause: Option<&ComponentInst>,
    chain: &Vec<&PropertyMap>,
    layout: Layout,
    path: &Vec<String>,
) -> (res: Result<(Vec<Node>, Layout), ElabError>)
    ensures
        is_expansion(
            res,
            node_spec(
                NodeKind::Register,
                name@,
                *body,
                clause,
                chain_view(chain@),
                layout,
                path_view(path@),
            ),
        ),
    decreases body, 2nat,
{
    let (here, local, defaults) = open_node(name, body, clause, path)?;
    let request = match placed_request(clause) {
        Err(k) => {
            return Err(fail_at(k, &here));
        },
        Ok(request) => request,
    };
    let size = match register_size(&local, chain) {
        Err(k) => {
            return Err(fail_at(k, &here));
        },
        Ok(size) => size,
    };
    finish_node(
        NodeKind::Register,
        name,
        body,
        local,
        defaults,
        request,
        Some(size),
        is_array(NodeKind::Register, clause),
        chain,
        layout,
        &here,
    )
}

/// Elaborates one instance of a field: it has a bit range in place of an
/// address, and is never an array; its brackets give its bits.
pub fn elaborate_field(
    name: &String,
    body: &ComponentBody,
    clause: Option<&ComponentInst>,
    chain: &Vec<&PropertyMap>,
    layout: Layout,
    path: &Vec<String>,
) -> (res: Result<(Vec<Node>, Layout), ElabError>)
    ensures
        is_expansion(
            res,
            node_spec(
                NodeKind::Field,
                name@,
                *body,
                clause,
                chain_view(chain@),
                layout,
                path_view(path@),
            ),
        ),
    decreases body, 2nat,
{
    let (here, local, defaults) = open_node(name, body, clause, path)?;
    let request = match field_request(name, clause) {
        Err(k) => {
            return Err(fail_at(k, &here));
        },
        Ok(request) => request,
    };
    finish_node(
        NodeKind::Field,
        name,
        body,
        local,
        defaults,
        request,
        None,
        false,
        chain,
        layout,
        &here,
    )
}

/// Elaborates one instance of a memory: it has an address, and its size is
/// that of its entries.
pub fn elaborate_mem(
    name: &String,
    body: &ComponentBody,
    clause: Option<&ComponentInst>,
    chain: &Vec<&PropertyMap>,
    layout: Layout,
    path: &Vec<String>,
) -> (res: Result<(Vec<Node>, Layout), ElabError>)
    ensures
        is_expansion(
            res,
            node_spec(
                NodeKind::Mem,
                name@,
                *body,
                clause,
                chain_view(chain@),
                layout,
                path_view(path@),
            ),
        ),
    decreases body, 2nat,
{
    let (here, local, defaults) = open_node(name, body, clause, path)?;
    let request = match placed_request(clause) {
        Err(k) => {
            return Err(fail_at(k, &here));
        },
        Ok(request) => request,
    };
    let size = match memory_size(&local, chain) {
        Err(k) => {
            return Err(fail_at(k, &here));
        },
        Ok(size) => size,
    };
    finish_node(
        NodeKind::Mem,
        name,
        body,
        local,
        defaults,
        request,
        Some(size),
        is_array(NodeKind::Mem, clause),
        chain,
        layout,
        &here,
    )
}

/// Elaborates one instance of a signal: it has neither an address nor a
/// bit range.
pub fn elaborate_signal(
    name: &String,
    body: &ComponentBody,
    clause: Option<&ComponentInst>,
    chain: &Vec<&PropertyMap>,
    layout: Layout,
    path: &Vec<String>,
) -> (res: Result<(Vec<Node>, Layout), ElabError>)
    ensures
        is_expansion(
            res,
            node_spec(
                NodeKind::Signal,
                name@,
                *body,
                clause,
                chain_view(chain@),
                layout,
                path_view(path@),
            ),
        ),
    decreases body, 2nat,
{
    let (here, local, defaults) = open_node(name, body, clause, path)?;
    let request = match unplaced_request(clause) {
        Err(k) => {
            return Err(fail_at(k, &here));
        },
        Ok(request) => request,
    };
    finish_node(
        NodeKind::Signal,
        name,
        body,
        local,
        defaults,
        request,
        None,
        is_array(NodeKind::Signal, clause),
        chain,
        layout,
        &here,
    )
}

/// Opens one instance of a definition, whatever its kind: extends the
/// path by the name of the instance, rejects the parts of the clause that
/// are not handled, and resolves the properties of the body.
pub fn open_node(
    name: &String,
    body: &ComponentBody,
    clause: Option<&ComponentInst>,
    path: &Vec<String>,
) -> (res: Result<(Vec<String>, PropertyMap, PropertyMap), ElabError>)
    ensures
        match res {
            Ok(r) => path_view(r.0@) == path_view(path@).push(name@) && scope_spec(
                name@,
                *body,
                clause,
                path_view(path@),
            ) == Ok::<Namespaces, ErrorView>(Namespaces { local: r.1@, defaults: r.2@ }),
            Err(e) => scope_spec(name@, *body, clause, path_view(path@)) == Err::<
                Namespaces,
                ErrorView,
            >(e@),
        },
{
    let here = extend_path(path, name);
    match clause {
        Some(inst) => match unsupported_part(inst) {
            Some(part) => {
                return Err(fail_at(ErrorKind::UnsupportedConstruct(part), &here));
            },
            None => {},
        },
        None => {},
    }
    match resolve_body(body) {
        Err(k) => Err(fail_at(k, &here)),
        Ok(scope) => Ok((here, scope.0, scope.1)),
    }
}

/// Finishes one instance of a definition, whatever its kind: elaborates
/// the children, lays the instances out and builds them.
pub fn finish_node(
    kind: NodeKind,
    name: &String,
    body: &ComponentBody,
    local: PropertyMap,
    defaults: PropertyMap,
    request: Request,
    own: Option<u64>,
    array: bool,
    chain: &Vec<&PropertyMap>,
    layout: Layout,
    here: &Vec<String>,
) -> (res: Result<(Vec<Node>, Layout), ElabError>)
    requires
        request.suits(kind),
    ensures
        is_expansion(
            res,
            finish_spec(
                kind,
                name@,
                *body,
                Namespaces { local: local@, defaults: defaults@ },
                request,
                own,
                array,
                chain_view(chain@),
                layout,
                path_view(here@),
            ),
        ),
    decreases body, 1nat,
{
    let inner_chain = extend_chain(chain, &defaults);
    let (children, inner) = elaborate_children(body, &inner_chain, here)?;
    let size = match own {
        Some(s) => s,
        None => inner.extent,
    };
    let (places, next) = match arrange(kind, request, size, layout) {
        Err(k) => {
            return Err(fail_at(k, here));
        },
        Ok(a) => a,
    };
    let nodes = instantiate(kind, name, local, defaults, children, &places, array);
    Ok((nodes, next))
}

/// Elaborates a syntax tree into its top-level nodes. Where any
/// description fails, the whole call fails with the first failure, and no
/// part of the tree is handed out.
pub fn elaborate(ast: Root) -> (res: Result<RootNamespace, ElabError>)
    ensures
        match res {
            Ok(root) => elaborate_spec(ast) == Ok::<Seq<NodeView>, ErrorView>(root@),
            Err(e) => elaborate_spec(ast) == Err::<Seq<NodeView>, ErrorView>(e@),
        },
{
    let mut nodes: Vec<Node> = Vec::new();
    let mut layout = Layout::start();
    let chain: Vec<&PropertyMap> = Vec::new();
    let path: Vec<String> = Vec::new();
    let mut i: usize = 0;
    assert(views(nodes@) =~= Seq::<NodeView>::empty());
    while i < ast.descriptions.len()
        invariant
            i <= ast.descriptions.len(),
            chain_view(chain@) == Seq::<Map<Seq<char>, Literal>>::empty(),
            path_view(path@) == Seq::<Seq<char>>::empty(),
            descriptions_spec(ast.descriptions@, i as nat) == Ok::<Expansion, ErrorView>(
                Expansion { nodes: views(nodes@), layout },
            ),
        decreases ast.descriptions.len() - i,
    {
        let ghost before = nodes@;
        let component = match top_level(&ast.descriptions[i]) {
            Err(kind) => {
                proof {
                    lemma_descriptions_failure_stays(
                        ast.descriptions@,
                        (i + 1) as nat,
                        ast.descriptions.len() as nat,
                    );
                }
                return Err(fail_at(ErrorKind::UnsupportedTopLevelConstruct(kind), &path));
            },
            Ok(component) => component,
        };
        match elaborate_component(component, &chain, layout, &path) {
            Err(e) => {
                proof {
                    lemma_descriptions_failure_stays(
                        ast.descriptions@,
                        (i + 1) as nat,
                        ast.descriptions.len() as nat,
                    );
                }
                return Err(e);
            },
            Ok(x) => {
                let (mut more, next) = x;
                proof {
                    lemma_views_add(before, more@);
                }
                nodes.append(&mut more);
                layout = next;
            },
        }
        i += 1;
    }
    Ok(RootNamespace { nodes })
}

} // verus!
