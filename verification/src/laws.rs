//! What holds of every elaboration.
//!
//! Each statement here speaks of the specification functions that the
//! contracts of the elaborator are written in, so it holds of whatever
//! `elaborate` returns.

use vstd::prelude::*;
use crate::ast::ArrayOrRange;
use crate::ast::Component;
use crate::ast::ComponentBody;
use crate::ast::ComponentBodyElem;
use crate::ast::ComponentDef;
use crate::ast::ComponentInst;
use crate::ast::Description;
use crate::ast::ExplicitOrDefaultPropAssignment;
use crate::ast::ExplicitPropertyAssignment;
use crate::ast::Literal;
use crate::ast::PropertyAssignment;
use crate::ast::Root;
use crate::elaborator::children_spec;
use crate::elaborator::clauses_spec;
use crate::elaborator::component_spec;
use crate::elaborator::descriptions_spec;
use crate::elaborator::elaborate_spec;
use crate::elaborator::element_spec;
use crate::elaborator::lemma_clauses_failure_stays;
use crate::elaborator::lemma_descriptions_failure_stays;
use crate::elaborator::lemma_namespaces_failure_stays;
use crate::elaborator::namespaces_spec;
use crate::elaborator::node_spec;
use crate::elaborator::spec_node_kind;
use crate::elaborator::spec_nested;
use crate::elaborator::spec_top_level;
use crate::error::ErrorKindView;
use crate::error::ErrorView;
use crate::eval::eval_spec;
use crate::layout::Layout;
use crate::node::NodeKind;
use crate::node::NodeView;
use crate::node::Placement;
use crate::property::Namespace;
use crate::property::Namespaces;

verus! {

/// Whether a body element assigns the property `name` in the namespace
/// `namespace`, whatever the value.
pub open spec fn assigns(elem: ComponentBodyElem, namespace: Namespace, name: Seq<char>) -> bool {
    elem matches ComponentBodyElem::PropertyAssignment(
        PropertyAssignment::ExplicitOrDefaultPropAssignment(
            ExplicitOrDefaultPropAssignment::ExplicitPropAssignment(
                keyword,
                ExplicitPropertyAssignment::Assignment(target, _),
            ),
        ),
    ) && target.spec_name() == name && (keyword is Some) == (namespace == Namespace::Default)
}

/// Whether `name` is bound in the namespace `namespace` of a node.
pub open spec fn binds(scope: Namespaces, namespace: Namespace, name: Seq<char>) -> bool {
    match namespace {
        Namespace::Local => scope.local.contains_key(name),
        Namespace::Default => scope.defaults.contains_key(name),
    }
}

/// Whether a body assigns some property twice in one namespace.
pub open spec fn assigns_twice(body: ComponentBody) -> bool {
    exists|i: int, j: int, namespace: Namespace, name: Seq<char>|
        #![trigger assigns(body.elements[i], namespace, name), assigns(body.elements[j], namespace, name)]
        0 <= i < j < body.elements.len() && assigns(body.elements[i], namespace, name) && assigns(
            body.elements[j],
            namespace,
            name,
        )
}

/// Whether a component, or one nested in it at any depth, assigns some
/// property twice in one namespace of one node. A component whose clause
/// names no instance is never elaborated and does not count.
pub open spec fn holds_duplicate(c: Component) -> bool
    decreases c, 1nat, 0nat,
{
    &&& (c.insts matches Some(insts) ==> insts.component_insts.len() > 0)
    &&& (assigns_twice(c.def.spec_body()) || nested_duplicate(
        c,
        c.def.spec_body().elements.len() as nat,
    ))
}

/// Whether one of the first `n` elements of the body of `c` is a
/// component that holds a duplicate.
pub open spec fn nested_duplicate(c: Component, n: nat) -> bool
    decreases c, 0nat, n,
{
    if n == 0 || n > c.def.spec_body().elements.len() {
        false
    } else {
        ||| nested_duplicate(c, (n - 1) as nat)
        ||| match spec_nested(c.def.spec_body().elements[n - 1]) {
            Some(inner) => holds_duplicate(inner),
            None => false,
        }
    }
}

/// An assignment either fails or binds its name; and it fails where the
/// name is bound already.
proof fn lemma_assignment_binds(
    elem: ComponentBodyElem,
    scope: Namespaces,
    namespace: Namespace,
    name: Seq<char>,
)
    requires
        assigns(elem, namespace, name),
    ensures
        element_spec(elem, scope) matches Ok(after) ==> binds(after, namespace, name) && !binds(
            scope,
            namespace,
            name,
        ),
{
}

/// No element unbinds a name.
proof fn lemma_binding_stays(
    elem: ComponentBodyElem,
    scope: Namespaces,
    namespace: Namespace,
    name: Seq<char>,
)
    requires
        binds(scope, namespace, name),
    ensures
        element_spec(elem, scope) matches Ok(after) ==> binds(after, namespace, name),
{
}

/// What an element of a body assigns is bound wherever the body has been
/// resolved beyond that element.
proof fn lemma_assigned_is_bound(
    elems: Seq<ComponentBodyElem>,
    i: int,
    n: nat,
    namespace: Namespace,
    name: Seq<char>,
)
    requires
        0 <= i < n <= elems.len(),
        assigns(elems[i], namespace, name),
    ensures
        namespaces_spec(elems, n) matches Ok(scope) ==> binds(scope, namespace, name),
    decreases n,
{
    match namespaces_spec(elems, (n - 1) as nat) {
        Err(_) => {},
        Ok(before) => {
            if i == n - 1 {
                lemma_assignment_binds(elems[i], before, namespace, name);
            } else {
                lemma_assigned_is_bound(elems, i, (n - 1) as nat, namespace, name);
                lemma_binding_stays(elems[n - 1], before, namespace, name);
            }
        },
    }
}

/// A second assignment of a property in the same namespace of the same
/// node makes the resolution of the body fail, whatever the values and
/// whatever else the body holds.
pub proof fn lemma_second_assignment_fails(
    elems: Seq<ComponentBodyElem>,
    i: int,
    j: int,
    namespace: Namespace,
    name: Seq<char>,
)
    requires
        0 <= i < j < elems.len(),
        assigns(elems[i], namespace, name),
        assigns(elems[j], namespace, name),
    ensures
        namespaces_spec(elems, elems.len()) is Err,
{
    match namespaces_spec(elems, j as nat) {
        Err(_) => {
            lemma_namespaces_failure_stays(elems, j as nat, elems.len());
        },
        Ok(before) => {
            lemma_assigned_is_bound(elems, i, j as nat, namespace, name);
            lemma_assignment_binds(elems[j], before, namespace, name);
            lemma_namespaces_failure_stays(elems, (j + 1) as nat, elems.len());
        },
    }
}

/// A node whose body assigns a property twice in one namespace is not
/// built: its elaboration fails for every kind, name, clause and scope.
pub proof fn lemma_duplicate_fails_node(
    kind: NodeKind,
    name: Seq<char>,
    body: ComponentBody,
    clause: Option<&ComponentInst>,
    chain: Seq<Map<Seq<char>, Literal>>,
    layout: Layout,
    path: Seq<Seq<char>>,
)
    requires
        assigns_twice(body),
    ensures
        node_spec(kind, name, body, clause, chain, layout, path) is Err,
{
    let (i, j, namespace, property): (int, int, Namespace, Seq<char>) = choose|
        i: int,
        j: int,
        namespace: Namespace,
        property: Seq<char>,
    |
        #![trigger assigns(body.elements[i], namespace, property), assigns(body.elements[j], namespace, property)]
        0 <= i < j < body.elements.len() && assigns(body.elements[i], namespace, property)
            && assigns(body.elements[j], namespace, property);
    lemma_second_assignment_fails(body.elements@, i, j, namespace, property);
}

/// Where one of the first `n` elements of a body holds a duplicate, the
/// children of the node fail.
proof fn lemma_nested_duplicate_fails_children(
    c: Component,
    n: nat,
    chain: Seq<Map<Seq<char>, Literal>>,
    path: Seq<Seq<char>>,
)
    requires
        n <= c.def.spec_body().elements.len(),
        nested_duplicate(c, n),
    ensures
        children_spec(c.def.spec_body(), n, chain, path) is Err,
    decreases c, 0nat, n,
{
    let body = c.def.spec_body();
    if nested_duplicate(c, (n - 1) as nat) {
        lemma_nested_duplicate_fails_children(c, (n - 1) as nat, chain, path);
    } else {
        match children_spec(body, (n - 1) as nat, chain, path) {
            Err(_) => {},
            Ok(before) => {
                match spec_nested(body.elements[n - 1]) {
                    Some(inner) => {
                        lemma_duplicate_fails(inner, chain, before.layout, path);
                    },
                    None => {},
                }
            },
        }
    }
}

/// A node whose body holds a duplicate at any depth is not built.
proof fn lemma_duplicate_below_fails_node(
    c: Component,
    kind: NodeKind,
    name: Seq<char>,
    clause: Option<&ComponentInst>,
    chain: Seq<Map<Seq<char>, Literal>>,
    layout: Layout,
    path: Seq<Seq<char>>,
)
    requires
        assigns_twice(c.def.spec_body()) || nested_duplicate(
            c,
            c.def.spec_body().elements.len() as nat,
        ),
    ensures
        node_spec(kind, name, c.def.spec_body(), clause, chain, layout, path) is Err,
    decreases c, 1nat, 0nat,
{
    let body = c.def.spec_body();
    if assigns_twice(body) {
        lemma_duplicate_fails_node(kind, name, body, clause, chain, layout, path);
    } else {
        match namespaces_spec(body.elements@, body.elements.len() as nat) {
            Err(_) => {},
            Ok(scope) => {
                lemma_nested_duplicate_fails_children(
                    c,
                    body.elements.len() as nat,
                    chain.push(scope.defaults),
                    path.push(name),
                );
            },
        }
    }
}

/// A duplicate assignment anywhere below a component makes the
/// elaboration of the component fail, in every scope.
pub proof fn lemma_duplicate_fails(
    c: Component,
    chain: Seq<Map<Seq<char>, Literal>>,
    layout: Layout,
    path: Seq<Seq<char>>,
)
    requires
        holds_duplicate(c),
    ensures
        component_spec(c, chain, layout, path) is Err,
    decreases c, 1nat, 1nat,
{
    match component_spec(c, chain, layout, path) {
        Err(_) => {},
        Ok(_) => {
            let kind = spec_node_kind(c.def.spec_component_type())->0;
            let body = c.def.spec_body();
            match c.insts {
                None => {
                    match c.def {
                        ComponentDef::Named(_, name, _, _) => {
                            lemma_duplicate_below_fails_node(
                                c,
                                kind,
                                name@,
                                None,
                                chain,
                                layout,
                                path,
                            );
                        },
                        ComponentDef::Anon(_, _) => {},
                    }
                },
                Some(insts) => {
                    let list = insts.component_insts@;
                    lemma_duplicate_below_fails_node(
                        c,
                        kind,
                        list[0].id@,
                        Some(&list[0]),
                        chain,
                        layout,
                        path,
                    );
                    assert(clauses_spec(kind, body, list, 0, chain, layout, path) is Ok);
                    lemma_clauses_failure_stays(
                        kind,
                        body,
                        list,
                        1,
                        list.len(),
                        chain,
                        layout,
                        path,
                    );
                },
            }
        },
    }
}

/// A property that is assigned twice in one namespace of one node, at
/// whatever depth of the tree, makes the whole elaboration fail.
pub proof fn lemma_duplicate_fails_elaboration(ast: Root, k: int)
    requires
        0 <= k < ast.descriptions.len(),
        ast.descriptions[k] matches Description::ComponentDef(c) && holds_duplicate(c),
    ensures
        elaborate_spec(ast) is Err,
{
    let descriptions = ast.descriptions@;
    match descriptions_spec(descriptions, k as nat) {
        Err(_) => {
            lemma_descriptions_failure_stays(descriptions, k as nat, descriptions.len());
        },
        Ok(before) => {
            match spec_top_level(descriptions[k]) {
                Ok(c) => {
                    lemma_duplicate_fails(c, Seq::empty(), before.layout, Seq::empty());
                },
                Err(_) => {},
            }
            lemma_descriptions_failure_stays(descriptions, (k + 1) as nat, descriptions.len());
        },
    }
}

/// A description that cannot stand at top level makes the whole
/// elaboration fail, wherever among the descriptions it stands: no part of
/// the tree is handed out. Where the descriptions before it elaborate, the
/// failure names its kind.
pub proof fn lemma_unsupported_top_level_fails(ast: Root, k: int)
    requires
        0 <= k < ast.descriptions.len(),
        spec_top_level(ast.descriptions[k]) is Err,
    ensures
        elaborate_spec(ast) is Err,
        descriptions_spec(ast.descriptions@, k as nat) is Ok ==> elaborate_spec(ast) == Err::<
            Seq<NodeView>,
            ErrorView,
        >(
            ErrorView {
                kind: ErrorKindView::UnsupportedTopLevelConstruct(
                    spec_top_level(ast.descriptions[k])->Err_0,
                ),
                path: Seq::empty(),
            },
        ),
{
    let descriptions = ast.descriptions@;
    match descriptions_spec(descriptions, k as nat) {
        Err(_) => {
            lemma_descriptions_failure_stays(descriptions, k as nat, descriptions.len());
        },
        Ok(before) => {
            lemma_descriptions_failure_stays(descriptions, (k + 1) as nat, descriptions.len());
        },
    }
}

/// The instances of an array without an explicit address: as many nodes
/// as the brackets say, alike in all but their positions in the array and
/// their offsets, which start where the enclosing scope was filled up to and
/// lie one size of the node apart.
pub proof fn lemma_array_offsets(
    kind: NodeKind,
    name: Seq<char>,
    body: ComponentBody,
    inst: &ComponentInst,
    chain: Seq<Map<Seq<char>, Literal>>,
    layout: Layout,
    path: Seq<Seq<char>>,
    count: u64,
)
    requires
        kind.spec_is_addressable(),
        inst.array_or_range matches Some(ArrayOrRange::Array(dims)) && dims.len() == 1
            && eval_spec(dims[0]) == Ok::<Literal, ErrorKindView>(Literal::Number(count)),
        inst.at is None,
        node_spec(kind, name, body, Some(inst), chain, layout, path) is Ok,
    ensures
        ({
            let nodes = node_spec(kind, name, body, Some(inst), chain, layout, path)->Ok_0.nodes;
            let size = nodes[0].placement->size;
            &&& nodes.len() == count
            &&& forall|i: int|
                #![trigger nodes[i]]
                0 <= i < count ==> {
                    &&& layout.next_offset + i * size <= u64::MAX
                    &&& nodes[i].placement == (Placement::Address {
                        offset: (layout.next_offset + i * size) as u64,
                        size,
                    })
                    &&& nodes[i] == (NodeView {
                        index: Some(i as u64),
                        ..nodes[0].at_offset((layout.next_offset + i * size) as u64)
                    })
                }
        }),
{
    let nodes = node_spec(kind, name, body, Some(inst), chain, layout, path)->Ok_0.nodes;
    let size = nodes[0].placement->size;
    assert forall|i: int| #![trigger nodes[i]] 0 <= i < count implies {
        &&& layout.next_offset + i * size <= u64::MAX
        &&& nodes[i].placement == (Placement::Address {
            offset: (layout.next_offset + i * size) as u64,
            size,
        })
        &&& nodes[i] == (NodeView {
            index: Some(i as u64),
            ..nodes[0].at_offset((layout.next_offset + i * size) as u64)
        })
    } by {
        assert(i * size <= count * size) by (nonlinear_arith)
            requires
                0 <= i < count,
                size >= 0,
        ;
    }
}

} // verus!
