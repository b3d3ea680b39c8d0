//! Effective property values: what a property resolves to at a node, given
//! the defaults that its ancestors declare.
//!
//! The ancestors are handed in as a chain of their default namespaces, the
//! outermost first and the parent last. The chain is read, never changed, so
//! no subtree can see what another one resolved.

use vstd::prelude::*;
use crate::ast::AccessType;
use crate::ast::Literal;
use crate::ast::PrimaryLiteral;
use crate::node::Node;
use crate::node::NodeKind;
use crate::property::PropertyMap;

verus! {

/// The value that a property has at a node of kind `kind` where nobody
/// declares one: access is read-write, a register is 32 bits wide, a memory
/// has one entry of 32 bits.
pub open spec fn builtin_default(kind: NodeKind, name: Seq<char>) -> Option<Literal> {
    if kind == NodeKind::Field && (name == "sw"@ || name == "hw"@) {
        Some(Literal::Access(AccessType::Rw))
    } else if kind == NodeKind::Register && name == "regwidth"@ {
        Some(Literal::Number(32))
    } else if kind == NodeKind::Mem && name == "sw"@ {
        Some(Literal::Access(AccessType::Rw))
    } else if kind == NodeKind::Mem && name == "memwidth"@ {
        Some(Literal::Number(32))
    } else if kind == NodeKind::Mem && name == "mementries"@ {
        Some(Literal::Number(1))
    } else {
        None
    }
}

/// The default for `name` that the nearest ancestor declares: the chain is
/// walked from its last namespace, the parent's, outward.
pub open spec fn nearest_default(chain: Seq<Map<Seq<char>, Literal>>, name: Seq<char>) -> Option<
    Literal,
>
    decreases chain.len(),
{
    if chain.len() == 0 {
        None
    } else if chain.last().contains_key(name) {
        Some(chain.last()[name])
    } else {
        nearest_default(chain.drop_last(), name)
    }
}

/// The value that is declared for `name` at a node: its own, or else the
/// nearest ancestor's default. The defaults that the node itself declares
/// are for its descendants and play no part.
pub open spec fn declared_value(
    local: Map<Seq<char>, Literal>,
    chain: Seq<Map<Seq<char>, Literal>>,
    name: Seq<char>,
) -> Option<Literal> {
    if local.contains_key(name) {
        Some(local[name])
    } else {
        nearest_default(chain, name)
    }
}

/// The effective value of `name` at a node of kind `kind`: the declared
/// value, or else the built-in default of the kind.
pub open spec fn effective_spec(
    kind: NodeKind,
    local: Map<Seq<char>, Literal>,
    chain: Seq<Map<Seq<char>, Literal>>,
    name: Seq<char>,
) -> Option<Literal> {
    match declared_value(local, chain, name) {
        Some(v) => Some(v),
        None => builtin_default(kind, name),
    }
}

/// The namespaces of a chain, each as a map.
pub open spec fn chain_view(chain: Seq<&PropertyMap>) -> Seq<Map<Seq<char>, Literal>> {
    Seq::new(chain.len(), |i: int| chain[i]@)
}

/// Whether `res` is the executable form of `expected`.
pub open spec fn is_value(res: Option<PrimaryLiteral>, expected: Option<Literal>) -> bool {
    match res {
        Some(v) => expected == Some(v@),
        None => expected is None,
    }
}

/// The built-in default of `name` at a node of kind `kind`.
pub fn builtin(kind: NodeKind, name: &String) -> (res: Option<PrimaryLiteral>)
    ensures
        is_value(res, builtin_default(kind, name@)),
{
    if kind == NodeKind::Field && (*name == "sw".to_string() || *name == "hw".to_string()) {
        Some(PrimaryLiteral::AccessTypeLiteral(AccessType::Rw))
    } else if kind == NodeKind::Register && *name == "regwidth".to_string() {
        Some(PrimaryLiteral::Number(32))
    } else if kind == NodeKind::Mem && *name == "sw".to_string() {
        Some(PrimaryLiteral::AccessTypeLiteral(AccessType::Rw))
    } else if kind == NodeKind::Mem && *name == "memwidth".to_string() {
        Some(PrimaryLiteral::Number(32))
    } else if kind == NodeKind::Mem && *name == "mementries".to_string() {
        Some(PrimaryLiteral::Number(1))
    } else {
        None
    }
}

/// The value declared for `name`: in `local`, or else by the nearest
/// namespace of the chain.
pub fn declared(local: &PropertyMap, chain: &Vec<&PropertyMap>, name: &String) -> (res: Option<
    PrimaryLiteral,
>)
    ensures
        is_value(res, declared_value(local@, chain_view(chain@), name@)),
{
    match local.get(name) {
        Some(v) => {
            return Some(v.clone());
        },
        None => {},
    }
    let ghost full = chain_view(chain@);
    let mut i: usize = chain.len();
    proof {
        assert(full.subrange(0, i as int) =~= full);
    }
    while i > 0
        invariant
            i <= chain.len(),
            full == chain_view(chain@),
            !local@.contains_key(name@),
            nearest_default(full, name@) == nearest_default(full.subrange(0, i as int), name@),
        decreases i,
    {
        let ghost prefix = full.subrange(0, i as int);
        i -= 1;
        proof {
            assert(prefix.drop_last() =~= full.subrange(0, i as int));
        }
        match chain[i].get(name) {
            Some(v) => {
                return Some(v.clone());
            },
            None => {},
        }
    }
    None
}

/// The effective value of the property `name` at `node`, whose ancestors
/// declare the defaults in `ancestors`, the outermost first: the node's own
/// value where it has one; else the default of the nearest ancestor that
/// declares one; else the built-in default of the node's kind; else nothing.
pub fn effective_value(node: &Node, name: &String, ancestors: &Vec<&PropertyMap>) -> (res: Option<
    PrimaryLiteral,
>)
    ensures
        is_value(
            res,
            effective_spec(node@.kind, node@.properties, chain_view(ancestors@), name@),
        ),
{
    match declared(node.properties(), ancestors, name) {
        Some(v) => Some(v),
        None => builtin(node.kind(), name),
    }
}

/// The chain `chain` with `last` behind it.
pub fn extend_chain<'a>(chain: &Vec<&'a PropertyMap>, last: &'a PropertyMap) -> (res: Vec<
    &'a PropertyMap,
>)
    ensures
        chain_view(res@) == chain_view(chain@).push(last@),
{
    let mut res: Vec<&'a PropertyMap> = Vec::new();
    let mut i: usize = 0;
    while i < chain.len()
        invariant
            i <= chain.len(),
            res.len() == i,
            forall|j: int| 0 <= j < i ==> res[j] == chain[j],
        decreases chain.len() - i,
    {
        res.push(chain[i]);
        i += 1;
    }
    res.push(last);
    res
}

/// A default that an ancestor declares reaches a descendant unless it is
/// overridden on the way: where the node itself does not bind `name`, and
/// the ancestor at position `k` of the chain declares a default for it, and
/// no ancestor nearer to the node does, the effective value at the node is
/// that ancestor's. Of two ancestors that declare one, the nearer wins.
pub proof fn lemma_default_is_inherited(
    kind: NodeKind,
    local: Map<Seq<char>, Literal>,
    chain: Seq<Map<Seq<char>, Literal>>,
    name: Seq<char>,
    k: int,
)
    requires
        0 <= k < chain.len(),
        chain[k].contains_key(name),
        !local.contains_key(name),
        forall|j: int| k < j < chain.len() ==> !chain[j].contains_key(name),
    ensures
        effective_spec(kind, local, chain, name) == Some(chain[k][name]),
    decreases chain.len(),
{
    if k < chain.len() - 1 {
        let front = chain.drop_last();
        lemma_default_is_inherited(kind, local, front, name, k);
    }
}

/// A value that a node binds itself wins over every default.
pub proof fn lemma_local_wins(
    kind: NodeKind,
    local: Map<Seq<char>, Literal>,
    chain: Seq<Map<Seq<char>, Literal>>,
    name: Seq<char>,
)
    requires
        local.contains_key(name),
    ensures
        effective_spec(kind, local, chain, name) == Some(local[name]),
{
}

/// The local properties of the ancestors are never handed down: the
/// effective value at a node depends on its own properties and on the
/// defaults of its ancestors alone, and where nothing is declared it is the
/// built-in default of the kind.
pub proof fn lemma_undeclared_is_builtin(
    kind: NodeKind,
    local: Map<Seq<char>, Literal>,
    chain: Seq<Map<Seq<char>, Literal>>,
    name: Seq<char>,
)
    requires
        !local.contains_key(name),
        forall|j: int| 0 <= j < chain.len() ==> !chain[j].contains_key(name),
    ensures
        effective_spec(kind, local, chain, name) == builtin_default(kind, name),
    decreases chain.len(),
{
    if chain.len() > 0 {
        let front = chain.drop_last();
        lemma_undeclared_is_builtin(kind, local, front, name);
    }
}

} // verus!
