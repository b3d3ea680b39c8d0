//! Property namespaces and the property resolver.
//!
//! A node has two namespaces: its local properties, which no other node
//! sees, and the defaults it declares for its descendants. In either, a name
//! is bound at most once.

use vstd::prelude::*;
use crate::ast::ExplicitOrDefaultPropAssignment;
use crate::ast::ExplicitPropertyAssignment;
use crate::ast::Literal;
use crate::ast::PostPropAssignment;
use crate::ast::PrimaryLiteral;
use crate::ast::PropAssignmentRhs;
use crate::ast::PropertyAssignment;
use crate::error::Construct;
use crate::error::ErrorKind;
use crate::error::ErrorKindView;
use crate::eval::eval_spec;
use crate::eval::evaluate_constants;

verus! {

/// One binding of a namespace.
#[derive(Debug)]
pub struct Property {
    pub name: String,
    pub value: PrimaryLiteral,
}

/// A property namespace: a map from names to literals that remembers the
/// order in which the names were bound.
#[derive(Debug)]
pub struct PropertyMap {
    entries: Vec<Property>,
}

/// The map that a sequence of bindings stands for; of two bindings of one
/// name the later one counts.
pub closed spec fn bindings_map(s: Seq<Property>) -> Map<Seq<char>, Literal>
    decreases s.len(),
{
    if s.len() == 0 {
        Map::empty()
    } else {
        bindings_map(s.drop_last()).insert(s.last().name@, s.last().value@)
    }
}

/// The names of a sequence of bindings, one by one.
pub closed spec fn binding_names(s: Seq<Property>) -> Seq<Seq<char>> {
    Seq::new(s.len(), |i: int| s[i].name@)
}

/// No name is bound twice.
pub closed spec fn distinct_names(s: Seq<Property>) -> bool {
    forall|i: int, j: int| 0 <= i < j < s.len() ==> s[i].name@ != s[j].name@
}

proof fn lemma_bindings_map_domain(s: Seq<Property>, name: Seq<char>)
    ensures
        bindings_map(s).contains_key(name) <==> exists|i: int|
            0 <= i < s.len() && #[trigger] s[i].name@ == name,
    decreases s.len(),
{
    if s.len() > 0 {
        let front = s.drop_last();
        lemma_bindings_map_domain(front, name);
        if bindings_map(s).contains_key(name) && s.last().name@ != name {
            let i = choose|i: int| 0 <= i < front.len() && #[trigger] front[i].name@ == name;
            assert(s[i].name@ == name);
        }
        if exists|i: int| 0 <= i < s.len() && #[trigger] s[i].name@ == name {
            let i = choose|i: int| 0 <= i < s.len() && #[trigger] s[i].name@ == name;
            if i < s.len() - 1 {
                assert(front[i].name@ == name);
            }
        }
    }
}

proof fn lemma_bindings_map_value(s: Seq<Property>, i: int)
    requires
        distinct_names(s),
        0 <= i < s.len(),
    ensures
        bindings_map(s).contains_key(s[i].name@),
        bindings_map(s)[s[i].name@] == s[i].value@,
    decreases s.len(),
{
    let front = s.drop_last();
    if i < s.len() - 1 {
        lemma_bindings_map_value(front, i);
    }
}

impl View for PropertyMap {
    type V = Map<Seq<char>, Literal>;

    closed spec fn view(&self) -> Map<Seq<char>, Literal> {
        bindings_map(self.entries@)
    }
}

impl PropertyMap {
    #[verifier::type_invariant]
    closed spec fn well_formed(self) -> bool {
        distinct_names(self.entries@)
    }

    /// The bound names in the order in which they were bound.
    pub closed spec fn order(&self) -> Seq<Seq<char>> {
        binding_names(self.entries@)
    }

    /// The namespace without any binding.
    pub fn new() -> (res: PropertyMap)
        ensures
            res@ == Map::<Seq<char>, Literal>::empty(),
            res.order() == Seq::<Seq<char>>::empty(),
    {
        let res = PropertyMap { entries: Vec::new() };
        res
    }

    /// The position of `name` among the bindings.
    fn position(&self, name: &String) -> (res: Option<usize>)
        ensures
            match res {
                Some(i) => i < self.entries.len() && self.entries[i as int].name@ == name@,
                None => forall|j: int| 0 <= j < self.entries.len() ==> self.entries[j].name@ != name@,
            },
    {
        let mut i: usize = 0;
        while i < self.entries.len()
            invariant
                i <= self.entries.len(),
                forall|j: int| 0 <= j < i ==> self.entries[j].name@ != name@,
            decreases self.entries.len() - i,
        {
            if self.entries[i].name == *name {
                return Some(i);
            }
            i += 1;
        }
        None
    }

    /// Whether `name` is bound.
    pub fn contains_key(&self, name: &String) -> (res: bool)
        ensures
            res == self@.contains_key(name@),
    {
        proof {
            lemma_bindings_map_domain(self.entries@, name@);
        }
        self.position(name).is_some()
    }

    /// What `name` is bound to.
    pub fn get(&self, name: &String) -> (res: Option<&PrimaryLiteral>)
        ensures
            match res {
                Some(value) => self@.contains_key(name@) && value@ == self@[name@],
                None => !self@.contains_key(name@),
            },
    {
        proof {
            use_type_invariant(self);
            lemma_bindings_map_domain(self.entries@, name@);
        }
        match self.position(name) {
            Some(i) => {
                proof {
                    lemma_bindings_map_value(self.entries@, i as int);
                }
                Some(&self.entries[i].value)
            },
            None => None,
        }
    }

    /// Binds `name` to `value`, unless `name` is bound already: a second
    /// binding of a name is an error and changes nothing.
    pub fn insert(&mut self, name: String, value: PrimaryLiteral) -> (res: Result<(), ErrorKind>)
        ensures
            match res {
                Ok(_) => !old(self)@.contains_key(name@) && final(self)@ == old(self)@.insert(
                    name@,
                    value@,
                ) && final(self).order() == old(self).order().push(name@),
                Err(k) => old(self)@.contains_key(name@) && k@ == ErrorKindView::DuplicateProperty(
                    name@,
                ) && final(self)@ == old(self)@ && final(self).order() == old(self).order(),
            },
    {
        proof {
            use_type_invariant(&*self);
            lemma_bindings_map_domain(self.entries@, name@);
        }
        if self.position(&name).is_some() {
            return Err(ErrorKind::DuplicateProperty(name));
        }
        let ghost before = self.entries@;
        let mut entries: Vec<Property> = Vec::new();
        std::mem::swap(&mut self.entries, &mut entries);
        entries.push(Property { name, value });
        proof {
            assert(entries@.drop_last() =~= before);
        }
        self.entries = entries;
        Ok(())
    }

    /// How many names are bound. Each bound name stands once in the order.
    pub fn len(&self) -> (res: usize)
        ensures
            res == self.order().len(),
            self@.dom().finite(),
            self@.len() == res,
            self.order().no_duplicates(),
            forall|name: Seq<char>| self@.contains_key(name) <==> self.order().contains(name),
    {
        proof {
            use_type_invariant(self);
            lemma_bindings_map_len(self.entries@);
            assert forall|name: Seq<char>| self@.contains_key(name) <==> self.order().contains(
                name,
            ) by {
                lemma_bindings_map_domain(self.entries@, name);
                if self.order().contains(name) {
                    let i = choose|i: int|
                        0 <= i < self.order().len() && self.order()[i] == name;
                    assert(self.entries@[i].name@ == name);
                }
                if self@.contains_key(name) {
                    let i = choose|i: int|
                        0 <= i < self.entries@.len() && #[trigger] self.entries@[i].name@ == name;
                    assert(self.order()[i] == name);
                }
            }
        }
        self.entries.len()
    }

    /// The `i`-th binding in the order in which the names were bound.
    pub fn entry(&self, i: usize) -> (res: &Property)
        requires
            i < self.order().len(),
        ensures
            res.name@ == self.order()[i as int],
            self@.contains_key(res.name@),
            self@[res.name@] == res.value@,
    {
        proof {
            use_type_invariant(self);
            lemma_bindings_map_value(self.entries@, i as int);
        }
        &self.entries[i]
    }
}

proof fn lemma_bindings_map_len(s: Seq<Property>)
    requires
        distinct_names(s),
    ensures
        bindings_map(s).dom().finite(),
        bindings_map(s).len() == s.len(),
    decreases s.len(),
{
    if s.len() > 0 {
        let front = s.drop_last();
        lemma_bindings_map_len(front);
        lemma_bindings_map_domain(front, s.last().name@);
    }
}

impl Clone for PropertyMap {
    fn clone(&self) -> (res: Self)
        ensures
            res@ == self@,
            res.order() == self.order(),
    {
        proof {
            use_type_invariant(self);
        }
        let mut entries: Vec<Property> = Vec::new();
        let mut i: usize = 0;
        while i < self.entries.len()
            invariant
                i <= self.entries.len(),
                entries.len() == i,
                forall|j: int|
                    0 <= j < i ==> entries[j].name@ == self.entries[j].name@ && entries[j].value@
                        == self.entries[j].value@,
            decreases self.entries.len() - i,
        {
            let p = &self.entries[i];
            entries.push(Property { name: p.name.clone(), value: p.value.clone() });
            i += 1;
        }
        proof {
            lemma_bindings_map_congruent(entries@, self.entries@);
        }
        PropertyMap { entries }
    }
}

proof fn lemma_bindings_map_congruent(a: Seq<Property>, b: Seq<Property>)
    requires
        a.len() == b.len(),
        forall|j: int| 0 <= j < a.len() ==> a[j].name@ == b[j].name@ && a[j].value@ == b[j].value@,
    ensures
        bindings_map(a) == bindings_map(b),
    decreases a.len(),
{
    if a.len() > 0 {
        lemma_bindings_map_congruent(a.drop_last(), b.drop_last());
    }
}

/// The namespace that an assignment binds in.
#[derive(Clone, Copy, Debug, PartialEq, Eq, Structural)]
pub enum Namespace {
    /// The node's own properties.
    Local,
    /// The defaults that the node declares for its descendants.
    Default,
}

/// What an assignment binds: the namespace, the name and the value.
pub struct Binding {
    pub namespace: Namespace,
    pub name: Seq<char>,
    pub value: Literal,
}

/// What an assignment binds, or why it is rejected. An assignment with
/// `default` in front binds in the defaults, any other in the local
/// properties. Only the form `name = value` is handled.
pub open spec fn binding_spec(a: PropertyAssignment) -> Result<Binding, ErrorKindView> {
    match a {
        PropertyAssignment::ExplicitOrDefaultPropAssignment(e) => match e {
            ExplicitOrDefaultPropAssignment::ExplicitPropModifier(_, _) => Err(
                ErrorKindView::UnsupportedConstruct(Construct::PropertyModifier),
            ),
            ExplicitOrDefaultPropAssignment::ExplicitPropAssignment(default_keyword, assignment) => {
                let namespace = if default_keyword is Some {
                    Namespace::Default
                } else {
                    Namespace::Local
                };
                match assignment {
                    ExplicitPropertyAssignment::Assignment(target, rhs) => match rhs {
                        Some(PropAssignmentRhs::ConstantExpr(expr)) => match eval_spec(expr) {
                            Err(k) => Err(k),
                            Ok(value) => Ok(Binding { namespace, name: target.spec_name(), value }),
                        },
                        Some(PropAssignmentRhs::PrecedenceType(p)) => Ok(
                            Binding {
                                namespace,
                                name: target.spec_name(),
                                value: Literal::Precedence(p),
                            },
                        ),
                        None => Err(ErrorKindView::UnsupportedConstruct(Construct::FlagAssignment)),
                    },
                    ExplicitPropertyAssignment::EncodeAssignment(_) => Err(
                        ErrorKindView::UnsupportedConstruct(Construct::EncodeAssignment),
                    ),
                }
            },
        },
        PropertyAssignment::PostPropAssignment(p) => match p {
            PostPropAssignment::PropRef(_, _) => Err(
                ErrorKindView::UnsupportedConstruct(Construct::PostPropAssignment),
            ),
            PostPropAssignment::PostEncodeAssignment(_) => Err(
                ErrorKindView::UnsupportedConstruct(Construct::PostEncodeAssignment),
            ),
        },
    }
}

/// The two namespaces of a node.
pub struct Namespaces {
    pub local: Map<Seq<char>, Literal>,
    pub defaults: Map<Seq<char>, Literal>,
}

/// The namespaces after `binding` was added, or `DuplicateProperty` where
/// its name is bound already in the namespace it goes to.
pub open spec fn bind_spec(binding: Binding, scope: Namespaces) -> Result<Namespaces, ErrorKindView> {
    match binding.namespace {
        Namespace::Local => if scope.local.contains_key(binding.name) {
            Err(ErrorKindView::DuplicateProperty(binding.name))
        } else {
            Ok(
                Namespaces {
                    local: scope.local.insert(binding.name, binding.value),
                    defaults: scope.defaults,
                },
            )
        },
        Namespace::Default => if scope.defaults.contains_key(binding.name) {
            Err(ErrorKindView::DuplicateProperty(binding.name))
        } else {
            Ok(
                Namespaces {
                    local: scope.local,
                    defaults: scope.defaults.insert(binding.name, binding.value),
                },
            )
        },
    }
}

/// The namespaces of a node after one more assignment: the right-hand side
/// is evaluated first, then the name is looked up.
pub open spec fn resolve_spec(a: PropertyAssignment, scope: Namespaces) -> Result<
    Namespaces,
    ErrorKindView,
> {
    match binding_spec(a) {
        Err(k) => Err(k),
        Ok(binding) => bind_spec(binding, scope),
    }
}

/// Resolves one assignment into the namespaces of the node it stands in.
/// Where it fails, both namespaces are as they were.
pub fn resolve_assignment(
    assignment: &PropertyAssignment,
    local: &mut PropertyMap,
    defaults: &mut PropertyMap,
) -> (res: Result<(), ErrorKind>)
    ensures
        match resolve_spec(
            *assignment,
            Namespaces { local: old(local)@, defaults: old(defaults)@ },
        ) {
            Ok(scope) => res is Ok && final(local)@ == scope.local && final(defaults)@
                == scope.defaults,
            Err(k) => (res matches Err(e) && e@ == k) && final(local)@ == old(local)@
                && final(defaults)@ == old(defaults)@,
        },
{
    match assignment {
        PropertyAssignment::ExplicitOrDefaultPropAssignment(e) => match e {
            ExplicitOrDefaultPropAssignment::ExplicitPropModifier(_, _) => Err(
                ErrorKind::UnsupportedConstruct(Construct::PropertyModifier),
            ),
            ExplicitOrDefaultPropAssignment::ExplicitPropAssignment(default_keyword, explicit) => {
                match explicit {
                    ExplicitPropertyAssignment::Assignment(target, rhs) => {
                        let value = match rhs {
                            Some(PropAssignmentRhs::ConstantExpr(expr)) => evaluate_constants(
                                expr,
                            )?,
                            Some(PropAssignmentRhs::PrecedenceType(p)) => {
                                PrimaryLiteral::PrecedenceTypeLiteral(*p)
                            },
                            None => {
                                return Err(
                                    ErrorKind::UnsupportedConstruct(Construct::FlagAssignment),
                                );
                            },
                        };
                        let name = target.name();
                        if default_keyword.is_some() {
                            defaults.insert(name, value)
                        } else {
                            local.insert(name, value)
                        }
                    },
                    ExplicitPropertyAssignment::EncodeAssignment(_) => Err(
                        ErrorKind::UnsupportedConstruct(Construct::EncodeAssignment),
                    ),
                }
            },
        },
        PropertyAssignment::PostPropAssignment(p) => match p {
            PostPropAssignment::PropRef(_, _) => Err(
                ErrorKind::UnsupportedConstruct(Construct::PostPropAssignment),
            ),
            PostPropAssignment::PostEncodeAssignment(_) => Err(
                ErrorKind::UnsupportedConstruct(Construct::PostEncodeAssignment),
            ),
        },
    }
}

} // verus!
