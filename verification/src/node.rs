//! The elaborated node tree.
//!
//! A node is built once, bottom-up, and never changed afterwards: its fields
//! are private and every accessor borrows. What a node holds is stated over
//! its view, a `NodeView`.

use vstd::prelude::*;
use crate::ast::Literal;
use crate::property::PropertyMap;

verus! {

/// The kinds of node that elaboration produces.
#[derive(Clone, Copy, Debug, PartialEq, Eq, Structural)]
pub enum NodeKind {
    AddrMap,
    RegFile,
    Register,
    Field,
    Mem,
    Signal,
}

impl NodeKind {
    /// Whether nodes of this kind have an address.
    pub open spec fn spec_is_addressable(self) -> bool {
        self == NodeKind::AddrMap || self == NodeKind::RegFile || self == NodeKind::Register
            || self == NodeKind::Mem
    }

    /// Whether nodes of this kind have an address.
    #[verifier::when_used_as_spec(spec_is_addressable)]
    pub fn is_addressable(self) -> (res: bool)
        ensures
            res == self.spec_is_addressable(),
    {
        match self {
            NodeKind::AddrMap | NodeKind::RegFile | NodeKind::Register | NodeKind::Mem => true,
            NodeKind::Field | NodeKind::Signal => false,
        }
    }
}

/// Where a node lies within its parent.
#[derive(Clone, Copy, Debug, PartialEq, Eq, Structural)]
pub enum Placement {
    /// A byte offset from the base of the parent, and a size in bytes.
    Address { offset: u64, size: u64 },
    /// The bits `msb` down to `lsb` of the enclosing register.
    Bits { msb: u64, lsb: u64 },
    /// Neither: a signal.
    Unplaced,
}

impl Placement {
    /// Whether a node of kind `kind` can lie here: an addressable node at an
    /// address, a field at a bit range that is not empty and whose width
    /// fits in 64 bits, a signal nowhere.
    pub open spec fn fits(self, kind: NodeKind) -> bool {
        match self {
            Placement::Address { .. } => kind.spec_is_addressable(),
            Placement::Bits { msb, lsb } => kind == NodeKind::Field && lsb <= msb < u64::MAX,
            Placement::Unplaced => kind == NodeKind::Signal,
        }
    }
}

/// The mathematical value of a node.
pub struct NodeView {
    pub kind: NodeKind,
    /// The instance identifier.
    pub name: Seq<char>,
    /// The properties of this node alone.
    pub properties: Map<Seq<char>, Literal>,
    /// The defaults that this node declares for its descendants.
    pub default_properties: Map<Seq<char>, Literal>,
    pub placement: Placement,
    /// The position among the instances of its array, if the node is one of
    /// an array.
    pub index: Option<u64>,
    /// The children in the order of their declaration.
    pub children: Seq<NodeView>,
}

impl NodeView {
    /// The same node at another offset; a node without an address is left
    /// as it is.
    pub open spec fn at_offset(self, offset: u64) -> NodeView {
        match self.placement {
            Placement::Address { offset: _, size } => NodeView {
                placement: Placement::Address { offset, size },
                ..self
            },
            _ => self,
        }
    }

    /// The width of a field in bits.
    pub open spec fn width(self) -> int
        recommends
            self.placement is Bits,
    {
        self.placement->msb - self.placement->lsb + 1
    }
}

/// An address map: the container that groups registers, register files and
/// memories under one base address.
#[derive(Debug)]
pub struct AddrMap {
    name: String,
    /// local properties, never handed down
    properties: PropertyMap,
    /// properties set at this level as default, handed down
    default_properties: PropertyMap,
    offset: u64,
    size: u64,
}

/// A register file: a group of registers and register files.
#[derive(Debug)]
pub struct RegFile {
    name: String,
    properties: PropertyMap,
    default_properties: PropertyMap,
    offset: u64,
    size: u64,
}

/// A register: an addressable group of fields.
#[derive(Debug)]
pub struct Register {
    name: String,
    properties: PropertyMap,
    default_properties: PropertyMap,
    offset: u64,
    size: u64,
}

/// A field: a bit range within a register.
#[derive(Debug)]
pub struct Field {
    name: String,
    properties: PropertyMap,
    default_properties: PropertyMap,
    msb: u64,
    lsb: u64,
}

/// A memory.
#[derive(Debug)]
pub struct Mem {
    name: String,
    properties: PropertyMap,
    default_properties: PropertyMap,
    offset: u64,
    size: u64,
}

/// A signal.
#[derive(Debug)]
pub struct Signal {
    name: String,
    properties: PropertyMap,
    default_properties: PropertyMap,
}

impl Field {
    #[verifier::type_invariant]
    closed spec fn well_formed(self) -> bool {
        self.lsb <= self.msb < u64::MAX
    }
}

/// What a node holds besides its children.
#[derive(Debug)]
pub enum NodeContent {
    Addrmap(AddrMap),
    RegFile(RegFile),
    Register(Register),
    Field(Field),
    Mem(Mem),
    Signal(Signal),
}

/// A node of the elaborated tree.
#[derive(Debug)]
pub struct Node {
    content: NodeContent,
    children: Vec<Node>,
    index: Option<u64>,
}

impl NodeContent {
    /// The kind of the node.
    pub closed spec fn spec_kind(self) -> NodeKind {
        match self {
            NodeContent::Addrmap(_) => NodeKind::AddrMap,
            NodeContent::RegFile(_) => NodeKind::RegFile,
            NodeContent::Register(_) => NodeKind::Register,
            NodeContent::Field(_) => NodeKind::Field,
            NodeContent::Mem(_) => NodeKind::Mem,
            NodeContent::Signal(_) => NodeKind::Signal,
        }
    }

    /// The instance identifier.
    pub closed spec fn spec_name(self) -> Seq<char> {
        match self {
            NodeContent::Addrmap(c) => c.name@,
            NodeContent::RegFile(c) => c.name@,
            NodeContent::Register(c) => c.name@,
            NodeContent::Field(c) => c.name@,
            NodeContent::Mem(c) => c.name@,
            NodeContent::Signal(c) => c.name@,
        }
    }

    /// The properties of the node alone.
    pub closed spec fn spec_properties(self) -> Map<Seq<char>, Literal> {
        match self {
            NodeContent::Addrmap(c) => c.properties@,
            NodeContent::RegFile(c) => c.properties@,
            NodeContent::Register(c) => c.properties@,
            NodeContent::Field(c) => c.properties@,
            NodeContent::Mem(c) => c.properties@,
            NodeContent::Signal(c) => c.properties@,
        }
    }

    /// The defaults that the node declares for its descendants.
    pub closed spec fn spec_default_properties(self) -> Map<Seq<char>, Literal> {
        match self {
            NodeContent::Addrmap(c) => c.default_properties@,
            NodeContent::RegFile(c) => c.default_properties@,
            NodeContent::Register(c) => c.default_properties@,
            NodeContent::Field(c) => c.default_properties@,
            NodeContent::Mem(c) => c.default_properties@,
            NodeContent::Signal(c) => c.default_properties@,
        }
    }

    /// Where the node lies within its parent.
    pub closed spec fn spec_placement(self) -> Placement {
        match self {
            NodeContent::Addrmap(c) => Placement::Address { offset: c.offset, size: c.size },
            NodeContent::RegFile(c) => Placement::Address { offset: c.offset, size: c.size },
            NodeContent::Register(c) => Placement::Address { offset: c.offset, size: c.size },
            NodeContent::Field(c) => Placement::Bits { msb: c.msb, lsb: c.lsb },
            NodeContent::Mem(c) => Placement::Address { offset: c.offset, size: c.size },
            NodeContent::Signal(_) => Placement::Unplaced,
        }
    }

    /// The content of a node of kind `kind`.
    pub fn new(
        kind: NodeKind,
        name: String,
        properties: PropertyMap,
        default_properties: PropertyMap,
        placement: Placement,
    ) -> (res: NodeContent)
        requires
            placement.fits(kind),
        ensures
            res.spec_kind() == kind,
            res.spec_name() == name@,
            res.spec_properties() == properties@,
            res.spec_default_properties() == default_properties@,
            res.spec_placement() == placement,
    {
        match placement {
            Placement::Address { offset, size } => match kind {
                NodeKind::AddrMap => NodeContent::Addrmap(
                    AddrMap { name, properties, default_properties, offset, size },
                ),
                NodeKind::RegFile => NodeContent::RegFile(
                    RegFile { name, properties, default_properties, offset, size },
                ),
                NodeKind::Register => NodeContent::Register(
                    Register { name, properties, default_properties, offset, size },
                ),
                _ => NodeContent::Mem(Mem { name, properties, default_properties, offset, size }),
            },
            Placement::Bits { msb, lsb } => NodeContent::Field(
                Field { name, properties, default_properties, msb, lsb },
            ),
            Placement::Unplaced => NodeContent::Signal(
                Signal { name, properties, default_properties },
            ),
        }
    }

    /// The kind of the node.
    pub fn kind(&self) -> (res: NodeKind)
        ensures
            res == self.spec_kind(),
    {
        match self {
            NodeContent::Addrmap(_) => NodeKind::AddrMap,
            NodeContent::RegFile(_) => NodeKind::RegFile,
            NodeContent::Register(_) => NodeKind::Register,
            NodeContent::Field(_) => NodeKind::Field,
            NodeContent::Mem(_) => NodeKind::Mem,
            NodeContent::Signal(_) => NodeKind::Signal,
        }
    }

    /// The instance identifier.
    pub fn name(&self) -> (res: &String)
        ensures
            res@ == self.spec_name(),
    {
        match self {
            NodeContent::Addrmap(c) => &c.name,
            NodeContent::RegFile(c) => &c.name,
            NodeContent::Register(c) => &c.name,
            NodeContent::Field(c) => &c.name,
            NodeContent::Mem(c) => &c.name,
            NodeContent::Signal(c) => &c.name,
        }
    }

    /// The properties of this node alone.
    pub fn properties(&self) -> (res: &PropertyMap)
        ensures
            res@ == self.spec_properties(),
    {
        match self {
            NodeContent::Addrmap(c) => &c.properties,
            NodeContent::RegFile(c) => &c.properties,
            NodeContent::Register(c) => &c.properties,
            NodeContent::Field(c) => &c.properties,
            NodeContent::Mem(c) => &c.properties,
            NodeContent::Signal(c) => &c.properties,
        }
    }

    /// The defaults that this node declares for its descendants.
    pub fn default_properties(&self) -> (res: &PropertyMap)
        ensures
            res@ == self.spec_default_properties(),
    {
        match self {
            NodeContent::Addrmap(c) => &c.default_properties,
            NodeContent::RegFile(c) => &c.default_properties,
            NodeContent::Register(c) => &c.default_properties,
            NodeContent::Field(c) => &c.default_properties,
            NodeContent::Mem(c) => &c.default_properties,
            NodeContent::Signal(c) => &c.default_properties,
        }
    }

    /// Where the node lies within its parent.
    pub fn placement(&self) -> (res: Placement)
        ensures
            res == self.spec_placement(),
            res.fits(self.spec_kind()),
    {
        match self {
            NodeContent::Addrmap(c) => Placement::Address { offset: c.offset, size: c.size },
            NodeContent::RegFile(c) => Placement::Address { offset: c.offset, size: c.size },
            NodeContent::Register(c) => Placement::Address { offset: c.offset, size: c.size },
            NodeContent::Field(c) => {
                proof {
                    use_type_invariant(c);
                }
                Placement::Bits { msb: c.msb, lsb: c.lsb }
            },
            NodeContent::Mem(c) => Placement::Address { offset: c.offset, size: c.size },
            NodeContent::Signal(_) => Placement::Unplaced,
        }
    }
}

/// The views of a sequence of nodes, one by one.
pub open spec fn views(s: Seq<Node>) -> Seq<NodeView>
    decreases s,
{
    Seq::new(
        s.len(),
        |i: int|
            if 0 <= i < s.len() {
                s[i].view()
            } else {
                arbitrary()
            },
    )
}

impl View for Node {
    type V = NodeView;

    closed spec fn view(&self) -> NodeView
        decreases self,
    {
        NodeView {
            kind: self.content.spec_kind(),
            name: self.content.spec_name(),
            properties: self.content.spec_properties(),
            default_properties: self.content.spec_default_properties(),
            placement: self.content.spec_placement(),
            index: self.index,
            children: views(self.children@),
        }
    }
}

/// `views` of two sequences, one behind the other.
pub proof fn lemma_views_add(a: Seq<Node>, b: Seq<Node>)
    ensures
        views(a + b) == views(a) + views(b),
{
}

impl Node {
    /// The node with the given content and children, at position `index`
    /// of its array if it is an instance of one.
    pub fn new(content: NodeContent, children: Vec<Node>, index: Option<u64>) -> (res: Node)
        ensures
            res@ == (NodeView {
                kind: content.spec_kind(),
                name: content.spec_name(),
                properties: content.spec_properties(),
                default_properties: content.spec_default_properties(),
                placement: content.spec_placement(),
                index,
                children: views(children@),
            }),
    {
        Node { content, children, index }
    }

    /// The position among the instances of its array, if the node is one of
    /// an array.
    pub fn index(&self) -> (res: Option<u64>)
        ensures
            res == self@.index,
    {
        self.index
    }

    /// What the node holds besides its children.
    pub fn content(&self) -> (res: &NodeContent)
        ensures
            res.spec_kind() == self@.kind,
            res.spec_name() == self@.name,
            res.spec_properties() == self@.properties,
            res.spec_default_properties() == self@.default_properties,
            res.spec_placement() == self@.placement,
    {
        &self.content
    }

    /// The kind of the node.
    pub fn kind(&self) -> (res: NodeKind)
        ensures
            res == self@.kind,
    {
        self.content.kind()
    }

    /// The instance identifier.
    pub fn name(&self) -> (res: &String)
        ensures
            res@ == self@.name,
    {
        self.content.name()
    }

    /// The properties of this node alone.
    pub fn properties(&self) -> (res: &PropertyMap)
        ensures
            res@ == self@.properties,
    {
        self.content.properties()
    }

    /// The defaults that this node declares for its descendants.
    pub fn default_properties(&self) -> (res: &PropertyMap)
        ensures
            res@ == self@.default_properties,
    {
        self.content.default_properties()
    }

    /// Where the node lies within its parent.
    pub fn placement(&self) -> (res: Placement)
        ensures
            res == self@.placement,
            res.fits(self@.kind),
    {
        self.content.placement()
    }

    /// The children in the order of their declaration.
    pub fn children(&self) -> (res: &Vec<Node>)
        ensures
            views(res@) == self@.children,
    {
        &self.children
    }

    /// The byte offset from the base of the parent, if the node has an
    /// address.
    pub fn offset(&self) -> (res: Option<u64>)
        ensures
            res == match self@.placement {
                Placement::Address { offset, size } => Some(offset),
                _ => None,
            },
    {
        match self.content.placement() {
            Placement::Address { offset, size } => Some(offset),
            _ => None,
        }
    }

    /// The size in bytes, if the node has an address.
    pub fn size(&self) -> (res: Option<u64>)
        ensures
            res == match self@.placement {
                Placement::Address { offset, size } => Some(size),
                _ => None,
            },
    {
        match self.content.placement() {
            Placement::Address { offset, size } => Some(size),
            _ => None,
        }
    }

    /// The most and the least significant bit, if the node is a field.
    pub fn bit_range(&self) -> (res: Option<(u64, u64)>)
        ensures
            res == match self@.placement {
                Placement::Bits { msb, lsb } => Some((msb, lsb)),
                _ => None,
            },
            res matches Some(r) ==> r.0 >= r.1,
    {
        match self.content.placement() {
            Placement::Bits { msb, lsb } => Some((msb, lsb)),
            _ => None,
        }
    }

    /// The width in bits, if the node is a field: `msb - lsb + 1`.
    pub fn width(&self) -> (res: Option<u64>)
        ensures
            res == match self@.placement {
                Placement::Bits { msb, lsb } => Some((msb - lsb + 1) as u64),
                _ => None,
            },
            res matches Some(w) ==> w == self@.width() && w >= 1,
    {
        match self.content.placement() {
            Placement::Bits { msb, lsb } => Some(msb - lsb + 1),
            _ => None,
        }
    }
}

impl Clone for NodeContent {
    fn clone(&self) -> (res: Self)
        ensures
            res.spec_kind() == self.spec_kind(),
            res.spec_name() == self.spec_name(),
            res.spec_properties() == self.spec_properties(),
            res.spec_default_properties() == self.spec_default_properties(),
            res.spec_placement() == self.spec_placement(),
    {
        NodeContent::new(
            self.kind(),
            self.name().clone(),
            self.properties().clone(),
            self.default_properties().clone(),
            self.placement(),
        )
    }
}

impl Clone for Node {
    /// A copy of the node and of all below it.
    fn clone(&self) -> (res: Self)
        ensures
            res@ == self@,
        decreases self,
    {
        let mut children: Vec<Node> = Vec::new();
        let mut i: usize = 0;
        while i < self.children.len()
            invariant
                i <= self.children.len(),
                children.len() == i,
                forall|j: int| 0 <= j < i ==> children[j]@ == self.children[j]@,
            decreases self.children.len() - i,
        {
            let copy = self.children[i].clone();
            children.push(copy);
            i += 1;
        }
        assert(views(children@) =~= views(self.children@));
        Node { content: self.content.clone(), children, index: self.index }
    }
}

/// Copies of the nodes of `nodes`, in the same order.
pub fn clone_nodes(nodes: &Vec<Node>) -> (res: Vec<Node>)
    ensures
        views(res@) == views(nodes@),
{
    let mut res: Vec<Node> = Vec::new();
    let mut i: usize = 0;
    while i < nodes.len()
        invariant
            i <= nodes.len(),
            res.len() == i,
            forall|j: int| 0 <= j < i ==> res[j]@ == nodes[j]@,
        decreases nodes.len() - i,
    {
        res.push(nodes[i].clone());
        i += 1;
    }
    res
}

} // verus!
