//! Why an elaboration failed.
//!
//! Elaboration is fail-fast: the first failure ends the call. A failure is a
//! kind and the path of node names, from the top level down, that leads to
//! the node that was being built when it happened.

use vstd::prelude::*;
use crate::ast::BinaryOp;
use crate::ast::ComponentType;
use crate::ast::LiteralKind;
use crate::ast::UnaryOp;

verus! {

/// A form that the grammar knows and elaboration does not handle.
#[derive(Clone, Copy, Debug, PartialEq, Eq, Structural)]
pub enum Construct {
    /// `{a, b}`
    Concatenation,
    /// `{n{a, b}}`
    MultipleConcatenation,
    /// `name'{field: value}`
    StructLiteral,
    /// `'{a, b}`
    ArrayLiteral,
    /// `bit'(e)`, `longint'(e)`
    SimpleTypeCast,
    /// `boolean'(e)`
    BooleanCast,
    /// `width'(e)`
    WidthCast,
    /// A reference to an instance or to a property of one.
    InstanceOrPropRef,
    /// A prefix operator.
    UnaryOperator(UnaryOp),
    /// A binary operator without an evaluation rule.
    BinaryOperator(BinaryOp),
    /// `c ? a : b`
    TernaryOperator,
    /// `posedge intr;` and the like.
    PropertyModifier,
    /// An assignment without a right-hand side, a boolean flag.
    FlagAssignment,
    /// `encode = id;`
    EncodeAssignment,
    /// `inst->prop = value;`
    PostPropAssignment,
    /// `inst->encode = id;`
    PostEncodeAssignment,
    /// An enum definition inside a component body.
    EnumDefinition,
    /// A struct definition inside a component body.
    StructDefinition,
    /// A constraint definition inside a component body.
    ConstraintDefinition,
    /// An instance of a definition named earlier, or an alias of one.
    InstanceReference,
    /// `external` or `internal` in front of an instantiation.
    InstanceType,
    /// A parameter list on a definition.
    ParameterDefinition,
    /// Parameter bindings on an instantiation.
    ParameterizedInstantiation,
    /// An anonymous definition that is not instantiated.
    AnonymousDefinition,
    /// A nested component that is an enum, an enum variant or a constraint.
    ComponentKind(ComponentType),
    /// `= e` on an instance.
    ResetAssignment,
    /// `+= e` on an instance.
    AddressStride,
    /// `%= e` on an instance.
    AddressAlignment,
    /// More or fewer than one array dimension on an instance.
    ArrayDimensions,
    /// `[msb:lsb]` on an instance that is not a field.
    BitRange,
    /// `@ e` on an instance that has no address.
    Address,
}

/// A description that cannot stand at top level.
#[derive(Clone, Copy, Debug, PartialEq, Eq, Structural)]
pub enum TopLevelKind {
    Enum,
    EnumVariant,
    Constraint,
    Struct,
    PropertyDefinition,
    PropertyAssignment,
    ComponentInstance,
}

impl Construct {
    /// The name of the form in words.
    pub open spec fn spec_name(self) -> Seq<char> {
        match self {
            Construct::Concatenation => "concatenation"@,
            Construct::MultipleConcatenation => "multiple concatenation"@,
            Construct::StructLiteral => "struct literal"@,
            Construct::ArrayLiteral => "array literal"@,
            Construct::SimpleTypeCast => "simple type cast"@,
            Construct::BooleanCast => "boolean cast"@,
            Construct::WidthCast => "width cast"@,
            Construct::InstanceOrPropRef => "instance or property reference"@,
            Construct::UnaryOperator(_) => "unary operator"@,
            Construct::BinaryOperator(_) => "binary operator"@,
            Construct::TernaryOperator => "ternary operator"@,
            Construct::PropertyModifier => "property modifier"@,
            Construct::FlagAssignment => "property assignment without a value"@,
            Construct::EncodeAssignment => "encode assignment"@,
            Construct::PostPropAssignment => "property assignment through an instance reference"@,
            Construct::PostEncodeAssignment => "encode assignment through an instance reference"@,
            Construct::EnumDefinition => "enum definition"@,
            Construct::StructDefinition => "struct definition"@,
            Construct::ConstraintDefinition => "constraint definition"@,
            Construct::InstanceReference => "instance of a named definition"@,
            Construct::InstanceType => "instance type"@,
            Construct::ParameterDefinition => "parameter definition"@,
            Construct::ParameterizedInstantiation => "parameterized instantiation"@,
            Construct::AnonymousDefinition => "anonymous definition without an instance"@,
            Construct::ComponentKind(_) => "nested enum or constraint component"@,
            Construct::ResetAssignment => "reset value on an instance"@,
            Construct::AddressStride => "address stride"@,
            Construct::AddressAlignment => "address alignment"@,
            Construct::ArrayDimensions => "array with other than one dimension"@,
            Construct::BitRange => "bit range on an instance that is not a field"@,
            Construct::Address => "address on an instance that has none"@,
        }
    }

    /// The name of the form in words.
    pub fn name(&self) -> (s: String)
        ensures
            s@ == self.spec_name(),
    {
        match self {
            Construct::Concatenation => "concatenation".to_string(),
            Construct::MultipleConcatenation => "multiple concatenation".to_string(),
            Construct::StructLiteral => "struct literal".to_string(),
            Construct::ArrayLiteral => "array literal".to_string(),
            Construct::SimpleTypeCast => "simple type cast".to_string(),
            Construct::BooleanCast => "boolean cast".to_string(),
            Construct::WidthCast => "width cast".to_string(),
            Construct::InstanceOrPropRef => "instance or property reference".to_string(),
            Construct::UnaryOperator(_) => "unary operator".to_string(),
            Construct::BinaryOperator(_) => "binary operator".to_string(),
            Construct::TernaryOperator => "ternary operator".to_string(),
            Construct::PropertyModifier => "property modifier".to_string(),
            Construct::FlagAssignment => "property assignment without a value".to_string(),
            Construct::EncodeAssignment => "encode assignment".to_string(),
            Construct::PostPropAssignment => "property assignment through an instance reference".to_string(),
            Construct::PostEncodeAssignment => "encode assignment through an instance reference".to_string(),
            Construct::EnumDefinition => "enum definition".to_string(),
            Construct::StructDefinition => "struct definition".to_string(),
            Construct::ConstraintDefinition => "constraint definition".to_string(),
            Construct::InstanceReference => "instance of a named definition".to_string(),
            Construct::InstanceType => "instance type".to_string(),
            Construct::ParameterDefinition => "parameter definition".to_string(),
            Construct::ParameterizedInstantiation => "parameterized instantiation".to_string(),
            Construct::AnonymousDefinition => "anonymous definition without an instance".to_string(),
            Construct::ComponentKind(_) => "nested enum or constraint component".to_string(),
            Construct::ResetAssignment => "reset value on an instance".to_string(),
            Construct::AddressStride => "address stride".to_string(),
            Construct::AddressAlignment => "address alignment".to_string(),
            Construct::ArrayDimensions => "array with other than one dimension".to_string(),
            Construct::BitRange => "bit range on an instance that is not a field".to_string(),
            Construct::Address => "address on an instance that has none".to_string(),
        }
    }
}

impl TopLevelKind {
    /// The name of the kind in words.
    pub open spec fn spec_name(self) -> Seq<char> {
        match self {
            TopLevelKind::Enum => "enum"@,
            TopLevelKind::EnumVariant => "enum variant"@,
            TopLevelKind::Constraint => "constraint"@,
            TopLevelKind::Struct => "struct"@,
            TopLevelKind::PropertyDefinition => "property definition"@,
            TopLevelKind::PropertyAssignment => "property assignment"@,
            TopLevelKind::ComponentInstance => "component instance"@,
        }
    }

    /// The name of the kind in words.
    pub fn name(&self) -> (s: String)
        ensures
            s@ == self.spec_name(),
    {
        match self {
            TopLevelKind::Enum => "enum".to_string(),
            TopLevelKind::EnumVariant => "enum variant".to_string(),
            TopLevelKind::Constraint => "constraint".to_string(),
            TopLevelKind::Struct => "struct".to_string(),
            TopLevelKind::PropertyDefinition => "property definition".to_string(),
            TopLevelKind::PropertyAssignment => "property assignment".to_string(),
            TopLevelKind::ComponentInstance => "component instance".to_string(),
        }
    }
}

/// The place that asked for a literal of a certain kind.
#[derive(Clone, Copy, Debug, PartialEq, Eq, Structural)]
pub enum Site {
    /// An operand of a binary operator.
    Operator(BinaryOp),
    /// The size between the brackets of an array instance.
    ArrayDimension,
    /// One of the two bounds of `[msb:lsb]`.
    RangeBound,
    /// The expression after `@`.
    Address,
    /// The property `regwidth` of a register.
    RegWidth,
    /// The property `memwidth` of a memory.
    MemWidth,
    /// The property `mementries` of a memory.
    MemEntries,
}

/// The kind of a failure.
#[derive(Debug, PartialEq, Eq)]
pub enum ErrorKind {
    /// The property was assigned twice in one namespace of one node.
    DuplicateProperty(String),
    /// A literal of the wrong kind: where, the kind asked for, the kind found.
    TypeMismatch(Site, LiteralKind, LiteralKind),
    /// A form that elaboration does not handle.
    UnsupportedConstruct(Construct),
    /// A description that cannot stand at top level.
    UnsupportedTopLevelConstruct(TopLevelKind),
    /// The bit range of the named field is empty: its upper bound lies below
    /// its lower bound, or its width is zero.
    MalformedRange(String),
    /// An offset, a size or a bit position does not fit in 64 bits.
    LayoutOverflow,
}

/// The mathematical value of an `ErrorKind`.
pub enum ErrorKindView {
    DuplicateProperty(Seq<char>),
    TypeMismatch(Site, LiteralKind, LiteralKind),
    UnsupportedConstruct(Construct),
    UnsupportedTopLevelConstruct(TopLevelKind),
    MalformedRange(Seq<char>),
    LayoutOverflow,
}

impl View for ErrorKind {
    type V = ErrorKindView;

    open spec fn view(&self) -> ErrorKindView {
        match *self {
            ErrorKind::DuplicateProperty(name) => ErrorKindView::DuplicateProperty(name@),
            ErrorKind::TypeMismatch(site, expected, actual) => ErrorKindView::TypeMismatch(
                site,
                expected,
                actual,
            ),
            ErrorKind::UnsupportedConstruct(c) => ErrorKindView::UnsupportedConstruct(c),
            ErrorKind::UnsupportedTopLevelConstruct(k) => ErrorKindView::UnsupportedTopLevelConstruct(k),
            ErrorKind::MalformedRange(name) => ErrorKindView::MalformedRange(name@),
            ErrorKind::LayoutOverflow => ErrorKindView::LayoutOverflow,
        }
    }
}

impl Clone for ErrorKind {
    fn clone(&self) -> (res: Self)
        ensures
            res@ == self@,
    {
        match self {
            ErrorKind::DuplicateProperty(name) => ErrorKind::DuplicateProperty(name.clone()),
            ErrorKind::TypeMismatch(site, expected, actual) => ErrorKind::TypeMismatch(
                *site,
                *expected,
                *actual,
            ),
            ErrorKind::UnsupportedConstruct(c) => ErrorKind::UnsupportedConstruct(*c),
            ErrorKind::UnsupportedTopLevelConstruct(k) => ErrorKind::UnsupportedTopLevelConstruct(
                *k,
            ),
            ErrorKind::MalformedRange(name) => ErrorKind::MalformedRange(name.clone()),
            ErrorKind::LayoutOverflow => ErrorKind::LayoutOverflow,
        }
    }
}

/// A failed elaboration.
#[derive(Debug, PartialEq, Eq)]
pub struct ElabError {
    /// What went wrong.
    pub kind: ErrorKind,
    /// The names of the nodes from the top level down to the node that was
    /// being built; empty for a failure at top level.
    pub path: Vec<String>,
}

/// The mathematical value of an `ElabError`.
pub struct ErrorView {
    pub kind: ErrorKindView,
    pub path: Seq<Seq<char>>,
}

/// The names in a path, each as a sequence of characters.
pub open spec fn path_view(path: Seq<String>) -> Seq<Seq<char>> {
    Seq::new(path.len(), |i: int| path[i]@)
}

impl View for ElabError {
    type V = ErrorView;

    open spec fn view(&self) -> ErrorView {
        ErrorView { kind: self.kind@, path: path_view(self.path@) }
    }
}

/// The path that is `path` followed by `name`.
pub fn extend_path(path: &Vec<String>, name: &String) -> (res: Vec<String>)
    ensures
        path_view(res@) == path_view(path@).push(name@),
{
    let mut res: Vec<String> = Vec::new();
    let mut i: usize = 0;
    while i < path.len()
        invariant
            i <= path.len(),
            res.len() == i,
            forall|j: int| 0 <= j < i ==> res[j]@ == path[j]@,
        decreases path.len() - i,
    {
        res.push(path[i].clone());
        i += 1;
    }
    res.push(name.clone());
    res
}

/// The failure of kind `kind` at the node that `path` leads to.
pub fn fail_at(kind: ErrorKind, path: &Vec<String>) -> (res: ElabError)
    ensures
        res@ == (ErrorView { kind: kind@, path: path_view(path@) }),
{
    let mut copy: Vec<String> = Vec::new();
    let mut i: usize = 0;
    while i < path.len()
        invariant
            i <= path.len(),
            copy.len() == i,
            forall|j: int| 0 <= j < i ==> copy[j]@ == path[j]@,
        decreases path.len() - i,
    {
        copy.push(path[i].clone());
        i += 1;
    }
    assert(path_view(copy@) =~= path_view(path@));
    ElabError { kind, path: copy }
}

impl Clone for ElabError {
    fn clone(&self) -> (res: Self)
        ensures
            res@ == self@,
    {
        fail_at(self.kind.clone(), &self.path)
    }
}

} // verus!
