//! Syntax tree of a register description, as a parser hands it over.
//!
//! The tree follows the grammar of the language category by category: one
//! closed type per category, one variant per production. Elaboration reads
//! the tree and never changes it.

use vstd::prelude::*;

verus! {

/// A whole source text: the top-level descriptions in source order.
#[derive(Debug)]
pub struct Root {
    pub descriptions: Vec<Description>,
}

/// One top-level description.
#[derive(Debug)]
pub enum Description {
    ComponentDef(Component),
    EnumDef(EnumDef),
    PropertyDefinition(PropertyDefinition),
    StructDef(StructDef),
    ConstraintDef(ConstraintDef),
    ExplicitComponentInst(ExplicitComponentInst),
    PropertyAssignment(PropertyAssignment),
}

/// A component definition together with its optional instantiation clause.
#[derive(Debug)]
pub struct Component {
    pub def: ComponentDef,
    pub inst_type: Option<ComponentInstType>,
    pub insts: Option<ComponentInsts>,
}

/// The definition part of a component: named or anonymous.
#[derive(Debug)]
pub enum ComponentDef {
    Named(ComponentType, String, Option<ParamDef>, ComponentBody),
    Anon(ComponentType, ComponentBody),
}

/// The keyword that opens a component definition.
#[derive(Clone, Copy, Debug, PartialEq, Eq, Structural)]
pub enum ComponentType {
    Field,
    Reg,
    RegFile,
    AddrMap,
    Signal,
    Enum,
    EnumVariant,
    Mem,
    Constraint,
}

/// `external` or `internal` in front of an instantiation.
#[derive(Clone, Copy, Debug, PartialEq, Eq, Structural)]
pub enum ComponentInstType {
    External,
    Internal,
}

/// The parameter list of a named definition.
#[derive(Debug)]
pub struct ParamDef {
    pub ids: Vec<String>,
}

/// The braces of a component and what stands between them, in source order.
#[derive(Debug)]
pub struct ComponentBody {
    pub elements: Vec<ComponentBodyElem>,
}

/// One element of a component body.
#[derive(Debug)]
pub enum ComponentBodyElem {
    ComponentDef(Component),
    EnumDef(EnumDef),
    StructDef(StructDef),
    ConstraintDef(ConstraintDef),
    ExplicitComponentInst(ExplicitComponentInst),
    PropertyAssignment(PropertyAssignment),
}

/// An instantiation clause: optional parameter bindings, then the instances.
#[derive(Debug)]
pub struct ComponentInsts {
    pub param_insts: Vec<ParamInst>,
    pub component_insts: Vec<ComponentInst>,
}

/// One parameter binding of an instantiation.
#[derive(Debug)]
pub struct ParamInst {
    pub id: String,
    pub value: ConstantExpr,
}

/// One instance: `id [array or range] [= e] [@ e] [+= e] [%= e]`.
#[derive(Debug)]
pub struct ComponentInst {
    pub id: String,
    pub array_or_range: Option<ArrayOrRange>,
    pub equals: Option<ConstantExpr>,
    pub at: Option<ConstantExpr>,
    pub plus_equals: Option<ConstantExpr>,
    pub percent_equals: Option<ConstantExpr>,
}

/// The bracketed part of an instance: `[n]...` or `[msb:lsb]`.
#[derive(Debug)]
pub enum ArrayOrRange {
    Array(Vec<ConstantExpr>),
    Range(ConstantExpr, ConstantExpr),
}

/// An instantiation of a definition that was named earlier.
#[derive(Debug)]
pub struct ExplicitComponentInst {
    pub inst_type: Option<ComponentInstType>,
    pub alias: Option<String>,
    pub id: String,
    pub insts: ComponentInsts,
}

/// An enum definition.
#[derive(Debug)]
pub struct EnumDef {
    pub id: String,
}

/// A struct definition.
#[derive(Debug)]
pub struct StructDef {
    pub id: String,
}

/// A constraint definition.
#[derive(Debug)]
pub struct ConstraintDef {
    pub id: String,
}

/// The definition of a user-defined property.
#[derive(Debug)]
pub struct PropertyDefinition {
    pub id: String,
}

/// A property assignment inside a body or at top level.
#[derive(Debug)]
pub enum PropertyAssignment {
    ExplicitOrDefaultPropAssignment(ExplicitOrDefaultPropAssignment),
    PostPropAssignment(PostPropAssignment),
}

/// The marker `default` in front of an assignment.
#[derive(Clone, Copy, Debug, PartialEq, Eq, Structural)]
pub struct DefaultKeyword;

/// An assignment in a body, with or without `default` in front.
#[derive(Debug)]
pub enum ExplicitOrDefaultPropAssignment {
    ExplicitPropModifier(Option<DefaultKeyword>, ExplicitPropModifier),
    ExplicitPropAssignment(Option<DefaultKeyword>, ExplicitPropertyAssignment),
}

/// `posedge intr;` and the like.
#[derive(Debug)]
pub struct ExplicitPropModifier {
    pub prop_mod: PropMod,
    pub id: String,
}

/// The modifier of a property modifier.
#[derive(Clone, Copy, Debug, PartialEq, Eq, Structural)]
pub enum PropMod {
    Posedge,
    Negedge,
    Bothedge,
    Level,
    Nonsticky,
}

/// `name = value`, `name` alone, or `encode = id`.
#[derive(Debug)]
pub enum ExplicitPropertyAssignment {
    Assignment(IdentityOrPropKeyword, Option<PropAssignmentRhs>),
    EncodeAssignment(String),
}

/// The left-hand side of an assignment: an identifier or one of the
/// keywords that double as property names.
#[derive(Debug)]
pub enum IdentityOrPropKeyword {
    Id(String),
    PropKeyword(PropKeyword),
}

/// The keywords that double as property names.
#[derive(Clone, Copy, Debug, PartialEq, Eq, Structural)]
pub enum PropKeyword {
    Sw,
    Hw,
    Rclr,
    Rset,
    Woclr,
    Woset,
}

/// The right-hand side of an assignment.
#[derive(Debug)]
pub enum PropAssignmentRhs {
    ConstantExpr(ConstantExpr),
    PrecedenceType(PrecedenceType),
}

/// An assignment through a reference to an instance.
#[derive(Debug)]
pub enum PostPropAssignment {
    PropRef(PropRef, Option<PropAssignmentRhs>),
    PostEncodeAssignment(PostEncodeAssignment),
}

/// `a.b.c->prop`
#[derive(Debug)]
pub struct PropRef {
    pub instance: Vec<String>,
    pub prop: IdentityOrPropKeyword,
}

/// `a.b.c->encode = id`
#[derive(Debug)]
pub struct PostEncodeAssignment {
    pub instance: Vec<String>,
    pub id: String,
}

/// A constant expression. Left recursion is taken out of the grammar: an
/// expression is a first operand followed by an optional continuation.
#[derive(Debug)]
pub enum ConstantExpr {
    ConstantPrimary(ConstantPrimary, Option<Box<ConstantExprContinue>>),
    UnaryOp(UnaryOp, Box<ConstantExpr>, Option<Box<ConstantExprContinue>>),
}

/// What follows the first operand: `op e ...` or `? e : e ...`.
#[derive(Debug)]
pub enum ConstantExprContinue {
    BinaryOp(BinaryOp, Box<ConstantExpr>, Option<Box<ConstantExprContinue>>),
    TernaryOp(Box<ConstantExpr>, Box<ConstantExpr>, Option<Box<ConstantExprContinue>>),
}

/// A first operand, with or without a width cast.
#[derive(Debug)]
pub enum ConstantPrimary {
    Base(ConstantPrimaryBase),
    Cast(ConstantPrimaryBase, Box<ConstantExpr>),
}

/// The forms of a first operand.
#[derive(Debug)]
pub enum ConstantPrimaryBase {
    PrimaryLiteral(PrimaryLiteral),
    ConstantConcat(Vec<ConstantExpr>),
    ConstantMultipleConcat(Box<ConstantExpr>, Vec<ConstantExpr>),
    ConstantExpr(Box<ConstantExpr>),
    SimpleTypeCast(IntegerType, Box<ConstantExpr>),
    BooleanCast(Box<ConstantExpr>),
    InstanceOrPropRef(InstanceOrPropRef),
    StructLiteral(String, Vec<StructLiteralElement>),
    ArrayLiteral(Vec<ConstantExpr>),
}

/// The target of a simple type cast.
#[derive(Clone, Copy, Debug, PartialEq, Eq, Structural)]
pub enum IntegerType {
    Bit,
    LongInt,
    UnsignedBit,
    UnsignedLongInt,
}

/// `a.b.c` or `a.b.c->prop` inside an expression.
#[derive(Debug)]
pub struct InstanceOrPropRef {
    pub instance: Vec<String>,
    pub prop: Option<String>,
}

/// One member of a struct literal.
#[derive(Debug)]
pub struct StructLiteralElement {
    pub id: String,
    pub value: ConstantExpr,
}

/// The prefix operators.
#[derive(Clone, Copy, Debug, PartialEq, Eq, Structural)]
pub enum UnaryOp {
    LogicalNot,
    Plus,
    Minus,
    BitNot,
    ReduceAnd,
    ReduceNand,
    ReduceOr,
    ReduceNor,
    ReduceXor,
    ReduceXnor,
}

/// The binary operators.
#[derive(Clone, Copy, Debug, PartialEq, Eq, Structural)]
pub enum BinaryOp {
    LogicalAnd,
    LogicalOr,
    LessThan,
    GreaterThan,
    LessEqual,
    GreaterEqual,
    Equal,
    NotEqual,
    RightShift,
    LeftShift,
    BitAnd,
    BitOr,
    BitXor,
    BitXnor,
    Multiply,
    Divide,
    Modulo,
    Add,
    Subtract,
    Power,
}

/// Software or hardware access permission.
#[derive(Clone, Copy, Debug, PartialEq, Eq, Structural)]
pub enum AccessType {
    Na,
    Rw,
    R,
    W,
    Rw1,
    W1,
}

/// Side effect of a software read.
#[derive(Clone, Copy, Debug, PartialEq, Eq, Structural)]
pub enum OnReadType {
    Rclr,
    Rset,
    Ruser,
}

/// Side effect of a software write.
#[derive(Clone, Copy, Debug, PartialEq, Eq, Structural)]
pub enum OnWriteType {
    Woset,
    Woclr,
    Wot,
    Wzs,
    Wzc,
    Wzt,
    Wclr,
    Wset,
    Wuser,
}

/// Addressing mode of an address map.
#[derive(Clone, Copy, Debug, PartialEq, Eq, Structural)]
pub enum AddressingType {
    Compact,
    Regalign,
    Fullalign,
}

/// Which side wins when hardware and software write at once.
#[derive(Clone, Copy, Debug, PartialEq, Eq, Structural)]
pub enum PrecedenceType {
    Hw,
    Sw,
}

/// A literal: a leaf of an expression, and what an expression evaluates to.
#[derive(Debug, PartialEq, Eq)]
pub enum PrimaryLiteral {
    Number(u64),
    StringLiteral(String),
    BooleanLiteral(bool),
    AccessTypeLiteral(AccessType),
    OnReadTypeLiteral(OnReadType),
    OnWriteTypeLiteral(OnWriteType),
    AddressingTypeLiteral(AddressingType),
    PrecedenceTypeLiteral(PrecedenceType),
    EnumeratorLiteral(String),
}

/// The kind of a literal, without its value.
#[derive(Clone, Copy, Debug, PartialEq, Eq, Structural)]
pub enum LiteralKind {
    Number,
    String,
    Boolean,
    AccessType,
    OnReadType,
    OnWriteType,
    AddressingType,
    PrecedenceType,
    Enumerator,
}

/// The mathematical value of a literal: strings are sequences of characters.
pub enum Literal {
    Number(u64),
    Str(Seq<char>),
    Boolean(bool),
    Access(AccessType),
    OnRead(OnReadType),
    OnWrite(OnWriteType),
    Addressing(AddressingType),
    Precedence(PrecedenceType),
    Enumerator(Seq<char>),
}

impl Literal {
    pub open spec fn kind(self) -> LiteralKind {
        match self {
            Literal::Number(_) => LiteralKind::Number,
            Literal::Str(_) => LiteralKind::String,
            Literal::Boolean(_) => LiteralKind::Boolean,
            Literal::Access(_) => LiteralKind::AccessType,
            Literal::OnRead(_) => LiteralKind::OnReadType,
            Literal::OnWrite(_) => LiteralKind::OnWriteType,
            Literal::Addressing(_) => LiteralKind::AddressingType,
            Literal::Precedence(_) => LiteralKind::PrecedenceType,
            Literal::Enumerator(_) => LiteralKind::Enumerator,
        }
    }
}

impl View for PrimaryLiteral {
    type V = Literal;

    open spec fn view(&self) -> Literal {
        match *self {
            PrimaryLiteral::Number(n) => Literal::Number(n),
            PrimaryLiteral::StringLiteral(s) => Literal::Str(s@),
            PrimaryLiteral::BooleanLiteral(b) => Literal::Boolean(b),
            PrimaryLiteral::AccessTypeLiteral(a) => Literal::Access(a),
            PrimaryLiteral::OnReadTypeLiteral(r) => Literal::OnRead(r),
            PrimaryLiteral::OnWriteTypeLiteral(w) => Literal::OnWrite(w),
            PrimaryLiteral::AddressingTypeLiteral(a) => Literal::Addressing(a),
            PrimaryLiteral::PrecedenceTypeLiteral(p) => Literal::Precedence(p),
            PrimaryLiteral::EnumeratorLiteral(s) => Literal::Enumerator(s@),
        }
    }
}

impl Clone for PrimaryLiteral {
    fn clone(&self) -> (res: Self)
        ensures
            res@ == self@,
    {
        match self {
            PrimaryLiteral::Number(n) => PrimaryLiteral::Number(*n),
            PrimaryLiteral::StringLiteral(s) => PrimaryLiteral::StringLiteral(s.clone()),
            PrimaryLiteral::BooleanLiteral(b) => PrimaryLiteral::BooleanLiteral(*b),
            PrimaryLiteral::AccessTypeLiteral(a) => PrimaryLiteral::AccessTypeLiteral(*a),
            PrimaryLiteral::OnReadTypeLiteral(r) => PrimaryLiteral::OnReadTypeLiteral(*r),
            PrimaryLiteral::OnWriteTypeLiteral(w) => PrimaryLiteral::OnWriteTypeLiteral(*w),
            PrimaryLiteral::AddressingTypeLiteral(a) => PrimaryLiteral::AddressingTypeLiteral(*a),
            PrimaryLiteral::PrecedenceTypeLiteral(p) => PrimaryLiteral::PrecedenceTypeLiteral(*p),
            PrimaryLiteral::EnumeratorLiteral(s) => PrimaryLiteral::EnumeratorLiteral(s.clone()),
        }
    }
}

impl PrimaryLiteral {
    /// The kind of this literal.
    pub fn kind(&self) -> (k: LiteralKind)
        ensures
            k == self@.kind(),
    {
        match self {
            PrimaryLiteral::Number(_) => LiteralKind::Number,
            PrimaryLiteral::StringLiteral(_) => LiteralKind::String,
            PrimaryLiteral::BooleanLiteral(_) => LiteralKind::Boolean,
            PrimaryLiteral::AccessTypeLiteral(_) => LiteralKind::AccessType,
            PrimaryLiteral::OnReadTypeLiteral(_) => LiteralKind::OnReadType,
            PrimaryLiteral::OnWriteTypeLiteral(_) => LiteralKind::OnWriteType,
            PrimaryLiteral::AddressingTypeLiteral(_) => LiteralKind::AddressingType,
            PrimaryLiteral::PrecedenceTypeLiteral(_) => LiteralKind::PrecedenceType,
            PrimaryLiteral::EnumeratorLiteral(_) => LiteralKind::Enumerator,
        }
    }
}

impl PropKeyword {
    /// The property name that the keyword stands for.
    pub open spec fn spec_name(self) -> Seq<char> {
        match self {
            PropKeyword::Sw => "sw"@,
            PropKeyword::Hw => "hw"@,
            PropKeyword::Rclr => "rclr"@,
            PropKeyword::Rset => "rset"@,
            PropKeyword::Woclr => "woclr"@,
            PropKeyword::Woset => "woset"@,
        }
    }

    /// The property name that the keyword stands for: the keyword itself,
    /// in lower case.
    pub fn name(&self) -> (s: String)
        ensures
            s@ == self.spec_name(),
    {
        match self {
            PropKeyword::Sw => "sw".to_string(),
            PropKeyword::Hw => "hw".to_string(),
            PropKeyword::Rclr => "rclr".to_string(),
            PropKeyword::Rset => "rset".to_string(),
            PropKeyword::Woclr => "woclr".to_string(),
            PropKeyword::Woset => "woset".to_string(),
        }
    }
}

impl IdentityOrPropKeyword {
    /// The property name on the left-hand side of an assignment.
    pub open spec fn spec_name(self) -> Seq<char> {
        match self {
            IdentityOrPropKeyword::Id(id) => id@,
            IdentityOrPropKeyword::PropKeyword(k) => k.spec_name(),
        }
    }

    /// The property name on the left-hand side of an assignment.
    pub fn name(&self) -> (s: String)
        ensures
            s@ == self.spec_name(),
    {
        match self {
            IdentityOrPropKeyword::Id(id) => id.clone(),
            IdentityOrPropKeyword::PropKeyword(k) => k.name(),
        }
    }
}

impl ComponentDef {
    /// The keyword of the definition.
    pub open spec fn spec_component_type(self) -> ComponentType {
        match self {
            ComponentDef::Named(t, _, _, _) => t,
            ComponentDef::Anon(t, _) => t,
        }
    }

    /// The keyword of the definition.
    pub fn component_type(&self) -> (t: ComponentType)
        ensures
            t == self.spec_component_type(),
    {
        match self {
            ComponentDef::Named(t, _, _, _) => *t,
            ComponentDef::Anon(t, _) => *t,
        }
    }

    /// The body of the definition.
    pub open spec fn spec_body(self) -> ComponentBody {
        match self {
            ComponentDef::Named(_, _, _, b) => b,
            ComponentDef::Anon(_, b) => b,
        }
    }

    /// The body of the definition.
    pub fn body(&self) -> (b: &ComponentBody)
        ensures
            *b == self.spec_body(),
    {
        match self {
            ComponentDef::Named(_, _, _, b) => b,
            ComponentDef::Anon(_, b) => b,
        }
    }
}

} // verus!
