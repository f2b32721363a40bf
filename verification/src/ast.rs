//! The node model: every node kind of the grammar, grouped in the four
//! layers (types, expressions, statements, declarations).  Nodes are plain
//! values; a pass never mutates a tree in place, it builds a new one.
use vstd::prelude::*;

verus! {

/// An opaque provenance token naming a node's place in the source text.
/// Reconstruction copies it verbatim; it is never recomputed from children.
#[derive(Clone, Copy, Debug, PartialEq, Eq, Structural)]
pub struct Span {
    pub lo: u64,
    pub hi: u64,
}

/// An interned name.
pub type Symbol = u32;

/// One character of a string literal: a plain scalar, or an escape that
/// names a code point directly.
#[derive(Clone, Copy, Debug, PartialEq, Eq, Structural)]
pub enum Char {
    Scalar(char),
    NonScalar(u32),
}

#[derive(Clone, Copy, Debug, PartialEq, Eq, Structural)]
pub struct Identifier {
    pub name: Symbol,
    pub span: Span,
}

/// A literal array dimension or tuple index.
#[derive(Clone, Copy, Debug, PartialEq, Eq, Structural)]
pub struct PositiveNumber {
    pub value: u64,
}

#[derive(Clone, Copy, Debug, PartialEq, Eq, Structural)]
pub enum IntegerType {
    U8,
    U16,
    U32,
    U64,
    U128,
    I8,
    I16,
    I32,
    I64,
    I128,
}

// ------------------------------------------------------------------
// Types
// ------------------------------------------------------------------

#[derive(Debug, PartialEq, Eq)]
pub enum Type {
    Boolean,
    Char,
    Field,
    Group,
    Integer(IntegerType),
    Array(Box<Type>, Vec<PositiveNumber>),
    Tuple(Vec<Type>),
    Identifier(Identifier),
    SelfType,
}

// ------------------------------------------------------------------
// Expressions
// ------------------------------------------------------------------

#[derive(Clone, Copy, Debug, PartialEq, Eq, Structural)]
pub enum GroupCoordinate {
    Number(u64, Span),
    SignHigh,
    SignLow,
    Inferred,
}

#[derive(Clone, Copy, Debug, PartialEq, Eq, Structural)]
pub struct GroupTuple {
    pub x: GroupCoordinate,
    pub y: GroupCoordinate,
    pub span: Span,
}

#[derive(Clone, Copy, Debug, PartialEq, Eq, Structural)]
pub enum GroupValue {
    Single(u64, Span),
    Tuple(GroupTuple),
}

#[derive(Clone, Copy, Debug, PartialEq, Eq, Structural)]
pub struct CharValue {
    pub character: Char,
    pub span: Span,
}

#[derive(Debug, PartialEq, Eq)]
pub enum ValueExpression {
    Address(String, Span),
    Boolean(bool, Span),
    Char(CharValue),
    Field(String, Span),
    Group(Box<GroupValue>),
    Implicit(String, Span),
    Integer(IntegerType, String, Span),
    Str(Vec<Char>, Span),
}

#[derive(Clone, Copy, Debug, PartialEq, Eq, Structural)]
pub enum BinaryOperation {
    Add,
    Sub,
    Mul,
    Div,
    Pow,
    Or,
    And,
    Eq,
    Ne,
    Ge,
    Gt,
    Le,
    Lt,
}

#[derive(Clone, Copy, Debug, PartialEq, Eq, Structural)]
pub enum UnaryOperation {
    Not,
    Negate,
}

#[derive(Debug, PartialEq, Eq)]
pub struct BinaryExpression {
    pub left: Box<Expression>,
    pub right: Box<Expression>,
    pub op: BinaryOperation,
    pub span: Span,
}

#[derive(Debug, PartialEq, Eq)]
pub struct UnaryExpression {
    pub inner: Box<Expression>,
    pub op: UnaryOperation,
    pub span: Span,
}

#[derive(Debug, PartialEq, Eq)]
pub struct TernaryExpression {
    pub condition: Box<Expression>,
    pub if_true: Box<Expression>,
    pub if_false: Box<Expression>,
    pub span: Span,
}

#[derive(Debug, PartialEq, Eq)]
pub struct CastExpression {
    pub inner: Box<Expression>,
    pub target_type: Type,
    pub span: Span,
}

#[derive(Debug, PartialEq, Eq)]
pub struct ArrayAccess {
    pub array: Box<Expression>,
    pub index: Box<Expression>,
    pub span: Span,
}

#[derive(Debug, PartialEq, Eq)]
pub struct ArrayRangeAccess {
    pub array: Box<Expression>,
    pub left: Option<Box<Expression>>,
    pub right: Option<Box<Expression>>,
    pub span: Span,
}

#[derive(Debug, PartialEq, Eq)]
pub struct MemberAccess {
    pub inner: Box<Expression>,
    pub name: Identifier,
    pub span: Span,
    pub type_: Option<Type>,
}

#[derive(Debug, PartialEq, Eq)]
pub struct TupleAccess {
    pub tuple: Box<Expression>,
    pub index: PositiveNumber,
    pub span: Span,
}

/// The member's resolved type is a slot that a later pass may overwrite
/// after the node was built; see [`StaticAccess::assign_type`].
#[derive(Debug, PartialEq, Eq)]
pub struct StaticAccess {
    pub inner: Box<Expression>,
    pub name: Identifier,
    pub type_: Type,
    pub span: Span,
}

#[derive(Debug, PartialEq, Eq)]
pub enum SpreadOrExpression {
    Spread(Expression),
    Expression(Expression),
}

#[derive(Debug, PartialEq, Eq)]
pub struct ArrayInlineExpression {
    pub elements: Vec<SpreadOrExpression>,
    pub span: Span,
}

#[derive(Debug, PartialEq, Eq)]
pub struct ArrayInitExpression {
    pub element: Box<Expression>,
    pub dimensions: Vec<PositiveNumber>,
    pub span: Span,
}

#[derive(Debug, PartialEq, Eq)]
pub struct TupleInitExpression {
    pub elements: Vec<Expression>,
    pub span: Span,
}

#[derive(Debug, PartialEq, Eq)]
pub struct CircuitVariableInitializer {
    pub identifier: Identifier,
    pub expression: Option<Expression>,
}

#[derive(Debug, PartialEq, Eq)]
pub struct CircuitInitExpression {
    pub name: Identifier,
    pub members: Vec<CircuitVariableInitializer>,
    pub span: Span,
}

#[derive(Debug, PartialEq, Eq)]
pub struct CallExpression {
    pub function: Box<Expression>,
    pub arguments: Vec<Expression>,
    pub span: Span,
}

#[derive(Debug, PartialEq, Eq)]
pub enum Expression {
    Identifier(Identifier),
    Value(ValueExpression),
    Binary(BinaryExpression),
    Unary(UnaryExpression),
    Ternary(TernaryExpression),
    Cast(CastExpression),
    ArrayAccess(ArrayAccess),
    ArrayRangeAccess(ArrayRangeAccess),
    MemberAccess(MemberAccess),
    TupleAccess(TupleAccess),
    StaticAccess(StaticAccess),
    ArrayInline(ArrayInlineExpression),
    ArrayInit(ArrayInitExpression),
    TupleInit(TupleInitExpression),
    CircuitInit(CircuitInitExpression),
    Call(CallExpression),
}

impl StaticAccess {
    /// Overwrite the resolved type after construction, leaving every other
    /// field as it was: static member types may be filled in by a pass that
    /// runs after the node was created.
    pub fn assign_type(&mut self, type_: Type)
        ensures
            final(self).type_ == type_,
            final(self).inner == old(self).inner,
            final(self).name == old(self).name,
            final(self).span == old(self).span,
    {
        self.type_ = type_;
    }
}

// ------------------------------------------------------------------
// Statements
// ------------------------------------------------------------------

#[derive(Debug, PartialEq, Eq)]
pub struct ReturnStatement {
    pub expression: Expression,
    pub span: Span,
}

#[derive(Clone, Copy, Debug, PartialEq, Eq, Structural)]
pub enum Declare {
    Const,
    Let,
}

#[derive(Debug, PartialEq, Eq)]
pub struct VariableName {
    pub mutable: bool,
    pub identifier: Identifier,
    pub span: Span,
}

#[derive(Debug, PartialEq, Eq)]
pub struct DefinitionStatement {
    pub declaration_type: Declare,
    pub variable_names: Vec<VariableName>,
    pub parened: bool,
    pub type_: Type,
    pub value: Expression,
    pub span: Span,
}

#[derive(Debug, PartialEq, Eq)]
pub enum AssigneeAccess {
    ArrayRange(Option<Expression>, Option<Expression>),
    ArrayIndex(Expression),
    Tuple(PositiveNumber, Span),
    Member(Identifier),
}

#[derive(Debug, PartialEq, Eq)]
pub struct Assignee {
    pub identifier: Identifier,
    pub accesses: Vec<AssigneeAccess>,
    pub span: Span,
}

#[derive(Clone, Copy, Debug, PartialEq, Eq, Structural)]
pub enum AssignOperation {
    Assign,
    Add,
    Sub,
    Mul,
    Div,
}

#[derive(Debug, PartialEq, Eq)]
pub struct AssignStatement {
    pub operation: AssignOperation,
    pub assignee: Assignee,
    pub value: Expression,
    pub span: Span,
}

#[derive(Debug, PartialEq, Eq)]
pub struct ConditionalStatement {
    pub condition: Expression,
    pub block: Block,
    pub next: Option<Box<Statement>>,
    pub span: Span,
}

#[derive(Debug, PartialEq, Eq)]
pub struct IterationStatement {
    pub variable: Identifier,
    pub type_: Type,
    pub start: Expression,
    pub stop: Expression,
    pub inclusive: bool,
    pub block: Block,
    pub span: Span,
}

#[derive(Debug, PartialEq, Eq)]
pub struct ConsoleArgs {
    pub string: Vec<Char>,
    pub parameters: Vec<Expression>,
    pub span: Span,
}

#[derive(Debug, PartialEq, Eq)]
pub enum ConsoleFunction {
    Assert(Expression),
    Error(ConsoleArgs),
    Log(ConsoleArgs),
}

#[derive(Debug, PartialEq, Eq)]
pub struct ConsoleStatement {
    pub function: ConsoleFunction,
    pub span: Span,
}

#[derive(Debug, PartialEq, Eq)]
pub struct ExpressionStatement {
    pub expression: Expression,
    pub span: Span,
}

/// Statement order inside a block is execution order and is kept.
#[derive(Debug, PartialEq, Eq)]
pub struct Block {
    pub statements: Vec<Statement>,
    pub span: Span,
}

#[derive(Debug, PartialEq, Eq)]
pub enum Statement {
    Return(ReturnStatement),
    Definition(DefinitionStatement),
    Assign(Box<AssignStatement>),
    Conditional(ConditionalStatement),
    Iteration(Box<IterationStatement>),
    Console(ConsoleStatement),
    Expression(ExpressionStatement),
    Block(Block),
}

// ------------------------------------------------------------------
// Declarations
// ------------------------------------------------------------------

#[derive(Debug, PartialEq, Eq)]
pub struct FunctionInputVariable {
    pub identifier: Identifier,
    pub const_: bool,
    pub mutable: bool,
    pub type_: Type,
    pub span: Span,
}

#[derive(Debug, PartialEq, Eq)]
pub enum FunctionInput {
    InputKeyword(Identifier),
    SelfKeyword(Identifier),
    Variable(FunctionInputVariable),
}

#[derive(Debug, PartialEq, Eq)]
pub struct ImportTree {
    pub base: Vec<Symbol>,
    pub alias: Option<Identifier>,
    pub span: Span,
}

#[derive(Debug, PartialEq, Eq)]
pub struct ImportStatement {
    pub tree: ImportTree,
    pub span: Span,
}

#[derive(Debug, PartialEq, Eq)]
pub struct Annotation {
    pub span: Span,
    pub name: Identifier,
    pub arguments: Vec<Symbol>,
}

#[derive(Debug, PartialEq, Eq)]
pub enum CircuitMember {
    CircuitVariable(Identifier, Type),
    CircuitFunction(Box<Function>),
}

#[derive(Debug, PartialEq, Eq)]
pub struct Circuit {
    pub circuit_name: Identifier,
    pub members: Vec<CircuitMember>,
}

#[derive(Debug, PartialEq, Eq)]
pub struct Alias {
    pub name: Identifier,
    pub represents: Type,
    pub span: Span,
}

/// `core_mapping` is backend metadata that no reconstruction rule rewrites.
#[derive(Debug, PartialEq, Eq)]
pub struct Function {
    pub identifier: Identifier,
    pub annotations: Vec<(Symbol, Annotation)>,
    pub input: Vec<FunctionInput>,
    pub const_: bool,
    pub output: Type,
    pub block: Block,
    pub core_mapping: Option<Symbol>,
    pub span: Span,
}

/// The root declaration.  The four name-keyed aggregates are kept as
/// insertion-ordered association lists: key order is meaningful and keys are
/// expected to be unique (see [`crate::views::program_keys_unique`]).
#[derive(Debug, PartialEq, Eq)]
pub struct Program {
    pub name: String,
    pub expected_input: Vec<FunctionInput>,
    pub import_statements: Vec<ImportStatement>,
    pub imports: Vec<(Vec<Symbol>, Program)>,
    pub aliases: Vec<(Identifier, Alias)>,
    pub circuits: Vec<(Identifier, Circuit)>,
    pub functions: Vec<(Identifier, Function)>,
    pub global_consts: Vec<(Vec<Identifier>, DefinitionStatement)>,
}

} // verus!
