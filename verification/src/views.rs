//! The mathematical model of the node kinds: for every tree type a ghost
//! mirror built from `Seq` and plain values, and a view function mapping the
//! executable tree onto it.  Structural equality of two trees is equality of
//! their views; every contract of the protocol and of the driver is stated
//! over these views.
use vstd::prelude::*;
use vstd::pervasive::arbitrary;
use crate::ast::{
    Span, Symbol, Char, Identifier, PositiveNumber, IntegerType, Type, GroupValue, CharValue,
    ValueExpression, BinaryOperation, UnaryOperation, BinaryExpression, UnaryExpression,
    TernaryExpression, CastExpression, ArrayAccess, ArrayRangeAccess, MemberAccess, TupleAccess,
    StaticAccess, SpreadOrExpression, ArrayInlineExpression, ArrayInitExpression,
    TupleInitExpression, CircuitVariableInitializer, CircuitInitExpression, CallExpression,
    Expression, ReturnStatement, Declare, VariableName, DefinitionStatement, AssigneeAccess,
    Assignee, AssignOperation, AssignStatement, ConditionalStatement, IterationStatement,
    ConsoleArgs, ConsoleFunction, ConsoleStatement, ExpressionStatement, Block, Statement,
    FunctionInputVariable, FunctionInput, ImportTree, ImportStatement, Annotation, CircuitMember,
    Circuit, Alias, Function, Program,
};

verus! {

broadcast use vstd::std_specs::vec::group_vec_axioms;

// ------------------------------------------------------------------
// Mirror types
// ------------------------------------------------------------------

#[verifier::ext_equal]
pub enum TypeView {
    Boolean,
    Char,
    Field,
    Group,
    Integer(IntegerType),
    Array(Box<TypeView>, Seq<PositiveNumber>),
    Tuple(Seq<TypeView>),
    Identifier(Identifier),
    SelfType,
}

#[verifier::ext_equal]
pub enum ValueView {
    Address(Seq<char>, Span),
    Boolean(bool, Span),
    Char(CharValue),
    Field(Seq<char>, Span),
    Group(GroupValue),
    Implicit(Seq<char>, Span),
    Integer(IntegerType, Seq<char>, Span),
    Str(Seq<Char>, Span),
}

#[verifier::ext_equal]
pub struct CivView {
    pub identifier: Identifier,
    pub expression: Option<ExprView>,
}

#[verifier::ext_equal]
pub enum ExprView {
    Identifier(Identifier),
    Value(ValueView),
    Binary(Box<ExprView>, Box<ExprView>, BinaryOperation, Span),
    Unary(Box<ExprView>, UnaryOperation, Span),
    Ternary(Box<ExprView>, Box<ExprView>, Box<ExprView>, Span),
    Cast(Box<ExprView>, TypeView, Span),
    ArrayAccess(Box<ExprView>, Box<ExprView>, Span),
    ArrayRangeAccess(Box<ExprView>, Option<Box<ExprView>>, Option<Box<ExprView>>, Span),
    MemberAccess(Box<ExprView>, Identifier, Span, Option<TypeView>),
    TupleAccess(Box<ExprView>, PositiveNumber, Span),
    StaticAccess(Box<ExprView>, Identifier, TypeView, Span),
    ArrayInline(Seq<SpreadView>, Span),
    ArrayInit(Box<ExprView>, Seq<PositiveNumber>, Span),
    TupleInit(Seq<ExprView>, Span),
    CircuitInit(Identifier, Seq<CivView>, Span),
    Call(Box<ExprView>, Seq<ExprView>, Span),
}

#[verifier::ext_equal]
pub enum SpreadView {
    Spread(ExprView),
    Expression(ExprView),
}

#[verifier::ext_equal]
pub struct BlockView {
    pub statements: Seq<StmtView>,
    pub span: Span,
}

#[verifier::ext_equal]
pub struct DefView {
    pub declaration_type: Declare,
    pub variable_names: Seq<VariableName>,
    pub parened: bool,
    pub type_: TypeView,
    pub value: ExprView,
    pub span: Span,
}

#[verifier::ext_equal]
pub enum AccessView {
    ArrayRange(Option<ExprView>, Option<ExprView>),
    ArrayIndex(ExprView),
    Tuple(PositiveNumber, Span),
    Member(Identifier),
}

#[verifier::ext_equal]
pub struct AssigneeView {
    pub identifier: Identifier,
    pub accesses: Seq<AccessView>,
    pub span: Span,
}

#[verifier::ext_equal]
pub struct AssignView {
    pub operation: AssignOperation,
    pub assignee: AssigneeView,
    pub value: ExprView,
    pub span: Span,
}

#[verifier::ext_equal]
pub struct CondView {
    pub condition: ExprView,
    pub block: BlockView,
    pub next: Option<Box<StmtView>>,
    pub span: Span,
}

#[verifier::ext_equal]
pub struct IterView {
    pub variable: Identifier,
    pub type_: TypeView,
    pub start: ExprView,
    pub stop: ExprView,
    pub inclusive: bool,
    pub block: BlockView,
    pub span: Span,
}

#[verifier::ext_equal]
pub struct ConsoleArgsView {
    pub string: Seq<Char>,
    pub parameters: Seq<ExprView>,
    pub span: Span,
}

#[verifier::ext_equal]
pub enum ConsoleFnView {
    Assert(ExprView),
    Error(ConsoleArgsView),
    Log(ConsoleArgsView),
}

#[verifier::ext_equal]
pub enum StmtView {
    Return(ExprView, Span),
    Definition(DefView),
    Assign(AssignView),
    Conditional(CondView),
    Iteration(IterView),
    Console(ConsoleFnView, Span),
    Expression(ExprView, Span),
    Block(BlockView),
}

#[verifier::ext_equal]
pub struct FivView {
    pub identifier: Identifier,
    pub const_: bool,
    pub mutable: bool,
    pub type_: TypeView,
    pub span: Span,
}

#[verifier::ext_equal]
pub enum InputView {
    InputKeyword(Identifier),
    SelfKeyword(Identifier),
    Variable(FivView),
}

#[verifier::ext_equal]
pub struct ImportTreeView {
    pub base: Seq<Symbol>,
    pub alias: Option<Identifier>,
    pub span: Span,
}

#[verifier::ext_equal]
pub struct ImportStmtView {
    pub tree: ImportTreeView,
    pub span: Span,
}

#[verifier::ext_equal]
pub struct AnnotationView {
    pub span: Span,
    pub name: Identifier,
    pub arguments: Seq<Symbol>,
}

#[verifier::ext_equal]
pub enum MemberView {
    CircuitVariable(Identifier, TypeView),
    CircuitFunction(FunctionView),
}

#[verifier::ext_equal]
pub struct CircuitView {
    pub circuit_name: Identifier,
    pub members: Seq<MemberView>,
}

#[verifier::ext_equal]
pub struct AliasView {
    pub name: Identifier,
    pub represents: TypeView,
    pub span: Span,
}

#[verifier::ext_equal]
pub struct FunctionView {
    pub identifier: Identifier,
    pub annotations: Seq<(Symbol, AnnotationView)>,
    pub input: Seq<InputView>,
    pub const_: bool,
    pub output: TypeView,
    pub block: BlockView,
    pub core_mapping: Option<Symbol>,
    pub span: Span,
}

#[verifier::ext_equal]
pub struct ProgramView {
    pub name: Seq<char>,
    pub expected_input: Seq<InputView>,
    pub import_statements: Seq<ImportStmtView>,
    pub imports: Seq<(Seq<Symbol>, ProgramView)>,
    pub aliases: Seq<(Identifier, AliasView)>,
    pub circuits: Seq<(Identifier, CircuitView)>,
    pub functions: Seq<(Identifier, FunctionView)>,
    pub global_consts: Seq<(Seq<Identifier>, DefView)>,
}

// ------------------------------------------------------------------
// View functions: types
// ------------------------------------------------------------------

pub open spec fn type_view(t: Type) -> TypeView
    decreases t,
{
    match t {
        Type::Boolean => TypeView::Boolean,
        Type::Char => TypeView::Char,
        Type::Field => TypeView::Field,
        Type::Group => TypeView::Group,
        Type::Integer(i) => TypeView::Integer(i),
        Type::Array(el, dims) => TypeView::Array(Box::new(type_view(*el)), dims@),
        Type::Tuple(ts) => TypeView::Tuple(type_views(ts@)),
        Type::Identifier(id) => TypeView::Identifier(id),
        Type::SelfType => TypeView::SelfType,
    }
}

pub open spec fn type_views(s: Seq<Type>) -> Seq<TypeView>
    decreases s,
{
    Seq::new(s.len(), |i: int| if 0 <= i < s.len() { type_view(s[i]) } else { arbitrary() })
}

pub open spec fn opt_type_view(o: Option<Type>) -> Option<TypeView> {
    match o {
        Some(t) => Some(type_view(t)),
        None => None,
    }
}

// ------------------------------------------------------------------
// View functions: expressions
// ------------------------------------------------------------------

pub open spec fn value_view(v: ValueExpression) -> ValueView {
    match v {
        ValueExpression::Address(s, span) => ValueView::Address(s@, span),
        ValueExpression::Boolean(b, span) => ValueView::Boolean(b, span),
        ValueExpression::Char(c) => ValueView::Char(c),
        ValueExpression::Field(s, span) => ValueView::Field(s@, span),
        ValueExpression::Group(g) => ValueView::Group(*g),
        ValueExpression::Implicit(s, span) => ValueView::Implicit(s@, span),
        ValueExpression::Integer(it, s, span) => ValueView::Integer(it, s@, span),
        ValueExpression::Str(cs, span) => ValueView::Str(cs@, span),
    }
}

pub open spec fn binary_view(b: BinaryExpression) -> ExprView
    decreases b,
{
    ExprView::Binary(Box::new(expr_view(*b.left)), Box::new(expr_view(*b.right)), b.op, b.span)
}

pub open spec fn unary_view(u: UnaryExpression) -> ExprView
    decreases u,
{
    ExprView::Unary(Box::new(expr_view(*u.inner)), u.op, u.span)
}

pub open spec fn ternary_view(t: TernaryExpression) -> ExprView
    decreases t,
{
    ExprView::Ternary(
        Box::new(expr_view(*t.condition)),
        Box::new(expr_view(*t.if_true)),
        Box::new(expr_view(*t.if_false)),
        t.span,
    )
}

pub open spec fn cast_view(c: CastExpression) -> ExprView
    decreases c,
{
    ExprView::Cast(Box::new(expr_view(*c.inner)), type_view(c.target_type), c.span)
}

pub open spec fn array_access_view(a: ArrayAccess) -> ExprView
    decreases a,
{
    ExprView::ArrayAccess(Box::new(expr_view(*a.array)), Box::new(expr_view(*a.index)), a.span)
}

pub open spec fn opt_boxed_expr_view(o: Option<Box<Expression>>) -> Option<Box<ExprView>>
    decreases o,
{
    match o {
        Some(e) => Some(Box::new(expr_view(*e))),
        None => None,
    }
}

pub open spec fn array_range_access_view(a: ArrayRangeAccess) -> ExprView
    decreases a,
{
    ExprView::ArrayRangeAccess(
        Box::new(expr_view(*a.array)),
        opt_boxed_expr_view(a.left),
        opt_boxed_expr_view(a.right),
        a.span,
    )
}

pub open spec fn member_access_view(m: MemberAccess) -> ExprView
    decreases m,
{
    ExprView::MemberAccess(Box::new(expr_view(*m.inner)), m.name, m.span, opt_type_view(m.type_))
}

pub open spec fn tuple_access_view(t: TupleAccess) -> ExprView
    decreases t,
{
    ExprView::TupleAccess(Box::new(expr_view(*t.tuple)), t.index, t.span)
}

pub open spec fn static_access_view(s: StaticAccess) -> ExprView
    decreases s,
{
    ExprView::StaticAccess(Box::new(expr_view(*s.inner)), s.name, type_view(s.type_), s.span)
}

pub open spec fn spread_view(s: SpreadOrExpression) -> SpreadView
    decreases s,
{
    match s {
        SpreadOrExpression::Spread(e) => SpreadView::Spread(expr_view(e)),
        SpreadOrExpression::Expression(e) => SpreadView::Expression(expr_view(e)),
    }
}

pub open spec fn spread_views(s: Seq<SpreadOrExpression>) -> Seq<SpreadView>
    decreases s,
{
    Seq::new(s.len(), |i: int| if 0 <= i < s.len() { spread_view(s[i]) } else { arbitrary() })
}

pub open spec fn array_inline_view(a: ArrayInlineExpression) -> ExprView
    decreases a,
{
    ExprView::ArrayInline(spread_views(a.elements@), a.span)
}

pub open spec fn array_init_view(a: ArrayInitExpression) -> ExprView
    decreases a,
{
    ExprView::ArrayInit(Box::new(expr_view(*a.element)), a.dimensions@, a.span)
}

pub open spec fn expr_views(s: Seq<Expression>) -> Seq<ExprView>
    decreases s,
{
    Seq::new(s.len(), |i: int| if 0 <= i < s.len() { expr_view(s[i]) } else { arbitrary() })
}

pub open spec fn tuple_init_view(t: TupleInitExpression) -> ExprView
    decreases t,
{
    ExprView::TupleInit(expr_views(t.elements@), t.span)
}

pub open spec fn civ_view(c: CircuitVariableInitializer) -> CivView
    decreases c,
{
    CivView {
        identifier: c.identifier,
        expression: match c.expression {
            Some(e) => Some(expr_view(e)),
            None => None,
        },
    }
}

pub open spec fn civ_views(s: Seq<CircuitVariableInitializer>) -> Seq<CivView>
    decreases s,
{
    Seq::new(s.len(), |i: int| if 0 <= i < s.len() { civ_view(s[i]) } else { arbitrary() })
}

pub open spec fn circuit_init_view(c: CircuitInitExpression) -> ExprView
    decreases c,
{
    ExprView::CircuitInit(c.name, civ_views(c.members@), c.span)
}

pub open spec fn call_view(c: CallExpression) -> ExprView
    decreases c,
{
    ExprView::Call(Box::new(expr_view(*c.function)), expr_views(c.arguments@), c.span)
}

pub open spec fn expr_view(e: Expression) -> ExprView
    decreases e,
{
    match e {
        Expression::Identifier(id) => ExprView::Identifier(id),
        Expression::Value(v) => ExprView::Value(value_view(v)),
        Expression::Binary(b) => binary_view(b),
        Expression::Unary(u) => unary_view(u),
        Expression::Ternary(t) => ternary_view(t),
        Expression::Cast(c) => cast_view(c),
        Expression::ArrayAccess(a) => array_access_view(a),
        Expression::ArrayRangeAccess(a) => array_range_access_view(a),
        Expression::MemberAccess(m) => member_access_view(m),
        Expression::TupleAccess(t) => tuple_access_view(t),
        Expression::StaticAccess(s) => static_access_view(s),
        Expression::ArrayInline(a) => array_inline_view(a),
        Expression::ArrayInit(a) => array_init_view(a),
        Expression::TupleInit(t) => tuple_init_view(t),
        Expression::CircuitInit(c) => circuit_init_view(c),
        Expression::Call(c) => call_view(c),
    }
}

// ------------------------------------------------------------------
// View functions: statements
// ------------------------------------------------------------------

pub open spec fn assignee_access_view(a: AssigneeAccess) -> AccessView
    decreases a,
{
    match a {
        AssigneeAccess::ArrayRange(l, r) => AccessView::ArrayRange(
            match l {
                Some(e) => Some(expr_view(e)),
                None => None,
            },
            match r {
                Some(e) => Some(expr_view(e)),
                None => None,
            },
        ),
        AssigneeAccess::ArrayIndex(e) => AccessView::ArrayIndex(expr_view(e)),
        AssigneeAccess::Tuple(n, span) => AccessView::Tuple(n, span),
        AssigneeAccess::Member(id) => AccessView::Member(id),
    }
}

pub open spec fn assignee_access_views(s: Seq<AssigneeAccess>) -> Seq<AccessView>
    decreases s,
{
    Seq::new(s.len(), |i: int| if 0 <= i < s.len() { assignee_access_view(s[i]) } else { arbitrary() })
}

pub open spec fn assignee_view(a: Assignee) -> AssigneeView
    decreases a,
{
    AssigneeView {
        identifier: a.identifier,
        accesses: assignee_access_views(a.accesses@),
        span: a.span,
    }
}

pub open spec fn definition_view(d: DefinitionStatement) -> DefView
    decreases d,
{
    DefView {
        declaration_type: d.declaration_type,
        variable_names: d.variable_names@,
        parened: d.parened,
        type_: type_view(d.type_),
        value: expr_view(d.value),
        span: d.span,
    }
}

pub open spec fn assign_view(a: AssignStatement) -> AssignView
    decreases a,
{
    AssignView {
        operation: a.operation,
        assignee: assignee_view(a.assignee),
        value: expr_view(a.value),
        span: a.span,
    }
}

pub open spec fn block_view(b: Block) -> BlockView
    decreases b,
{
    BlockView { statements: stmt_views(b.statements@), span: b.span }
}

pub open spec fn conditional_view(c: ConditionalStatement) -> CondView
    decreases c,
{
    CondView {
        condition: expr_view(c.condition),
        block: block_view(c.block),
        next: match c.next {
            Some(s) => Some(Box::new(stmt_view(*s))),
            None => None,
        },
        span: c.span,
    }
}

pub open spec fn iteration_view(i: IterationStatement) -> IterView
    decreases i,
{
    IterView {
        variable: i.variable,
        type_: type_view(i.type_),
        start: expr_view(i.start),
        stop: expr_view(i.stop),
        inclusive: i.inclusive,
        block: block_view(i.block),
        span: i.span,
    }
}

pub open spec fn console_args_view(a: ConsoleArgs) -> ConsoleArgsView
    decreases a,
{
    ConsoleArgsView { string: a.string@, parameters: expr_views(a.parameters@), span: a.span }
}

pub open spec fn console_fn_view(f: ConsoleFunction) -> ConsoleFnView
    decreases f,
{
    match f {
        ConsoleFunction::Assert(e) => ConsoleFnView::Assert(expr_view(e)),
        ConsoleFunction::Error(a) => ConsoleFnView::Error(console_args_view(a)),
        ConsoleFunction::Log(a) => ConsoleFnView::Log(console_args_view(a)),
    }
}

pub open spec fn stmt_view(s: Statement) -> StmtView
    decreases s,
{
    match s {
        Statement::Return(r) => StmtView::Return(expr_view(r.expression), r.span),
        Statement::Definition(d) => StmtView::Definition(definition_view(d)),
        Statement::Assign(a) => StmtView::Assign(assign_view(*a)),
        Statement::Conditional(c) => StmtView::Conditional(conditional_view(c)),
        Statement::Iteration(i) => StmtView::Iteration(iteration_view(*i)),
        Statement::Console(c) => StmtView::Console(console_fn_view(c.function), c.span),
        Statement::Expression(e) => StmtView::Expression(expr_view(e.expression), e.span),
        Statement::Block(b) => StmtView::Block(block_view(b)),
    }
}

pub open spec fn stmt_views(s: Seq<Statement>) -> Seq<StmtView>
    decreases s,
{
    Seq::new(s.len(), |i: int| if 0 <= i < s.len() { stmt_view(s[i]) } else { arbitrary() })
}

// ------------------------------------------------------------------
// View functions: declarations
// ------------------------------------------------------------------

pub open spec fn fiv_view(v: FunctionInputVariable) -> FivView
    decreases v,
{
    FivView {
        identifier: v.identifier,
        const_: v.const_,
        mutable: v.mutable,
        type_: type_view(v.type_),
        span: v.span,
    }
}

pub open spec fn input_view(i: FunctionInput) -> InputView
    decreases i,
{
    match i {
        FunctionInput::InputKeyword(id) => InputView::InputKeyword(id),
        FunctionInput::SelfKeyword(id) => InputView::SelfKeyword(id),
        FunctionInput::Variable(v) => InputView::Variable(fiv_view(v)),
    }
}

pub open spec fn input_views(s: Seq<FunctionInput>) -> Seq<InputView>
    decreases s,
{
    Seq::new(s.len(), |i: int| if 0 <= i < s.len() { input_view(s[i]) } else { arbitrary() })
}

pub open spec fn import_tree_view(t: ImportTree) -> ImportTreeView {
    ImportTreeView { base: t.base@, alias: t.alias, span: t.span }
}

pub open spec fn import_statement_view(s: ImportStatement) -> ImportStmtView {
    ImportStmtView { tree: import_tree_view(s.tree), span: s.span }
}

pub open spec fn import_statement_views(s: Seq<ImportStatement>) -> Seq<ImportStmtView> {
    Seq::new(s.len(), |i: int| if 0 <= i < s.len() { import_statement_view(s[i]) } else { arbitrary() })
}

pub open spec fn annotation_view(a: Annotation) -> AnnotationView {
    AnnotationView { span: a.span, name: a.name, arguments: a.arguments@ }
}

pub open spec fn annotation_entry_views(s: Seq<(Symbol, Annotation)>) -> Seq<(Symbol, AnnotationView)> {
    Seq::new(s.len(), |i: int| if 0 <= i < s.len() { (s[i].0, annotation_view(s[i].1)) } else { arbitrary() })
}

pub open spec fn member_view(m: CircuitMember) -> MemberView
    decreases m,
{
    match m {
        CircuitMember::CircuitVariable(id, t) => MemberView::CircuitVariable(id, type_view(t)),
        CircuitMember::CircuitFunction(f) => MemberView::CircuitFunction(function_view(*f)),
    }
}

pub open spec fn member_views(s: Seq<CircuitMember>) -> Seq<MemberView>
    decreases s,
{
    Seq::new(s.len(), |i: int| if 0 <= i < s.len() { member_view(s[i]) } else { arbitrary() })
}

pub open spec fn circuit_view(c: Circuit) -> CircuitView
    decreases c,
{
    CircuitView { circuit_name: c.circuit_name, members: member_views(c.members@) }
}

pub open spec fn alias_view(a: Alias) -> AliasView
    decreases a,
{
    AliasView { name: a.name, represents: type_view(a.represents), span: a.span }
}

pub open spec fn function_view(f: Function) -> FunctionView
    decreases f,
{
    FunctionView {
        identifier: f.identifier,
        annotations: annotation_entry_views(f.annotations@),
        input: input_views(f.input@),
        const_: f.const_,
        output: type_view(f.output),
        block: block_view(f.block),
        core_mapping: f.core_mapping,
        span: f.span,
    }
}

pub open spec fn import_entry_views(s: Seq<(Vec<Symbol>, Program)>) -> Seq<(Seq<Symbol>, ProgramView)>
    decreases s,
{
    Seq::new(s.len(), |i: int| if 0 <= i < s.len() { (s[i].0@, program_view(s[i].1)) } else { arbitrary() })
}

pub open spec fn alias_entry_views(s: Seq<(Identifier, Alias)>) -> Seq<(Identifier, AliasView)>
    decreases s,
{
    Seq::new(s.len(), |i: int| if 0 <= i < s.len() { (s[i].0, alias_view(s[i].1)) } else { arbitrary() })
}

pub open spec fn circuit_entry_views(s: Seq<(Identifier, Circuit)>) -> Seq<(Identifier, CircuitView)>
    decreases s,
{
    Seq::new(s.len(), |i: int| if 0 <= i < s.len() { (s[i].0, circuit_view(s[i].1)) } else { arbitrary() })
}

pub open spec fn function_entry_views(s: Seq<(Identifier, Function)>) -> Seq<(Identifier, FunctionView)>
    decreases s,
{
    Seq::new(s.len(), |i: int| if 0 <= i < s.len() { (s[i].0, function_view(s[i].1)) } else { arbitrary() })
}

pub open spec fn gconst_entry_views(s: Seq<(Vec<Identifier>, DefinitionStatement)>) -> Seq<(Seq<Identifier>, DefView)>
    decreases s,
{
    Seq::new(s.len(), |i: int| if 0 <= i < s.len() { (s[i].0@, definition_view(s[i].1)) } else { arbitrary() })
}

pub open spec fn program_view(p: Program) -> ProgramView
    decreases p,
{
    ProgramView {
        name: p.name@,
        expected_input: input_views(p.expected_input@),
        import_statements: import_statement_views(p.import_statements@),
        imports: import_entry_views(p.imports@),
        aliases: alias_entry_views(p.aliases@),
        circuits: circuit_entry_views(p.circuits@),
        functions: function_entry_views(p.functions@),
        global_consts: gconst_entry_views(p.global_consts@),
    }
}

// ------------------------------------------------------------------
// Key sequences of the program aggregates
// ------------------------------------------------------------------

pub open spec fn import_keys(p: ProgramView) -> Seq<Seq<Symbol>> {
    Seq::new(p.imports.len(), |i: int| if 0 <= i < p.imports.len() { p.imports[i].0 } else { arbitrary() })
}

pub open spec fn alias_keys(p: ProgramView) -> Seq<Identifier> {
    Seq::new(p.aliases.len(), |i: int| if 0 <= i < p.aliases.len() { p.aliases[i].0 } else { arbitrary() })
}

pub open spec fn circuit_keys(p: ProgramView) -> Seq<Identifier> {
    Seq::new(p.circuits.len(), |i: int| if 0 <= i < p.circuits.len() { p.circuits[i].0 } else { arbitrary() })
}

pub open spec fn function_keys(p: ProgramView) -> Seq<Identifier> {
    Seq::new(p.functions.len(), |i: int| if 0 <= i < p.functions.len() { p.functions[i].0 } else { arbitrary() })
}

pub open spec fn global_const_keys(p: ProgramView) -> Seq<Seq<Identifier>> {
    Seq::new(p.global_consts.len(), |i: int| if 0 <= i < p.global_consts.len() { p.global_consts[i].0 } else { arbitrary() })
}

/// The aggregates of a well-formed program name each alias, circuit,
/// function, import and global constant once.
pub open spec fn program_keys_unique(p: ProgramView) -> bool {
    &&& forall|i: int, j: int|
        0 <= i < j < p.imports.len() ==> p.imports[i].0 !== p.imports[j].0
    &&& forall|i: int, j: int|
        0 <= i < j < p.aliases.len() ==> p.aliases[i].0 !== p.aliases[j].0
    &&& forall|i: int, j: int|
        0 <= i < j < p.circuits.len() ==> p.circuits[i].0 !== p.circuits[j].0
    &&& forall|i: int, j: int|
        0 <= i < j < p.functions.len() ==> p.functions[i].0 !== p.functions[j].0
    &&& forall|i: int, j: int|
        0 <= i < j < p.global_consts.len() ==> p.global_consts[i].0 !== p.global_consts[j].0
}

} // verus!

verus! {

// ------------------------------------------------------------------
// Skeletons: a tree's view with every renameable identifier's name
// erased.  An identifier is renameable where the driver hands it to the
// protocol's `reduce_identifier` hook (expression, statement and
// declaration positions, and the keys of the `aliases`, `circuits` and
// `functions` aggregates); identifiers inside types, import trees and the
// `imports` / `global_consts` keys are carried through verbatim and keep
// their names.  Two trees with equal skeletons have the same structure,
// spans, operators and values everywhere, differing at most in renameable
// identifier names.
// ------------------------------------------------------------------

pub open spec fn skel_ident(id: Identifier) -> Identifier {
    Identifier { name: 0, span: id.span }
}

pub open spec fn skel_vname(v: VariableName) -> VariableName {
    VariableName { mutable: v.mutable, identifier: skel_ident(v.identifier), span: v.span }
}

pub open spec fn skel_civ(c: CivView) -> CivView
    decreases c,
{
    CivView {
        identifier: skel_ident(c.identifier),
        expression: match c.expression {
            Some(e) => Some(skel_expr(e)),
            None => None,
        },
    }
}

pub open spec fn skel_civ_seq(s: Seq<CivView>) -> Seq<CivView>
    decreases s,
{
    Seq::new(s.len(), |i: int| if 0 <= i < s.len() { skel_civ(s[i]) } else { arbitrary() })
}

pub open spec fn skel_spread(s: SpreadView) -> SpreadView
    decreases s,
{
    match s {
        SpreadView::Spread(e) => SpreadView::Spread(skel_expr(e)),
        SpreadView::Expression(e) => SpreadView::Expression(skel_expr(e)),
    }
}

pub open spec fn skel_spread_seq(s: Seq<SpreadView>) -> Seq<SpreadView>
    decreases s,
{
    Seq::new(s.len(), |i: int| if 0 <= i < s.len() { skel_spread(s[i]) } else { arbitrary() })
}

pub open spec fn skel_expr_seq(s: Seq<ExprView>) -> Seq<ExprView>
    decreases s,
{
    Seq::new(s.len(), |i: int| if 0 <= i < s.len() { skel_expr(s[i]) } else { arbitrary() })
}

pub open spec fn skel_expr(e: ExprView) -> ExprView
    decreases e,
{
    match e {
        ExprView::Identifier(id) => ExprView::Identifier(skel_ident(id)),
        ExprView::Value(v) => ExprView::Value(v),
        ExprView::Binary(l, r, op, span) => ExprView::Binary(
            Box::new(skel_expr(*l)),
            Box::new(skel_expr(*r)),
            op,
            span,
        ),
        ExprView::Unary(inner, op, span) => ExprView::Unary(Box::new(skel_expr(*inner)), op, span),
        ExprView::Ternary(c, t, f, span) => ExprView::Ternary(
            Box::new(skel_expr(*c)),
            Box::new(skel_expr(*t)),
            Box::new(skel_expr(*f)),
            span,
        ),
        ExprView::Cast(inner, ty, span) => ExprView::Cast(Box::new(skel_expr(*inner)), ty, span),
        ExprView::ArrayAccess(a, i, span) => ExprView::ArrayAccess(
            Box::new(skel_expr(*a)),
            Box::new(skel_expr(*i)),
            span,
        ),
        ExprView::ArrayRangeAccess(a, l, r, span) => ExprView::ArrayRangeAccess(
            Box::new(skel_expr(*a)),
            match l {
                Some(e2) => Some(Box::new(skel_expr(*e2))),
                None => None,
            },
            match r {
                Some(e2) => Some(Box::new(skel_expr(*e2))),
                None => None,
            },
            span,
        ),
        ExprView::MemberAccess(inner, name, span, ty) => ExprView::MemberAccess(
            Box::new(skel_expr(*inner)),
            skel_ident(name),
            span,
            ty,
        ),
        ExprView::TupleAccess(t, idx, span) => ExprView::TupleAccess(
            Box::new(skel_expr(*t)),
            idx,
            span,
        ),
        ExprView::StaticAccess(inner, name, ty, span) => ExprView::StaticAccess(
            Box::new(skel_expr(*inner)),
            skel_ident(name),
            ty,
            span,
        ),
        ExprView::ArrayInline(els, span) => ExprView::ArrayInline(skel_spread_seq(els), span),
        ExprView::ArrayInit(el, dims, span) => ExprView::ArrayInit(
            Box::new(skel_expr(*el)),
            dims,
            span,
        ),
        ExprView::TupleInit(els, span) => ExprView::TupleInit(skel_expr_seq(els), span),
        ExprView::CircuitInit(name, members, span) => ExprView::CircuitInit(
            skel_ident(name),
            skel_civ_seq(members),
            span,
        ),
        ExprView::Call(f, args, span) => ExprView::Call(
            Box::new(skel_expr(*f)),
            skel_expr_seq(args),
            span,
        ),
    }
}

pub open spec fn skel_access(a: AccessView) -> AccessView
    decreases a,
{
    match a {
        AccessView::ArrayRange(l, r) => AccessView::ArrayRange(
            match l {
                Some(e) => Some(skel_expr(e)),
                None => None,
            },
            match r {
                Some(e) => Some(skel_expr(e)),
                None => None,
            },
        ),
        AccessView::ArrayIndex(e) => AccessView::ArrayIndex(skel_expr(e)),
        AccessView::Tuple(n, span) => AccessView::Tuple(n, span),
        AccessView::Member(id) => AccessView::Member(skel_ident(id)),
    }
}

pub open spec fn skel_access_seq(s: Seq<AccessView>) -> Seq<AccessView>
    decreases s,
{
    Seq::new(s.len(), |i: int| if 0 <= i < s.len() { skel_access(s[i]) } else { arbitrary() })
}

pub open spec fn skel_assignee(a: AssigneeView) -> AssigneeView
    decreases a,
{
    AssigneeView {
        identifier: skel_ident(a.identifier),
        accesses: skel_access_seq(a.accesses),
        span: a.span,
    }
}

pub open spec fn skel_vname_seq(s: Seq<VariableName>) -> Seq<VariableName> {
    Seq::new(s.len(), |i: int| if 0 <= i < s.len() { skel_vname(s[i]) } else { arbitrary() })
}

pub open spec fn skel_def(d: DefView) -> DefView
    decreases d,
{
    DefView {
        declaration_type: d.declaration_type,
        variable_names: skel_vname_seq(d.variable_names),
        parened: d.parened,
        type_: d.type_,
        value: skel_expr(d.value),
        span: d.span,
    }
}

pub open spec fn skel_assign(a: AssignView) -> AssignView
    decreases a,
{
    AssignView {
        operation: a.operation,
        assignee: skel_assignee(a.assignee),
        value: skel_expr(a.value),
        span: a.span,
    }
}

pub open spec fn skel_cond(c: CondView) -> CondView
    decreases c,
{
    CondView {
        condition: skel_expr(c.condition),
        block: skel_block(c.block),
        next: match c.next {
            Some(s) => Some(Box::new(skel_stmt(*s))),
            None => None,
        },
        span: c.span,
    }
}

pub open spec fn skel_iter(i: IterView) -> IterView
    decreases i,
{
    IterView {
        variable: skel_ident(i.variable),
        type_: i.type_,
        start: skel_expr(i.start),
        stop: skel_expr(i.stop),
        inclusive: i.inclusive,
        block: skel_block(i.block),
        span: i.span,
    }
}

pub open spec fn skel_console_args(a: ConsoleArgsView) -> ConsoleArgsView
    decreases a,
{
    ConsoleArgsView { string: a.string, parameters: skel_expr_seq(a.parameters), span: a.span }
}

pub open spec fn skel_console_fn(f: ConsoleFnView) -> ConsoleFnView
    decreases f,
{
    match f {
        ConsoleFnView::Assert(e) => ConsoleFnView::Assert(skel_expr(e)),
        ConsoleFnView::Error(a) => ConsoleFnView::Error(skel_console_args(a)),
        ConsoleFnView::Log(a) => ConsoleFnView::Log(skel_console_args(a)),
    }
}

pub open spec fn skel_block(b: BlockView) -> BlockView
    decreases b,
{
    BlockView { statements: skel_stmt_seq(b.statements), span: b.span }
}

pub open spec fn skel_stmt_seq(s: Seq<StmtView>) -> Seq<StmtView>
    decreases s,
{
    Seq::new(s.len(), |i: int| if 0 <= i < s.len() { skel_stmt(s[i]) } else { arbitrary() })
}

pub open spec fn skel_stmt(s: StmtView) -> StmtView
    decreases s,
{
    match s {
        StmtView::Return(e, span) => StmtView::Return(skel_expr(e), span),
        StmtView::Definition(d) => StmtView::Definition(skel_def(d)),
        StmtView::Assign(a) => StmtView::Assign(skel_assign(a)),
        StmtView::Conditional(c) => StmtView::Conditional(skel_cond(c)),
        StmtView::Iteration(i) => StmtView::Iteration(skel_iter(i)),
        StmtView::Console(f, span) => StmtView::Console(skel_console_fn(f), span),
        StmtView::Expression(e, span) => StmtView::Expression(skel_expr(e), span),
        StmtView::Block(b) => StmtView::Block(skel_block(b)),
    }
}

pub open spec fn skel_fiv(v: FivView) -> FivView {
    FivView {
        identifier: skel_ident(v.identifier),
        const_: v.const_,
        mutable: v.mutable,
        type_: v.type_,
        span: v.span,
    }
}

pub open spec fn skel_input(i: InputView) -> InputView {
    match i {
        InputView::InputKeyword(id) => InputView::InputKeyword(skel_ident(id)),
        InputView::SelfKeyword(id) => InputView::SelfKeyword(skel_ident(id)),
        InputView::Variable(v) => InputView::Variable(skel_fiv(v)),
    }
}

pub open spec fn skel_input_seq(s: Seq<InputView>) -> Seq<InputView> {
    Seq::new(s.len(), |i: int| if 0 <= i < s.len() { skel_input(s[i]) } else { arbitrary() })
}

pub open spec fn skel_annotation(a: AnnotationView) -> AnnotationView {
    AnnotationView { span: a.span, name: skel_ident(a.name), arguments: a.arguments }
}

pub open spec fn skel_annotation_entry_seq(s: Seq<(Symbol, AnnotationView)>) -> Seq<
    (Symbol, AnnotationView),
> {
    Seq::new(s.len(), |i: int| if 0 <= i < s.len() { (s[i].0, skel_annotation(s[i].1)) } else { arbitrary() })
}

pub open spec fn skel_member(m: MemberView) -> MemberView
    decreases m,
{
    match m {
        MemberView::CircuitVariable(id, t) => MemberView::CircuitVariable(skel_ident(id), t),
        MemberView::CircuitFunction(f) => MemberView::CircuitFunction(skel_function(f)),
    }
}

pub open spec fn skel_member_seq(s: Seq<MemberView>) -> Seq<MemberView>
    decreases s,
{
    Seq::new(s.len(), |i: int| if 0 <= i < s.len() { skel_member(s[i]) } else { arbitrary() })
}

pub open spec fn skel_circuit(c: CircuitView) -> CircuitView
    decreases c,
{
    CircuitView { circuit_name: skel_ident(c.circuit_name), members: skel_member_seq(c.members) }
}

pub open spec fn skel_alias(a: AliasView) -> AliasView {
    AliasView { name: skel_ident(a.name), represents: a.represents, span: a.span }
}

pub open spec fn skel_function(f: FunctionView) -> FunctionView
    decreases f,
{
    FunctionView {
        identifier: skel_ident(f.identifier),
        annotations: skel_annotation_entry_seq(f.annotations),
        input: skel_input_seq(f.input),
        const_: f.const_,
        output: f.output,
        block: skel_block(f.block),
        core_mapping: f.core_mapping,
        span: f.span,
    }
}

pub open spec fn skel_import_entry_seq(s: Seq<(Seq<Symbol>, ProgramView)>) -> Seq<
    (Seq<Symbol>, ProgramView),
>
    decreases s,
{
    Seq::new(s.len(), |i: int| if 0 <= i < s.len() { (s[i].0, skel_program(s[i].1)) } else { arbitrary() })
}

pub open spec fn skel_alias_entry_seq(s: Seq<(Identifier, AliasView)>) -> Seq<
    (Identifier, AliasView),
> {
    Seq::new(s.len(), |i: int| if 0 <= i < s.len() { (skel_ident(s[i].0), skel_alias(s[i].1)) } else { arbitrary() })
}

pub open spec fn skel_circuit_entry_seq(s: Seq<(Identifier, CircuitView)>) -> Seq<
    (Identifier, CircuitView),
>
    decreases s,
{
    Seq::new(s.len(), |i: int| if 0 <= i < s.len() { (skel_ident(s[i].0), skel_circuit(s[i].1)) } else { arbitrary() })
}

pub open spec fn skel_function_entry_seq(s: Seq<(Identifier, FunctionView)>) -> Seq<
    (Identifier, FunctionView),
>
    decreases s,
{
    Seq::new(s.len(), |i: int| if 0 <= i < s.len() { (skel_ident(s[i].0), skel_function(s[i].1)) } else { arbitrary() })
}

pub open spec fn skel_gconst_entry_seq(s: Seq<(Seq<Identifier>, DefView)>) -> Seq<
    (Seq<Identifier>, DefView),
>
    decreases s,
{
    Seq::new(s.len(), |i: int| if 0 <= i < s.len() { (s[i].0, skel_def(s[i].1)) } else { arbitrary() })
}

pub open spec fn skel_program(p: ProgramView) -> ProgramView
    decreases p,
{
    ProgramView {
        name: p.name,
        expected_input: skel_input_seq(p.expected_input),
        import_statements: p.import_statements,
        imports: skel_import_entry_seq(p.imports),
        aliases: skel_alias_entry_seq(p.aliases),
        circuits: skel_circuit_entry_seq(p.circuits),
        functions: skel_function_entry_seq(p.functions),
        global_consts: skel_gconst_entry_seq(p.global_consts),
    }
}

} // verus!
