//! The reconstruction protocol: one hook per node kind.  Every hook has a
//! default body that reassembles the node from the already-reduced children
//! and copies the identity-bearing fields (span, operator tags, flags) from
//! the original verbatim.  A pass overrides only the hooks it cares about;
//! the other node kinds keep the proved default behaviour.
//!
//! The trait carries two ghost claims.  [`ReconstructingReducer::is_identity`]:
//! an implementation that claims it must behave as the defaults do on every
//! hook, and the traversal driver is proved to return the input tree
//! unchanged for such an implementation.
//! [`ReconstructingReducer::is_leaf_transform`]: the implementation behaves
//! as the defaults on every hook except `reduce_identifier`, which must
//! succeed and keep the identifier's span; the driver is proved to succeed
//! and return a tree with the input's skeleton for such an implementation.
//! A hook's contract is conditional on the claims, so a transforming pass
//! that claims neither is unconstrained.
use vstd::prelude::*;
use crate::ast::{
    Span, Symbol, Char, Identifier, PositiveNumber, Type, GroupTuple, GroupValue,
    ValueExpression, BinaryOperation, UnaryOperation, BinaryExpression, UnaryExpression,
    TernaryExpression, CastExpression, ArrayAccess, ArrayRangeAccess, MemberAccess, TupleAccess,
    StaticAccess, SpreadOrExpression, ArrayInlineExpression, ArrayInitExpression,
    TupleInitExpression, CircuitVariableInitializer, CircuitInitExpression, CallExpression,
    Expression, ReturnStatement, VariableName, DefinitionStatement, AssigneeAccess, Assignee,
    AssignStatement, ConditionalStatement, IterationStatement, ConsoleFunction, ConsoleStatement,
    ExpressionStatement, Block, Statement, FunctionInputVariable, FunctionInput, ImportTree,
    ImportStatement, Annotation, CircuitMember, Circuit, Function, Program,
};

verus! {

broadcast use vstd::std_specs::vec::group_vec_axioms;

/// A reduction failure, tied to the span of the node whose reduction
/// failed.  Defaults never fail; only an override raises this.
#[derive(Clone, Copy, Debug, PartialEq, Eq, Structural)]
pub struct ReduceError {
    pub span: Span,
}

/// Copy a vector of plain values element for element.
pub fn copy_vec<T: Copy>(v: &Vec<T>) -> (r: Vec<T>)
    ensures
        r@ == v@,
{
    let mut r: Vec<T> = Vec::new();
    let mut i: usize = 0;
    #[verifier::loop_isolation(false)]
    while i < v.len()
        invariant
            i <= v.len(),
            r@ == v@.take(i as int),
        decreases v.len() - i,
    {
        r.push(v[i]);
        i = i + 1;
    }
    proof {
        assert(r@ =~= v@);
    }
    r
}

/// Copy a slice of plain values element for element.
pub fn copy_slice<T: Copy>(s: &[T]) -> (r: Vec<T>)
    ensures
        r@ == s@,
{
    let mut r: Vec<T> = Vec::new();
    let mut i: usize = 0;
    #[verifier::loop_isolation(false)]
    while i < s.len()
        invariant
            i <= s.len(),
            r@ == s@.take(i as int),
        decreases s.len() - i,
    {
        r.push(s[i]);
        i = i + 1;
    }
    proof {
        assert(r@ =~= s@);
    }
    r
}

// ------------------------------------------------------------------
// The default reconstruction rules.
//
// Each rule builds a new node whose recursive fields are exactly the
// supplied already-reduced children and whose non-recursive fields are
// copied from the original; in particular the output span is always the
// input node's span, never recomputed.
// ------------------------------------------------------------------

pub fn default_identifier(identifier: &Identifier) -> (r: Identifier)
    ensures
        r == *identifier,
{
    Identifier { name: identifier.name, span: identifier.span }
}

pub fn default_group_tuple(group_tuple: &GroupTuple) -> (r: GroupTuple)
    ensures
        r == *group_tuple,
{
    GroupTuple { x: group_tuple.x, y: group_tuple.y, span: group_tuple.span }
}

/// A string literal folds directly into a `Value`-kind expression; strings
/// have no node kind of their own.
pub fn default_string(string: &[Char], span: &Span) -> (r: Expression)
    ensures
        r matches Expression::Value(v) && (v matches ValueExpression::Str(cs, sp) && cs@ == string@
            && sp == *span),
{
    Expression::Value(ValueExpression::Str(copy_slice(string), *span))
}

pub fn default_binary(
    binary: &BinaryExpression,
    left: Expression,
    right: Expression,
    op: BinaryOperation,
) -> (r: BinaryExpression)
    ensures
        *r.left == left,
        *r.right == right,
        r.op == op,
        r.span == binary.span,
{
    BinaryExpression { left: Box::new(left), right: Box::new(right), op, span: binary.span }
}

pub fn default_unary(unary: &UnaryExpression, inner: Expression, op: UnaryOperation) -> (r:
    UnaryExpression)
    ensures
        *r.inner == inner,
        r.op == op,
        r.span == unary.span,
{
    UnaryExpression { inner: Box::new(inner), op, span: unary.span }
}

pub fn default_ternary(
    ternary: &TernaryExpression,
    condition: Expression,
    if_true: Expression,
    if_false: Expression,
) -> (r: TernaryExpression)
    ensures
        *r.condition == condition,
        *r.if_true == if_true,
        *r.if_false == if_false,
        r.span == ternary.span,
{
    TernaryExpression {
        condition: Box::new(condition),
        if_true: Box::new(if_true),
        if_false: Box::new(if_false),
        span: ternary.span,
    }
}

pub fn default_cast(cast: &CastExpression, inner: Expression, target_type: Type) -> (r:
    CastExpression)
    ensures
        *r.inner == inner,
        r.target_type == target_type,
        r.span == cast.span,
{
    CastExpression { inner: Box::new(inner), target_type, span: cast.span }
}

pub fn default_array_access(
    array_access: &ArrayAccess,
    array: Expression,
    index: Expression,
) -> (r: ArrayAccess)
    ensures
        *r.array == array,
        *r.index == index,
        r.span == array_access.span,
{
    ArrayAccess { array: Box::new(array), index: Box::new(index), span: array_access.span }
}

/// The optional range bounds keep their presence or absence exactly.
pub fn default_array_range_access(
    array_range_access: &ArrayRangeAccess,
    array: Expression,
    left: Option<Expression>,
    right: Option<Expression>,
) -> (r: ArrayRangeAccess)
    ensures
        *r.array == array,
        (match left {
            Some(e) => r.left matches Some(b) && *b == e,
            None => r.left is None,
        }),
        (match right {
            Some(e) => r.right matches Some(b) && *b == e,
            None => r.right is None,
        }),
        r.span == array_range_access.span,
{
    ArrayRangeAccess {
        array: Box::new(array),
        left: match left {
            Some(e) => Some(Box::new(e)),
            None => None,
        },
        right: match right {
            Some(e) => Some(Box::new(e)),
            None => None,
        },
        span: array_range_access.span,
    }
}

pub fn default_member_access(
    member_access: &MemberAccess,
    inner: Expression,
    name: Identifier,
    type_: Option<Type>,
) -> (r: MemberAccess)
    ensures
        *r.inner == inner,
        r.name == name,
        r.type_ == type_,
        r.span == member_access.span,
{
    MemberAccess { inner: Box::new(inner), name, span: member_access.span, type_ }
}

pub fn default_tuple_access(tuple_access: &TupleAccess, tuple: Expression) -> (r: TupleAccess)
    ensures
        *r.tuple == tuple,
        r.index == tuple_access.index,
        r.span == tuple_access.span,
{
    TupleAccess { tuple: Box::new(tuple), index: tuple_access.index, span: tuple_access.span }
}

pub fn default_static_access(
    static_access: &StaticAccess,
    value: Expression,
    type_: Type,
    name: Identifier,
) -> (r: StaticAccess)
    ensures
        *r.inner == value,
        r.name == name,
        r.type_ == type_,
        r.span == static_access.span,
{
    StaticAccess { inner: Box::new(value), name, type_, span: static_access.span }
}

pub fn default_array_inline(
    array_inline: &ArrayInlineExpression,
    elements: Vec<SpreadOrExpression>,
) -> (r: ArrayInlineExpression)
    ensures
        r.elements == elements,
        r.span == array_inline.span,
{
    ArrayInlineExpression { elements, span: array_inline.span }
}

pub fn default_array_init(array_init: &ArrayInitExpression, element: Expression) -> (r:
    ArrayInitExpression)
    ensures
        *r.element == element,
        r.dimensions@ == array_init.dimensions@,
        r.span == array_init.span,
{
    ArrayInitExpression {
        element: Box::new(element),
        dimensions: copy_vec(&array_init.dimensions),
        span: array_init.span,
    }
}

pub fn default_tuple_init(tuple_init: &TupleInitExpression, elements: Vec<Expression>) -> (r:
    TupleInitExpression)
    ensures
        r.elements == elements,
        r.span == tuple_init.span,
{
    TupleInitExpression { elements, span: tuple_init.span }
}

pub fn default_circuit_variable_initializer(
    identifier: Identifier,
    expression: Option<Expression>,
) -> (r: CircuitVariableInitializer)
    ensures
        r.identifier == identifier,
        r.expression == expression,
{
    CircuitVariableInitializer { identifier, expression }
}

pub fn default_circuit_init(
    circuit_init: &CircuitInitExpression,
    name: Identifier,
    members: Vec<CircuitVariableInitializer>,
) -> (r: CircuitInitExpression)
    ensures
        r.name == name,
        r.members == members,
        r.span == circuit_init.span,
{
    CircuitInitExpression { name, members, span: circuit_init.span }
}

pub fn default_call(call: &CallExpression, function: Expression, arguments: Vec<Expression>) -> (r:
    CallExpression)
    ensures
        *r.function == function,
        r.arguments == arguments,
        r.span == call.span,
{
    CallExpression { function: Box::new(function), arguments, span: call.span }
}

pub fn default_return(return_statement: &ReturnStatement, expression: Expression) -> (r:
    ReturnStatement)
    ensures
        r.expression == expression,
        r.span == return_statement.span,
{
    ReturnStatement { expression, span: return_statement.span }
}

pub fn default_variable_name(variable_name: &VariableName, identifier: Identifier) -> (r:
    VariableName)
    ensures
        r.mutable == variable_name.mutable,
        r.identifier == identifier,
        r.span == variable_name.span,
{
    VariableName { mutable: variable_name.mutable, identifier, span: variable_name.span }
}

pub fn default_definition(
    definition: &DefinitionStatement,
    variable_names: Vec<VariableName>,
    type_: Type,
    value: Expression,
) -> (r: DefinitionStatement)
    ensures
        r.declaration_type == definition.declaration_type,
        r.variable_names == variable_names,
        r.parened == definition.parened,
        r.type_ == type_,
        r.value == value,
        r.span == definition.span,
{
    DefinitionStatement {
        declaration_type: definition.declaration_type,
        variable_names,
        parened: definition.parened,
        type_,
        value,
        span: definition.span,
    }
}

pub fn default_assignee(
    assignee: &Assignee,
    identifier: Identifier,
    accesses: Vec<AssigneeAccess>,
) -> (r: Assignee)
    ensures
        r.identifier == identifier,
        r.accesses == accesses,
        r.span == assignee.span,
{
    Assignee { identifier, accesses, span: assignee.span }
}

pub fn default_assign(assign: &AssignStatement, assignee: Assignee, value: Expression) -> (r:
    AssignStatement)
    ensures
        r.operation == assign.operation,
        r.assignee == assignee,
        r.value == value,
        r.span == assign.span,
{
    AssignStatement { operation: assign.operation, assignee, value, span: assign.span }
}

/// An absent else-branch stays absent; it is never replaced by any default.
pub fn default_conditional(
    conditional: &ConditionalStatement,
    condition: Expression,
    block: Block,
    statement: Option<Statement>,
) -> (r: ConditionalStatement)
    ensures
        r.condition == condition,
        r.block == block,
        (match statement {
            Some(s) => r.next matches Some(b) && *b == s,
            None => r.next is None,
        }),
        r.next is Some <==> statement is Some,
        r.span == conditional.span,
{
    ConditionalStatement {
        condition,
        block,
        next: match statement {
            Some(s) => Some(Box::new(s)),
            None => None,
        },
        span: conditional.span,
    }
}

pub fn default_iteration(
    iteration: &IterationStatement,
    variable: Identifier,
    type_: Type,
    start: Expression,
    stop: Expression,
    block: Block,
) -> (r: IterationStatement)
    ensures
        r.variable == variable,
        r.type_ == type_,
        r.start == start,
        r.stop == stop,
        r.inclusive == iteration.inclusive,
        r.block == block,
        r.span == iteration.span,
{
    IterationStatement {
        variable,
        type_,
        start,
        stop,
        inclusive: iteration.inclusive,
        block,
        span: iteration.span,
    }
}

pub fn default_console(console: &ConsoleStatement, function: ConsoleFunction) -> (r:
    ConsoleStatement)
    ensures
        r.function == function,
        r.span == console.span,
{
    ConsoleStatement { function, span: console.span }
}

pub fn default_expression_statement(
    expression_statement: &ExpressionStatement,
    expression: Expression,
) -> (r: ExpressionStatement)
    ensures
        r.expression == expression,
        r.span == expression_statement.span,
{
    ExpressionStatement { expression, span: expression_statement.span }
}

pub fn default_block(block: &Block, statements: Vec<Statement>) -> (r: Block)
    ensures
        r.statements == statements,
        r.span == block.span,
{
    Block { statements, span: block.span }
}

/// The aggregate is reassembled verbatim; `name` is metadata the protocol
/// never rewrites.
pub fn default_program(
    program: &Program,
    expected_input: Vec<FunctionInput>,
    import_statements: Vec<ImportStatement>,
    imports: Vec<(Vec<Symbol>, Program)>,
    aliases: Vec<(Identifier, crate::ast::Alias)>,
    circuits: Vec<(Identifier, Circuit)>,
    functions: Vec<(Identifier, Function)>,
    global_consts: Vec<(Vec<Identifier>, DefinitionStatement)>,
) -> (r: Program)
    ensures
        r.name == program.name,
        r.expected_input == expected_input,
        r.import_statements == import_statements,
        r.imports == imports,
        r.aliases == aliases,
        r.circuits == circuits,
        r.functions == functions,
        r.global_consts == global_consts,
{
    Program {
        name: program.name.clone(),
        expected_input,
        import_statements,
        imports,
        aliases,
        circuits,
        functions,
        global_consts,
    }
}

pub fn default_function_input_variable(
    variable: &FunctionInputVariable,
    identifier: Identifier,
    type_: Type,
) -> (r: FunctionInputVariable)
    ensures
        r.identifier == identifier,
        r.const_ == variable.const_,
        r.mutable == variable.mutable,
        r.type_ == type_,
        r.span == variable.span,
{
    FunctionInputVariable {
        identifier,
        const_: variable.const_,
        mutable: variable.mutable,
        type_,
        span: variable.span,
    }
}

pub fn default_import_statement(import: &ImportStatement, tree: ImportTree) -> (r: ImportStatement)
    ensures
        r.tree == tree,
        r.span == import.span,
{
    ImportStatement { tree, span: import.span }
}

pub fn default_circuit(circuit_name: Identifier, members: Vec<CircuitMember>) -> (r: Circuit)
    ensures
        r.circuit_name == circuit_name,
        r.members == members,
{
    Circuit { circuit_name, members }
}

pub fn default_annotation(annotation: &Annotation, name: Identifier) -> (r: Annotation)
    ensures
        r.span == annotation.span,
        r.name == name,
        r.arguments@ == annotation.arguments@,
{
    Annotation { span: annotation.span, name, arguments: copy_vec(&annotation.arguments) }
}

/// The aggregate is reassembled verbatim; `core_mapping` is metadata the
/// protocol never rewrites.
pub fn default_function(
    function: &Function,
    identifier: Identifier,
    annotations: Vec<(Symbol, Annotation)>,
    input: Vec<FunctionInput>,
    const_: bool,
    output: Type,
    block: Block,
) -> (r: Function)
    ensures
        r.identifier == identifier,
        r.annotations == annotations,
        r.input == input,
        r.const_ == const_,
        r.output == output,
        r.block == block,
        r.core_mapping == function.core_mapping,
        r.span == function.span,
{
    Function {
        identifier,
        annotations,
        input,
        const_,
        output,
        block,
        core_mapping: function.core_mapping,
        span: function.span,
    }
}

} // verus!

verus! {

/// The reconstruction protocol.  A pass implements this trait and overrides
/// only the hooks it needs; every hook it leaves alone keeps the default
/// body, which delegates to the matching `default_*` rule.
///
/// `is_identity` is a ghost claim: an implementation that returns `true`
/// promises (and must prove, if it overrides a hook) that every hook
/// succeeds and behaves exactly as the default rule.  The driver's
/// identity theorem holds for any such implementation.  A transforming
/// pass simply declares `is_identity() == false` and is unconstrained.
pub trait ReconstructingReducer: Sized {
    /// Whether this implementation behaves as the all-default protocol.
    spec fn is_identity(&self) -> bool;

    /// Whether this implementation is a leaf transform: every hook except
    /// `reduce_identifier` behaves exactly as the default, and
    /// `reduce_identifier` always succeeds and keeps the identifier's span.
    /// A pass that claims this states which hook it overrides and gets the
    /// default behaviour of all the others guaranteed by contract.
    spec fn is_leaf_transform(&self) -> bool;

    /// The current value of the circuit-context bit.
    spec fn in_circuit_mode(&self) -> bool;

    fn in_circuit(&self) -> (b: bool)
        ensures
            b == self.in_circuit_mode(),
    ;

    fn swap_in_circuit(&mut self)
        ensures
            final(self).in_circuit_mode() == !old(self).in_circuit_mode(),
            final(self).is_identity() == old(self).is_identity(),
    ;

    /// Scoped entry into circuit context: sets the bit and hands back its
    /// prior value, to be given to [`Self::restore_circuit`] on every exit
    /// path.  Unlike a bare toggle, a paired enter/restore puts the bit
    /// back to what it was no matter how often the bit changed in between.
    fn enter_circuit(&mut self) -> (prior: bool)
        ensures
            prior == old(self).in_circuit_mode(),
            final(self).in_circuit_mode(),
            final(self).is_identity() == old(self).is_identity(),
    {
        let prior = self.in_circuit();
        if !prior {
            self.swap_in_circuit();
        }
        prior
    }

    /// Scoped exit from circuit context: puts the bit back to the value
    /// that the matching [`Self::enter_circuit`] handed out, whatever the
    /// bit holds now.
    fn restore_circuit(&mut self, prior: bool)
        ensures
            final(self).in_circuit_mode() == prior,
            final(self).is_identity() == old(self).is_identity(),
    {
        let now = self.in_circuit();
        if now != prior {
            self.swap_in_circuit();
        }
    }

    fn reduce_type(&mut self, _type_: &Type, new: Type, _span: &Span) -> (r: Result<
        Type,
        ReduceError,
    >)
        ensures
            old(self).is_identity() ==> final(self).is_identity() && final(self).in_circuit_mode() == old(self).in_circuit_mode() && (r matches Ok(t) && t == new),
            old(self).is_leaf_transform() ==> final(self).is_leaf_transform() && final(self).in_circuit_mode() == old(self).in_circuit_mode() && (r matches Ok(t) && t == new),
    {
        Ok(new)
    }

    fn reduce_expression(&mut self, _expression: &Expression, new: Expression) -> (r: Result<
        Expression,
        ReduceError,
    >)
        ensures
            old(self).is_identity() ==> final(self).is_identity() && final(self).in_circuit_mode() == old(self).in_circuit_mode() && (r matches Ok(e) && e == new),
            old(self).is_leaf_transform() ==> final(self).is_leaf_transform() && final(self).in_circuit_mode() == old(self).in_circuit_mode() && (r matches Ok(e) && e == new),
    {
        Ok(new)
    }

    fn reduce_identifier(&mut self, identifier: &Identifier) -> (r: Result<Identifier, ReduceError>)
        ensures
            old(self).is_identity() ==> final(self).is_identity() && final(self).in_circuit_mode() == old(self).in_circuit_mode() && (r matches Ok(id) && id
                == *identifier),
            old(self).is_leaf_transform() ==> final(self).is_leaf_transform() && final(self).in_circuit_mode() == old(self).in_circuit_mode() && (r matches Ok(id) && id.span
                == identifier.span),
    {
        Ok(default_identifier(identifier))
    }

    fn reduce_group_tuple(&mut self, group_tuple: &GroupTuple) -> (r: Result<GroupTuple, ReduceError>)
        ensures
            old(self).is_identity() ==> final(self).is_identity() && final(self).in_circuit_mode() == old(self).in_circuit_mode() && (r matches Ok(g) && g
                == *group_tuple),
            old(self).is_leaf_transform() ==> final(self).is_leaf_transform() && final(self).in_circuit_mode() == old(self).in_circuit_mode() && (r matches Ok(g) && g
                == *group_tuple),
    {
        Ok(default_group_tuple(group_tuple))
    }

    fn reduce_group_value(&mut self, _group_value: &GroupValue, new: GroupValue) -> (r: Result<
        GroupValue,
        ReduceError,
    >)
        ensures
            old(self).is_identity() ==> final(self).is_identity() && final(self).in_circuit_mode() == old(self).in_circuit_mode() && (r matches Ok(g) && g == new),
            old(self).is_leaf_transform() ==> final(self).is_leaf_transform() && final(self).in_circuit_mode() == old(self).in_circuit_mode() && (r matches Ok(g) && g == new),
    {
        Ok(new)
    }

    fn reduce_string(&mut self, string: &[Char], span: &Span) -> (r: Result<Expression, ReduceError>)
        ensures
            old(self).is_identity() ==> final(self).is_identity() && final(self).in_circuit_mode() == old(self).in_circuit_mode() && (r matches Ok(e) && (
            e matches Expression::Value(v) && (v matches ValueExpression::Str(cs, sp) && cs@
                == string@ && sp == *span))),
            old(self).is_leaf_transform() ==> final(self).is_leaf_transform() && final(self).in_circuit_mode() == old(self).in_circuit_mode() && (r matches Ok(e) && (
            e matches Expression::Value(v) && (v matches ValueExpression::Str(cs, sp) && cs@
                == string@ && sp == *span))),
    {
        Ok(default_string(string, span))
    }

    fn reduce_value(&mut self, _value: &ValueExpression, new: Expression) -> (r: Result<
        Expression,
        ReduceError,
    >)
        ensures
            old(self).is_identity() ==> final(self).is_identity() && final(self).in_circuit_mode() == old(self).in_circuit_mode() && (r matches Ok(e) && e == new),
            old(self).is_leaf_transform() ==> final(self).is_leaf_transform() && final(self).in_circuit_mode() == old(self).in_circuit_mode() && (r matches Ok(e) && e == new),
    {
        Ok(new)
    }

    fn reduce_binary(
        &mut self,
        binary: &BinaryExpression,
        left: Expression,
        right: Expression,
        op: BinaryOperation,
    ) -> (r: Result<BinaryExpression, ReduceError>)
        ensures
            old(self).is_identity() ==> final(self).is_identity() && final(self).in_circuit_mode() == old(self).in_circuit_mode() && (r matches Ok(b) && *b.left
                == left && *b.right == right && b.op == op && b.span == binary.span),
            old(self).is_leaf_transform() ==> final(self).is_leaf_transform() && final(self).in_circuit_mode() == old(self).in_circuit_mode() && (r matches Ok(b) && *b.left
                == left && *b.right == right && b.op == op && b.span == binary.span),
    {
        Ok(default_binary(binary, left, right, op))
    }

    fn reduce_unary(
        &mut self,
        unary: &UnaryExpression,
        inner: Expression,
        op: UnaryOperation,
    ) -> (r: Result<UnaryExpression, ReduceError>)
        ensures
            old(self).is_identity() ==> final(self).is_identity() && final(self).in_circuit_mode() == old(self).in_circuit_mode() && (r matches Ok(u) && *u.inner
                == inner && u.op == op && u.span == unary.span),
            old(self).is_leaf_transform() ==> final(self).is_leaf_transform() && final(self).in_circuit_mode() == old(self).in_circuit_mode() && (r matches Ok(u) && *u.inner
                == inner && u.op == op && u.span == unary.span),
    {
        Ok(default_unary(unary, inner, op))
    }

    fn reduce_ternary(
        &mut self,
        ternary: &TernaryExpression,
        condition: Expression,
        if_true: Expression,
        if_false: Expression,
    ) -> (r: Result<TernaryExpression, ReduceError>)
        ensures
            old(self).is_identity() ==> final(self).is_identity() && final(self).in_circuit_mode() == old(self).in_circuit_mode() && (r matches Ok(t) && *t.condition
                == condition && *t.if_true == if_true && *t.if_false == if_false && t.span
                == ternary.span),
            old(self).is_leaf_transform() ==> final(self).is_leaf_transform() && final(self).in_circuit_mode() == old(self).in_circuit_mode() && (r matches Ok(t) && *t.condition
                == condition && *t.if_true == if_true && *t.if_false == if_false && t.span
                == ternary.span),
    {
        Ok(default_ternary(ternary, condition, if_true, if_false))
    }

    fn reduce_cast(&mut self, cast: &CastExpression, inner: Expression, target_type: Type) -> (r:
        Result<CastExpression, ReduceError>)
        ensures
            old(self).is_identity() ==> final(self).is_identity() && final(self).in_circuit_mode() == old(self).in_circuit_mode() && (r matches Ok(c) && *c.inner
                == inner && c.target_type == target_type && c.span == cast.span),
            old(self).is_leaf_transform() ==> final(self).is_leaf_transform() && final(self).in_circuit_mode() == old(self).in_circuit_mode() && (r matches Ok(c) && *c.inner
                == inner && c.target_type == target_type && c.span == cast.span),
    {
        Ok(default_cast(cast, inner, target_type))
    }

    fn reduce_array_access(
        &mut self,
        array_access: &ArrayAccess,
        array: Expression,
        index: Expression,
    ) -> (r: Result<ArrayAccess, ReduceError>)
        ensures
            old(self).is_identity() ==> final(self).is_identity() && final(self).in_circuit_mode() == old(self).in_circuit_mode() && (r matches Ok(a) && *a.array
                == array && *a.index == index && a.span == array_access.span),
            old(self).is_leaf_transform() ==> final(self).is_leaf_transform() && final(self).in_circuit_mode() == old(self).in_circuit_mode() && (r matches Ok(a) && *a.array
                == array && *a.index == index && a.span == array_access.span),
    {
        Ok(default_array_access(array_access, array, index))
    }

    fn reduce_array_range_access(
        &mut self,
        array_range_access: &ArrayRangeAccess,
        array: Expression,
        left: Option<Expression>,
        right: Option<Expression>,
    ) -> (r: Result<ArrayRangeAccess, ReduceError>)
        ensures
            old(self).is_identity() ==> final(self).is_identity() && final(self).in_circuit_mode() == old(self).in_circuit_mode() && (r matches Ok(a) && *a.array
                == array && (match left {
                Some(e) => a.left matches Some(b) && *b == e,
                None => a.left is None,
            }) && (match right {
                Some(e) => a.right matches Some(b) && *b == e,
                None => a.right is None,
            }) && a.span == array_range_access.span),
            old(self).is_leaf_transform() ==> final(self).is_leaf_transform() && final(self).in_circuit_mode() == old(self).in_circuit_mode() && (r matches Ok(a) && *a.array
                == array && (match left {
                Some(e) => a.left matches Some(b) && *b == e,
                None => a.left is None,
            }) && (match right {
                Some(e) => a.right matches Some(b) && *b == e,
                None => a.right is None,
            }) && a.span == array_range_access.span),
    {
        Ok(default_array_range_access(array_range_access, array, left, right))
    }

    fn reduce_member_access(
        &mut self,
        member_access: &MemberAccess,
        inner: Expression,
        name: Identifier,
        type_: Option<Type>,
    ) -> (r: Result<MemberAccess, ReduceError>)
        ensures
            old(self).is_identity() ==> final(self).is_identity() && final(self).in_circuit_mode() == old(self).in_circuit_mode() && (r matches Ok(m) && *m.inner
                == inner && m.name == name && m.type_ == type_ && m.span == member_access.span),
            old(self).is_leaf_transform() ==> final(self).is_leaf_transform() && final(self).in_circuit_mode() == old(self).in_circuit_mode() && (r matches Ok(m) && *m.inner
                == inner && m.name == name && m.type_ == type_ && m.span == member_access.span),
    {
        Ok(default_member_access(member_access, inner, name, type_))
    }

    fn reduce_tuple_access(&mut self, tuple_access: &TupleAccess, tuple: Expression) -> (r: Result<
        TupleAccess,
        ReduceError,
    >)
        ensures
            old(self).is_identity() ==> final(self).is_identity() && final(self).in_circuit_mode() == old(self).in_circuit_mode() && (r matches Ok(t) && *t.tuple
                == tuple && t.index == tuple_access.index && t.span == tuple_access.span),
            old(self).is_leaf_transform() ==> final(self).is_leaf_transform() && final(self).in_circuit_mode() == old(self).in_circuit_mode() && (r matches Ok(t) && *t.tuple
                == tuple && t.index == tuple_access.index && t.span == tuple_access.span),
    {
        Ok(default_tuple_access(tuple_access, tuple))
    }

    fn reduce_static_access(
        &mut self,
        static_access: &StaticAccess,
        value: Expression,
        type_: Type,
        name: Identifier,
    ) -> (r: Result<StaticAccess, ReduceError>)
        ensures
            old(self).is_identity() ==> final(self).is_identity() && final(self).in_circuit_mode() == old(self).in_circuit_mode() && (r matches Ok(s) && *s.inner
                == value && s.name == name && s.type_ == type_ && s.span == static_access.span),
            old(self).is_leaf_transform() ==> final(self).is_leaf_transform() && final(self).in_circuit_mode() == old(self).in_circuit_mode() && (r matches Ok(s) && *s.inner
                == value && s.name == name && s.type_ == type_ && s.span == static_access.span),
    {
        Ok(default_static_access(static_access, value, type_, name))
    }

    fn reduce_array_inline(
        &mut self,
        array_inline: &ArrayInlineExpression,
        elements: Vec<SpreadOrExpression>,
    ) -> (r: Result<ArrayInlineExpression, ReduceError>)
        ensures
            old(self).is_identity() ==> final(self).is_identity() && final(self).in_circuit_mode() == old(self).in_circuit_mode() && (r matches Ok(a) && a.elements
                == elements && a.span == array_inline.span),
            old(self).is_leaf_transform() ==> final(self).is_leaf_transform() && final(self).in_circuit_mode() == old(self).in_circuit_mode() && (r matches Ok(a) && a.elements
                == elements && a.span == array_inline.span),
    {
        Ok(default_array_inline(array_inline, elements))
    }

    fn reduce_array_init(&mut self, array_init: &ArrayInitExpression, element: Expression) -> (r:
        Result<ArrayInitExpression, ReduceError>)
        ensures
            old(self).is_identity() ==> final(self).is_identity() && final(self).in_circuit_mode() == old(self).in_circuit_mode() && (r matches Ok(a) && *a.element
                == element && a.dimensions@ == array_init.dimensions@ && a.span == array_init.span),
            old(self).is_leaf_transform() ==> final(self).is_leaf_transform() && final(self).in_circuit_mode() == old(self).in_circuit_mode() && (r matches Ok(a) && *a.element
                == element && a.dimensions@ == array_init.dimensions@ && a.span == array_init.span),
    {
        Ok(default_array_init(array_init, element))
    }

    fn reduce_tuple_init(
        &mut self,
        tuple_init: &TupleInitExpression,
        elements: Vec<Expression>,
    ) -> (r: Result<TupleInitExpression, ReduceError>)
        ensures
            old(self).is_identity() ==> final(self).is_identity() && final(self).in_circuit_mode() == old(self).in_circuit_mode() && (r matches Ok(t) && t.elements
                == elements && t.span == tuple_init.span),
            old(self).is_leaf_transform() ==> final(self).is_leaf_transform() && final(self).in_circuit_mode() == old(self).in_circuit_mode() && (r matches Ok(t) && t.elements
                == elements && t.span == tuple_init.span),
    {
        Ok(default_tuple_init(tuple_init, elements))
    }

    fn reduce_circuit_variable_initializer(
        &mut self,
        _variable: &CircuitVariableInitializer,
        identifier: Identifier,
        expression: Option<Expression>,
    ) -> (r: Result<CircuitVariableInitializer, ReduceError>)
        ensures
            old(self).is_identity() ==> final(self).is_identity() && final(self).in_circuit_mode() == old(self).in_circuit_mode() && (r matches Ok(c) && c.identifier
                == identifier && c.expression == expression),
            old(self).is_leaf_transform() ==> final(self).is_leaf_transform() && final(self).in_circuit_mode() == old(self).in_circuit_mode() && (r matches Ok(c) && c.identifier
                == identifier && c.expression == expression),
    {
        Ok(default_circuit_variable_initializer(identifier, expression))
    }

    fn reduce_circuit_init(
        &mut self,
        circuit_init: &CircuitInitExpression,
        name: Identifier,
        members: Vec<CircuitVariableInitializer>,
    ) -> (r: Result<CircuitInitExpression, ReduceError>)
        ensures
            old(self).is_identity() ==> final(self).is_identity() && final(self).in_circuit_mode() == old(self).in_circuit_mode() && (r matches Ok(c) && c.name
                == name && c.members == members && c.span == circuit_init.span),
            old(self).is_leaf_transform() ==> final(self).is_leaf_transform() && final(self).in_circuit_mode() == old(self).in_circuit_mode() && (r matches Ok(c) && c.name
                == name && c.members == members && c.span == circuit_init.span),
    {
        Ok(default_circuit_init(circuit_init, name, members))
    }

    fn reduce_call(
        &mut self,
        call: &CallExpression,
        function: Expression,
        arguments: Vec<Expression>,
    ) -> (r: Result<CallExpression, ReduceError>)
        ensures
            old(self).is_identity() ==> final(self).is_identity() && final(self).in_circuit_mode() == old(self).in_circuit_mode() && (r matches Ok(c) && *c.function
                == function && c.arguments == arguments && c.span == call.span),
            old(self).is_leaf_transform() ==> final(self).is_leaf_transform() && final(self).in_circuit_mode() == old(self).in_circuit_mode() && (r matches Ok(c) && *c.function
                == function && c.arguments == arguments && c.span == call.span),
    {
        Ok(default_call(call, function, arguments))
    }

    fn reduce_statement(&mut self, _statement: &Statement, new: Statement) -> (r: Result<
        Statement,
        ReduceError,
    >)
        ensures
            old(self).is_identity() ==> final(self).is_identity() && final(self).in_circuit_mode() == old(self).in_circuit_mode() && (r matches Ok(s) && s == new),
            old(self).is_leaf_transform() ==> final(self).is_leaf_transform() && final(self).in_circuit_mode() == old(self).in_circuit_mode() && (r matches Ok(s) && s == new),
    {
        Ok(new)
    }

    fn reduce_return(&mut self, return_statement: &ReturnStatement, expression: Expression) -> (r:
        Result<ReturnStatement, ReduceError>)
        ensures
            old(self).is_identity() ==> final(self).is_identity() && final(self).in_circuit_mode() == old(self).in_circuit_mode() && (r matches Ok(s) && s.expression
                == expression && s.span == return_statement.span),
            old(self).is_leaf_transform() ==> final(self).is_leaf_transform() && final(self).in_circuit_mode() == old(self).in_circuit_mode() && (r matches Ok(s) && s.expression
                == expression && s.span == return_statement.span),
    {
        Ok(default_return(return_statement, expression))
    }

    fn reduce_variable_name(&mut self, variable_name: &VariableName, identifier: Identifier) -> (r:
        Result<VariableName, ReduceError>)
        ensures
            old(self).is_identity() ==> final(self).is_identity() && final(self).in_circuit_mode() == old(self).in_circuit_mode() && (r matches Ok(v) && v.mutable
                == variable_name.mutable && v.identifier == identifier && v.span
                == variable_name.span),
            old(self).is_leaf_transform() ==> final(self).is_leaf_transform() && final(self).in_circuit_mode() == old(self).in_circuit_mode() && (r matches Ok(v) && v.mutable
                == variable_name.mutable && v.identifier == identifier && v.span
                == variable_name.span),
    {
        Ok(default_variable_name(variable_name, identifier))
    }

    fn reduce_definition(
        &mut self,
        definition: &DefinitionStatement,
        variable_names: Vec<VariableName>,
        type_: Type,
        value: Expression,
    ) -> (r: Result<DefinitionStatement, ReduceError>)
        ensures
            old(self).is_identity() ==> final(self).is_identity() && final(self).in_circuit_mode() == old(self).in_circuit_mode() && (r matches Ok(d)
                && d.declaration_type == definition.declaration_type && d.variable_names
                == variable_names && d.parened == definition.parened && d.type_ == type_ && d.value
                == value && d.span == definition.span),
            old(self).is_leaf_transform() ==> final(self).is_leaf_transform() && final(self).in_circuit_mode() == old(self).in_circuit_mode() && (r matches Ok(d)
                && d.declaration_type == definition.declaration_type && d.variable_names
                == variable_names && d.parened == definition.parened && d.type_ == type_ && d.value
                == value && d.span == definition.span),
    {
        Ok(default_definition(definition, variable_names, type_, value))
    }

    fn reduce_assignee_access(&mut self, _access: &AssigneeAccess, new: AssigneeAccess) -> (r:
        Result<AssigneeAccess, ReduceError>)
        ensures
            old(self).is_identity() ==> final(self).is_identity() && final(self).in_circuit_mode() == old(self).in_circuit_mode() && (r matches Ok(a) && a == new),
            old(self).is_leaf_transform() ==> final(self).is_leaf_transform() && final(self).in_circuit_mode() == old(self).in_circuit_mode() && (r matches Ok(a) && a == new),
    {
        Ok(new)
    }

    fn reduce_assignee(
        &mut self,
        assignee: &Assignee,
        identifier: Identifier,
        accesses: Vec<AssigneeAccess>,
    ) -> (r: Result<Assignee, ReduceError>)
        ensures
            old(self).is_identity() ==> final(self).is_identity() && final(self).in_circuit_mode() == old(self).in_circuit_mode() && (r matches Ok(a) && a.identifier
                == identifier && a.accesses == accesses && a.span == assignee.span),
            old(self).is_leaf_transform() ==> final(self).is_leaf_transform() && final(self).in_circuit_mode() == old(self).in_circuit_mode() && (r matches Ok(a) && a.identifier
                == identifier && a.accesses == accesses && a.span == assignee.span),
    {
        Ok(default_assignee(assignee, identifier, accesses))
    }

    fn reduce_assign(
        &mut self,
        assign: &AssignStatement,
        assignee: Assignee,
        value: Expression,
    ) -> (r: Result<AssignStatement, ReduceError>)
        ensures
            old(self).is_identity() ==> final(self).is_identity() && final(self).in_circuit_mode() == old(self).in_circuit_mode() && (r matches Ok(a) && a.operation
                == assign.operation && a.assignee == assignee && a.value == value && a.span
                == assign.span),
            old(self).is_leaf_transform() ==> final(self).is_leaf_transform() && final(self).in_circuit_mode() == old(self).in_circuit_mode() && (r matches Ok(a) && a.operation
                == assign.operation && a.assignee == assignee && a.value == value && a.span
                == assign.span),
    {
        Ok(default_assign(assign, assignee, value))
    }

    fn reduce_conditional(
        &mut self,
        conditional: &ConditionalStatement,
        condition: Expression,
        block: Block,
        statement: Option<Statement>,
    ) -> (r: Result<ConditionalStatement, ReduceError>)
        ensures
            old(self).is_identity() ==> final(self).is_identity() && final(self).in_circuit_mode() == old(self).in_circuit_mode() && (r matches Ok(c) && c.condition
                == condition && c.block == block && (match statement {
                Some(s) => c.next matches Some(b) && *b == s,
                None => c.next is None,
            }) && c.span == conditional.span),
            old(self).is_leaf_transform() ==> final(self).is_leaf_transform() && final(self).in_circuit_mode() == old(self).in_circuit_mode() && (r matches Ok(c) && c.condition
                == condition && c.block == block && (match statement {
                Some(s) => c.next matches Some(b) && *b == s,
                None => c.next is None,
            }) && c.span == conditional.span),
    {
        Ok(default_conditional(conditional, condition, block, statement))
    }

    fn reduce_iteration(
        &mut self,
        iteration: &IterationStatement,
        variable: Identifier,
        type_: Type,
        start: Expression,
        stop: Expression,
        block: Block,
    ) -> (r: Result<IterationStatement, ReduceError>)
        ensures
            old(self).is_identity() ==> final(self).is_identity() && final(self).in_circuit_mode() == old(self).in_circuit_mode() && (r matches Ok(i) && i.variable
                == variable && i.type_ == type_ && i.start == start && i.stop == stop && i.inclusive
                == iteration.inclusive && i.block == block && i.span == iteration.span),
            old(self).is_leaf_transform() ==> final(self).is_leaf_transform() && final(self).in_circuit_mode() == old(self).in_circuit_mode() && (r matches Ok(i) && i.variable
                == variable && i.type_ == type_ && i.start == start && i.stop == stop && i.inclusive
                == iteration.inclusive && i.block == block && i.span == iteration.span),
    {
        Ok(default_iteration(iteration, variable, type_, start, stop, block))
    }

    fn reduce_console(&mut self, console: &ConsoleStatement, function: ConsoleFunction) -> (r:
        Result<ConsoleStatement, ReduceError>)
        ensures
            old(self).is_identity() ==> final(self).is_identity() && final(self).in_circuit_mode() == old(self).in_circuit_mode() && (r matches Ok(c) && c.function
                == function && c.span == console.span),
            old(self).is_leaf_transform() ==> final(self).is_leaf_transform() && final(self).in_circuit_mode() == old(self).in_circuit_mode() && (r matches Ok(c) && c.function
                == function && c.span == console.span),
    {
        Ok(default_console(console, function))
    }

    fn reduce_expression_statement(
        &mut self,
        expression_statement: &ExpressionStatement,
        expression: Expression,
    ) -> (r: Result<ExpressionStatement, ReduceError>)
        ensures
            old(self).is_identity() ==> final(self).is_identity() && final(self).in_circuit_mode() == old(self).in_circuit_mode() && (r matches Ok(e) && e.expression
                == expression && e.span == expression_statement.span),
            old(self).is_leaf_transform() ==> final(self).is_leaf_transform() && final(self).in_circuit_mode() == old(self).in_circuit_mode() && (r matches Ok(e) && e.expression
                == expression && e.span == expression_statement.span),
    {
        Ok(default_expression_statement(expression_statement, expression))
    }

    fn reduce_block(&mut self, block: &Block, statements: Vec<Statement>) -> (r: Result<
        Block,
        ReduceError,
    >)
        ensures
            old(self).is_identity() ==> final(self).is_identity() && final(self).in_circuit_mode() == old(self).in_circuit_mode() && (r matches Ok(b) && b.statements
                == statements && b.span == block.span),
            old(self).is_leaf_transform() ==> final(self).is_leaf_transform() && final(self).in_circuit_mode() == old(self).in_circuit_mode() && (r matches Ok(b) && b.statements
                == statements && b.span == block.span),
    {
        Ok(default_block(block, statements))
    }

    fn reduce_program(
        &mut self,
        program: &Program,
        expected_input: Vec<FunctionInput>,
        import_statements: Vec<ImportStatement>,
        imports: Vec<(Vec<Symbol>, Program)>,
        aliases: Vec<(Identifier, crate::ast::Alias)>,
        circuits: Vec<(Identifier, Circuit)>,
        functions: Vec<(Identifier, Function)>,
        global_consts: Vec<(Vec<Identifier>, DefinitionStatement)>,
    ) -> (r: Result<Program, ReduceError>)
        ensures
            old(self).is_identity() ==> final(self).is_identity() && final(self).in_circuit_mode() == old(self).in_circuit_mode() && (r matches Ok(p) && p.name
                == program.name && p.expected_input == expected_input && p.import_statements
                == import_statements && p.imports == imports && p.aliases == aliases && p.circuits
                == circuits && p.functions == functions && p.global_consts == global_consts),
            old(self).is_leaf_transform() ==> final(self).is_leaf_transform() && final(self).in_circuit_mode() == old(self).in_circuit_mode() && (r matches Ok(p) && p.name
                == program.name && p.expected_input == expected_input && p.import_statements
                == import_statements && p.imports == imports && p.aliases == aliases && p.circuits
                == circuits && p.functions == functions && p.global_consts == global_consts),
    {
        Ok(default_program(
            program,
            expected_input,
            import_statements,
            imports,
            aliases,
            circuits,
            functions,
            global_consts,
        ))
    }

    fn reduce_function_input_variable(
        &mut self,
        variable: &FunctionInputVariable,
        identifier: Identifier,
        type_: Type,
    ) -> (r: Result<FunctionInputVariable, ReduceError>)
        ensures
            old(self).is_identity() ==> final(self).is_identity() && final(self).in_circuit_mode() == old(self).in_circuit_mode() && (r matches Ok(v) && v.identifier
                == identifier && v.const_ == variable.const_ && v.mutable == variable.mutable
                && v.type_ == type_ && v.span == variable.span),
            old(self).is_leaf_transform() ==> final(self).is_leaf_transform() && final(self).in_circuit_mode() == old(self).in_circuit_mode() && (r matches Ok(v) && v.identifier
                == identifier && v.const_ == variable.const_ && v.mutable == variable.mutable
                && v.type_ == type_ && v.span == variable.span),
    {
        Ok(default_function_input_variable(variable, identifier, type_))
    }

    fn reduce_function_input(&mut self, _input: &FunctionInput, new: FunctionInput) -> (r: Result<
        FunctionInput,
        ReduceError,
    >)
        ensures
            old(self).is_identity() ==> final(self).is_identity() && final(self).in_circuit_mode() == old(self).in_circuit_mode() && (r matches Ok(f) && f == new),
            old(self).is_leaf_transform() ==> final(self).is_leaf_transform() && final(self).in_circuit_mode() == old(self).in_circuit_mode() && (r matches Ok(f) && f == new),
    {
        Ok(new)
    }

    fn reduce_import_tree(&mut self, _tree: &ImportTree, new: ImportTree) -> (r: Result<
        ImportTree,
        ReduceError,
    >)
        ensures
            old(self).is_identity() ==> final(self).is_identity() && final(self).in_circuit_mode() == old(self).in_circuit_mode() && (r matches Ok(t) && t == new),
            old(self).is_leaf_transform() ==> final(self).is_leaf_transform() && final(self).in_circuit_mode() == old(self).in_circuit_mode() && (r matches Ok(t) && t == new),
    {
        Ok(new)
    }

    fn reduce_import_statement(&mut self, import: &ImportStatement, tree: ImportTree) -> (r: Result<
        ImportStatement,
        ReduceError,
    >)
        ensures
            old(self).is_identity() ==> final(self).is_identity() && final(self).in_circuit_mode() == old(self).in_circuit_mode() && (r matches Ok(i) && i.tree
                == tree && i.span == import.span),
            old(self).is_leaf_transform() ==> final(self).is_leaf_transform() && final(self).in_circuit_mode() == old(self).in_circuit_mode() && (r matches Ok(i) && i.tree
                == tree && i.span == import.span),
    {
        Ok(default_import_statement(import, tree))
    }

    fn reduce_import(&mut self, identifier: Vec<Symbol>, import: Program) -> (r: Result<
        (Vec<Symbol>, Program),
        ReduceError,
    >)
        ensures
            old(self).is_identity() ==> final(self).is_identity() && final(self).in_circuit_mode() == old(self).in_circuit_mode() && (r matches Ok(p) && p.0
                == identifier && p.1 == import),
            old(self).is_leaf_transform() ==> final(self).is_leaf_transform() && final(self).in_circuit_mode() == old(self).in_circuit_mode() && (r matches Ok(p) && p.0
                == identifier && p.1 == import),
    {
        Ok((identifier, import))
    }

    fn reduce_circuit_member(&mut self, _circuit_member: &CircuitMember, new: CircuitMember) -> (r:
        Result<CircuitMember, ReduceError>)
        ensures
            old(self).is_identity() ==> final(self).is_identity() && final(self).in_circuit_mode() == old(self).in_circuit_mode() && (r matches Ok(m) && m == new),
            old(self).is_leaf_transform() ==> final(self).is_leaf_transform() && final(self).in_circuit_mode() == old(self).in_circuit_mode() && (r matches Ok(m) && m == new),
    {
        Ok(new)
    }

    fn reduce_circuit(
        &mut self,
        _circuit: &Circuit,
        circuit_name: Identifier,
        members: Vec<CircuitMember>,
    ) -> (r: Result<Circuit, ReduceError>)
        ensures
            old(self).is_identity() ==> final(self).is_identity() && final(self).in_circuit_mode() == old(self).in_circuit_mode() && (r matches Ok(c)
                && c.circuit_name == circuit_name && c.members == members),
            old(self).is_leaf_transform() ==> final(self).is_leaf_transform() && final(self).in_circuit_mode() == old(self).in_circuit_mode() && (r matches Ok(c)
                && c.circuit_name == circuit_name && c.members == members),
    {
        Ok(default_circuit(circuit_name, members))
    }

    fn reduce_annotation(&mut self, annotation: &Annotation, name: Identifier) -> (r: Result<
        Annotation,
        ReduceError,
    >)
        ensures
            old(self).is_identity() ==> final(self).is_identity() && final(self).in_circuit_mode() == old(self).in_circuit_mode() && (r matches Ok(a) && a.span
                == annotation.span && a.name == name && a.arguments@ == annotation.arguments@),
            old(self).is_leaf_transform() ==> final(self).is_leaf_transform() && final(self).in_circuit_mode() == old(self).in_circuit_mode() && (r matches Ok(a) && a.span
                == annotation.span && a.name == name && a.arguments@ == annotation.arguments@),
    {
        Ok(default_annotation(annotation, name))
    }

    fn reduce_function(
        &mut self,
        function: &Function,
        identifier: Identifier,
        annotations: Vec<(Symbol, Annotation)>,
        input: Vec<FunctionInput>,
        const_: bool,
        output: Type,
        block: Block,
    ) -> (r: Result<Function, ReduceError>)
        ensures
            old(self).is_identity() ==> final(self).is_identity() && final(self).in_circuit_mode() == old(self).in_circuit_mode() && (r matches Ok(f) && f.identifier
                == identifier && f.annotations == annotations && f.input == input && f.const_
                == const_ && f.output == output && f.block == block && f.core_mapping
                == function.core_mapping && f.span == function.span),
            old(self).is_leaf_transform() ==> final(self).is_leaf_transform() && final(self).in_circuit_mode() == old(self).in_circuit_mode() && (r matches Ok(f) && f.identifier
                == identifier && f.annotations == annotations && f.input == input && f.const_
                == const_ && f.output == output && f.block == block && f.core_mapping
                == function.core_mapping && f.span == function.span),
    {
        Ok(default_function(function, identifier, annotations, input, const_, output, block))
    }
}

} // verus!
