//! The traversal driver: a post-order (children first, left to right)
//! depth-first walk that reduces every child of a node, then hands the
//! original node and the reduced children to the matching protocol hook.
//! The first failing child aborts the walk of the enclosing node at once:
//! later siblings are not visited and the parent hook is not invoked.
//!
//! Every method carries two theorems.  Identity: run with a reducer whose
//! `is_identity` holds, it returns `Ok` and the view of the output equals
//! the view of the input, node for node and span for span.  Leaf
//! transforms: run with a reducer whose `is_leaf_transform` holds (defaults
//! everywhere but `reduce_identifier`), it returns `Ok` and the output's
//! skeleton equals the input's — same structure, spans, operators, values
//! and types throughout; only identifier names may differ, and only at the
//! positions the driver hands to `reduce_identifier`.
use vstd::prelude::*;
use crate::ast::{
    Span, Symbol, Identifier, Type, GroupValue, ValueExpression, BinaryExpression,
    UnaryExpression, TernaryExpression, CastExpression, ArrayAccess, ArrayRangeAccess,
    MemberAccess, TupleAccess, StaticAccess, SpreadOrExpression, ArrayInlineExpression,
    ArrayInitExpression, TupleInitExpression, CircuitVariableInitializer, CircuitInitExpression,
    CallExpression, Expression, ReturnStatement, VariableName, DefinitionStatement,
    AssigneeAccess, Assignee, AssignStatement, ConditionalStatement, IterationStatement,
    ConsoleArgs, ConsoleFunction, ConsoleStatement, ExpressionStatement, Block, Statement,
    FunctionInputVariable, FunctionInput, ImportTree, ImportStatement, Annotation, CircuitMember,
    Circuit, Alias, Function, Program,
};
use crate::views::{
    type_view, type_views, value_view, binary_view, unary_view, ternary_view,
    cast_view, array_access_view, array_range_access_view,
    member_access_view, tuple_access_view, static_access_view, spread_view, spread_views,
    array_inline_view, array_init_view, expr_views, tuple_init_view, civ_view, civ_views,
    circuit_init_view, call_view, expr_view, assignee_access_view, assignee_access_views,
    assignee_view, definition_view, assign_view, block_view, conditional_view, iteration_view,
    console_args_view, console_fn_view, stmt_view, stmt_views, fiv_view, input_view, input_views,
    import_tree_view, import_statement_view, import_statement_views, annotation_view,
    annotation_entry_views, member_view, member_views, circuit_view, alias_view, function_view,
    import_entry_views, alias_entry_views, circuit_entry_views, function_entry_views,
    gconst_entry_views, program_view, ExprView, skel_ident, skel_vname, skel_vname_seq,
    skel_civ, skel_civ_seq, skel_spread, skel_spread_seq, skel_expr, skel_expr_seq, skel_access,
    skel_access_seq, skel_assignee, skel_def, skel_assign, skel_cond, skel_iter,
    skel_console_args, skel_console_fn, skel_block, skel_stmt, skel_stmt_seq, skel_fiv,
    skel_input, skel_input_seq, skel_annotation, skel_annotation_entry_seq, skel_member,
    skel_member_seq, skel_circuit, skel_alias, skel_function, skel_import_entry_seq,
    skel_alias_entry_seq, skel_circuit_entry_seq, skel_function_entry_seq,
    skel_gconst_entry_seq, skel_program,
};
use crate::reducer::{ReduceError, ReconstructingReducer, copy_vec};

verus! {

broadcast use vstd::std_specs::vec::group_vec_axioms;

/// Drives one traversal with one protocol implementation.  A traversal
/// builds a wholly new tree; the input is never mutated.
pub struct ReconstructingDirector<R: ReconstructingReducer> {
    pub reducer: R,
}

impl<R: ReconstructingReducer> ReconstructingDirector<R> {
    /// Whether the wrapped protocol implementation claims identity
    /// behaviour on every hook.
    pub open spec fn identity(&self) -> bool {
        self.reducer.is_identity()
    }

    /// Whether the wrapped protocol implementation claims to be a leaf
    /// transform (defaults everywhere but `reduce_identifier`, which always
    /// succeeds): a traversal with such a pass cannot fail.
    pub open spec fn leaf_transform(&self) -> bool {
        self.reducer.is_leaf_transform()
    }

    pub fn new(reducer: R) -> (d: Self)
        ensures
            d.reducer == reducer,
    {
        ReconstructingDirector { reducer }
    }

    pub fn reduce_type(&mut self, type_: &Type, span: &Span) -> (r: Result<Type, ReduceError>)
        ensures
            old(self).identity() ==> final(self).identity() && final(self).reducer.in_circuit_mode() == old(self).reducer.in_circuit_mode() && (r matches Ok(t) && type_view(t)
                == type_view(*type_)),
            old(self).leaf_transform() ==> final(self).leaf_transform() && final(self).reducer.in_circuit_mode() == old(self).reducer.in_circuit_mode() && (r matches Ok(t) && type_view(t)
                == type_view(*type_)),
        decreases type_,
    {
        let new = match type_ {
            Type::Boolean => Type::Boolean,
            Type::Char => Type::Char,
            Type::Field => Type::Field,
            Type::Group => Type::Group,
            Type::Integer(i) => Type::Integer(*i),
            Type::Array(el, dims) => {
                let nel = self.reduce_type(el, span)?;
                Type::Array(Box::new(nel), copy_vec(dims))
            },
            Type::Tuple(ts) => {
                let mut out: Vec<Type> = Vec::new();
                let mut i: usize = 0;
                #[verifier::loop_isolation(false)]
                while i < ts.len()
                    invariant
                        i <= ts.len(),
                        out.len() == i,
                        old(self).identity() ==> self.identity() && self.reducer.in_circuit_mode() == old(self).reducer.in_circuit_mode() && (forall|j: int|
                            0 <= j < i ==> type_view(out@[j]) == type_view(ts@[j])),
                        old(self).leaf_transform() ==> self.leaf_transform() && self.reducer.in_circuit_mode() == old(self).reducer.in_circuit_mode() && (forall|j: int|
                            0 <= j < i ==> type_view(out@[j]) == type_view(ts@[j])),
                    decreases ts.len() - i,
                {
                    let nt = self.reduce_type(&ts[i], span)?;
                    out.push(nt);
                    i = i + 1;
                }
                proof {
                    if old(self).identity() {
                        assert(type_views(out@) =~= type_views(ts@));
                    }
                    if old(self).leaf_transform() {
                        assert(type_views(out@) =~= type_views(ts@));
                    }
                }
                Type::Tuple(out)
            },
            Type::Identifier(id) => Type::Identifier(*id),
            Type::SelfType => Type::SelfType,
        };
        self.reducer.reduce_type(type_, new, span)
    }

    pub fn reduce_group_value(&mut self, group_value: &GroupValue) -> (r: Result<
        GroupValue,
        ReduceError,
    >)
        ensures
            old(self).identity() ==> final(self).identity() && final(self).reducer.in_circuit_mode() == old(self).reducer.in_circuit_mode() && (r matches Ok(g) && g
                == *group_value),
            old(self).leaf_transform() ==> final(self).leaf_transform() && final(self).reducer.in_circuit_mode() == old(self).reducer.in_circuit_mode() && (r matches Ok(g) && g
                == *group_value),
    {
        let new = match group_value {
            GroupValue::Single(n, sp) => GroupValue::Single(*n, *sp),
            GroupValue::Tuple(gt) => GroupValue::Tuple(self.reducer.reduce_group_tuple(gt)?),
        };
        self.reducer.reduce_group_value(group_value, new)
    }

    pub fn reduce_value_expression(&mut self, value: &ValueExpression) -> (r: Result<
        Expression,
        ReduceError,
    >)
        ensures
            old(self).identity() ==> final(self).identity() && final(self).reducer.in_circuit_mode() == old(self).reducer.in_circuit_mode() && (r matches Ok(e) && expr_view(e)
                == ExprView::Value(value_view(*value))),
            old(self).leaf_transform() ==> final(self).leaf_transform() && final(self).reducer.in_circuit_mode() == old(self).reducer.in_circuit_mode() && (r matches Ok(e) && skel_expr(expr_view(e))
                == ExprView::Value(value_view(*value))),
    {
        let new: Expression = match value {
            ValueExpression::Address(s, sp) => Expression::Value(
                ValueExpression::Address(s.clone(), *sp),
            ),
            ValueExpression::Boolean(b, sp) => Expression::Value(
                ValueExpression::Boolean(*b, *sp),
            ),
            ValueExpression::Char(c) => Expression::Value(ValueExpression::Char(*c)),
            ValueExpression::Field(s, sp) => Expression::Value(
                ValueExpression::Field(s.clone(), *sp),
            ),
            ValueExpression::Group(g) => {
                let ng = self.reduce_group_value(g)?;
                Expression::Value(ValueExpression::Group(Box::new(ng)))
            },
            ValueExpression::Implicit(s, sp) => Expression::Value(
                ValueExpression::Implicit(s.clone(), *sp),
            ),
            ValueExpression::Integer(it, s, sp) => Expression::Value(
                ValueExpression::Integer(*it, s.clone(), *sp),
            ),
            ValueExpression::Str(cs, sp) => self.reducer.reduce_string(cs.as_slice(), sp)?,
        };
        self.reducer.reduce_value(value, new)
    }
}

} // verus!

verus! {


impl<R: ReconstructingReducer> ReconstructingDirector<R> {
    pub fn reduce_binary(&mut self, binary: &BinaryExpression) -> (r: Result<
        BinaryExpression,
        ReduceError,
    >)
        ensures
            old(self).identity() ==> final(self).identity() && final(self).reducer.in_circuit_mode() == old(self).reducer.in_circuit_mode() && (r matches Ok(b) && binary_view(b)
                == binary_view(*binary)),
            old(self).leaf_transform() ==> final(self).leaf_transform() && final(self).reducer.in_circuit_mode() == old(self).reducer.in_circuit_mode() && (r matches Ok(b) && skel_expr(binary_view(b))
                == skel_expr(binary_view(*binary))),
        decreases binary,
    {
        let left = self.reduce_expression(&binary.left)?;
        let right = self.reduce_expression(&binary.right)?;
        self.reducer.reduce_binary(binary, left, right, binary.op)
    }

    pub fn reduce_unary(&mut self, unary: &UnaryExpression) -> (r: Result<
        UnaryExpression,
        ReduceError,
    >)
        ensures
            old(self).identity() ==> final(self).identity() && final(self).reducer.in_circuit_mode() == old(self).reducer.in_circuit_mode() && (r matches Ok(u) && unary_view(u)
                == unary_view(*unary)),
            old(self).leaf_transform() ==> final(self).leaf_transform() && final(self).reducer.in_circuit_mode() == old(self).reducer.in_circuit_mode() && (r matches Ok(u) && skel_expr(unary_view(u))
                == skel_expr(unary_view(*unary))),
        decreases unary,
    {
        let inner = self.reduce_expression(&unary.inner)?;
        self.reducer.reduce_unary(unary, inner, unary.op)
    }

    pub fn reduce_ternary(&mut self, ternary: &TernaryExpression) -> (r: Result<
        TernaryExpression,
        ReduceError,
    >)
        ensures
            old(self).identity() ==> final(self).identity() && final(self).reducer.in_circuit_mode() == old(self).reducer.in_circuit_mode() && (r matches Ok(t) && ternary_view(t)
                == ternary_view(*ternary)),
            old(self).leaf_transform() ==> final(self).leaf_transform() && final(self).reducer.in_circuit_mode() == old(self).reducer.in_circuit_mode() && (r matches Ok(t) && skel_expr(ternary_view(t))
                == skel_expr(ternary_view(*ternary))),
        decreases ternary,
    {
        let condition = self.reduce_expression(&ternary.condition)?;
        let if_true = self.reduce_expression(&ternary.if_true)?;
        let if_false = self.reduce_expression(&ternary.if_false)?;
        self.reducer.reduce_ternary(ternary, condition, if_true, if_false)
    }

    pub fn reduce_cast(&mut self, cast: &CastExpression) -> (r: Result<CastExpression, ReduceError>)
        ensures
            old(self).identity() ==> final(self).identity() && final(self).reducer.in_circuit_mode() == old(self).reducer.in_circuit_mode() && (r matches Ok(c) && cast_view(c)
                == cast_view(*cast)),
            old(self).leaf_transform() ==> final(self).leaf_transform() && final(self).reducer.in_circuit_mode() == old(self).reducer.in_circuit_mode() && (r matches Ok(c) && skel_expr(cast_view(c))
                == skel_expr(cast_view(*cast))),
        decreases cast,
    {
        let inner = self.reduce_expression(&cast.inner)?;
        let target_type = self.reduce_type(&cast.target_type, &cast.span)?;
        self.reducer.reduce_cast(cast, inner, target_type)
    }

    pub fn reduce_array_access(&mut self, array_access: &ArrayAccess) -> (r: Result<
        ArrayAccess,
        ReduceError,
    >)
        ensures
            old(self).identity() ==> final(self).identity() && final(self).reducer.in_circuit_mode() == old(self).reducer.in_circuit_mode() && (r matches Ok(a)
                && array_access_view(a) == array_access_view(*array_access)),
            old(self).leaf_transform() ==> final(self).leaf_transform() && final(self).reducer.in_circuit_mode() == old(self).reducer.in_circuit_mode() && (r matches Ok(a)
                && skel_expr(array_access_view(a)) == skel_expr(array_access_view(*array_access))),
        decreases array_access,
    {
        let array = self.reduce_expression(&array_access.array)?;
        let index = self.reduce_expression(&array_access.index)?;
        self.reducer.reduce_array_access(array_access, array, index)
    }

    pub fn reduce_array_range_access(&mut self, array_range_access: &ArrayRangeAccess) -> (r:
        Result<ArrayRangeAccess, ReduceError>)
        ensures
            old(self).identity() ==> final(self).identity() && final(self).reducer.in_circuit_mode() == old(self).reducer.in_circuit_mode() && (r matches Ok(a)
                && array_range_access_view(a) == array_range_access_view(*array_range_access)),
            old(self).leaf_transform() ==> final(self).leaf_transform() && final(self).reducer.in_circuit_mode() == old(self).reducer.in_circuit_mode() && (r matches Ok(a)
                && skel_expr(array_range_access_view(a)) == skel_expr(array_range_access_view(*array_range_access))),
        decreases array_range_access,
    {
        let array = self.reduce_expression(&array_range_access.array)?;
        let left = match &array_range_access.left {
            Some(e) => Some(self.reduce_expression(e)?),
            None => None,
        };
        let right = match &array_range_access.right {
            Some(e) => Some(self.reduce_expression(e)?),
            None => None,
        };
        self.reducer.reduce_array_range_access(array_range_access, array, left, right)
    }

    pub fn reduce_member_access(&mut self, member_access: &MemberAccess) -> (r: Result<
        MemberAccess,
        ReduceError,
    >)
        ensures
            old(self).identity() ==> final(self).identity() && final(self).reducer.in_circuit_mode() == old(self).reducer.in_circuit_mode() && (r matches Ok(m)
                && member_access_view(m) == member_access_view(*member_access)),
            old(self).leaf_transform() ==> final(self).leaf_transform() && final(self).reducer.in_circuit_mode() == old(self).reducer.in_circuit_mode() && (r matches Ok(m)
                && skel_expr(member_access_view(m)) == skel_expr(member_access_view(*member_access))),
        decreases member_access,
    {
        let inner = self.reduce_expression(&member_access.inner)?;
        let name = self.reducer.reduce_identifier(&member_access.name)?;
        let type_ = match &member_access.type_ {
            Some(t) => Some(self.reduce_type(t, &member_access.span)?),
            None => None,
        };
        self.reducer.reduce_member_access(member_access, inner, name, type_)
    }

    pub fn reduce_tuple_access(&mut self, tuple_access: &TupleAccess) -> (r: Result<
        TupleAccess,
        ReduceError,
    >)
        ensures
            old(self).identity() ==> final(self).identity() && final(self).reducer.in_circuit_mode() == old(self).reducer.in_circuit_mode() && (r matches Ok(t)
                && tuple_access_view(t) == tuple_access_view(*tuple_access)),
            old(self).leaf_transform() ==> final(self).leaf_transform() && final(self).reducer.in_circuit_mode() == old(self).reducer.in_circuit_mode() && (r matches Ok(t)
                && skel_expr(tuple_access_view(t)) == skel_expr(tuple_access_view(*tuple_access))),
        decreases tuple_access,
    {
        let tuple = self.reduce_expression(&tuple_access.tuple)?;
        self.reducer.reduce_tuple_access(tuple_access, tuple)
    }

    pub fn reduce_static_access(&mut self, static_access: &StaticAccess) -> (r: Result<
        StaticAccess,
        ReduceError,
    >)
        ensures
            old(self).identity() ==> final(self).identity() && final(self).reducer.in_circuit_mode() == old(self).reducer.in_circuit_mode() && (r matches Ok(s)
                && static_access_view(s) == static_access_view(*static_access)),
            old(self).leaf_transform() ==> final(self).leaf_transform() && final(self).reducer.in_circuit_mode() == old(self).reducer.in_circuit_mode() && (r matches Ok(s)
                && skel_expr(static_access_view(s)) == skel_expr(static_access_view(*static_access))),
        decreases static_access,
    {
        let value = self.reduce_expression(&static_access.inner)?;
        let type_ = self.reduce_type(&static_access.type_, &static_access.span)?;
        let name = self.reducer.reduce_identifier(&static_access.name)?;
        self.reducer.reduce_static_access(static_access, value, type_, name)
    }

    pub fn reduce_spread_or_expression(&mut self, soe: &SpreadOrExpression) -> (r: Result<
        SpreadOrExpression,
        ReduceError,
    >)
        ensures
            old(self).identity() ==> final(self).identity() && final(self).reducer.in_circuit_mode() == old(self).reducer.in_circuit_mode() && (r matches Ok(s) && spread_view(s)
                == spread_view(*soe)),
            old(self).leaf_transform() ==> final(self).leaf_transform() && final(self).reducer.in_circuit_mode() == old(self).reducer.in_circuit_mode() && (r matches Ok(s) && skel_spread(spread_view(s))
                == skel_spread(spread_view(*soe))),
        decreases soe,
    {
        match soe {
            SpreadOrExpression::Spread(e) => {
                let ne = self.reduce_expression(e)?;
                Ok(SpreadOrExpression::Spread(ne))
            },
            SpreadOrExpression::Expression(e) => {
                let ne = self.reduce_expression(e)?;
                Ok(SpreadOrExpression::Expression(ne))
            },
        }
    }

    pub fn reduce_array_inline(&mut self, array_inline: &ArrayInlineExpression) -> (r: Result<
        ArrayInlineExpression,
        ReduceError,
    >)
        ensures
            old(self).identity() ==> final(self).identity() && final(self).reducer.in_circuit_mode() == old(self).reducer.in_circuit_mode() && (r matches Ok(a)
                && array_inline_view(a) == array_inline_view(*array_inline)),
            old(self).leaf_transform() ==> final(self).leaf_transform() && final(self).reducer.in_circuit_mode() == old(self).reducer.in_circuit_mode() && (r matches Ok(a)
                && skel_expr(array_inline_view(a)) == skel_expr(array_inline_view(*array_inline))),
        decreases array_inline,
    {
        let mut elements: Vec<SpreadOrExpression> = Vec::new();
        let mut i: usize = 0;
        #[verifier::loop_isolation(false)]
        while i < array_inline.elements.len()
            invariant
                i <= array_inline.elements.len(),
                elements.len() == i,
                old(self).identity() ==> self.identity() && self.reducer.in_circuit_mode() == old(self).reducer.in_circuit_mode() && (forall|j: int|
                    0 <= j < i ==> spread_view(elements@[j]) == spread_view(
                        array_inline.elements@[j],
                    )),
                old(self).leaf_transform() ==> self.leaf_transform() && self.reducer.in_circuit_mode() == old(self).reducer.in_circuit_mode() && (forall|j: int|
                    0 <= j < i ==> skel_spread(spread_view(elements@[j])) == skel_spread(spread_view(
                        array_inline.elements@[j],
                    ))),
            decreases array_inline.elements.len() - i,
        {
            let ne = self.reduce_spread_or_expression(&array_inline.elements[i])?;
            elements.push(ne);
            i = i + 1;
        }
        proof {
            if old(self).identity() {
                assert(spread_views(elements@) =~= spread_views(array_inline.elements@));
            }
            if old(self).leaf_transform() {
                assert(skel_spread_seq(spread_views(elements@)) =~= skel_spread_seq(spread_views(array_inline.elements@)));
            }
        }
        self.reducer.reduce_array_inline(array_inline, elements)
    }

    pub fn reduce_array_init(&mut self, array_init: &ArrayInitExpression) -> (r: Result<
        ArrayInitExpression,
        ReduceError,
    >)
        ensures
            old(self).identity() ==> final(self).identity() && final(self).reducer.in_circuit_mode() == old(self).reducer.in_circuit_mode() && (r matches Ok(a)
                && array_init_view(a) == array_init_view(*array_init)),
            old(self).leaf_transform() ==> final(self).leaf_transform() && final(self).reducer.in_circuit_mode() == old(self).reducer.in_circuit_mode() && (r matches Ok(a)
                && skel_expr(array_init_view(a)) == skel_expr(array_init_view(*array_init))),
        decreases array_init,
    {
        let element = self.reduce_expression(&array_init.element)?;
        self.reducer.reduce_array_init(array_init, element)
    }

    pub fn reduce_expressions(&mut self, exprs: &Vec<Expression>) -> (r: Result<
        Vec<Expression>,
        ReduceError,
    >)
        ensures
            old(self).identity() ==> final(self).identity() && final(self).reducer.in_circuit_mode() == old(self).reducer.in_circuit_mode() && (r matches Ok(out) && expr_views(
                out@,
            ) == expr_views(exprs@)),
            old(self).leaf_transform() ==> final(self).leaf_transform() && final(self).reducer.in_circuit_mode() == old(self).reducer.in_circuit_mode() && (r matches Ok(out) && skel_expr_seq(expr_views(
                out@,
            )) == skel_expr_seq(expr_views(exprs@))),
        decreases exprs,
    {
        let mut out: Vec<Expression> = Vec::new();
        let mut i: usize = 0;
        #[verifier::loop_isolation(false)]
        while i < exprs.len()
            invariant
                i <= exprs.len(),
                out.len() == i,
                old(self).identity() ==> self.identity() && self.reducer.in_circuit_mode() == old(self).reducer.in_circuit_mode() && (forall|j: int|
                    0 <= j < i ==> expr_view(out@[j]) == expr_view(exprs@[j])),
                old(self).leaf_transform() ==> self.leaf_transform() && self.reducer.in_circuit_mode() == old(self).reducer.in_circuit_mode() && (forall|j: int|
                    0 <= j < i ==> skel_expr(expr_view(out@[j])) == skel_expr(expr_view(exprs@[j]))),
            decreases exprs.len() - i,
        {
            let ne = self.reduce_expression(&exprs[i])?;
            out.push(ne);
            i = i + 1;
        }
        proof {
            if old(self).identity() {
                assert(expr_views(out@) =~= expr_views(exprs@));
            }
            if old(self).leaf_transform() {
                assert(skel_expr_seq(expr_views(out@)) =~= skel_expr_seq(expr_views(exprs@)));
            }
        }
        Ok(out)
    }

    pub fn reduce_tuple_init(&mut self, tuple_init: &TupleInitExpression) -> (r: Result<
        TupleInitExpression,
        ReduceError,
    >)
        ensures
            old(self).identity() ==> final(self).identity() && final(self).reducer.in_circuit_mode() == old(self).reducer.in_circuit_mode() && (r matches Ok(t) && tuple_init_view(
                t,
            ) == tuple_init_view(*tuple_init)),
            old(self).leaf_transform() ==> final(self).leaf_transform() && final(self).reducer.in_circuit_mode() == old(self).reducer.in_circuit_mode() && (r matches Ok(t) && skel_expr(tuple_init_view(
                t,
            )) == skel_expr(tuple_init_view(*tuple_init))),
        decreases tuple_init,
    {
        let elements = self.reduce_expressions(&tuple_init.elements)?;
        self.reducer.reduce_tuple_init(tuple_init, elements)
    }

    pub fn reduce_circuit_variable_initializer(
        &mut self,
        variable: &CircuitVariableInitializer,
    ) -> (r: Result<CircuitVariableInitializer, ReduceError>)
        ensures
            old(self).identity() ==> final(self).identity() && final(self).reducer.in_circuit_mode() == old(self).reducer.in_circuit_mode() && (r matches Ok(c) && civ_view(c)
                == civ_view(*variable)),
            old(self).leaf_transform() ==> final(self).leaf_transform() && final(self).reducer.in_circuit_mode() == old(self).reducer.in_circuit_mode() && (r matches Ok(c) && skel_civ(civ_view(c))
                == skel_civ(civ_view(*variable))),
        decreases variable,
    {
        let identifier = self.reducer.reduce_identifier(&variable.identifier)?;
        let expression = match &variable.expression {
            Some(e) => Some(self.reduce_expression(e)?),
            None => None,
        };
        self.reducer.reduce_circuit_variable_initializer(variable, identifier, expression)
    }

    pub fn reduce_circuit_init(&mut self, circuit_init: &CircuitInitExpression) -> (r: Result<
        CircuitInitExpression,
        ReduceError,
    >)
        ensures
            old(self).identity() ==> final(self).identity() && final(self).reducer.in_circuit_mode() == old(self).reducer.in_circuit_mode() && (r matches Ok(c)
                && circuit_init_view(c) == circuit_init_view(*circuit_init)),
            old(self).leaf_transform() ==> final(self).leaf_transform() && final(self).reducer.in_circuit_mode() == old(self).reducer.in_circuit_mode() && (r matches Ok(c)
                && skel_expr(circuit_init_view(c)) == skel_expr(circuit_init_view(*circuit_init))),
        decreases circuit_init,
    {
        let name = self.reducer.reduce_identifier(&circuit_init.name)?;
        let mut members: Vec<CircuitVariableInitializer> = Vec::new();
        let mut i: usize = 0;
        #[verifier::loop_isolation(false)]
        while i < circuit_init.members.len()
            invariant
                i <= circuit_init.members.len(),
                members.len() == i,
                old(self).identity() ==> self.identity() && self.reducer.in_circuit_mode() == old(self).reducer.in_circuit_mode() && (forall|j: int|
                    0 <= j < i ==> civ_view(members@[j]) == civ_view(circuit_init.members@[j])),
                old(self).leaf_transform() ==> self.leaf_transform() && self.reducer.in_circuit_mode() == old(self).reducer.in_circuit_mode() && (forall|j: int|
                    0 <= j < i ==> skel_civ(civ_view(members@[j])) == skel_civ(civ_view(circuit_init.members@[j]))),
            decreases circuit_init.members.len() - i,
        {
            let nm = self.reduce_circuit_variable_initializer(&circuit_init.members[i])?;
            members.push(nm);
            i = i + 1;
        }
        proof {
            if old(self).identity() {
                assert(civ_views(members@) =~= civ_views(circuit_init.members@));
            }
            if old(self).leaf_transform() {
                assert(skel_civ_seq(civ_views(members@)) =~= skel_civ_seq(civ_views(circuit_init.members@)));
            }
        }
        self.reducer.reduce_circuit_init(circuit_init, name, members)
    }

    pub fn reduce_call(&mut self, call: &CallExpression) -> (r: Result<CallExpression, ReduceError>)
        ensures
            old(self).identity() ==> final(self).identity() && final(self).reducer.in_circuit_mode() == old(self).reducer.in_circuit_mode() && (r matches Ok(c) && call_view(c)
                == call_view(*call)),
            old(self).leaf_transform() ==> final(self).leaf_transform() && final(self).reducer.in_circuit_mode() == old(self).reducer.in_circuit_mode() && (r matches Ok(c) && skel_expr(call_view(c))
                == skel_expr(call_view(*call))),
        decreases call,
    {
        let function = self.reduce_expression(&call.function)?;
        let arguments = self.reduce_expressions(&call.arguments)?;
        self.reducer.reduce_call(call, function, arguments)
    }

    pub fn reduce_expression(&mut self, expression: &Expression) -> (r: Result<
        Expression,
        ReduceError,
    >)
        ensures
            old(self).identity() ==> final(self).identity() && final(self).reducer.in_circuit_mode() == old(self).reducer.in_circuit_mode() && (r matches Ok(e) && expr_view(e)
                == expr_view(*expression)),
            old(self).leaf_transform() ==> final(self).leaf_transform() && final(self).reducer.in_circuit_mode() == old(self).reducer.in_circuit_mode() && (r matches Ok(e) && skel_expr(expr_view(e))
                == skel_expr(expr_view(*expression))),
        decreases expression,
    {
        let new = match expression {
            Expression::Identifier(id) => Expression::Identifier(
                self.reducer.reduce_identifier(id)?,
            ),
            Expression::Value(v) => self.reduce_value_expression(v)?,
            Expression::Binary(b) => Expression::Binary(self.reduce_binary(b)?),
            Expression::Unary(u) => Expression::Unary(self.reduce_unary(u)?),
            Expression::Ternary(t) => Expression::Ternary(self.reduce_ternary(t)?),
            Expression::Cast(c) => Expression::Cast(self.reduce_cast(c)?),
            Expression::ArrayAccess(a) => Expression::ArrayAccess(self.reduce_array_access(a)?),
            Expression::ArrayRangeAccess(a) => Expression::ArrayRangeAccess(
                self.reduce_array_range_access(a)?,
            ),
            Expression::MemberAccess(m) => Expression::MemberAccess(self.reduce_member_access(m)?),
            Expression::TupleAccess(t) => Expression::TupleAccess(self.reduce_tuple_access(t)?),
            Expression::StaticAccess(s) => Expression::StaticAccess(self.reduce_static_access(s)?),
            Expression::ArrayInline(a) => Expression::ArrayInline(self.reduce_array_inline(a)?),
            Expression::ArrayInit(a) => Expression::ArrayInit(self.reduce_array_init(a)?),
            Expression::TupleInit(t) => Expression::TupleInit(self.reduce_tuple_init(t)?),
            Expression::CircuitInit(c) => Expression::CircuitInit(self.reduce_circuit_init(c)?),
            Expression::Call(c) => Expression::Call(self.reduce_call(c)?),
        };
        self.reducer.reduce_expression(expression, new)
    }
}

} // verus!

verus! {

impl<R: ReconstructingReducer> ReconstructingDirector<R> {
    pub fn reduce_return(&mut self, return_statement: &ReturnStatement) -> (r: Result<
        ReturnStatement,
        ReduceError,
    >)
        ensures
            old(self).identity() ==> final(self).identity() && final(self).reducer.in_circuit_mode() == old(self).reducer.in_circuit_mode() && (r matches Ok(s) && expr_view(
                s.expression,
            ) == expr_view(return_statement.expression) && s.span == return_statement.span),
            old(self).leaf_transform() ==> final(self).leaf_transform() && final(self).reducer.in_circuit_mode() == old(self).reducer.in_circuit_mode() && (r matches Ok(s) && skel_expr(expr_view(
                s.expression,
            )) == skel_expr(expr_view(return_statement.expression)) && s.span == return_statement.span),
        decreases return_statement,
    {
        let expression = self.reduce_expression(&return_statement.expression)?;
        self.reducer.reduce_return(return_statement, expression)
    }

    pub fn reduce_variable_name(&mut self, variable_name: &VariableName) -> (r: Result<
        VariableName,
        ReduceError,
    >)
        ensures
            old(self).identity() ==> final(self).identity() && final(self).reducer.in_circuit_mode() == old(self).reducer.in_circuit_mode() && (r matches Ok(v) && v
                == *variable_name),
            old(self).leaf_transform() ==> final(self).leaf_transform() && final(self).reducer.in_circuit_mode() == old(self).reducer.in_circuit_mode() && (r matches Ok(v) && skel_vname(v) == skel_vname(*variable_name)),
    {
        let identifier = self.reducer.reduce_identifier(&variable_name.identifier)?;
        self.reducer.reduce_variable_name(variable_name, identifier)
    }

    pub fn reduce_definition(&mut self, definition: &DefinitionStatement) -> (r: Result<
        DefinitionStatement,
        ReduceError,
    >)
        ensures
            old(self).identity() ==> final(self).identity() && final(self).reducer.in_circuit_mode() == old(self).reducer.in_circuit_mode() && (r matches Ok(d)
                && definition_view(d) == definition_view(*definition)),
            old(self).leaf_transform() ==> final(self).leaf_transform() && final(self).reducer.in_circuit_mode() == old(self).reducer.in_circuit_mode() && (r matches Ok(d)
                && skel_def(definition_view(d)) == skel_def(definition_view(*definition))),
        decreases definition,
    {
        let mut variable_names: Vec<VariableName> = Vec::new();
        let mut i: usize = 0;
        #[verifier::loop_isolation(false)]
        while i < definition.variable_names.len()
            invariant
                i <= definition.variable_names.len(),
                variable_names.len() == i,
                old(self).identity() ==> self.identity() && self.reducer.in_circuit_mode() == old(self).reducer.in_circuit_mode() && (forall|j: int|
                    0 <= j < i ==> variable_names@[j] == definition.variable_names@[j]),
                old(self).leaf_transform() ==> self.leaf_transform() && self.reducer.in_circuit_mode() == old(self).reducer.in_circuit_mode() && (forall|j: int|
                    0 <= j < i ==> skel_vname(variable_names@[j]) == skel_vname(definition.variable_names@[j])),
            decreases definition.variable_names.len() - i,
        {
            let nv = self.reduce_variable_name(&definition.variable_names[i])?;
            variable_names.push(nv);
            i = i + 1;
        }
        proof {
            if old(self).identity() {
                assert(variable_names@ =~= definition.variable_names@);
            }
            if old(self).leaf_transform() {
                assert(skel_vname_seq(variable_names@) =~= skel_vname_seq(definition.variable_names@));
            }
        }
        let type_ = self.reduce_type(&definition.type_, &definition.span)?;
        let value = self.reduce_expression(&definition.value)?;
        self.reducer.reduce_definition(definition, variable_names, type_, value)
    }

    pub fn reduce_assignee_access(&mut self, access: &AssigneeAccess) -> (r: Result<
        AssigneeAccess,
        ReduceError,
    >)
        ensures
            old(self).identity() ==> final(self).identity() && final(self).reducer.in_circuit_mode() == old(self).reducer.in_circuit_mode() && (r matches Ok(a)
                && assignee_access_view(a) == assignee_access_view(*access)),
            old(self).leaf_transform() ==> final(self).leaf_transform() && final(self).reducer.in_circuit_mode() == old(self).reducer.in_circuit_mode() && (r matches Ok(a)
                && skel_access(assignee_access_view(a)) == skel_access(assignee_access_view(*access))),
        decreases access,
    {
        let new = match access {
            AssigneeAccess::ArrayRange(left, right) => {
                let nl = match left {
                    Some(e) => Some(self.reduce_expression(e)?),
                    None => None,
                };
                let nr = match right {
                    Some(e) => Some(self.reduce_expression(e)?),
                    None => None,
                };
                AssigneeAccess::ArrayRange(nl, nr)
            },
            AssigneeAccess::ArrayIndex(e) => AssigneeAccess::ArrayIndex(
                self.reduce_expression(e)?,
            ),
            AssigneeAccess::Tuple(n, sp) => AssigneeAccess::Tuple(*n, *sp),
            AssigneeAccess::Member(id) => AssigneeAccess::Member(
                self.reducer.reduce_identifier(id)?,
            ),
        };
        self.reducer.reduce_assignee_access(access, new)
    }

    pub fn reduce_assignee(&mut self, assignee: &Assignee) -> (r: Result<Assignee, ReduceError>)
        ensures
            old(self).identity() ==> final(self).identity() && final(self).reducer.in_circuit_mode() == old(self).reducer.in_circuit_mode() && (r matches Ok(a) && assignee_view(a)
                == assignee_view(*assignee)),
            old(self).leaf_transform() ==> final(self).leaf_transform() && final(self).reducer.in_circuit_mode() == old(self).reducer.in_circuit_mode() && (r matches Ok(a) && skel_assignee(assignee_view(a))
                == skel_assignee(assignee_view(*assignee))),
        decreases assignee,
    {
        let identifier = self.reducer.reduce_identifier(&assignee.identifier)?;
        let mut accesses: Vec<AssigneeAccess> = Vec::new();
        let mut i: usize = 0;
        #[verifier::loop_isolation(false)]
        while i < assignee.accesses.len()
            invariant
                i <= assignee.accesses.len(),
                accesses.len() == i,
                old(self).identity() ==> self.identity() && self.reducer.in_circuit_mode() == old(self).reducer.in_circuit_mode() && (forall|j: int|
                    0 <= j < i ==> assignee_access_view(accesses@[j]) == assignee_access_view(
                        assignee.accesses@[j],
                    )),
                old(self).leaf_transform() ==> self.leaf_transform() && self.reducer.in_circuit_mode() == old(self).reducer.in_circuit_mode() && (forall|j: int|
                    0 <= j < i ==> skel_access(assignee_access_view(accesses@[j])) == skel_access(assignee_access_view(
                        assignee.accesses@[j],
                    ))),
            decreases assignee.accesses.len() - i,
        {
            let na = self.reduce_assignee_access(&assignee.accesses[i])?;
            accesses.push(na);
            i = i + 1;
        }
        proof {
            if old(self).identity() {
                assert(assignee_access_views(accesses@) =~= assignee_access_views(
                    assignee.accesses@,
                ));
            }
            if old(self).leaf_transform() {
                assert(skel_access_seq(assignee_access_views(accesses@)) =~= skel_access_seq(assignee_access_views(
                    assignee.accesses@,
                )));
            }
        }
        self.reducer.reduce_assignee(assignee, identifier, accesses)
    }

    pub fn reduce_assign(&mut self, assign: &AssignStatement) -> (r: Result<
        AssignStatement,
        ReduceError,
    >)
        ensures
            old(self).identity() ==> final(self).identity() && final(self).reducer.in_circuit_mode() == old(self).reducer.in_circuit_mode() && (r matches Ok(a) && assign_view(a)
                == assign_view(*assign)),
            old(self).leaf_transform() ==> final(self).leaf_transform() && final(self).reducer.in_circuit_mode() == old(self).reducer.in_circuit_mode() && (r matches Ok(a) && skel_assign(assign_view(a))
                == skel_assign(assign_view(*assign))),
        decreases assign,
    {
        let assignee = self.reduce_assignee(&assign.assignee)?;
        let value = self.reduce_expression(&assign.value)?;
        self.reducer.reduce_assign(assign, assignee, value)
    }

    pub fn reduce_conditional(&mut self, conditional: &ConditionalStatement) -> (r: Result<
        ConditionalStatement,
        ReduceError,
    >)
        ensures
            old(self).identity() ==> final(self).identity() && final(self).reducer.in_circuit_mode() == old(self).reducer.in_circuit_mode() && (r matches Ok(c)
                && conditional_view(c) == conditional_view(*conditional)),
            old(self).leaf_transform() ==> final(self).leaf_transform() && final(self).reducer.in_circuit_mode() == old(self).reducer.in_circuit_mode() && (r matches Ok(c)
                && skel_cond(conditional_view(c)) == skel_cond(conditional_view(*conditional))),
        decreases conditional,
    {
        let condition = self.reduce_expression(&conditional.condition)?;
        let block = self.reduce_block(&conditional.block)?;
        let statement = match &conditional.next {
            Some(s) => Some(self.reduce_statement(s)?),
            None => None,
        };
        self.reducer.reduce_conditional(conditional, condition, block, statement)
    }

    pub fn reduce_iteration(&mut self, iteration: &IterationStatement) -> (r: Result<
        IterationStatement,
        ReduceError,
    >)
        ensures
            old(self).identity() ==> final(self).identity() && final(self).reducer.in_circuit_mode() == old(self).reducer.in_circuit_mode() && (r matches Ok(i) && iteration_view(
                i,
            ) == iteration_view(*iteration)),
            old(self).leaf_transform() ==> final(self).leaf_transform() && final(self).reducer.in_circuit_mode() == old(self).reducer.in_circuit_mode() && (r matches Ok(i) && skel_iter(iteration_view(
                i,
            )) == skel_iter(iteration_view(*iteration))),
        decreases iteration,
    {
        let variable = self.reducer.reduce_identifier(&iteration.variable)?;
        let type_ = self.reduce_type(&iteration.type_, &iteration.span)?;
        let start = self.reduce_expression(&iteration.start)?;
        let stop = self.reduce_expression(&iteration.stop)?;
        let block = self.reduce_block(&iteration.block)?;
        self.reducer.reduce_iteration(iteration, variable, type_, start, stop, block)
    }

    pub fn reduce_console_args(&mut self, args: &ConsoleArgs) -> (r: Result<
        ConsoleArgs,
        ReduceError,
    >)
        ensures
            old(self).identity() ==> final(self).identity() && final(self).reducer.in_circuit_mode() == old(self).reducer.in_circuit_mode() && (r matches Ok(a)
                && console_args_view(a) == console_args_view(*args)),
            old(self).leaf_transform() ==> final(self).leaf_transform() && final(self).reducer.in_circuit_mode() == old(self).reducer.in_circuit_mode() && (r matches Ok(a)
                && skel_console_args(console_args_view(a)) == skel_console_args(console_args_view(*args))),
        decreases args,
    {
        let parameters = self.reduce_expressions(&args.parameters)?;
        Ok(ConsoleArgs { string: copy_vec(&args.string), parameters, span: args.span })
    }

    pub fn reduce_console(&mut self, console: &ConsoleStatement) -> (r: Result<
        ConsoleStatement,
        ReduceError,
    >)
        ensures
            old(self).identity() ==> final(self).identity() && final(self).reducer.in_circuit_mode() == old(self).reducer.in_circuit_mode() && (r matches Ok(c) && console_fn_view(
                c.function,
            ) == console_fn_view(console.function) && c.span == console.span),
            old(self).leaf_transform() ==> final(self).leaf_transform() && final(self).reducer.in_circuit_mode() == old(self).reducer.in_circuit_mode() && (r matches Ok(c) && skel_console_fn(console_fn_view(
                c.function,
            )) == skel_console_fn(console_fn_view(console.function)) && c.span == console.span),
        decreases console,
    {
        let function = match &console.function {
            ConsoleFunction::Assert(e) => ConsoleFunction::Assert(self.reduce_expression(e)?),
            ConsoleFunction::Error(a) => ConsoleFunction::Error(self.reduce_console_args(a)?),
            ConsoleFunction::Log(a) => ConsoleFunction::Log(self.reduce_console_args(a)?),
        };
        self.reducer.reduce_console(console, function)
    }

    pub fn reduce_expression_statement(&mut self, expression_statement: &ExpressionStatement) -> (r:
        Result<ExpressionStatement, ReduceError>)
        ensures
            old(self).identity() ==> final(self).identity() && final(self).reducer.in_circuit_mode() == old(self).reducer.in_circuit_mode() && (r matches Ok(e) && expr_view(
                e.expression,
            ) == expr_view(expression_statement.expression) && e.span
                == expression_statement.span),
            old(self).leaf_transform() ==> final(self).leaf_transform() && final(self).reducer.in_circuit_mode() == old(self).reducer.in_circuit_mode() && (r matches Ok(e) && skel_expr(expr_view(
                e.expression,
            )) == skel_expr(expr_view(expression_statement.expression)) && e.span
                == expression_statement.span),
        decreases expression_statement,
    {
        let expression = self.reduce_expression(&expression_statement.expression)?;
        self.reducer.reduce_expression_statement(expression_statement, expression)
    }

    pub fn reduce_block(&mut self, block: &Block) -> (r: Result<Block, ReduceError>)
        ensures
            old(self).identity() ==> final(self).identity() && final(self).reducer.in_circuit_mode() == old(self).reducer.in_circuit_mode() && (r matches Ok(b) && block_view(b)
                == block_view(*block)),
            old(self).leaf_transform() ==> final(self).leaf_transform() && final(self).reducer.in_circuit_mode() == old(self).reducer.in_circuit_mode() && (r matches Ok(b) && skel_block(block_view(b))
                == skel_block(block_view(*block))),
        decreases block,
    {
        let mut statements: Vec<Statement> = Vec::new();
        let mut i: usize = 0;
        #[verifier::loop_isolation(false)]
        while i < block.statements.len()
            invariant
                i <= block.statements.len(),
                statements.len() == i,
                old(self).identity() ==> self.identity() && self.reducer.in_circuit_mode() == old(self).reducer.in_circuit_mode() && (forall|j: int|
                    0 <= j < i ==> stmt_view(statements@[j]) == stmt_view(block.statements@[j])),
                old(self).leaf_transform() ==> self.leaf_transform() && self.reducer.in_circuit_mode() == old(self).reducer.in_circuit_mode() && (forall|j: int|
                    0 <= j < i ==> skel_stmt(stmt_view(statements@[j])) == skel_stmt(stmt_view(block.statements@[j]))),
            decreases block.statements.len() - i,
        {
            let ns = self.reduce_statement(&block.statements[i])?;
            statements.push(ns);
            i = i + 1;
        }
        proof {
            if old(self).identity() {
                assert(stmt_views(statements@) =~= stmt_views(block.statements@));
            }
            if old(self).leaf_transform() {
                assert(skel_stmt_seq(stmt_views(statements@)) =~= skel_stmt_seq(stmt_views(block.statements@)));
            }
        }
        self.reducer.reduce_block(block, statements)
    }

    pub fn reduce_statement(&mut self, statement: &Statement) -> (r: Result<Statement, ReduceError>)
        ensures
            old(self).identity() ==> final(self).identity() && final(self).reducer.in_circuit_mode() == old(self).reducer.in_circuit_mode() && (r matches Ok(s) && stmt_view(s)
                == stmt_view(*statement)),
            old(self).leaf_transform() ==> final(self).leaf_transform() && final(self).reducer.in_circuit_mode() == old(self).reducer.in_circuit_mode() && (r matches Ok(s) && skel_stmt(stmt_view(s))
                == skel_stmt(stmt_view(*statement))),
        decreases statement,
    {
        let new = match statement {
            Statement::Return(s) => Statement::Return(self.reduce_return(s)?),
            Statement::Definition(d) => Statement::Definition(self.reduce_definition(d)?),
            Statement::Assign(a) => Statement::Assign(Box::new(self.reduce_assign(a)?)),
            Statement::Conditional(c) => Statement::Conditional(self.reduce_conditional(c)?),
            Statement::Iteration(i) => Statement::Iteration(Box::new(self.reduce_iteration(i)?)),
            Statement::Console(c) => Statement::Console(self.reduce_console(c)?),
            Statement::Expression(e) => Statement::Expression(
                self.reduce_expression_statement(e)?,
            ),
            Statement::Block(b) => Statement::Block(self.reduce_block(b)?),
        };
        self.reducer.reduce_statement(statement, new)
    }
}

} // verus!

verus! {

impl<R: ReconstructingReducer> ReconstructingDirector<R> {
    pub fn reduce_function_input_variable(&mut self, variable: &FunctionInputVariable) -> (r:
        Result<FunctionInputVariable, ReduceError>)
        ensures
            old(self).identity() ==> final(self).identity() && final(self).reducer.in_circuit_mode() == old(self).reducer.in_circuit_mode() && (r matches Ok(v) && fiv_view(v)
                == fiv_view(*variable)),
            old(self).leaf_transform() ==> final(self).leaf_transform() && final(self).reducer.in_circuit_mode() == old(self).reducer.in_circuit_mode() && (r matches Ok(v) && skel_fiv(fiv_view(v))
                == skel_fiv(fiv_view(*variable))),
        decreases variable,
    {
        let identifier = self.reducer.reduce_identifier(&variable.identifier)?;
        let type_ = self.reduce_type(&variable.type_, &variable.span)?;
        self.reducer.reduce_function_input_variable(variable, identifier, type_)
    }

    pub fn reduce_function_input(&mut self, input: &FunctionInput) -> (r: Result<
        FunctionInput,
        ReduceError,
    >)
        ensures
            old(self).identity() ==> final(self).identity() && final(self).reducer.in_circuit_mode() == old(self).reducer.in_circuit_mode() && (r matches Ok(f) && input_view(f)
                == input_view(*input)),
            old(self).leaf_transform() ==> final(self).leaf_transform() && final(self).reducer.in_circuit_mode() == old(self).reducer.in_circuit_mode() && (r matches Ok(f) && skel_input(input_view(f))
                == skel_input(input_view(*input))),
        decreases input,
    {
        let new = match input {
            FunctionInput::InputKeyword(id) => FunctionInput::InputKeyword(
                self.reducer.reduce_identifier(id)?,
            ),
            FunctionInput::SelfKeyword(id) => FunctionInput::SelfKeyword(
                self.reducer.reduce_identifier(id)?,
            ),
            FunctionInput::Variable(v) => FunctionInput::Variable(
                self.reduce_function_input_variable(v)?,
            ),
        };
        self.reducer.reduce_function_input(input, new)
    }

    pub fn reduce_function_inputs(&mut self, inputs: &Vec<FunctionInput>) -> (r: Result<
        Vec<FunctionInput>,
        ReduceError,
    >)
        ensures
            old(self).identity() ==> final(self).identity() && final(self).reducer.in_circuit_mode() == old(self).reducer.in_circuit_mode() && (r matches Ok(out) && input_views(
                out@,
            ) == input_views(inputs@)),
            old(self).leaf_transform() ==> final(self).leaf_transform() && final(self).reducer.in_circuit_mode() == old(self).reducer.in_circuit_mode() && (r matches Ok(out) && skel_input_seq(input_views(
                out@,
            )) == skel_input_seq(input_views(inputs@))),
        decreases inputs,
    {
        let mut out: Vec<FunctionInput> = Vec::new();
        let mut i: usize = 0;
        #[verifier::loop_isolation(false)]
        while i < inputs.len()
            invariant
                i <= inputs.len(),
                out.len() == i,
                old(self).identity() ==> self.identity() && self.reducer.in_circuit_mode() == old(self).reducer.in_circuit_mode() && (forall|j: int|
                    0 <= j < i ==> input_view(out@[j]) == input_view(inputs@[j])),
                old(self).leaf_transform() ==> self.leaf_transform() && self.reducer.in_circuit_mode() == old(self).reducer.in_circuit_mode() && (forall|j: int|
                    0 <= j < i ==> skel_input(input_view(out@[j])) == skel_input(input_view(inputs@[j]))),
            decreases inputs.len() - i,
        {
            let ni = self.reduce_function_input(&inputs[i])?;
            out.push(ni);
            i = i + 1;
        }
        proof {
            if old(self).identity() {
                assert(input_views(out@) =~= input_views(inputs@));
            }
            if old(self).leaf_transform() {
                assert(skel_input_seq(input_views(out@)) =~= skel_input_seq(input_views(inputs@)));
            }
        }
        Ok(out)
    }

    pub fn reduce_import_tree(&mut self, tree: &ImportTree) -> (r: Result<ImportTree, ReduceError>)
        ensures
            old(self).identity() ==> final(self).identity() && final(self).reducer.in_circuit_mode() == old(self).reducer.in_circuit_mode() && (r matches Ok(t) && import_tree_view(
                t,
            ) == import_tree_view(*tree)),
            old(self).leaf_transform() ==> final(self).leaf_transform() && final(self).reducer.in_circuit_mode() == old(self).reducer.in_circuit_mode() && (r matches Ok(t) && import_tree_view(
                t,
            ) == import_tree_view(*tree)),
    {
        let new = ImportTree { base: copy_vec(&tree.base), alias: tree.alias, span: tree.span };
        self.reducer.reduce_import_tree(tree, new)
    }

    pub fn reduce_import_statement(&mut self, import: &ImportStatement) -> (r: Result<
        ImportStatement,
        ReduceError,
    >)
        ensures
            old(self).identity() ==> final(self).identity() && final(self).reducer.in_circuit_mode() == old(self).reducer.in_circuit_mode() && (r matches Ok(s)
                && import_statement_view(s) == import_statement_view(*import)),
            old(self).leaf_transform() ==> final(self).leaf_transform() && final(self).reducer.in_circuit_mode() == old(self).reducer.in_circuit_mode() && (r matches Ok(s)
                && import_statement_view(s) == import_statement_view(*import)),
    {
        let tree = self.reduce_import_tree(&import.tree)?;
        self.reducer.reduce_import_statement(import, tree)
    }

    pub fn reduce_annotation(&mut self, annotation: &Annotation) -> (r: Result<
        Annotation,
        ReduceError,
    >)
        ensures
            old(self).identity() ==> final(self).identity() && final(self).reducer.in_circuit_mode() == old(self).reducer.in_circuit_mode() && (r matches Ok(a) && annotation_view(
                a,
            ) == annotation_view(*annotation)),
            old(self).leaf_transform() ==> final(self).leaf_transform() && final(self).reducer.in_circuit_mode() == old(self).reducer.in_circuit_mode() && (r matches Ok(a) && skel_annotation(annotation_view(
                a,
            )) == skel_annotation(annotation_view(*annotation))),
    {
        let name = self.reducer.reduce_identifier(&annotation.name)?;
        self.reducer.reduce_annotation(annotation, name)
    }

    pub fn reduce_circuit_member(&mut self, circuit_member: &CircuitMember) -> (r: Result<
        CircuitMember,
        ReduceError,
    >)
        ensures
            old(self).identity() ==> final(self).identity() && final(self).reducer.in_circuit_mode() == old(self).reducer.in_circuit_mode() && (r matches Ok(m) && member_view(m)
                == member_view(*circuit_member)),
            old(self).leaf_transform() ==> final(self).leaf_transform() && final(self).reducer.in_circuit_mode() == old(self).reducer.in_circuit_mode() && (r matches Ok(m) && skel_member(member_view(m))
                == skel_member(member_view(*circuit_member))),
        decreases circuit_member,
    {
        let new = match circuit_member {
            CircuitMember::CircuitVariable(id, t) => {
                let nid = self.reducer.reduce_identifier(id)?;
                let nt = self.reduce_type(t, &id.span)?;
                CircuitMember::CircuitVariable(nid, nt)
            },
            CircuitMember::CircuitFunction(f) => CircuitMember::CircuitFunction(
                Box::new(self.reduce_function(f)?),
            ),
        };
        self.reducer.reduce_circuit_member(circuit_member, new)
    }

    pub fn reduce_circuit(&mut self, circuit: &Circuit) -> (r: Result<Circuit, ReduceError>)
        ensures
            old(self).identity() ==> final(self).identity() && final(self).reducer.in_circuit_mode() == old(self).reducer.in_circuit_mode() && (r matches Ok(c) && circuit_view(c)
                == circuit_view(*circuit)),
            old(self).leaf_transform() ==> final(self).leaf_transform() && final(self).reducer.in_circuit_mode() == old(self).reducer.in_circuit_mode() && (r matches Ok(c) && skel_circuit(circuit_view(c))
                == skel_circuit(circuit_view(*circuit))),
        decreases circuit,
    {
        let circuit_name = self.reducer.reduce_identifier(&circuit.circuit_name)?;
        let mut members: Vec<CircuitMember> = Vec::new();
        let mut i: usize = 0;
        #[verifier::loop_isolation(false)]
        while i < circuit.members.len()
            invariant
                i <= circuit.members.len(),
                members.len() == i,
                old(self).identity() ==> self.identity() && self.reducer.in_circuit_mode() == old(self).reducer.in_circuit_mode() && (forall|j: int|
                    0 <= j < i ==> member_view(members@[j]) == member_view(circuit.members@[j])),
                old(self).leaf_transform() ==> self.leaf_transform() && self.reducer.in_circuit_mode() == old(self).reducer.in_circuit_mode() && (forall|j: int|
                    0 <= j < i ==> skel_member(member_view(members@[j])) == skel_member(member_view(circuit.members@[j]))),
            decreases circuit.members.len() - i,
        {
            let nm = self.reduce_circuit_member(&circuit.members[i])?;
            members.push(nm);
            i = i + 1;
        }
        proof {
            if old(self).identity() {
                assert(member_views(members@) =~= member_views(circuit.members@));
            }
            if old(self).leaf_transform() {
                assert(skel_member_seq(member_views(members@)) =~= skel_member_seq(member_views(circuit.members@)));
            }
        }
        self.reducer.reduce_circuit(circuit, circuit_name, members)
    }

    pub fn reduce_alias(&mut self, alias: &Alias) -> (r: Result<Alias, ReduceError>)
        ensures
            old(self).identity() ==> final(self).identity() && final(self).reducer.in_circuit_mode() == old(self).reducer.in_circuit_mode() && (r matches Ok(a) && alias_view(a)
                == alias_view(*alias)),
            old(self).leaf_transform() ==> final(self).leaf_transform() && final(self).reducer.in_circuit_mode() == old(self).reducer.in_circuit_mode() && (r matches Ok(a) && skel_alias(alias_view(a))
                == skel_alias(alias_view(*alias))),
        decreases alias,
    {
        let name = self.reducer.reduce_identifier(&alias.name)?;
        let represents = self.reduce_type(&alias.represents, &alias.span)?;
        Ok(Alias { name, represents, span: alias.span })
    }

    pub fn reduce_function(&mut self, function: &Function) -> (r: Result<Function, ReduceError>)
        ensures
            old(self).identity() ==> final(self).identity() && final(self).reducer.in_circuit_mode() == old(self).reducer.in_circuit_mode() && (r matches Ok(f) && function_view(f)
                == function_view(*function)),
            old(self).leaf_transform() ==> final(self).leaf_transform() && final(self).reducer.in_circuit_mode() == old(self).reducer.in_circuit_mode() && (r matches Ok(f) && skel_function(function_view(f))
                == skel_function(function_view(*function))),
        decreases function,
    {
        let identifier = self.reducer.reduce_identifier(&function.identifier)?;
        let mut annotations: Vec<(Symbol, Annotation)> = Vec::new();
        let mut i: usize = 0;
        #[verifier::loop_isolation(false)]
        while i < function.annotations.len()
            invariant
                i <= function.annotations.len(),
                annotations.len() == i,
                old(self).identity() ==> self.identity() && self.reducer.in_circuit_mode() == old(self).reducer.in_circuit_mode() && (forall|j: int|
                    0 <= j < i ==> annotations@[j].0 == function.annotations@[j].0
                        && annotation_view(annotations@[j].1) == annotation_view(
                        function.annotations@[j].1,
                    )),
                old(self).leaf_transform() ==> self.leaf_transform() && self.reducer.in_circuit_mode() == old(self).reducer.in_circuit_mode() && (forall|j: int|
                    0 <= j < i ==> annotations@[j].0 == function.annotations@[j].0
                        && skel_annotation(annotation_view(annotations@[j].1)) == skel_annotation(annotation_view(
                        function.annotations@[j].1,
                    ))),
            decreases function.annotations.len() - i,
        {
            let na = self.reduce_annotation(&function.annotations[i].1)?;
            let key = function.annotations[i].0;
            annotations.push((key, na));
            i = i + 1;
        }
        proof {
            if old(self).identity() {
                assert(annotation_entry_views(annotations@) =~= annotation_entry_views(
                    function.annotations@,
                ));
            }
            if old(self).leaf_transform() {
                assert(skel_annotation_entry_seq(annotation_entry_views(annotations@)) =~= skel_annotation_entry_seq(annotation_entry_views(
                    function.annotations@,
                )));
            }
        }
        let input = self.reduce_function_inputs(&function.input)?;
        let output = self.reduce_type(&function.output, &function.span)?;
        let block = self.reduce_block(&function.block)?;
        self.reducer.reduce_function(
            function,
            identifier,
            annotations,
            input,
            function.const_,
            output,
            block,
        )
    }
}

} // verus!

verus! {

impl<R: ReconstructingReducer> ReconstructingDirector<R> {
    /// Reduce the root declaration: every child aggregate is reduced entry
    /// by entry in its stored order, then the protocol's `reduce_program`
    /// hook reassembles the root.
    #[verifier::rlimit(30)]
    pub fn reduce_program(&mut self, program: &Program) -> (r: Result<Program, ReduceError>)
        ensures
            old(self).identity() ==> final(self).identity() && final(self).reducer.in_circuit_mode() == old(self).reducer.in_circuit_mode() && (r matches Ok(p) && program_view(p)
                == program_view(*program)),
            old(self).leaf_transform() ==> final(self).leaf_transform() && final(self).reducer.in_circuit_mode() == old(self).reducer.in_circuit_mode() && (r matches Ok(p) && skel_program(program_view(p))
                == skel_program(program_view(*program))),
        decreases program,
    {
        let expected_input = self.reduce_function_inputs(&program.expected_input)?;

        let mut import_statements: Vec<ImportStatement> = Vec::new();
        let mut i: usize = 0;
        #[verifier::loop_isolation(false)]
        while i < program.import_statements.len()
            invariant
                i <= program.import_statements.len(),
                import_statements.len() == i,
                old(self).identity() ==> self.identity() && self.reducer.in_circuit_mode() == old(self).reducer.in_circuit_mode() && (forall|j: int|
                    0 <= j < i ==> import_statement_view(import_statements@[j])
                        == import_statement_view(program.import_statements@[j])),
                old(self).leaf_transform() ==> self.leaf_transform() && self.reducer.in_circuit_mode() == old(self).reducer.in_circuit_mode() && (forall|j: int|
                    0 <= j < i ==> import_statement_view(import_statements@[j])
                        == import_statement_view(program.import_statements@[j])),
            decreases program.import_statements.len() - i,
        {
            let ns = self.reduce_import_statement(&program.import_statements[i])?;
            import_statements.push(ns);
            i = i + 1;
        }
        proof {
            if old(self).identity() {
                assert(import_statement_views(import_statements@) =~= import_statement_views(
                    program.import_statements@,
                ));
            }
            if old(self).leaf_transform() {
                assert(import_statement_views(import_statements@) =~= import_statement_views(
                    program.import_statements@,
                ));
            }
        }

        let mut imports: Vec<(Vec<Symbol>, Program)> = Vec::new();
        let mut i: usize = 0;
        #[verifier::loop_isolation(false)]
        while i < program.imports.len()
            invariant
                i <= program.imports.len(),
                imports.len() == i,
                old(self).identity() ==> self.identity() && self.reducer.in_circuit_mode() == old(self).reducer.in_circuit_mode() && (forall|j: int|
                    0 <= j < i ==> imports@[j].0@ == program.imports@[j].0@ && program_view(
                        imports@[j].1,
                    ) == program_view(program.imports@[j].1)),
                old(self).leaf_transform() ==> self.leaf_transform() && self.reducer.in_circuit_mode() == old(self).reducer.in_circuit_mode() && (forall|j: int|
                    0 <= j < i ==> imports@[j].0@ == program.imports@[j].0@ && skel_program(program_view(
                        imports@[j].1,
                    )) == skel_program(program_view(program.imports@[j].1))),
            decreases program.imports.len() - i,
        {
            let key = copy_vec(&program.imports[i].0);
            let nested = self.reduce_program(&program.imports[i].1)?;
            let entry = self.reducer.reduce_import(key, nested)?;
            imports.push(entry);
            i = i + 1;
        }
        proof {
            if old(self).identity() {
                assert(import_entry_views(imports@) =~= import_entry_views(program.imports@));
            }
            if old(self).leaf_transform() {
                assert(skel_import_entry_seq(import_entry_views(imports@)) =~= skel_import_entry_seq(import_entry_views(program.imports@)));
            }
        }

        let mut aliases: Vec<(Identifier, Alias)> = Vec::new();
        let mut i: usize = 0;
        #[verifier::loop_isolation(false)]
        while i < program.aliases.len()
            invariant
                i <= program.aliases.len(),
                aliases.len() == i,
                old(self).identity() ==> self.identity() && self.reducer.in_circuit_mode() == old(self).reducer.in_circuit_mode() && (forall|j: int|
                    0 <= j < i ==> aliases@[j].0 == program.aliases@[j].0 && alias_view(
                        aliases@[j].1,
                    ) == alias_view(program.aliases@[j].1)),
                old(self).leaf_transform() ==> self.leaf_transform() && self.reducer.in_circuit_mode() == old(self).reducer.in_circuit_mode() && (forall|j: int|
                    0 <= j < i ==> skel_ident(aliases@[j].0) == skel_ident(program.aliases@[j].0) && skel_alias(alias_view(
                        aliases@[j].1,
                    )) == skel_alias(alias_view(program.aliases@[j].1))),
            decreases program.aliases.len() - i,
        {
            let key = self.reducer.reduce_identifier(&program.aliases[i].0)?;
            let na = self.reduce_alias(&program.aliases[i].1)?;
            aliases.push((key, na));
            i = i + 1;
        }
        proof {
            if old(self).identity() {
                assert(alias_entry_views(aliases@) =~= alias_entry_views(program.aliases@));
            }
            if old(self).leaf_transform() {
                assert(skel_alias_entry_seq(alias_entry_views(aliases@)) =~= skel_alias_entry_seq(alias_entry_views(program.aliases@)));
            }
        }

        let mut circuits: Vec<(Identifier, Circuit)> = Vec::new();
        let mut i: usize = 0;
        #[verifier::loop_isolation(false)]
        while i < program.circuits.len()
            invariant
                i <= program.circuits.len(),
                circuits.len() == i,
                old(self).identity() ==> self.identity() && self.reducer.in_circuit_mode() == old(self).reducer.in_circuit_mode() && (forall|j: int|
                    0 <= j < i ==> circuits@[j].0 == program.circuits@[j].0 && circuit_view(
                        circuits@[j].1,
                    ) == circuit_view(program.circuits@[j].1)),
                old(self).leaf_transform() ==> self.leaf_transform() && self.reducer.in_circuit_mode() == old(self).reducer.in_circuit_mode() && (forall|j: int|
                    0 <= j < i ==> skel_ident(circuits@[j].0) == skel_ident(program.circuits@[j].0) && skel_circuit(circuit_view(
                        circuits@[j].1,
                    )) == skel_circuit(circuit_view(program.circuits@[j].1))),
            decreases program.circuits.len() - i,
        {
            let key = self.reducer.reduce_identifier(&program.circuits[i].0)?;
            let nc = self.reduce_circuit(&program.circuits[i].1)?;
            circuits.push((key, nc));
            i = i + 1;
        }
        proof {
            if old(self).identity() {
                assert(circuit_entry_views(circuits@) =~= circuit_entry_views(program.circuits@));
            }
            if old(self).leaf_transform() {
                assert(skel_circuit_entry_seq(circuit_entry_views(circuits@)) =~= skel_circuit_entry_seq(circuit_entry_views(program.circuits@)));
            }
        }

        let mut functions: Vec<(Identifier, Function)> = Vec::new();
        let mut i: usize = 0;
        #[verifier::loop_isolation(false)]
        while i < program.functions.len()
            invariant
                i <= program.functions.len(),
                functions.len() == i,
                old(self).identity() ==> self.identity() && self.reducer.in_circuit_mode() == old(self).reducer.in_circuit_mode() && (forall|j: int|
                    0 <= j < i ==> functions@[j].0 == program.functions@[j].0 && function_view(
                        functions@[j].1,
                    ) == function_view(program.functions@[j].1)),
                old(self).leaf_transform() ==> self.leaf_transform() && self.reducer.in_circuit_mode() == old(self).reducer.in_circuit_mode() && (forall|j: int|
                    0 <= j < i ==> skel_ident(functions@[j].0) == skel_ident(program.functions@[j].0) && skel_function(function_view(
                        functions@[j].1,
                    )) == skel_function(function_view(program.functions@[j].1))),
            decreases program.functions.len() - i,
        {
            let key = self.reducer.reduce_identifier(&program.functions[i].0)?;
            let nf = self.reduce_function(&program.functions[i].1)?;
            functions.push((key, nf));
            i = i + 1;
        }
        proof {
            if old(self).identity() {
                assert(function_entry_views(functions@) =~= function_entry_views(
                    program.functions@,
                ));
            }
            if old(self).leaf_transform() {
                assert(skel_function_entry_seq(function_entry_views(functions@)) =~= skel_function_entry_seq(function_entry_views(
                    program.functions@,
                )));
            }
        }

        let mut global_consts: Vec<(Vec<Identifier>, DefinitionStatement)> = Vec::new();
        let mut i: usize = 0;
        #[verifier::loop_isolation(false)]
        while i < program.global_consts.len()
            invariant
                i <= program.global_consts.len(),
                global_consts.len() == i,
                old(self).identity() ==> self.identity() && self.reducer.in_circuit_mode() == old(self).reducer.in_circuit_mode() && (forall|j: int|
                    0 <= j < i ==> global_consts@[j].0@ == program.global_consts@[j].0@
                        && definition_view(global_consts@[j].1) == definition_view(
                        program.global_consts@[j].1,
                    )),
                old(self).leaf_transform() ==> self.leaf_transform() && self.reducer.in_circuit_mode() == old(self).reducer.in_circuit_mode() && (forall|j: int|
                    0 <= j < i ==> global_consts@[j].0@ == program.global_consts@[j].0@
                        && skel_def(definition_view(global_consts@[j].1)) == skel_def(definition_view(
                        program.global_consts@[j].1,
                    ))),
            decreases program.global_consts.len() - i,
        {
            let key = copy_vec(&program.global_consts[i].0);
            let nd = self.reduce_definition(&program.global_consts[i].1)?;
            global_consts.push((key, nd));
            i = i + 1;
        }
        proof {
            if old(self).identity() {
                assert(gconst_entry_views(global_consts@) =~= gconst_entry_views(
                    program.global_consts@,
                ));
            }
            if old(self).leaf_transform() {
                assert(skel_gconst_entry_seq(gconst_entry_views(global_consts@)) =~= skel_gconst_entry_seq(gconst_entry_views(
                    program.global_consts@,
                )));
            }
        }

        self.reducer.reduce_program(
            program,
            expected_input,
            import_statements,
            imports,
            aliases,
            circuits,
            functions,
            global_consts,
        )
    }
}

/// The driver entry point: walk the whole tree rooted at `program` bottom-up
/// with the given protocol implementation and build the new root.
///
/// Identity law: with a reducer whose `is_identity` holds, the result is
/// `Ok` and its view equals the input's view exactly, every span included.
/// With a leaf transform (`is_leaf_transform`), the result is `Ok` and its
/// skeleton equals the input's: the rewrite touches nothing but identifier
/// names.
pub fn reduce<R: ReconstructingReducer>(program: &Program, reducer: R) -> (r: Result<
    Program,
    ReduceError,
>)
    ensures
        reducer.is_identity() ==> (r matches Ok(p) && program_view(p) == program_view(*program)),
        reducer.is_leaf_transform() ==> (r matches Ok(p) && skel_program(program_view(p)) == skel_program(
            program_view(*program),
        )),
{
    let mut director = ReconstructingDirector::new(reducer);
    director.reduce_program(program)
}

} // verus!
