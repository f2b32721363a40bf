//! Protocol implementations: the all-default pass, and two small example
//! passes that exercise partial overriding, one transforming a single leaf
//! kind and one failing on a chosen call.
use vstd::prelude::*;
use crate::ast::{
    Identifier, Symbol, Expression, CallExpression, Program,
    BinaryExpression, BinaryOperation,
};
use crate::reducer::{ReduceError, ReconstructingReducer, default_identifier, default_binary};
use crate::views::{
    program_view, import_keys, alias_keys, circuit_keys, function_keys, global_const_keys,
    program_keys_unique,
};

verus! {

/// The pass that overrides nothing: every hook keeps its default body, so a
/// traversal driven by it is an identity transformation (a fresh tree,
/// equal view).  It still carries the circuit-context bit, which overrides
/// built on top of it may toggle.
pub struct DefaultReducer {
    pub circuit: bool,
}

impl DefaultReducer {
    pub fn new() -> (r: DefaultReducer)
        ensures
            r.is_identity(),
            !r.in_circuit_mode(),
    {
        DefaultReducer { circuit: false }
    }
}

impl ReconstructingReducer for DefaultReducer {
    open spec fn is_identity(&self) -> bool {
        true
    }

    open spec fn is_leaf_transform(&self) -> bool {
        true
    }

    open spec fn in_circuit_mode(&self) -> bool {
        self.circuit
    }

    fn in_circuit(&self) -> (b: bool) {
        self.circuit
    }

    fn swap_in_circuit(&mut self) {
        self.circuit = !self.circuit;
    }
}

/// A pass that renames every identifier named `from` to `to`, keeping the
/// identifier's span and everything else in the tree unchanged.
pub struct RenameReducer {
    pub from: Symbol,
    pub to: Symbol,
    pub circuit: bool,
}

impl RenameReducer {
    pub fn new(from: Symbol, to: Symbol) -> (r: RenameReducer)
        ensures
            r.from == from,
            r.to == to,
            r.is_leaf_transform(),
            !r.in_circuit_mode(),
    {
        RenameReducer { from, to, circuit: false }
    }
}

impl ReconstructingReducer for RenameReducer {
    open spec fn is_identity(&self) -> bool {
        false
    }

    open spec fn is_leaf_transform(&self) -> bool {
        true
    }

    open spec fn in_circuit_mode(&self) -> bool {
        self.circuit
    }

    fn in_circuit(&self) -> (b: bool) {
        self.circuit
    }

    fn swap_in_circuit(&mut self) {
        self.circuit = !self.circuit;
    }

    fn reduce_identifier(&mut self, identifier: &Identifier) -> (r: Result<Identifier, ReduceError>)
        ensures
            r matches Ok(id) && id.span == identifier.span && id.name == (
            if identifier.name == old(self).from {
                old(self).to
            } else {
                identifier.name
            }),
            *final(self) == *old(self),
    {
        if identifier.name == self.from {
            Ok(Identifier { name: self.to, span: identifier.span })
        } else {
            Ok(default_identifier(identifier))
        }
    }
}

/// Whether a reduced callee expression is exactly the identifier `name`.
pub open spec fn callee_is(function: Expression, name: Symbol) -> bool {
    match function {
        Expression::Identifier(id) => id.name == name,
        _ => false,
    }
}

/// A pass that fails whenever the callee of a call expression is the
/// forbidden identifier, and counts every identifier it is handed and every
/// binary node it reassembles, so that fail-fast short-circuiting is
/// observable: whatever stands after the failing node is never visited.
pub struct FailOnCallReducer {
    pub forbidden: Symbol,
    pub visited_identifiers: u64,
    pub binary_hooks: u64,
    pub circuit: bool,
}

impl FailOnCallReducer {
    pub fn new(forbidden: Symbol) -> (r: FailOnCallReducer)
        ensures
            r.forbidden == forbidden,
            r.visited_identifiers == 0,
            r.binary_hooks == 0,
            !r.in_circuit_mode(),
    {
        FailOnCallReducer { forbidden, visited_identifiers: 0, binary_hooks: 0, circuit: false }
    }
}

impl ReconstructingReducer for FailOnCallReducer {
    open spec fn is_identity(&self) -> bool {
        false
    }

    open spec fn is_leaf_transform(&self) -> bool {
        false
    }

    open spec fn in_circuit_mode(&self) -> bool {
        self.circuit
    }

    fn in_circuit(&self) -> (b: bool) {
        self.circuit
    }

    fn swap_in_circuit(&mut self) {
        self.circuit = !self.circuit;
    }

    fn reduce_identifier(&mut self, identifier: &Identifier) -> (r: Result<Identifier, ReduceError>)
        ensures
            r matches Ok(id) && id == *identifier,
            final(self).visited_identifiers == (
            if old(self).visited_identifiers < u64::MAX {
                old(self).visited_identifiers + 1
            } else {
                old(self).visited_identifiers as int
            }),
            final(self).forbidden == old(self).forbidden,
            final(self).binary_hooks == old(self).binary_hooks,
            final(self).circuit == old(self).circuit,
    {
        if self.visited_identifiers < u64::MAX {
            self.visited_identifiers = self.visited_identifiers + 1;
        }
        Ok(default_identifier(identifier))
    }

    fn reduce_binary(
        &mut self,
        binary: &BinaryExpression,
        left: Expression,
        right: Expression,
        op: BinaryOperation,
    ) -> (r: Result<BinaryExpression, ReduceError>)
        ensures
            r matches Ok(b) && *b.left == left && *b.right == right && b.op == op && b.span
                == binary.span,
            final(self).binary_hooks == (
            if old(self).binary_hooks < u64::MAX {
                old(self).binary_hooks + 1
            } else {
                old(self).binary_hooks as int
            }),
            final(self).forbidden == old(self).forbidden,
            final(self).visited_identifiers == old(self).visited_identifiers,
            final(self).circuit == old(self).circuit,
    {
        if self.binary_hooks < u64::MAX {
            self.binary_hooks = self.binary_hooks + 1;
        }
        Ok(default_binary(binary, left, right, op))
    }

    /// Fails exactly when the reduced callee is the forbidden identifier,
    /// with the error tied to the call's span; any other call is the
    /// default reassembly.
    fn reduce_call(
        &mut self,
        call: &CallExpression,
        function: Expression,
        arguments: Vec<Expression>,
    ) -> (r: Result<CallExpression, ReduceError>)
        ensures
            callee_is(function, old(self).forbidden) ==> (r matches Err(e) && e.span == call.span),
            !callee_is(function, old(self).forbidden) ==> (r matches Ok(c) && *c.function
                == function && c.arguments == arguments && c.span == call.span),
            *final(self) == *old(self),
    {
        let forbidden = match &function {
            Expression::Identifier(id) => id.name == self.forbidden,
            _ => false,
        };
        if forbidden {
            Err(ReduceError { span: call.span })
        } else {
            Ok(crate::reducer::default_call(call, function, arguments))
        }
    }
}

/// Aggregate fidelity of the root: when a reduction returns a program whose
/// view equals the input's view (as the identity theorem of
/// [`crate::director::reduce`] guarantees for an all-default protocol), the
/// key sequences of the `imports`, `aliases`, `circuits`, `functions` and
/// `global_consts` aggregates are the input's, entry for entry and in the
/// same stored order, and key uniqueness carries over.
pub proof fn lemma_program_aggregate_fidelity(reduced: Program, original: Program)
    requires
        program_view(reduced) == program_view(original),
    ensures
        import_keys(program_view(reduced)) == import_keys(program_view(original)),
        alias_keys(program_view(reduced)) == alias_keys(program_view(original)),
        circuit_keys(program_view(reduced)) == circuit_keys(program_view(original)),
        function_keys(program_view(reduced)) == function_keys(program_view(original)),
        global_const_keys(program_view(reduced)) == global_const_keys(program_view(original)),
        program_keys_unique(program_view(reduced)) == program_keys_unique(program_view(original)),
{
}

} // verus!
