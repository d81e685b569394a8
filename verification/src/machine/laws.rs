//! What holds of every step of the machine.

use vstd::prelude::*;
use crate::environment::{
    define, extends, law_assign_then_get, law_bindings_persist,
    lemma_assign_extends, lemma_assign_valid, lemma_define_extends, lemma_define_valid,
    lemma_extends_transitive, lemma_lookup_agree, lemma_nested_extends, lemma_nested_valid,
    lookup, nested, position, resolve, valid, ScopeView,
};
use crate::expression::ExpressionView;
use crate::machine::{
    bound, called, goes, invoked, resumed, stepped, ControlView, FrameView, MachineView,
};
use crate::runtime::runtime_error::RuntimeErrorView;
use crate::runtime::runtime_function::RuntimeFunctionView;
use crate::runtime::runtime_type::{truthy, RuntimeTypeView};
use crate::statement::StatementView;
use crate::token::{TokenType, TokenView};

verus! {

/// `and` after a left operand that is not truthy, and `or` after one that
/// is, have the value of the left operand, and the right operand is not
/// evaluated, whatever it is: it is in no part of the state any more.
pub proof fn law_short_circuit(
    environment: Seq<ScopeView>,
    stack: Seq<FrameView>,
    operator: TokenView,
    right: ExpressionView,
    scope: nat,
    v: RuntimeTypeView,
)
    requires
        (operator.token_type == TokenType::Or) == truthy(v),
    ensures
        resumed(environment, stack, FrameView::Logical(operator, right, scope), v) == goes(
            environment,
            stack,
            ControlView::Value(v),
        ),
{
}

/// A call with a number of arguments that is not the number of parameters
/// fails and does not run the body: the scopes and the stack stay as they
/// are.
pub proof fn law_arity(
    environment: Seq<ScopeView>,
    stack: Seq<FrameView>,
    function: RuntimeFunctionView,
    values: Seq<RuntimeTypeView>,
)
    requires
        !(function.body is Native),
        function.parameters.len() != values.len(),
    ensures
        invoked(environment, stack, function, values) == goes(
            environment,
            stack,
            ControlView::Raise(
                RuntimeErrorView::WrongArgumentsForFunction(
                    function.name,
                    function.parameters.len(),
                    values.len(),
                ),
            ),
        ),
{
}

/// An assignment to a name that some scope from `scope` outwards binds has
/// the assigned value, and the name then has that value, seen from `scope`.
pub proof fn law_assignment_is_seen(
    environment: Seq<ScopeView>,
    stack: Seq<FrameView>,
    name: TokenView,
    scope: nat,
    v: RuntimeTypeView,
)
    requires
        valid(environment),
        resolve(environment, scope as int, name.lexeme) is Some,
    ensures
        resumed(environment, stack, FrameView::Assign(name, scope), v).machine.control
            == ControlView::Value(v),
        lookup(
            resumed(environment, stack, FrameView::Assign(name, scope), v).machine.environment,
            scope as int,
            name.lexeme,
        ) == Some(v),
{
    law_assign_then_get(environment, scope as int, name.lexeme, v);
}

/// The end of a block leaves every scope as it is: what a function that was
/// defined in the block sees stays there.
pub proof fn law_block_keeps_scopes(
    environment: Seq<ScopeView>,
    stack: Seq<FrameView>,
    statements: Seq<StatementView>,
    next: nat,
    scope: nat,
    v: RuntimeTypeView,
)
    requires
        next >= statements.len(),
    ensures
        resumed(environment, stack, FrameView::Block(statements, next, scope), v) == goes(
            environment,
            stack,
            ControlView::Value(RuntimeTypeView::Nil),
        ),
{
}

/// Binding parameters in the last scope leaves the scopes before it as they
/// are, and binds there no name that is not a parameter.
pub proof fn lemma_bound(
    scopes: Seq<ScopeView>,
    parameters: Seq<TokenView>,
    values: Seq<RuntimeTypeView>,
    from: int,
    key: Seq<char>,
)
    requires
        scopes.len() > 0,
        0 <= from,
        forall|k: int| from <= k < parameters.len() ==> (#[trigger] parameters[k]).lexeme != key,
        position(scopes.last().names, key, 0) is None,
    ensures
        ({
            let after = bound(scopes, (scopes.len() - 1) as nat, parameters, values, from);
            &&& after.len() == scopes.len()
            &&& forall|t: int| 0 <= t < scopes.len() - 1 ==> after[t] == scopes[t]
            &&& after.last().enclosing == scopes.last().enclosing
            &&& position(after.last().names, key, 0) is None
        }),
    decreases parameters.len() - from,
{
    if from < parameters.len() && from < values.len() {
        let top = scopes.len() - 1;
        let next = define(scopes, top, parameters[from].lexeme, values[from]);
        lemma_not_defined(scopes[top].names, parameters[from].lexeme, key, 0);
        lemma_bound(next, parameters, values, from + 1, key);
    }
}

/// A key that is not among the names is not among them once another name is
/// defined.
pub proof fn lemma_not_defined(names: Seq<Seq<char>>, name: Seq<char>, key: Seq<char>, from: int)
    requires
        0 <= from <= names.len(),
        name != key,
        position(names, key, from) is None,
    ensures
        position(names.push(name), key, from) is None,
    decreases names.len() - from,
{
    if from < names.len() {
        lemma_not_defined(names, name, key, from + 1);
    } else {
        assert(position(names.push(name), key, from + 1) is None);
    }
}

/// The body of a called function sees every name that is no parameter as
/// the scope in which the function was defined sees it.
pub proof fn law_call_sees_defining_scope(
    scopes: Seq<ScopeView>,
    function: RuntimeFunctionView,
    values: Seq<RuntimeTypeView>,
    key: Seq<char>,
)
    requires
        function.enclosing < scopes.len(),
        function.parameters.len() == values.len(),
        forall|k: int|
            0 <= k < function.parameters.len() ==> (#[trigger] function.parameters[k]).lexeme
                != key,
    ensures
        called(scopes, function, values) matches Ok(after) && lookup(
            after,
            scopes.len() as int,
            key,
        ) == lookup(scopes, function.enclosing as int, key),
{
    let opened = nested(scopes, function.enclosing);
    let after = bound(opened, scopes.len(), function.parameters, values, 0);
    lemma_bound(opened, function.parameters, values, 0, key);
    lemma_lookup_agree(after, scopes, function.enclosing as int, key);
}

/// Binding parameters extends the scopes.
pub proof fn lemma_bound_extends(
    scopes: Seq<ScopeView>,
    scope: nat,
    parameters: Seq<TokenView>,
    values: Seq<RuntimeTypeView>,
    from: int,
)
    ensures
        extends(scopes, bound(scopes, scope, parameters, values, from)),
    decreases parameters.len() - from,
{
    if 0 <= from < parameters.len() && from < values.len() {
        let next = define(scopes, scope as int, parameters[from].lexeme, values[from]);
        lemma_define_extends(scopes, scope as int, parameters[from].lexeme, values[from]);
        lemma_bound_extends(next, scope, parameters, values, from + 1);
        lemma_extends_transitive(
            scopes,
            next,
            bound(next, scope, parameters, values, from + 1),
        );
    }
}

/// A call extends the scopes, whether it succeeds or not.
pub proof fn lemma_invoked_extends(
    environment: Seq<ScopeView>,
    stack: Seq<FrameView>,
    function: RuntimeFunctionView,
    values: Seq<RuntimeTypeView>,
)
    ensures
        extends(environment, invoked(environment, stack, function, values).machine.environment),
{
    let opened = nested(environment, function.enclosing);
    lemma_nested_extends(environment, function.enclosing);
    lemma_bound_extends(opened, environment.len(), function.parameters, values, 0);
    lemma_extends_transitive(
        environment,
        opened,
        bound(opened, environment.len(), function.parameters, values, 0),
    );
}

/// Binding parameters keeps the scopes valid.
pub proof fn lemma_bound_valid(
    scopes: Seq<ScopeView>,
    scope: nat,
    parameters: Seq<TokenView>,
    values: Seq<RuntimeTypeView>,
    from: int,
)
    requires
        valid(scopes),
    ensures
        valid(bound(scopes, scope, parameters, values, from)),
    decreases parameters.len() - from,
{
    if 0 <= from < parameters.len() && from < values.len() {
        let next = define(scopes, scope as int, parameters[from].lexeme, values[from]);
        lemma_define_valid(scopes, scope as int, parameters[from].lexeme, values[from]);
        lemma_bound_valid(next, scope, parameters, values, from + 1);
    }
}

/// A call keeps the scopes valid, whether it succeeds or not.
pub proof fn lemma_invoked_valid(
    environment: Seq<ScopeView>,
    stack: Seq<FrameView>,
    function: RuntimeFunctionView,
    values: Seq<RuntimeTypeView>,
)
    requires
        valid(environment),
    ensures
        valid(invoked(environment, stack, function, values).machine.environment),
{
    let opened = nested(environment, function.enclosing);
    lemma_nested_valid(environment, function.enclosing);
    lemma_bound_valid(opened, environment.len(), function.parameters, values, 0);
}

/// Every step keeps the scopes valid.
pub proof fn law_steps_keep_the_scopes_valid(m: MachineView)
    requires
        valid(m.environment),
    ensures
        valid(stepped(m).machine.environment),
{
    let environment = m.environment;
    match m.control {
        ControlView::Execute(s, scope) => {
            match s {
                StatementView::Function(name, parameters, body) => {
                    lemma_define_valid(
                        environment,
                        scope as int,
                        name.lexeme,
                        RuntimeTypeView::Function(
                            RuntimeFunctionView {
                                name: name.lexeme,
                                parameters,
                                body: *body,
                                enclosing: scope,
                            },
                        ),
                    );
                },
                StatementView::Block(statements) => {
                    lemma_nested_valid(environment, scope);
                },
                _ => {},
            }
        },
        ControlView::Value(v) => {
            if m.stack.len() > 0 {
                let stack = m.stack.drop_last();
                match m.stack.last() {
                    FrameView::Assign(t, scope) => {
                        lemma_assign_valid(environment, scope as int, t.lexeme, v);
                    },
                    FrameView::Var(name, scope) => {
                        lemma_define_valid(environment, scope as int, name.lexeme, v);
                    },
                    FrameView::Callee(callee, arguments, scope) => {
                        match v {
                            RuntimeTypeView::Function(function) => {
                                lemma_invoked_valid(environment, stack, function, seq![]);
                            },
                            _ => {},
                        }
                    },
                    FrameView::Argument(function, arguments, scope, values) => {
                        lemma_invoked_valid(environment, stack, function, values.push(v));
                    },
                    _ => {},
                }
            }
        },
        _ => {},
    }
}

/// No step takes a scope away, moves one into another scope, or takes a
/// name out of one.
pub proof fn law_steps_extend_the_scopes(m: MachineView)
    ensures
        extends(m.environment, stepped(m).machine.environment),
{
    let environment = m.environment;
    match m.control {
        ControlView::Evaluate(e, scope) => {},
        ControlView::Execute(s, scope) => {
            match s {
                StatementView::Function(name, parameters, body) => {
                    lemma_define_extends(
                        environment,
                        scope as int,
                        name.lexeme,
                        RuntimeTypeView::Function(
                            RuntimeFunctionView {
                                name: name.lexeme,
                                parameters,
                                body: *body,
                                enclosing: scope,
                            },
                        ),
                    );
                },
                StatementView::Block(statements) => {
                    lemma_nested_extends(environment, scope);
                },
                _ => {},
            }
        },
        ControlView::Value(v) => {
            if m.stack.len() > 0 {
                let stack = m.stack.drop_last();
                match m.stack.last() {
                    FrameView::Assign(t, scope) => {
                        lemma_assign_extends(environment, scope as int, t.lexeme, v);
                    },
                    FrameView::Var(name, scope) => {
                        lemma_define_extends(environment, scope as int, name.lexeme, v);
                    },
                    FrameView::Callee(callee, arguments, scope) => {
                        match v {
                            RuntimeTypeView::Function(function) => {
                                lemma_invoked_extends(environment, stack, function, seq![]);
                            },
                            _ => {},
                        }
                    },
                    FrameView::Argument(function, arguments, scope, values) => {
                        lemma_invoked_extends(environment, stack, function, values.push(v));
                    },
                    _ => {},
                }
            }
        },
        _ => {},
    }
}

/// Closures keep what they captured: a name that a scope sees is seen from
/// that scope after every step, whatever block or call has ended meanwhile.
pub proof fn law_bindings_outlive_steps(m: MachineView, scope: int, key: Seq<char>)
    requires
        resolve(m.environment, scope, key) is Some,
    ensures
        resolve(stepped(m).machine.environment, scope, key) is Some,
{
    law_steps_extend_the_scopes(m);
    law_bindings_persist(m.environment, stepped(m).machine.environment, scope, key);
}

/// A machine stands still only where it waits for the host or has ended.
pub proof fn law_never_stuck(m: MachineView)
    ensures
        stepped(m).action is Idle <==> m.control is Waiting || m.control is Halted,
{
    match m.control {
        ControlView::Value(v) => {
            if m.stack.len() > 0 {
                let stack = m.stack.drop_last();
                match m.stack.last() {
                    FrameView::Callee(callee, arguments, scope) => {},
                    FrameView::Argument(function, arguments, scope, values) => {},
                    _ => {},
                }
            }
        },
        _ => {},
    }
}

} // verus!
