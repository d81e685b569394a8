//! The execution of statements: the first step of each kind of statement.

use vstd::prelude::*;
use vstd::string::*;
use crate::environment::{define, nested, Environment, ScopeView};
use crate::machine::{
    asks, frame_views, goes, outcome_of, push_frame, Action, ActionView, Control, ControlView,
    Frame, FrameView, Outcome,
};
use crate::runtime::runtime_function::{RuntimeFunction, RuntimeFunctionView};
use crate::runtime::runtime_type::{value_views, RuntimeType, RuntimeTypeView};
use crate::statement::{Statement, StatementView};

verus! {

/// The execution of statements.
pub struct StmtEvaluator;

/// The first step of the execution of `s` in `scope`. The empty statement
/// and the definition of a function are done at once, with the value `nil`;
/// a block opens its scope; a native body is the host's to run. Of any other
/// statement the expression is evaluated next, and a frame that holds the
/// rest waits for its value.
pub open spec fn executed(
    environment: Seq<ScopeView>,
    stack: Seq<FrameView>,
    s: StatementView,
    scope: nat,
) -> Outcome {
    match s {
        StatementView::Empty => goes(environment, stack, ControlView::Value(RuntimeTypeView::Nil)),
        StatementView::Print(e) => goes(
            environment,
            stack.push(FrameView::Print),
            ControlView::Evaluate(e, scope),
        ),
        StatementView::Expression(e) => goes(
            environment,
            stack.push(FrameView::Discard),
            ControlView::Evaluate(e, scope),
        ),
        StatementView::Var(name, e) => goes(
            environment,
            stack.push(FrameView::Var(name, scope)),
            ControlView::Evaluate(e, scope),
        ),
        StatementView::Function(name, parameters, body) => goes(
            define(
                environment,
                scope as int,
                name.lexeme,
                RuntimeTypeView::Function(
                    RuntimeFunctionView {
                        name: name.lexeme,
                        parameters,
                        body: *body,
                        enclosing: scope,
                    },
                ),
            ),
            stack,
            ControlView::Value(RuntimeTypeView::Nil),
        ),
        StatementView::Block(statements) => goes(
            nested(environment, scope),
            stack.push(FrameView::Block(statements, 0, environment.len())),
            ControlView::Value(RuntimeTypeView::Nil),
        ),
        StatementView::If(condition, then, otherwise) => goes(
            environment,
            stack.push(FrameView::If(*then, *otherwise, scope)),
            ControlView::Evaluate(condition, scope),
        ),
        StatementView::While(condition, body) => goes(
            environment,
            stack.push(FrameView::While(condition, *body, scope)),
            ControlView::Evaluate(condition, scope),
        ),
        StatementView::Return(e) => goes(
            environment,
            stack.push(FrameView::Return),
            ControlView::Evaluate(e, scope),
        ),
        StatementView::Native(name) => asks(environment, stack, ActionView::Native(name, seq![])),
    }
}

impl StmtEvaluator {
    /// The first step of the execution of `statement` in `scope`: the new
    /// control and what the step asks of the host. Frames that wait for a
    /// value go onto `stack`.
    pub fn evaluate<'a>(
        statement: &'a Statement,
        scope: usize,
        environment: &mut Environment<'a>,
        stack: &mut Vec<Frame<'a>>,
    ) -> (r: (Control<'a>, Action<'a>))
        ensures
            executed(old(environment)@, frame_views(old(stack)@), statement@, scope as nat)
                == outcome_of(final(environment)@, frame_views(final(stack)@), r.0@, r.1@),
    {
        match statement {
            Statement::Empty() => (Control::Value(RuntimeType::Nil()), Action::Continue),
            Statement::Print(e) => {
                push_frame(stack, Frame::Print);
                (Control::Evaluate(&**e, scope), Action::Continue)
            },
            Statement::Expression(e) => {
                push_frame(stack, Frame::Discard);
                (Control::Evaluate(&**e, scope), Action::Continue)
            },
            Statement::Var(name, e) => {
                push_frame(stack, Frame::Var(name, scope));
                (Control::Evaluate(&**e, scope), Action::Continue)
            },
            Statement::Function(name, parameters, body) => {
                let function = RuntimeFunction::new(
                    name.lexeme.clone(),
                    parameters,
                    &**body,
                    scope,
                );
                environment.define(scope, name.lexeme.clone(), RuntimeType::Function(function));
                (Control::Value(RuntimeType::Nil()), Action::Continue)
            },
            Statement::Block(statements) => {
                let inner = environment.local(scope);
                push_frame(stack, Frame::Block(&**statements, 0, inner));
                (Control::Value(RuntimeType::Nil()), Action::Continue)
            },
            Statement::If(condition, then, otherwise) => {
                push_frame(stack, Frame::If(&**then, &**otherwise, scope));
                (Control::Evaluate(&**condition, scope), Action::Continue)
            },
            Statement::While(condition, body) => {
                push_frame(stack, Frame::While(&**condition, &**body, scope));
                (Control::Evaluate(&**condition, scope), Action::Continue)
            },
            Statement::Return(e) => {
                push_frame(stack, Frame::Return);
                (Control::Evaluate(&**e, scope), Action::Continue)
            },
            Statement::Native(name) => {
                let arguments: Vec<RuntimeType<'a>> = Vec::new();
                assert(value_views(arguments@) =~= seq![]);
                (Control::Waiting, Action::Native(name.clone(), arguments))
            },
        }
    }
}

} // verus!
