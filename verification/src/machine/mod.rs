//! The evaluator as a machine. Its state is what is being evaluated (the
//! control), what waits for the result (a stack of frames) and the scopes.
//! One step is one transition. Where the next transition needs what only the
//! host can give (the value of a number literal, the result of an
//! arithmetic operation or of a native function) the step says so and the
//! machine waits for the reply; where a value is to be printed, the step
//! hands it out.

pub mod laws;

use vstd::prelude::*;
use vstd::string::*;
use crate::environment::{assign, define, nested, valid, Environment, ScopeView};
use crate::expression::evaluator::{binary, evaluated, unary, Applied, AppliedView, ExprEvaluator};
use crate::expression::{expression_text, expression_views, Expression, ExpressionView};
use crate::runtime::number::Operation;
use crate::runtime::runtime_error::{statement_failure, RuntimeError, RuntimeErrorView};
use crate::runtime::runtime_function::{RuntimeFunction, RuntimeFunctionView};
use crate::runtime::runtime_type::{truthy, value_views, RuntimeType, RuntimeTypeView};
use crate::statement::evaluator::{executed, StmtEvaluator};
use crate::statement::{statement_views, Statement, StatementView};
use crate::token::{Token, TokenType, TokenView};

verus! {

/// What waits for a value: the rest of an expression or of a statement.
#[derive(Debug)]
pub enum Frame<'a> {
    /// The variable to assign the value to, and the scope of the assignment.
    Assign(&'a Token, usize),
    /// The unary operator to apply to the value.
    Unary(&'a Token),
    /// The operator of which the value is the left operand, with the right
    /// operand and its scope.
    Left(&'a Token, &'a Expression, usize),
    /// The operator of which the value is the right operand, with the value
    /// of the left.
    Right(&'a Token, RuntimeType<'a>),
    /// `and` or `or`, of which the value is the left operand, with the right
    /// operand and its scope.
    Logical(&'a Token, &'a Expression, usize),
    /// The call of which the value is the callee, with the callee, the
    /// arguments and their scope.
    Callee(&'a Expression, &'a Vec<Expression>, usize),
    /// The call of which the value is the next argument, with the function,
    /// the arguments, their scope, and the values of the arguments before.
    Argument(RuntimeFunction<'a>, &'a Vec<Expression>, usize, Vec<RuntimeType<'a>>),
    /// An expression statement: the value is dropped.
    Discard,
    /// `print`: the value is handed to the host.
    Print,
    /// The variable that the value is the first value of, and its scope.
    Var(&'a Token, usize),
    /// The two branches of which the value chooses one, and their scope.
    If(&'a Statement, &'a Statement, usize),
    /// The loop of which the value is that of the condition.
    While(&'a Expression, &'a Statement, usize),
    /// The loop of which the body has just run.
    Repeat(&'a Expression, &'a Statement, usize),
    /// The statements of a block, the number of the next one, and the scope
    /// of the block.
    Block(&'a Vec<Statement>, usize, usize),
    /// `return`: the value leaves the call.
    Return,
    /// The boundary of a call: where its body ends, the call has the value
    /// `nil`; a `return` inside ends here.
    Call,
}

/// The mathematical value of a [`Frame`].
pub enum FrameView {
    Assign(TokenView, nat),
    Unary(TokenView),
    Left(TokenView, ExpressionView, nat),
    Right(TokenView, RuntimeTypeView),
    Logical(TokenView, ExpressionView, nat),
    Callee(ExpressionView, Seq<ExpressionView>, nat),
    Argument(RuntimeFunctionView, Seq<ExpressionView>, nat, Seq<RuntimeTypeView>),
    Discard,
    Print,
    Var(TokenView, nat),
    If(StatementView, StatementView, nat),
    While(ExpressionView, StatementView, nat),
    Repeat(ExpressionView, StatementView, nat),
    Block(Seq<StatementView>, nat, nat),
    Return,
    Call,
}

impl<'a> View for Frame<'a> {
    type V = FrameView;

    open spec fn view(&self) -> FrameView {
        match self {
            Frame::Assign(t, scope) => FrameView::Assign(t@, *scope as nat),
            Frame::Unary(t) => FrameView::Unary(t@),
            Frame::Left(t, right, scope) => FrameView::Left(t@, right@, *scope as nat),
            Frame::Right(t, left) => FrameView::Right(t@, left@),
            Frame::Logical(t, right, scope) => FrameView::Logical(t@, right@, *scope as nat),
            Frame::Callee(callee, arguments, scope) => FrameView::Callee(
                callee@,
                expression_views(arguments@),
                *scope as nat,
            ),
            Frame::Argument(function, arguments, scope, values) => FrameView::Argument(
                function@,
                expression_views(arguments@),
                *scope as nat,
                value_views(values@),
            ),
            Frame::Discard => FrameView::Discard,
            Frame::Print => FrameView::Print,
            Frame::Var(t, scope) => FrameView::Var(t@, *scope as nat),
            Frame::If(then, otherwise, scope) => FrameView::If(then@, otherwise@, *scope as nat),
            Frame::While(condition, body, scope) => FrameView::While(
                condition@,
                body@,
                *scope as nat,
            ),
            Frame::Repeat(condition, body, scope) => FrameView::Repeat(
                condition@,
                body@,
                *scope as nat,
            ),
            Frame::Block(statements, next, scope) => FrameView::Block(
                statement_views(statements@),
                *next as nat,
                *scope as nat,
            ),
            Frame::Return => FrameView::Return,
            Frame::Call => FrameView::Call,
        }
    }
}

/// The views of a stack of frames.
pub open spec fn frame_views<'a>(frames: Seq<Frame<'a>>) -> Seq<FrameView> {
    Seq::new(frames.len(), |i: int| frames[i]@)
}

/// What the machine does next.
#[derive(Debug)]
pub enum Control<'a> {
    /// Evaluate the expression in the scope.
    Evaluate(&'a Expression, usize),
    /// Execute the statement in the scope.
    Execute(&'a Statement, usize),
    /// Hand the value to the frame on top of the stack.
    Value(RuntimeType<'a>),
    /// Fail with the error.
    Raise(RuntimeError<'a>),
    /// Wait for the host's reply.
    Waiting,
    /// Nothing: the evaluation has ended.
    Halted,
}

/// The mathematical value of a [`Control`].
pub enum ControlView {
    Evaluate(ExpressionView, nat),
    Execute(StatementView, nat),
    Value(RuntimeTypeView),
    Raise(RuntimeErrorView),
    Waiting,
    Halted,
}

impl<'a> View for Control<'a> {
    type V = ControlView;

    open spec fn view(&self) -> ControlView {
        match self {
            Control::Evaluate(e, scope) => ControlView::Evaluate(e@, *scope as nat),
            Control::Execute(s, scope) => ControlView::Execute(s@, *scope as nat),
            Control::Value(v) => ControlView::Value(v@),
            Control::Raise(e) => ControlView::Raise(e@),
            Control::Waiting => ControlView::Waiting,
            Control::Halted => ControlView::Halted,
        }
    }
}

/// What a step asks of the host.
#[derive(Debug)]
pub enum Action<'a> {
    /// Nothing; take the next step.
    Continue,
    /// Print the value; then take the next step.
    Print(RuntimeType<'a>),
    /// Reply with the number that the literal spells.
    Number(String),
    /// Reply with the result of the operation on the two numbers.
    Arithmetic(Operation, u64, u64),
    /// Reply with what the native function of this name makes of the
    /// arguments.
    Native(String, Vec<RuntimeType<'a>>),
    /// The evaluation has ended with the value.
    Done(RuntimeType<'a>),
    /// The evaluation has ended with the error.
    Failed(RuntimeError<'a>),
    /// Nothing was done: the machine waits for a reply, or has ended.
    Idle,
}

/// The mathematical value of an [`Action`].
pub enum ActionView {
    Continue,
    Print(RuntimeTypeView),
    Number(Seq<char>),
    Arithmetic(Operation, u64, u64),
    Native(Seq<char>, Seq<RuntimeTypeView>),
    Done(RuntimeTypeView),
    Failed(RuntimeErrorView),
    Idle,
}

impl<'a> View for Action<'a> {
    type V = ActionView;

    open spec fn view(&self) -> ActionView {
        match self {
            Action::Continue => ActionView::Continue,
            Action::Print(v) => ActionView::Print(v@),
            Action::Number(literal) => ActionView::Number(literal@),
            Action::Arithmetic(operation, a, b) => ActionView::Arithmetic(*operation, *a, *b),
            Action::Native(name, arguments) => ActionView::Native(name@, value_views(arguments@)),
            Action::Done(v) => ActionView::Done(v@),
            Action::Failed(e) => ActionView::Failed(e@),
            Action::Idle => ActionView::Idle,
        }
    }
}

/// The state of the machine.
pub struct MachineView {
    pub environment: Seq<ScopeView>,
    pub stack: Seq<FrameView>,
    pub control: ControlView,
}

/// The state after a step, and what the step asks of the host.
pub struct Outcome {
    pub machine: MachineView,
    pub action: ActionView,
}

/// The state after a step and what the step asks of the host.
pub open spec fn outcome_of(
    environment: Seq<ScopeView>,
    stack: Seq<FrameView>,
    control: ControlView,
    action: ActionView,
) -> Outcome {
    Outcome { machine: MachineView { environment, stack, control }, action }
}

/// A step inside the machine.
pub open spec fn goes(environment: Seq<ScopeView>, stack: Seq<FrameView>, control: ControlView)
    -> Outcome {
    Outcome { machine: MachineView { environment, stack, control }, action: ActionView::Continue }
}

/// A step that asks the host for a reply.
pub open spec fn asks(environment: Seq<ScopeView>, stack: Seq<FrameView>, action: ActionView)
    -> Outcome {
    Outcome { machine: MachineView { environment, stack, control: ControlView::Waiting }, action }
}

/// The stack below the nearest call boundary, where there is one.
pub open spec fn below_call(stack: Seq<FrameView>) -> Option<Seq<FrameView>>
    decreases stack.len(),
{
    if stack.len() == 0 {
        None
    } else if stack.last() is Call {
        Some(stack.drop_last())
    } else {
        below_call(stack.drop_last())
    }
}

/// Whether the frame is a statement that waits for the value of its own
/// expression: such a statement reports a failure of the expression as its
/// own.
pub open spec fn reports(frame: FrameView) -> bool {
    frame is Discard || frame is Print || frame is Var || frame is If || frame is While
        || frame is Return
}

/// The error as it leaves the stack: each statement whose expression was
/// being evaluated reports it as its own failure.
pub open spec fn unwound(stack: Seq<FrameView>, e: RuntimeErrorView) -> RuntimeErrorView
    decreases stack.len(),
{
    if stack.len() == 0 {
        e
    } else {
        unwound(
            stack.drop_last(),
            if reports(stack.last()) {
                statement_failure(e)
            } else {
                e
            },
        )
    }
}

/// The scopes once each parameter from `from` on is bound, in `scope`, to
/// the value at its position.
pub open spec fn bound(
    scopes: Seq<ScopeView>,
    scope: nat,
    parameters: Seq<TokenView>,
    values: Seq<RuntimeTypeView>,
    from: int,
) -> Seq<ScopeView>
    decreases parameters.len() - from,
{
    if from < 0 || from >= parameters.len() || from >= values.len() {
        scopes
    } else {
        bound(
            define(scopes, scope as int, parameters[from].lexeme, values[from]),
            scope,
            parameters,
            values,
            from + 1,
        )
    }
}

/// What a call of `function` with `values` does to the scopes: it opens a
/// scope inside the one that the function was defined in and binds the
/// parameters there. `Err` where the number of values is not that of the
/// parameters; the scopes then stay as they are.
pub open spec fn called(scopes: Seq<ScopeView>, function: RuntimeFunctionView, values: Seq<
    RuntimeTypeView,
>) -> Result<Seq<ScopeView>, RuntimeErrorView> {
    if function.parameters.len() != values.len() {
        Err(
            RuntimeErrorView::WrongArgumentsForFunction(
                function.name,
                function.parameters.len(),
                values.len(),
            ),
        )
    } else {
        Ok(
            bound(
                nested(scopes, function.enclosing),
                scopes.len(),
                function.parameters,
                values,
                0,
            ),
        )
    }
}

/// The call of `function` with `values`. A native function is the host's
/// to run, whatever the number of values. Any other runs its body in the new
/// scope, above a call boundary.
pub open spec fn invoked(
    environment: Seq<ScopeView>,
    stack: Seq<FrameView>,
    function: RuntimeFunctionView,
    values: Seq<RuntimeTypeView>,
) -> Outcome {
    match function.body {
        StatementView::Native(name) => asks(environment, stack, ActionView::Native(name, values)),
        _ => match called(environment, function, values) {
            Ok(scopes) => goes(
                scopes,
                stack.push(FrameView::Call),
                ControlView::Execute(function.body, environment.len()),
            ),
            Err(e) => goes(environment, stack, ControlView::Raise(e)),
        },
    }
}

/// Puts `frame` on top of `stack`.
pub fn push_frame<'a>(stack: &mut Vec<Frame<'a>>, frame: Frame<'a>)
    ensures
        frame_views(final(stack)@) == frame_views(old(stack)@).push(frame@),
{
    stack.push(frame);
}

/// What the frame does with the value that it waited for.
pub open spec fn resumed(
    environment: Seq<ScopeView>,
    stack: Seq<FrameView>,
    frame: FrameView,
    v: RuntimeTypeView,
) -> Outcome {
    match frame {
        FrameView::Assign(t, scope) => match assign(environment, scope as int, t.lexeme, v) {
            Some(scopes) => goes(scopes, stack, ControlView::Value(v)),
            None => goes(
                environment,
                stack,
                ControlView::Raise(RuntimeErrorView::UndefinedIdentifier(t.lexeme)),
            ),
        },
        FrameView::Unary(t) => match unary(t, v) {
            Ok(r) => goes(environment, stack, ControlView::Value(r)),
            Err(e) => goes(environment, stack, ControlView::Raise(e)),
        },
        FrameView::Left(t, right, scope) => goes(
            environment,
            stack.push(FrameView::Right(t, v)),
            ControlView::Evaluate(right, scope),
        ),
        FrameView::Right(t, left) => match binary(t, left, v) {
            AppliedView::Value(r) => goes(environment, stack, ControlView::Value(r)),
            AppliedView::Arithmetic(operation, a, b) => asks(
                environment,
                stack,
                ActionView::Arithmetic(operation, a, b),
            ),
            AppliedView::Error(e) => goes(environment, stack, ControlView::Raise(e)),
        },
        FrameView::Logical(t, right, scope) => if (t.token_type == TokenType::Or) == truthy(v) {
            goes(environment, stack, ControlView::Value(v))
        } else {
            goes(environment, stack, ControlView::Evaluate(right, scope))
        },
        FrameView::Callee(callee, arguments, scope) => match v {
            RuntimeTypeView::Function(function) => if arguments.len() == 0 {
                invoked(environment, stack, function, seq![])
            } else {
                goes(
                    environment,
                    stack.push(FrameView::Argument(function, arguments, scope, seq![])),
                    ControlView::Evaluate(arguments[0], scope),
                )
            },
            _ => goes(
                environment,
                stack,
                ControlView::Raise(RuntimeErrorView::UndefinedIdentifier(expression_text(callee))),
            ),
        },
        FrameView::Argument(function, arguments, scope, values) => if values.len() + 1
            < arguments.len() {
            goes(
                environment,
                stack.push(FrameView::Argument(function, arguments, scope, values.push(v))),
                ControlView::Evaluate(arguments[values.len() as int + 1], scope),
            )
        } else {
            invoked(environment, stack, function, values.push(v))
        },
        FrameView::Discard => goes(environment, stack, ControlView::Value(RuntimeTypeView::Nil)),
        FrameView::Print => outcome_of(
            environment,
            stack,
            ControlView::Value(RuntimeTypeView::Nil),
            ActionView::Print(v),
        ),
        FrameView::Var(name, scope) => goes(
            define(environment, scope as int, name.lexeme, v),
            stack,
            ControlView::Value(RuntimeTypeView::Nil),
        ),
        FrameView::If(then, otherwise, scope) => goes(
            environment,
            stack,
            ControlView::Execute(
                if truthy(v) {
                    then
                } else {
                    otherwise
                },
                scope,
            ),
        ),
        FrameView::While(condition, body, scope) => if truthy(v) {
            goes(
                environment,
                stack.push(FrameView::Repeat(condition, body, scope)),
                ControlView::Execute(body, scope),
            )
        } else {
            goes(environment, stack, ControlView::Value(RuntimeTypeView::Nil))
        },
        FrameView::Repeat(condition, body, scope) => goes(
            environment,
            stack.push(FrameView::While(condition, body, scope)),
            ControlView::Evaluate(condition, scope),
        ),
        FrameView::Block(statements, next, scope) => if next < statements.len() {
            goes(
                environment,
                stack.push(FrameView::Block(statements, next + 1, scope)),
                ControlView::Execute(statements[next as int], scope),
            )
        } else {
            goes(environment, stack, ControlView::Value(RuntimeTypeView::Nil))
        },
        FrameView::Return => match below_call(stack) {
            Some(rest) => goes(environment, rest, ControlView::Value(v)),
            None => goes(
                environment,
                seq![],
                ControlView::Raise(RuntimeErrorView::ReturnValue(v)),
            ),
        },
        FrameView::Call => goes(environment, stack, ControlView::Value(RuntimeTypeView::Nil)),
    }
}

/// One step of the machine.
pub open spec fn stepped(m: MachineView) -> Outcome {
    match m.control {
        ControlView::Evaluate(e, scope) => evaluated(m.environment, m.stack, e, scope),
        ControlView::Execute(s, scope) => executed(m.environment, m.stack, s, scope),
        ControlView::Value(v) => if m.stack.len() == 0 {
            outcome_of(m.environment, m.stack, ControlView::Halted, ActionView::Done(v))
        } else {
            resumed(m.environment, m.stack.drop_last(), m.stack.last(), v)
        },
        ControlView::Raise(e) => outcome_of(
            m.environment,
            seq![],
            ControlView::Halted,
            ActionView::Failed(unwound(m.stack, e)),
        ),
        ControlView::Waiting => Outcome { machine: m, action: ActionView::Idle },
        ControlView::Halted => Outcome { machine: m, action: ActionView::Idle },
    }
}

/// The machine once the host has replied; a machine that waits for no reply
/// stays as it is.
pub open spec fn supplied(m: MachineView, reply: Result<RuntimeTypeView, RuntimeErrorView>)
    -> MachineView {
    if m.control is Waiting {
        MachineView {
            environment: m.environment,
            stack: m.stack,
            control: match reply {
                Ok(v) => ControlView::Value(v),
                Err(e) => ControlView::Raise(e),
            },
        }
    } else {
        m
    }
}

/// At most `budget` steps, up to the first that asks something of the host
/// or ends the evaluation.
pub open spec fn ran(m: MachineView, budget: nat) -> Outcome
    decreases budget,
{
    if budget == 0 {
        Outcome { machine: m, action: ActionView::Continue }
    } else {
        let next = stepped(m);
        if next.action is Continue {
            ran(next.machine, (budget - 1) as nat)
        } else {
            next
        }
    }
}

/// Takes the top frame off `stack`.
fn pop_frame<'a>(stack: &mut Vec<Frame<'a>>) -> (r: Option<Frame<'a>>)
    ensures
        match r {
            Some(frame) => old(stack)@.len() > 0 && frame@ == frame_views(old(stack)@).last()
                && frame_views(final(stack)@) == frame_views(old(stack)@).drop_last(),
            None => old(stack)@.len() == 0 && final(stack)@.len() == 0,
        },
{
    stack.pop()
}

/// Takes the frames off `stack` down to the nearest call boundary, which
/// goes too. `false` where the stack holds none; the stack is then empty.
fn leave_call<'a>(stack: &mut Vec<Frame<'a>>) -> (found: bool)
    ensures
        match below_call(frame_views(old(stack)@)) {
            Some(rest) => found && frame_views(final(stack)@) == rest,
            None => !found && frame_views(final(stack)@) == Seq::<FrameView>::empty(),
        },
{
    loop
        invariant
            below_call(frame_views(stack@)) == below_call(frame_views(old(stack)@)),
        decreases stack@.len(),
    {
        match pop_frame(stack) {
            None => {
                return false;
            },
            Some(Frame::Call) => {
                return true;
            },
            Some(_) => {},
        }
    }
}

/// Takes every frame off `stack`, and gives the error as it leaves.
fn unwind<'a>(stack: &mut Vec<Frame<'a>>, error: RuntimeError<'a>) -> (r: RuntimeError<'a>)
    ensures
        r@ == unwound(frame_views(old(stack)@), error@),
        frame_views(final(stack)@) == Seq::<FrameView>::empty(),
{
    let mut current = error;
    loop
        invariant
            unwound(frame_views(stack@), current@) == unwound(frame_views(old(stack)@), error@),
        decreases stack@.len(),
    {
        match pop_frame(stack) {
            None => {
                return current;
            },
            Some(frame) => {
                let reports = match frame {
                    Frame::Discard => true,
                    Frame::Print => true,
                    Frame::Var(_, _) => true,
                    Frame::If(_, _, _) => true,
                    Frame::While(_, _, _) => true,
                    Frame::Return => true,
                    _ => false,
                };
                if reports {
                    current = current.in_statement();
                }
            },
        }
    }
}

/// The call of `function` with `values`.
fn invoke<'a>(
    function: RuntimeFunction<'a>,
    values: Vec<RuntimeType<'a>>,
    environment: &mut Environment<'a>,
    stack: &mut Vec<Frame<'a>>,
) -> (r: (Control<'a>, Action<'a>))
    ensures
        invoked(old(environment)@, frame_views(old(stack)@), function@, value_views(values@))
            == outcome_of(final(environment)@, frame_views(final(stack)@), r.0@, r.1@),
{
    match function.body {
        Statement::Native(name) => (Control::Waiting, Action::Native(name.clone(), values)),
        _ => match function.call(environment, values) {
            Ok(scope) => {
                push_frame(stack, Frame::Call);
                (Control::Execute(function.body, scope), Action::Continue)
            },
            Err(e) => (Control::Raise(e), Action::Continue),
        },
    }
}

/// What `frame` does with `value`: the new control and what the step asks of
/// the host.
pub fn resume<'a>(
    frame: Frame<'a>,
    value: RuntimeType<'a>,
    environment: &mut Environment<'a>,
    stack: &mut Vec<Frame<'a>>,
) -> (r: (Control<'a>, Action<'a>))
    ensures
        resumed(old(environment)@, frame_views(old(stack)@), frame@, value@) == outcome_of(
            final(environment)@,
            frame_views(final(stack)@),
            r.0@,
            r.1@,
        ),
{
    match frame {
        Frame::Assign(token, scope) => {
            match environment.assign(scope, token.lexeme.clone(), value.clone()) {
                Ok(()) => (Control::Value(value), Action::Continue),
                Err(e) => (Control::Raise(e), Action::Continue),
            }
        },
        Frame::Unary(token) => match ExprEvaluator::unary(token, value) {
            Ok(v) => (Control::Value(v), Action::Continue),
            Err(e) => (Control::Raise(e), Action::Continue),
        },
        Frame::Left(token, right, scope) => {
            push_frame(stack, Frame::Right(token, value));
            (Control::Evaluate(right, scope), Action::Continue)
        },
        Frame::Right(token, left) => match ExprEvaluator::binary(token, left, value) {
            Applied::Value(v) => (Control::Value(v), Action::Continue),
            Applied::Arithmetic(operation, a, b) => (
                Control::Waiting,
                Action::Arithmetic(operation, a, b),
            ),
            Applied::Error(e) => (Control::Raise(e), Action::Continue),
        },
        Frame::Logical(token, right, scope) => {
            if (token.token_type == TokenType::Or) == value.is_truthy() {
                (Control::Value(value), Action::Continue)
            } else {
                (Control::Evaluate(right, scope), Action::Continue)
            }
        },
        Frame::Callee(callee, arguments, scope) => match value {
            RuntimeType::Function(function) => {
                if arguments.len() == 0 {
                    let values: Vec<RuntimeType<'a>> = Vec::new();
                    assert(value_views(values@) =~= seq![]);
                    invoke(function, values, environment, stack)
                } else {
                    let values: Vec<RuntimeType<'a>> = Vec::new();
                    assert(value_views(values@) =~= seq![]);
                    push_frame(stack, Frame::Argument(function, arguments, scope, values));
                    (Control::Evaluate(&arguments[0], scope), Action::Continue)
                }
            },
            _ => (
                Control::Raise(RuntimeError::UndefinedIdentifier(callee.to_string())),
                Action::Continue,
            ),
        },
        Frame::Argument(function, arguments, scope, values) => {
            let mut values = values;
            let ghost before = value_views(values@);
            values.push(value);
            assert(value_views(values@) =~= before.push(value@));
            if values.len() < arguments.len() {
                let next = values.len();
                push_frame(stack, Frame::Argument(function, arguments, scope, values));
                (Control::Evaluate(&arguments[next], scope), Action::Continue)
            } else {
                invoke(function, values, environment, stack)
            }
        },
        Frame::Discard => (Control::Value(RuntimeType::Nil()), Action::Continue),
        Frame::Print => (Control::Value(RuntimeType::Nil()), Action::Print(value)),
        Frame::Var(name, scope) => {
            environment.define(scope, name.lexeme.clone(), value);
            (Control::Value(RuntimeType::Nil()), Action::Continue)
        },
        Frame::If(then, otherwise, scope) => {
            if value.is_truthy() {
                (Control::Execute(then, scope), Action::Continue)
            } else {
                (Control::Execute(otherwise, scope), Action::Continue)
            }
        },
        Frame::While(condition, body, scope) => {
            if value.is_truthy() {
                push_frame(stack, Frame::Repeat(condition, body, scope));
                (Control::Execute(body, scope), Action::Continue)
            } else {
                (Control::Value(RuntimeType::Nil()), Action::Continue)
            }
        },
        Frame::Repeat(condition, body, scope) => {
            push_frame(stack, Frame::While(condition, body, scope));
            (Control::Evaluate(condition, scope), Action::Continue)
        },
        Frame::Block(statements, next, scope) => {
            if next < statements.len() {
                push_frame(stack, Frame::Block(statements, next + 1, scope));
                (Control::Execute(&statements[next], scope), Action::Continue)
            } else {
                (Control::Value(RuntimeType::Nil()), Action::Continue)
            }
        },
        Frame::Return => {
            if leave_call(stack) {
                (Control::Value(value), Action::Continue)
            } else {
                (Control::Raise(RuntimeError::ReturnValue(value)), Action::Continue)
            }
        },
        Frame::Call => (Control::Value(RuntimeType::Nil()), Action::Continue),
    }
}

/// The evaluator: the scopes, the frames that wait, and what is done next.
pub struct Machine<'a> {
    environment: Environment<'a>,
    stack: Vec<Frame<'a>>,
    control: Control<'a>,
}

impl<'a> View for Machine<'a> {
    type V = MachineView;

    closed spec fn view(&self) -> MachineView {
        MachineView {
            environment: self.environment@,
            stack: frame_views(self.stack@),
            control: self.control@,
        }
    }
}

impl<'a> Machine<'a> {
    /// A machine that is about to evaluate `expression` in the global scope
    /// of `environment`.
    pub fn evaluate(environment: Environment<'a>, expression: &'a Expression) -> (r: Self)
        ensures
            r@ == (MachineView {
                environment: environment@,
                stack: seq![],
                control: ControlView::Evaluate(expression@, 0),
            }),
    {
        let r = Machine { environment, stack: Vec::new(), control: Control::Evaluate(expression, 0) };
        assert(frame_views(r.stack@) =~= seq![]);
        r
    }

    /// A machine that is about to execute `statement` in the global scope of
    /// `environment`.
    pub fn execute(environment: Environment<'a>, statement: &'a Statement) -> (r: Self)
        ensures
            r@ == (MachineView {
                environment: environment@,
                stack: seq![],
                control: ControlView::Execute(statement@, 0),
            }),
    {
        let r = Machine { environment, stack: Vec::new(), control: Control::Execute(statement, 0) };
        assert(frame_views(r.stack@) =~= seq![]);
        r
    }

    /// A machine that is about to execute the statements of a program, each
    /// in its turn, in the global scope of `environment`.
    pub fn program(environment: Environment<'a>, statements: &'a Vec<Statement>) -> (r: Self)
        ensures
            r@ == (MachineView {
                environment: environment@,
                stack: seq![FrameView::Block(statement_views(statements@), 0, 0)],
                control: ControlView::Value(RuntimeTypeView::Nil),
            }),
    {
        let mut stack: Vec<Frame<'a>> = Vec::new();
        push_frame(&mut stack, Frame::Block(statements, 0, 0));
        assert(frame_views(stack@) =~= seq![
            FrameView::Block(statement_views(statements@), 0, 0),
        ]);
        Machine { environment, stack, control: Control::Value(RuntimeType::Nil()) }
    }

    /// The scopes of every machine are valid.
    pub proof fn lemma_valid(&self)
        ensures
            valid(self@.environment),
    {
        self.environment.lemma_valid();
    }

    /// The scopes as the machine leaves them.
    pub fn into_environment(self) -> (r: Environment<'a>)
        ensures
            r@ == self@.environment,
    {
        self.environment
    }

    /// One step: the machine after it, and what it asks of the host.
    pub fn step(self) -> (r: (Self, Action<'a>))
        ensures
            stepped(self@) == (Outcome { machine: r.0@, action: r.1@ }),
    {
        let Machine { environment, stack, control } = self;
        let mut environment = environment;
        let mut stack = stack;
        match control {
            Control::Evaluate(expression, scope) => {
                let (next, action) = ExprEvaluator::evaluate(
                    expression,
                    scope,
                    &environment,
                    &mut stack,
                );
                (Machine { environment, stack, control: next }, action)
            },
            Control::Execute(statement, scope) => {
                let (next, action) = StmtEvaluator::evaluate(
                    statement,
                    scope,
                    &mut environment,
                    &mut stack,
                );
                (Machine { environment, stack, control: next }, action)
            },
            Control::Value(value) => match pop_frame(&mut stack) {
                Some(frame) => {
                    let (next, action) = resume(frame, value, &mut environment, &mut stack);
                    (Machine { environment, stack, control: next }, action)
                },
                None => {
                    assert(frame_views(stack@) =~= frame_views(self.stack@));
                    (Machine { environment, stack, control: Control::Halted }, Action::Done(value))
                },
            },
            Control::Raise(error) => {
                let left = unwind(&mut stack, error);
                (Machine { environment, stack, control: Control::Halted }, Action::Failed(left))
            },
            Control::Waiting => (
                Machine { environment, stack, control: Control::Waiting },
                Action::Idle,
            ),
            Control::Halted => (
                Machine { environment, stack, control: Control::Halted },
                Action::Idle,
            ),
        }
    }

    /// Hands the machine the host's reply. A machine that waits for none
    /// stays as it is.
    pub fn supply(self, reply: Result<RuntimeType<'a>, RuntimeError<'a>>) -> (r: Self)
        ensures
            r@ == supplied(
                self@,
                match reply {
                    Ok(v) => Ok(v@),
                    Err(e) => Err(e@),
                },
            ),
    {
        let Machine { environment, stack, control } = self;
        match control {
            Control::Waiting => match reply {
                Ok(v) => Machine { environment, stack, control: Control::Value(v) },
                Err(e) => Machine { environment, stack, control: Control::Raise(e) },
            },
            other => Machine { environment, stack, control: other },
        }
    }

    /// At most `budget` steps, up to the first that asks something of the
    /// host or ends the evaluation.
    pub fn run(self, budget: usize) -> (r: (Self, Action<'a>))
        ensures
            ran(self@, budget as nat) == (Outcome { machine: r.0@, action: r.1@ }),
    {
        let mut machine = self;
        let mut left = budget;
        while left > 0
            invariant
                ran(machine@, left as nat) == ran(self@, budget as nat),
            decreases left,
        {
            let (next, action) = machine.step();
            match action {
                Action::Continue => {
                    machine = next;
                    left -= 1;
                },
                other => {
                    return (next, other);
                },
            }
        }
        (machine, Action::Continue)
    }
}

} // verus!
