//! The proof that the machine computes what evaluation means: by induction
//! on the meaning, for any stack on which the machine starts.

use vstd::prelude::*;
use crate::environment::{assign, define, lookup, nested};
use crate::expression::evaluator::{binary, evaluated, literal, unary, AppliedView};
use crate::expression::{expression_text, ExpressionView};
use crate::machine::{
    asks, below_call, called, invoked, reports, resumed, unwound, ActionView, ControlView,
    FrameView,
};
use crate::runtime::runtime_error::{statement_failure, RuntimeErrorView};
use crate::runtime::runtime_function::RuntimeFunctionView;
use crate::runtime::runtime_type::{truthy, RuntimeTypeView};
use crate::semantics::{
    asked, call, ended, eval, eval_arguments, exec, exec_block, exec_loop, hosted_run,
    hosted_step, running, settled, with_scopes, Completion, Host, Hosted, World,
};
use crate::statement::evaluator::executed;
use crate::statement::StatementView;
use crate::token::TokenType;

verus! {

/// How the machine has ended an expression with the meaning `m`, `n` steps
/// after `start`: it hands the value to the frame on top of `stack`, or has
/// failed with the error as it leaves `stack`. No expression ends with a
/// `return`.
pub open spec fn expression_ended(
    host: Host,
    start: Hosted,
    n: nat,
    stack: Seq<FrameView>,
    m: (Completion, World),
) -> bool {
    match m.0 {
        Completion::Value(v) => hosted_run(host, start, n) == running(
            m.1,
            stack,
            ControlView::Value(v),
        ),
        Completion::Error(x) => hosted_run(host, start, n) == ended(m.1, Err(unwound(stack, x))),
        Completion::Return(_) => false,
    }
}

/// How the machine has ended a statement with the meaning `m`, `n` steps
/// after `start`: as it ends an expression, or, on a `return`, it hands the
/// value to the frame below the nearest call boundary; where there is none,
/// it has failed with the returned value.
pub open spec fn statement_ended(
    host: Host,
    start: Hosted,
    n: nat,
    stack: Seq<FrameView>,
    m: (Completion, World),
) -> bool {
    match m.0 {
        Completion::Value(v) => hosted_run(host, start, n) == running(
            m.1,
            stack,
            ControlView::Value(v),
        ),
        Completion::Error(x) => hosted_run(host, start, n) == ended(m.1, Err(unwound(stack, x))),
        Completion::Return(v) => match below_call(stack) {
            Some(rest) => hosted_run(host, start, n) == running(m.1, rest, ControlView::Value(v)),
            None => hosted_run(host, start, n) == ended(
                m.1,
                Err(RuntimeErrorView::ReturnValue(v)),
            ),
        },
    }
}

/// Steps add up.
pub proof fn lemma_run_add(host: Host, c: Hosted, a: nat, b: nat)
    ensures
        hosted_run(host, c, a + b) == hosted_run(host, hosted_run(host, c, a), b),
    decreases a,
{
    if a > 0 {
        lemma_run_add(host, hosted_step(host, c), (a - 1) as nat, b);
    }
}

/// One step.
pub proof fn lemma_run_one(host: Host, c: Hosted)
    ensures
        hosted_run(host, c, 1) == hosted_step(host, c),
{
    assert(hosted_run(host, c, 1) == hosted_run(host, hosted_step(host, c), 0));
}

/// `n` steps, then a step.
pub proof fn lemma_then_step(host: Host, c: Hosted, n: nat, d: Hosted, e: Hosted)
    requires
        hosted_run(host, c, n) == d,
        hosted_step(host, d) == e,
    ensures
        hosted_run(host, c, n + 1) == e,
{
    lemma_run_add(host, c, n, 1);
    assert(hosted_run(host, d, 1) == hosted_run(host, hosted_step(host, d), 0));
}

/// The step of a machine that is about to evaluate an expression.
pub proof fn lemma_evaluate_step(
    host: Host,
    w: World,
    stack: Seq<FrameView>,
    e: ExpressionView,
    scope: nat,
)
    ensures
        hosted_step(host, running(w, stack, ControlView::Evaluate(e, scope))) == settled(
            host,
            running(w, stack, ControlView::Evaluate(e, scope)),
            evaluated(w.environment, stack, e, scope),
        ),
{
}

/// The step of a machine that is about to execute a statement.
pub proof fn lemma_execute_step(
    host: Host,
    w: World,
    stack: Seq<FrameView>,
    s: StatementView,
    scope: nat,
)
    ensures
        hosted_step(host, running(w, stack, ControlView::Execute(s, scope))) == settled(
            host,
            running(w, stack, ControlView::Execute(s, scope)),
            executed(w.environment, stack, s, scope),
        ),
{
}

/// The step of a machine that hands a value to the frame on top.
pub proof fn lemma_resume_step(
    host: Host,
    w: World,
    stack: Seq<FrameView>,
    frame: FrameView,
    v: RuntimeTypeView,
)
    ensures
        hosted_step(host, running(w, stack.push(frame), ControlView::Value(v))) == settled(
            host,
            running(w, stack.push(frame), ControlView::Value(v)),
            resumed(w.environment, stack, frame, v),
        ),
{
    assert(stack.push(frame).drop_last() =~= stack);
}

/// The step of a machine that fails.
pub proof fn lemma_raise_step(host: Host, w: World, stack: Seq<FrameView>, x: RuntimeErrorView)
    ensures
        hosted_step(host, running(w, stack, ControlView::Raise(x))) == ended(
            w,
            Err(unwound(stack, x)),
        ),
{
}

/// What a frame more on the stack does to an error that leaves.
pub proof fn lemma_unwound_push(stack: Seq<FrameView>, frame: FrameView, x: RuntimeErrorView)
    ensures
        unwound(stack.push(frame), x) == unwound(
            stack,
            if reports(frame) {
                statement_failure(x)
            } else {
                x
            },
        ),
{
    assert(stack.push(frame).drop_last() =~= stack);
}

/// What a frame more on the stack does to a `return`.
pub proof fn lemma_below_call_push(stack: Seq<FrameView>, frame: FrameView)
    ensures
        below_call(stack.push(frame)) == if frame is Call {
            Some(stack)
        } else {
            below_call(stack)
        },
{
    assert(stack.push(frame).drop_last() =~= stack);
}

/// The machine right after the host has replied to `question`.
pub open spec fn answered(host: Host, w: World, stack: Seq<FrameView>, question: ActionView)
    -> Hosted {
    settled(
        host,
        running(w, stack, ControlView::Waiting),
        asks(w.environment, stack, question),
    )
}

/// The machine right after the step that calls `function` with `values`.
pub open spec fn invoking(
    host: Host,
    w: World,
    stack: Seq<FrameView>,
    function: RuntimeFunctionView,
    values: Seq<RuntimeTypeView>,
) -> Hosted {
    settled(
        host,
        running(w, stack, ControlView::Waiting),
        invoked(w.environment, stack, function, values),
    )
}

/// Whether the action asks the host for a reply.
pub open spec fn is_question(action: ActionView) -> bool {
    action is Number || action is Arithmetic || action is Native
}

/// A machine that fails has ended after one step more.
pub proof fn lemma_fails(
    host: Host,
    start: Hosted,
    n: nat,
    w: World,
    stack: Seq<FrameView>,
    x: RuntimeErrorView,
)
    requires
        hosted_run(host, start, n) == running(w, stack, ControlView::Raise(x)),
    ensures
        hosted_run(host, start, n + 1) == ended(w, Err(unwound(stack, x))),
{
    lemma_raise_step(host, w, stack, x);
    lemma_then_step(
        host,
        start,
        n,
        running(w, stack, ControlView::Raise(x)),
        ended(w, Err(unwound(stack, x))),
    );
}

/// The reply of the host ends the evaluation as the meaning says.
pub proof fn lemma_answered(
    host: Host,
    start: Hosted,
    n0: nat,
    w: World,
    stack: Seq<FrameView>,
    question: ActionView,
) -> (n: nat)
    requires
        is_question(question),
        hosted_run(host, start, n0) == answered(host, w, stack, question),
    ensures
        expression_ended(host, start, n, stack, asked(host, w, question)->0),
{
    let after = World { environment: w.environment, asked: w.asked + 1, printed: w.printed };
    match host(w.asked, question) {
        Ok(v) => {
            n0
        },
        Err(x) => {
            lemma_fails(host, start, n0, after, stack, x);
            n0 + 1
        },
    }
}

/// The machine ends every expression that has a meaning with that meaning:
/// started on the expression with any stack, it hands the value to the frame
/// on top of that stack, and leaves the world that the meaning leaves.
pub proof fn lemma_eval(
    host: Host,
    fuel: nat,
    e: ExpressionView,
    scope: nat,
    w: World,
    stack: Seq<FrameView>,
) -> (n: nat)
    requires
        eval(host, fuel, e, scope, w) is Some,
    ensures
        expression_ended(
            host,
            running(w, stack, ControlView::Evaluate(e, scope)),
            n,
            stack,
            eval(host, fuel, e, scope, w)->0,
        ),
    decreases fuel, 0nat, e, 1nat,
{
    let start = running(w, stack, ControlView::Evaluate(e, scope));
    lemma_evaluate_step(host, w, stack, e, scope);
    lemma_run_one(host, start);
    match e {
        ExpressionView::Nil => 1,
        ExpressionView::Literal(t) => {
            match literal(t) {
                Some(v) => 1,
                None => lemma_answered(host, start, 1, w, stack, ActionView::Number(t.literal)),
            }
        },
        ExpressionView::Identifier(t) => {
            match lookup(w.environment, scope as int, t.lexeme) {
                Some(v) => 1,
                None => {
                    let x = RuntimeErrorView::UndefinedIdentifier(t.lexeme);
                    lemma_fails(host, start, 1, w, stack, x);
                    2
                },
            }
        },
        ExpressionView::Grouping(inner) => {
            let k = lemma_eval(host, fuel, *inner, scope, w, stack);
            lemma_run_add(host, start, 1, k);
            1 + k
        },
        ExpressionView::Assign(t, value) => lemma_eval_assign(host, fuel, e, scope, w, stack),
        ExpressionView::Unary(t, operand) => lemma_eval_unary(host, fuel, e, scope, w, stack),
        ExpressionView::Binary(left, t, right) => lemma_eval_binary(
            host,
            fuel,
            e,
            scope,
            w,
            stack,
        ),
        ExpressionView::Logical(left, t, right) => lemma_eval_logical(
            host,
            fuel,
            e,
            scope,
            w,
            stack,
        ),
        ExpressionView::Call(callee, arguments) => lemma_eval_call(
            host,
            fuel,
            e,
            scope,
            w,
            stack,
        ),
    }
}

/// [`lemma_eval`] for an assignment.
pub proof fn lemma_eval_assign(
    host: Host,
    fuel: nat,
    e: ExpressionView,
    scope: nat,
    w: World,
    stack: Seq<FrameView>,
) -> (n: nat)
    requires
        e is Assign,
        eval(host, fuel, e, scope, w) is Some,
    ensures
        expression_ended(
            host,
            running(w, stack, ControlView::Evaluate(e, scope)),
            n,
            stack,
            eval(host, fuel, e, scope, w)->0,
        ),
    decreases fuel, 0nat, e, 0nat,
{
    let start = running(w, stack, ControlView::Evaluate(e, scope));
    let t = e->Assign_0;
    let value = *e->Assign_1;
    let frame = FrameView::Assign(t, scope);
    lemma_evaluate_step(host, w, stack, e, scope);
    let k = lemma_eval(host, fuel, value, scope, w, stack.push(frame));
    lemma_run_add(host, start, 1, k);
    let (end, w1) = eval(host, fuel, value, scope, w)->0;
    lemma_unwound_push(stack, frame, end->Error_0);
    match end {
        Completion::Value(v) => {
            let got = running(w1, stack.push(frame), ControlView::Value(v));
            lemma_resume_step(host, w1, stack, frame, v);
            match assign(w1.environment, scope as int, t.lexeme, v) {
                Some(scopes) => {
                    let after = running(with_scopes(w1, scopes), stack, ControlView::Value(v));
                    lemma_then_step(host, start, 1 + k, got, after);
                    1 + k + 1
                },
                None => {
                    let x = RuntimeErrorView::UndefinedIdentifier(t.lexeme);
                    let after = running(w1, stack, ControlView::Raise(x));
                    lemma_then_step(host, start, 1 + k, got, after);
                    lemma_fails(host, start, 1 + k + 1, w1, stack, x);
                    1 + k + 2
                },
            }
        },
        _ => 1 + k,
    }
}

/// [`lemma_eval`] for a unary operator.
pub proof fn lemma_eval_unary(
    host: Host,
    fuel: nat,
    e: ExpressionView,
    scope: nat,
    w: World,
    stack: Seq<FrameView>,
) -> (n: nat)
    requires
        e is Unary,
        eval(host, fuel, e, scope, w) is Some,
    ensures
        expression_ended(
            host,
            running(w, stack, ControlView::Evaluate(e, scope)),
            n,
            stack,
            eval(host, fuel, e, scope, w)->0,
        ),
    decreases fuel, 0nat, e, 0nat,
{
    let start = running(w, stack, ControlView::Evaluate(e, scope));
    let t = e->Unary_0;
    let operand = *e->Unary_1;
    let frame = FrameView::Unary(t);
    lemma_evaluate_step(host, w, stack, e, scope);
    let k = lemma_eval(host, fuel, operand, scope, w, stack.push(frame));
    lemma_run_add(host, start, 1, k);
    let (end, w1) = eval(host, fuel, operand, scope, w)->0;
    lemma_unwound_push(stack, frame, end->Error_0);
    match end {
        Completion::Value(v) => {
            let got = running(w1, stack.push(frame), ControlView::Value(v));
            lemma_resume_step(host, w1, stack, frame, v);
            match unary(t, v) {
                Ok(r) => {
                    let after = running(w1, stack, ControlView::Value(r));
                    lemma_then_step(host, start, 1 + k, got, after);
                    1 + k + 1
                },
                Err(x) => {
                    let after = running(w1, stack, ControlView::Raise(x));
                    lemma_then_step(host, start, 1 + k, got, after);
                    lemma_fails(host, start, 1 + k + 1, w1, stack, x);
                    1 + k + 2
                },
            }
        },
        _ => 1 + k,
    }
}

/// [`lemma_eval`] for a binary operator.
pub proof fn lemma_eval_binary(
    host: Host,
    fuel: nat,
    e: ExpressionView,
    scope: nat,
    w: World,
    stack: Seq<FrameView>,
) -> (n: nat)
    requires
        e is Binary,
        eval(host, fuel, e, scope, w) is Some,
    ensures
        expression_ended(
            host,
            running(w, stack, ControlView::Evaluate(e, scope)),
            n,
            stack,
            eval(host, fuel, e, scope, w)->0,
        ),
    decreases fuel, 0nat, e, 0nat,
{
    let start = running(w, stack, ControlView::Evaluate(e, scope));
    let left = *e->Binary_0;
    let t = e->Binary_1;
    let right = *e->Binary_2;
    let first = FrameView::Left(t, right, scope);
    lemma_evaluate_step(host, w, stack, e, scope);
    let k = lemma_eval(host, fuel, left, scope, w, stack.push(first));
    lemma_run_add(host, start, 1, k);
    let (end, w1) = eval(host, fuel, left, scope, w)->0;
    lemma_unwound_push(stack, first, end->Error_0);
    match end {
        Completion::Value(l) => {
            let second = FrameView::Right(t, l);
            let got = running(w1, stack.push(first), ControlView::Value(l));
            let next = running(w1, stack.push(second), ControlView::Evaluate(right, scope));
            lemma_resume_step(host, w1, stack, first, l);
            lemma_then_step(host, start, 1 + k, got, next);
            let j = lemma_eval(host, fuel, right, scope, w1, stack.push(second));
            lemma_run_add(host, start, 1 + k + 1, j);
            let (end2, w2) = eval(host, fuel, right, scope, w1)->0;
            lemma_unwound_push(stack, second, end2->Error_0);
            let so_far = 1 + k + 1 + j;
            match end2 {
                Completion::Value(r) => {
                    let both = running(w2, stack.push(second), ControlView::Value(r));
                    lemma_resume_step(host, w2, stack, second, r);
                    match binary(t, l, r) {
                        AppliedView::Value(v) => {
                            let after = running(w2, stack, ControlView::Value(v));
                            lemma_then_step(host, start, so_far, both, after);
                            so_far + 1
                        },
                        AppliedView::Arithmetic(operation, a, b) => {
                            let question = ActionView::Arithmetic(operation, a, b);
                            let after = answered(host, w2, stack, question);
                            lemma_then_step(host, start, so_far, both, after);
                            lemma_answered(host, start, so_far + 1, w2, stack, question)
                        },
                        AppliedView::Error(x) => {
                            let after = running(w2, stack, ControlView::Raise(x));
                            lemma_then_step(host, start, so_far, both, after);
                            lemma_fails(host, start, so_far + 1, w2, stack, x);
                            so_far + 2
                        },
                    }
                },
                _ => so_far,
            }
        },
        _ => 1 + k,
    }
}

/// [`lemma_eval`] for `and` and `or`.
pub proof fn lemma_eval_logical(
    host: Host,
    fuel: nat,
    e: ExpressionView,
    scope: nat,
    w: World,
    stack: Seq<FrameView>,
) -> (n: nat)
    requires
        e is Logical,
        eval(host, fuel, e, scope, w) is Some,
    ensures
        expression_ended(
            host,
            running(w, stack, ControlView::Evaluate(e, scope)),
            n,
            stack,
            eval(host, fuel, e, scope, w)->0,
        ),
    decreases fuel, 0nat, e, 0nat,
{
    let start = running(w, stack, ControlView::Evaluate(e, scope));
    let left = *e->Logical_0;
    let t = e->Logical_1;
    let right = *e->Logical_2;
    let frame = FrameView::Logical(t, right, scope);
    lemma_evaluate_step(host, w, stack, e, scope);
    let k = lemma_eval(host, fuel, left, scope, w, stack.push(frame));
    lemma_run_add(host, start, 1, k);
    let (end, w1) = eval(host, fuel, left, scope, w)->0;
    lemma_unwound_push(stack, frame, end->Error_0);
    match end {
        Completion::Value(l) => {
            let got = running(w1, stack.push(frame), ControlView::Value(l));
            lemma_resume_step(host, w1, stack, frame, l);
            if (t.token_type == TokenType::Or) == truthy(l) {
                let after = running(w1, stack, ControlView::Value(l));
                lemma_then_step(host, start, 1 + k, got, after);
                1 + k + 1
            } else {
                let next = running(w1, stack, ControlView::Evaluate(right, scope));
                lemma_then_step(host, start, 1 + k, got, next);
                let j = lemma_eval(host, fuel, right, scope, w1, stack);
                lemma_run_add(host, start, 1 + k + 1, j);
                1 + k + 1 + j
            }
        },
        _ => 1 + k,
    }
}

/// [`lemma_eval`] for a call.
pub proof fn lemma_eval_call(
    host: Host,
    fuel: nat,
    e: ExpressionView,
    scope: nat,
    w: World,
    stack: Seq<FrameView>,
) -> (n: nat)
    requires
        e is Call,
        eval(host, fuel, e, scope, w) is Some,
    ensures
        expression_ended(
            host,
            running(w, stack, ControlView::Evaluate(e, scope)),
            n,
            stack,
            eval(host, fuel, e, scope, w)->0,
        ),
    decreases fuel, 0nat, e, 0nat,
{
    let start = running(w, stack, ControlView::Evaluate(e, scope));
    let callee = *e->Call_0;
    let arguments = e->Call_1;
    let frame = FrameView::Callee(callee, arguments, scope);
    lemma_evaluate_step(host, w, stack, e, scope);
    let k = lemma_eval(host, fuel, callee, scope, w, stack.push(frame));
    lemma_run_add(host, start, 1, k);
    let (end, w1) = eval(host, fuel, callee, scope, w)->0;
    lemma_unwound_push(stack, frame, end->Error_0);
    match end {
        Completion::Value(c) => {
            let got = running(w1, stack.push(frame), ControlView::Value(c));
            lemma_resume_step(host, w1, stack, frame, c);
            match c {
                RuntimeTypeView::Function(function) => {
                    let (listed, w2) = eval_arguments(
                        host,
                        fuel,
                        arguments,
                        0,
                        seq![],
                        scope,
                        w1,
                    )->0;
                    if arguments.len() == 0 {
                        let calling = invoking(host, w1, stack, function, seq![]);
                        lemma_then_step(host, start, 1 + k, got, calling);
                        let j = lemma_call(
                            host,
                            (fuel - 1) as nat,
                            function,
                            seq![],
                            w1,
                            stack,
                        );
                        lemma_run_add(host, start, 1 + k + 1, j);
                        1 + k + 1 + j
                    } else {
                        let waiting = FrameView::Argument(function, arguments, scope, seq![]);
                        let next = running(
                            w1,
                            stack.push(waiting),
                            ControlView::Evaluate(arguments[0], scope),
                        );
                        lemma_then_step(host, start, 1 + k, got, next);
                        let j = lemma_arguments(
                            host,
                            fuel,
                            function,
                            arguments,
                            0,
                            seq![],
                            scope,
                            w1,
                            stack,
                        );
                        lemma_run_add(host, start, 1 + k + 1, j);
                        match listed {
                            Ok(values) => {
                                let i = lemma_call(
                                    host,
                                    (fuel - 1) as nat,
                                    function,
                                    values,
                                    w2,
                                    stack,
                                );
                                lemma_run_add(host, start, 1 + k + 1 + j, i);
                                1 + k + 1 + j + i
                            },
                            Err(_) => 1 + k + 1 + j,
                        }
                    }
                },
                _ => {
                    let x = RuntimeErrorView::UndefinedIdentifier(expression_text(callee));
                    let after = running(w1, stack, ControlView::Raise(x));
                    lemma_then_step(host, start, 1 + k, got, after);
                    lemma_fails(host, start, 1 + k + 1, w1, stack, x);
                    1 + k + 2
                },
            }
        },
        _ => 1 + k,
    }
}

/// The machine evaluates the arguments of a call from the left and then
/// calls the function with their values; an argument that fails ends the
/// call.
pub proof fn lemma_arguments(
    host: Host,
    fuel: nat,
    function: RuntimeFunctionView,
    arguments: Seq<ExpressionView>,
    from: nat,
    values: Seq<RuntimeTypeView>,
    scope: nat,
    w: World,
    stack: Seq<FrameView>,
) -> (n: nat)
    requires
        from < arguments.len(),
        values.len() == from,
        eval_arguments(host, fuel, arguments, from, values, scope, w) is Some,
    ensures
        ({
            let start = running(
                w,
                stack.push(FrameView::Argument(function, arguments, scope, values)),
                ControlView::Evaluate(arguments[from as int], scope),
            );
            let (listed, w2) = eval_arguments(host, fuel, arguments, from, values, scope, w)->0;
            match listed {
                Ok(all) => hosted_run(host, start, n) == invoking(host, w2, stack, function, all),
                Err(end) => expression_ended(host, start, n, stack, (end, w2)),
            }
        }),
    decreases fuel, 0nat, arguments, arguments.len() - from,
{
    let frame = FrameView::Argument(function, arguments, scope, values);
    let start = running(
        w,
        stack.push(frame),
        ControlView::Evaluate(arguments[from as int], scope),
    );
    let k = lemma_eval(host, fuel, arguments[from as int], scope, w, stack.push(frame));
    let (end, w1) = eval(host, fuel, arguments[from as int], scope, w)->0;
    lemma_unwound_push(stack, frame, end->Error_0);
    match end {
        Completion::Value(v) => {
            let got = running(w1, stack.push(frame), ControlView::Value(v));
            lemma_resume_step(host, w1, stack, frame, v);
            if from + 1 < arguments.len() {
                let waiting = FrameView::Argument(function, arguments, scope, values.push(v));
                let next = running(
                    w1,
                    stack.push(waiting),
                    ControlView::Evaluate(arguments[from as int + 1], scope),
                );
                lemma_then_step(host, start, k, got, next);
                let j = lemma_arguments(
                    host,
                    fuel,
                    function,
                    arguments,
                    from + 1,
                    values.push(v),
                    scope,
                    w1,
                    stack,
                );
                lemma_run_add(host, start, k + 1, j);
                k + 1 + j
            } else {
                let calling = invoking(host, w1, stack, function, values.push(v));
                lemma_then_step(host, start, k, got, calling);
                k + 1
            }
        },
        _ => k,
    }
}

/// The machine ends every call that has a meaning with that meaning.
pub proof fn lemma_call(
    host: Host,
    fuel: nat,
    function: RuntimeFunctionView,
    values: Seq<RuntimeTypeView>,
    w: World,
    stack: Seq<FrameView>,
) -> (n: nat)
    requires
        call(host, fuel, function, values, w) is Some,
    ensures
        expression_ended(
            host,
            invoking(host, w, stack, function, values),
            n,
            stack,
            call(host, fuel, function, values, w)->0,
        ),
    decreases fuel, 2nat, function.body, 0nat,
{
    let start = invoking(host, w, stack, function, values);
    match function.body {
        StatementView::Native(name) => {
            let question = ActionView::Native(name, values);
            lemma_answered(host, start, 0, w, stack, question)
        },
        _ => {
            match called(w.environment, function, values) {
                Err(x) => {
                    lemma_fails(host, start, 0, w, stack, x);
                    1
                },
                Ok(scopes) => {
                    let inside = with_scopes(w, scopes);
                    let boundary = stack.push(FrameView::Call);
                    let k = lemma_exec(
                        host,
                        fuel,
                        function.body,
                        w.environment.len(),
                        inside,
                        boundary,
                    );
                    let (end, w1) = exec(
                        host,
                        fuel,
                        function.body,
                        w.environment.len(),
                        inside,
                    )->0;
                    lemma_unwound_push(stack, FrameView::Call, end->Error_0);
                    lemma_below_call_push(stack, FrameView::Call);
                    match end {
                        Completion::Value(v) => {
                            let got = running(w1, boundary, ControlView::Value(v));
                            let after = running(
                                w1,
                                stack,
                                ControlView::Value(RuntimeTypeView::Nil),
                            );
                            lemma_resume_step(host, w1, stack, FrameView::Call, v);
                            lemma_then_step(host, start, k, got, after);
                            k + 1
                        },
                        _ => k,
                    }
                },
            }
        },
    }
}

/// The machine ends every statement that has a meaning with that meaning:
/// started on the statement with any stack, it hands the value to the frame
/// on top of that stack, or the returned value to the frame below the
/// nearest call boundary, and leaves the world that the meaning leaves.
pub proof fn lemma_exec(
    host: Host,
    fuel: nat,
    s: StatementView,
    scope: nat,
    w: World,
    stack: Seq<FrameView>,
) -> (n: nat)
    requires
        exec(host, fuel, s, scope, w) is Some,
    ensures
        statement_ended(
            host,
            running(w, stack, ControlView::Execute(s, scope)),
            n,
            stack,
            exec(host, fuel, s, scope, w)->0,
        ),
    decreases fuel, 1nat, s, 2nat,
{
    let start = running(w, stack, ControlView::Execute(s, scope));
    lemma_execute_step(host, w, stack, s, scope);
    lemma_run_one(host, start);
    match s {
        StatementView::Empty => 1,
        StatementView::Function(name, parameters, body) => 1,
        StatementView::Native(name) => lemma_answered(
            host,
            start,
            1,
            w,
            stack,
            ActionView::Native(name, seq![]),
        ),
        StatementView::Block(statements) => {
            let inside = with_scopes(w, nested(w.environment, scope));
            let inner = w.environment.len();
            let k = lemma_block(
                host,
                fuel,
                statements,
                0,
                inner,
                inside,
                stack,
                RuntimeTypeView::Nil,
            );
            lemma_run_add(host, start, 1, k);
            1 + k
        },
        StatementView::While(condition, body) => {
            let k = lemma_loop(host, fuel, s, scope, w, stack);
            lemma_run_add(host, start, 1, k);
            1 + k
        },
        StatementView::If(condition, then, otherwise) => lemma_exec_if(
            host,
            fuel,
            s,
            scope,
            w,
            stack,
        ),
        _ => lemma_exec_simple(host, fuel, s, scope, w, stack),
    }
}

/// The expression of a statement that is `print`, an expression statement,
/// the definition of a variable or `return`.
pub open spec fn own_expression(s: StatementView) -> ExpressionView {
    match s {
        StatementView::Print(e) => e,
        StatementView::Expression(e) => e,
        StatementView::Var(_, e) => e,
        StatementView::Return(e) => e,
        _ => ExpressionView::Nil,
    }
}

/// The frame that waits for the value of that expression.
pub open spec fn own_frame(s: StatementView, scope: nat) -> FrameView {
    match s {
        StatementView::Print(_) => FrameView::Print,
        StatementView::Var(name, _) => FrameView::Var(name, scope),
        StatementView::Return(_) => FrameView::Return,
        _ => FrameView::Discard,
    }
}

/// [`lemma_exec`] for `print`, an expression statement, the definition of a
/// variable and `return`.
pub proof fn lemma_exec_simple(
    host: Host,
    fuel: nat,
    s: StatementView,
    scope: nat,
    w: World,
    stack: Seq<FrameView>,
) -> (n: nat)
    requires
        s is Print || s is Expression || s is Var || s is Return,
        exec(host, fuel, s, scope, w) is Some,
    ensures
        statement_ended(
            host,
            running(w, stack, ControlView::Execute(s, scope)),
            n,
            stack,
            exec(host, fuel, s, scope, w)->0,
        ),
    decreases fuel, 1nat, s, 1nat,
{
    let start = running(w, stack, ControlView::Execute(s, scope));
    let e = own_expression(s);
    let frame = own_frame(s, scope);
    lemma_execute_step(host, w, stack, s, scope);
    let k = lemma_eval(host, fuel, e, scope, w, stack.push(frame));
    lemma_run_add(host, start, 1, k);
    let (end, w1) = eval(host, fuel, e, scope, w)->0;
    lemma_unwound_push(stack, frame, end->Error_0);
    match end {
        Completion::Value(v) => {
            let got = running(w1, stack.push(frame), ControlView::Value(v));
            lemma_resume_step(host, w1, stack, frame, v);
            match s {
                StatementView::Print(_) => {
                    let after = running(
                        World {
                            environment: w1.environment,
                            asked: w1.asked,
                            printed: w1.printed.push(v),
                        },
                        stack,
                        ControlView::Value(RuntimeTypeView::Nil),
                    );
                    lemma_then_step(host, start, 1 + k, got, after);
                    1 + k + 1
                },
                StatementView::Var(name, _) => {
                    let after = running(
                        with_scopes(w1, define(w1.environment, scope as int, name.lexeme, v)),
                        stack,
                        ControlView::Value(RuntimeTypeView::Nil),
                    );
                    lemma_then_step(host, start, 1 + k, got, after);
                    1 + k + 1
                },
                StatementView::Return(_) => {
                    match below_call(stack) {
                        Some(rest) => {
                            let after = running(w1, rest, ControlView::Value(v));
                            lemma_then_step(host, start, 1 + k, got, after);
                            1 + k + 1
                        },
                        None => {
                            let x = RuntimeErrorView::ReturnValue(v);
                            let after = running(w1, seq![], ControlView::Raise(x));
                            lemma_then_step(host, start, 1 + k, got, after);
                            lemma_fails(host, start, 1 + k + 1, w1, seq![], x);
                            1 + k + 2
                        },
                    }
                },
                _ => {
                    let after = running(w1, stack, ControlView::Value(RuntimeTypeView::Nil));
                    lemma_then_step(host, start, 1 + k, got, after);
                    1 + k + 1
                },
            }
        },
        _ => 1 + k,
    }
}

/// [`lemma_exec`] for `if`.
pub proof fn lemma_exec_if(
    host: Host,
    fuel: nat,
    s: StatementView,
    scope: nat,
    w: World,
    stack: Seq<FrameView>,
) -> (n: nat)
    requires
        s is If,
        exec(host, fuel, s, scope, w) is Some,
    ensures
        statement_ended(
            host,
            running(w, stack, ControlView::Execute(s, scope)),
            n,
            stack,
            exec(host, fuel, s, scope, w)->0,
        ),
    decreases fuel, 1nat, s, 1nat,
{
    let start = running(w, stack, ControlView::Execute(s, scope));
    let condition = s->If_0;
    let then = *s->If_1;
    let otherwise = *s->If_2;
    let frame = FrameView::If(then, otherwise, scope);
    lemma_execute_step(host, w, stack, s, scope);
    let k = lemma_eval(host, fuel, condition, scope, w, stack.push(frame));
    lemma_run_add(host, start, 1, k);
    let (end, w1) = eval(host, fuel, condition, scope, w)->0;
    lemma_unwound_push(stack, frame, end->Error_0);
    match end {
        Completion::Value(v) => {
            let got = running(w1, stack.push(frame), ControlView::Value(v));
            let branch = if truthy(v) {
                then
            } else {
                otherwise
            };
            let next = running(w1, stack, ControlView::Execute(branch, scope));
            lemma_resume_step(host, w1, stack, frame, v);
            lemma_then_step(host, start, 1 + k, got, next);
            let j = lemma_exec(host, fuel, branch, scope, w1, stack);
            lemma_run_add(host, start, 1 + k + 1, j);
            1 + k + 1 + j
        },
        _ => 1 + k,
    }
}

/// The machine runs the statements of a block in their order, up to the
/// first that does not end with a value.
pub proof fn lemma_block(
    host: Host,
    fuel: nat,
    statements: Seq<StatementView>,
    from: nat,
    scope: nat,
    w: World,
    stack: Seq<FrameView>,
    v: RuntimeTypeView,
) -> (n: nat)
    requires
        exec_block(host, fuel, statements, from, scope, w) is Some,
    ensures
        statement_ended(
            host,
            running(
                w,
                stack.push(FrameView::Block(statements, from, scope)),
                ControlView::Value(v),
            ),
            n,
            stack,
            exec_block(host, fuel, statements, from, scope, w)->0,
        ),
    decreases fuel, 1nat, statements, statements.len() - from,
{
    let frame = FrameView::Block(statements, from, scope);
    let start = running(w, stack.push(frame), ControlView::Value(v));
    lemma_resume_step(host, w, stack, frame, v);
    lemma_run_one(host, start);
    if from >= statements.len() {
        1
    } else {
        let waiting = FrameView::Block(statements, from + 1, scope);
        let k = lemma_exec(host, fuel, statements[from as int], scope, w, stack.push(waiting));
        lemma_run_add(host, start, 1, k);
        let (end, w1) = exec(host, fuel, statements[from as int], scope, w)->0;
        lemma_unwound_push(stack, waiting, end->Error_0);
        lemma_below_call_push(stack, waiting);
        match end {
            Completion::Value(r) => {
                let j = lemma_block(host, fuel, statements, from + 1, scope, w1, stack, r);
                lemma_run_add(host, start, 1 + k, j);
                1 + k + j
            },
            _ => 1 + k,
        }
    }
}

/// The machine runs a loop as long as its condition is truthy.
pub proof fn lemma_loop(
    host: Host,
    fuel: nat,
    s: StatementView,
    scope: nat,
    w: World,
    stack: Seq<FrameView>,
) -> (n: nat)
    requires
        s is While,
        exec_loop(host, fuel, s, scope, w) is Some,
    ensures
        statement_ended(
            host,
            running(
                w,
                stack.push(FrameView::While(s->While_0, *s->While_1, scope)),
                ControlView::Evaluate(s->While_0, scope),
            ),
            n,
            stack,
            exec_loop(host, fuel, s, scope, w)->0,
        ),
    decreases fuel, 1nat, s, 0nat,
{
    let condition = s->While_0;
    let body = *s->While_1;
    let frame = FrameView::While(condition, body, scope);
    let start = running(w, stack.push(frame), ControlView::Evaluate(condition, scope));
    let k = lemma_eval(host, fuel, condition, scope, w, stack.push(frame));
    let (end, w1) = eval(host, fuel, condition, scope, w)->0;
    lemma_unwound_push(stack, frame, end->Error_0);
    match end {
        Completion::Value(v) => {
            let got = running(w1, stack.push(frame), ControlView::Value(v));
            lemma_resume_step(host, w1, stack, frame, v);
            if !truthy(v) {
                let after = running(w1, stack, ControlView::Value(RuntimeTypeView::Nil));
                lemma_then_step(host, start, k, got, after);
                k + 1
            } else {
                let again = FrameView::Repeat(condition, body, scope);
                let next = running(w1, stack.push(again), ControlView::Execute(body, scope));
                lemma_then_step(host, start, k, got, next);
                let j = lemma_exec(host, fuel, body, scope, w1, stack.push(again));
                lemma_run_add(host, start, k + 1, j);
                let (end2, w2) = exec(host, fuel, body, scope, w1)->0;
                lemma_unwound_push(stack, again, end2->Error_0);
                lemma_below_call_push(stack, again);
                match end2 {
                    Completion::Value(r) => {
                        let done = running(w2, stack.push(again), ControlView::Value(r));
                        let back = running(
                            w2,
                            stack.push(frame),
                            ControlView::Evaluate(condition, scope),
                        );
                        lemma_resume_step(host, w2, stack, again, r);
                        lemma_then_step(host, start, k + 1 + j, done, back);
                        let i = lemma_loop(host, (fuel - 1) as nat, s, scope, w2, stack);
                        lemma_run_add(host, start, k + 1 + j + 1, i);
                        k + 1 + j + 1 + i
                    },
                    _ => k + 1 + j,
                }
            }
        },
        _ => k,
    }
}

} // verus!
