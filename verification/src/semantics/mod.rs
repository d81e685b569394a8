//! What evaluation means, and that the machine computes it.
//!
//! The meaning of an expression and of a statement is given by recursion on
//! its form: [`eval`] and [`exec`]. What only the host can give is asked of
//! a [`Host`], which replies to each question; what is printed is recorded.
//! A call of a function and a turn of a loop each take one unit of `fuel`,
//! so that the recursion ends; a program that runs forever has no meaning
//! for any fuel.
//!
//! [`hosted_run`] is the machine with a host that replies at once. The laws
//! at the end say that the machine ends every evaluation that has a meaning
//! with that meaning; their proofs are in [`refinement`].

pub mod refinement;

use vstd::prelude::*;
use crate::environment::{
    assign, define, law_assign_then_get, lookup, nested, resolve, valid, ScopeView,
};
use crate::expression::evaluator::{binary, literal, unary, AppliedView};
use crate::expression::{expression_text, ExpressionView};
use crate::machine::{
    called, stepped, supplied, ActionView, ControlView, FrameView, MachineView, Outcome,
};
use crate::runtime::runtime_error::{statement_failure, RuntimeErrorView};
use crate::runtime::runtime_function::RuntimeFunctionView;
use crate::runtime::runtime_type::{truthy, RuntimeTypeView};
use crate::semantics::refinement::{lemma_block, lemma_eval, lemma_exec, lemma_then_step};
use crate::statement::StatementView;
use crate::token::{TokenType, TokenView};

verus! {

/// A host: its reply to a question, given the number of questions before.
pub type Host = spec_fn(nat, ActionView) -> Result<RuntimeTypeView, RuntimeErrorView>;

/// What evaluation works on besides the program: the scopes, the number of
/// questions that the host was asked, and the values that were printed.
pub struct World {
    pub environment: Seq<ScopeView>,
    pub asked: nat,
    pub printed: Seq<RuntimeTypeView>,
}

/// How an evaluation ends.
pub enum Completion {
    /// With a value.
    Value(RuntimeTypeView),
    /// With a `return` of the value, which the enclosing call is to catch.
    Return(RuntimeTypeView),
    /// With a failure.
    Error(RuntimeErrorView),
}

/// The end of an evaluation and the world that it leaves; `None` where the
/// fuel does not suffice.
pub type Meaning = Option<(Completion, World)>;

/// The host's reply to a question as the end of an evaluation.
pub open spec fn asked(host: Host, w: World, question: ActionView) -> Meaning {
    Some(
        (
            match host(w.asked, question) {
                Ok(v) => Completion::Value(v),
                Err(e) => Completion::Error(e),
            },
            World { environment: w.environment, asked: w.asked + 1, printed: w.printed },
        ),
    )
}

/// The world with other scopes.
pub open spec fn with_scopes(w: World, environment: Seq<ScopeView>) -> World {
    World { environment, asked: w.asked, printed: w.printed }
}

/// A failure of an expression as the statement around it reports it; any
/// other end as it is.
pub open spec fn reported(m: Meaning) -> Meaning {
    match m {
        Some((Completion::Error(e), w)) => Some((Completion::Error(statement_failure(e)), w)),
        other => other,
    }
}

/// The meaning of the expression `e` in `scope`.
///
/// A literal has its value, a number literal the value that the host gives
/// for its text. A variable has the value that the scope sees. An assignment
/// has the value of its right side, and gives it to the nearest binding of
/// the name. `!` and `-` are applied to the value of the operand. A binary
/// operator is applied to the values of the left and the right operand, in
/// this order; arithmetic on two numbers is the host's. `or` has the value
/// of its left operand where that is truthy, `and` where it is not, and the
/// value of the right operand otherwise; the right operand is not evaluated
/// in the first case. A call evaluates the callee, which must be a function,
/// then the arguments from the left, and then is the call of the function.
pub open spec fn eval(host: Host, fuel: nat, e: ExpressionView, scope: nat, w: World) -> Meaning
    decreases fuel, 0nat, e, 0nat,
{
    match e {
        ExpressionView::Nil => Some((Completion::Value(RuntimeTypeView::Nil), w)),
        ExpressionView::Literal(t) => match literal(t) {
            Some(v) => Some((Completion::Value(v), w)),
            None => asked(host, w, ActionView::Number(t.literal)),
        },
        ExpressionView::Identifier(t) => match lookup(w.environment, scope as int, t.lexeme) {
            Some(v) => Some((Completion::Value(v), w)),
            None => Some((Completion::Error(RuntimeErrorView::UndefinedIdentifier(t.lexeme)), w)),
        },
        ExpressionView::Grouping(inner) => eval(host, fuel, *inner, scope, w),
        ExpressionView::Assign(t, value) => match eval(host, fuel, *value, scope, w) {
            Some((Completion::Value(v), w1)) => match assign(
                w1.environment,
                scope as int,
                t.lexeme,
                v,
            ) {
                Some(scopes) => Some((Completion::Value(v), with_scopes(w1, scopes))),
                None => Some(
                    (Completion::Error(RuntimeErrorView::UndefinedIdentifier(t.lexeme)), w1),
                ),
            },
            other => other,
        },
        ExpressionView::Unary(t, operand) => match eval(host, fuel, *operand, scope, w) {
            Some((Completion::Value(v), w1)) => match unary(t, v) {
                Ok(r) => Some((Completion::Value(r), w1)),
                Err(x) => Some((Completion::Error(x), w1)),
            },
            other => other,
        },
        ExpressionView::Binary(left, t, right) => match eval(host, fuel, *left, scope, w) {
            Some((Completion::Value(l), w1)) => match eval(host, fuel, *right, scope, w1) {
                Some((Completion::Value(r), w2)) => match binary(t, l, r) {
                    AppliedView::Value(v) => Some((Completion::Value(v), w2)),
                    AppliedView::Arithmetic(operation, a, b) => asked(
                        host,
                        w2,
                        ActionView::Arithmetic(operation, a, b),
                    ),
                    AppliedView::Error(x) => Some((Completion::Error(x), w2)),
                },
                other => other,
            },
            other => other,
        },
        ExpressionView::Logical(left, t, right) => match eval(host, fuel, *left, scope, w) {
            Some((Completion::Value(l), w1)) => if (t.token_type == TokenType::Or) == truthy(l) {
                Some((Completion::Value(l), w1))
            } else {
                eval(host, fuel, *right, scope, w1)
            },
            other => other,
        },
        ExpressionView::Call(callee, arguments) => match eval(host, fuel, *callee, scope, w) {
            Some((Completion::Value(c), w1)) => match c {
                RuntimeTypeView::Function(function) => match eval_arguments(
                    host,
                    fuel,
                    arguments,
                    0,
                    seq![],
                    scope,
                    w1,
                ) {
                    Some((Ok(values), w2)) => if fuel == 0 {
                        None
                    } else {
                        call(host, (fuel - 1) as nat, function, values, w2)
                    },
                    Some((Err(end), w2)) => Some((end, w2)),
                    None => None,
                },
                _ => Some(
                    (
                        Completion::Error(
                            RuntimeErrorView::UndefinedIdentifier(expression_text(*callee)),
                        ),
                        w1,
                    ),
                ),
            },
            other => other,
        },
    }
}

/// The values of the arguments from `from` on, behind `values`; or the end
/// of the first argument that has no value.
pub open spec fn eval_arguments(
    host: Host,
    fuel: nat,
    arguments: Seq<ExpressionView>,
    from: nat,
    values: Seq<RuntimeTypeView>,
    scope: nat,
    w: World,
) -> Option<(Result<Seq<RuntimeTypeView>, Completion>, World)>
    decreases fuel, 0nat, arguments, arguments.len() - from,
{
    if from >= arguments.len() {
        Some((Ok(values), w))
    } else {
        match eval(host, fuel, arguments[from as int], scope, w) {
            Some((Completion::Value(v), w1)) => eval_arguments(
                host,
                fuel,
                arguments,
                from + 1,
                values.push(v),
                scope,
                w1,
            ),
            Some((end, w1)) => Some((Err(end), w1)),
            None => None,
        }
    }
}

/// The call of `function` with `values`. A native function is the host's.
/// Any other needs as many values as it has parameters, binds them in a
/// scope inside the one in which it was defined, and runs its body there:
/// the call has the value that the body returns, and `nil` where the body
/// ends without a `return`.
pub open spec fn call(
    host: Host,
    fuel: nat,
    function: RuntimeFunctionView,
    values: Seq<RuntimeTypeView>,
    w: World,
) -> Meaning
    decreases fuel, 2nat, function.body, 0nat,
{
    match function.body {
        StatementView::Native(name) => asked(host, w, ActionView::Native(name, values)),
        _ => match called(w.environment, function, values) {
            Err(x) => Some((Completion::Error(x), w)),
            Ok(scopes) => match exec(
                host,
                fuel,
                function.body,
                w.environment.len(),
                with_scopes(w, scopes),
            ) {
                Some((Completion::Value(_), w1)) => Some(
                    (Completion::Value(RuntimeTypeView::Nil), w1),
                ),
                Some((Completion::Return(v), w1)) => Some((Completion::Value(v), w1)),
                other => other,
            },
        },
    }
}

/// The meaning of the statement `s` in `scope`.
///
/// `print` records the value of its expression. A variable is defined in
/// `scope` with the value of its expression, a function with itself, which
/// keeps `scope`. A block runs its statements in a new scope inside `scope`.
/// `if` runs one of its branches, `while` its body as long as the condition
/// is truthy. `return` ends with the value of its expression, which the
/// enclosing call catches. A native body is the host's to run. A statement
/// reports the failure of its own expression as a failure of its own.
pub open spec fn exec(host: Host, fuel: nat, s: StatementView, scope: nat, w: World) -> Meaning
    decreases fuel, 1nat, s, 1nat,
{
    match s {
        StatementView::Empty => Some((Completion::Value(RuntimeTypeView::Nil), w)),
        StatementView::Print(e) => match eval(host, fuel, e, scope, w) {
            Some((Completion::Value(v), w1)) => Some(
                (
                    Completion::Value(RuntimeTypeView::Nil),
                    World {
                        environment: w1.environment,
                        asked: w1.asked,
                        printed: w1.printed.push(v),
                    },
                ),
            ),
            other => reported(other),
        },
        StatementView::Expression(e) => match eval(host, fuel, e, scope, w) {
            Some((Completion::Value(v), w1)) => Some((Completion::Value(RuntimeTypeView::Nil), w1)),
            other => reported(other),
        },
        StatementView::Var(name, e) => match eval(host, fuel, e, scope, w) {
            Some((Completion::Value(v), w1)) => Some(
                (
                    Completion::Value(RuntimeTypeView::Nil),
                    with_scopes(w1, define(w1.environment, scope as int, name.lexeme, v)),
                ),
            ),
            other => reported(other),
        },
        StatementView::Function(name, parameters, body) => Some(
            (
                Completion::Value(RuntimeTypeView::Nil),
                with_scopes(
                    w,
                    define(
                        w.environment,
                        scope as int,
                        name.lexeme,
                        RuntimeTypeView::Function(
                            RuntimeFunctionView {
                                name: name.lexeme,
                                parameters,
                                body: *body,
                                enclosing: scope,
                            },
                        ),
                    ),
                ),
            ),
        ),
        StatementView::Block(statements) => exec_block(
            host,
            fuel,
            statements,
            0,
            w.environment.len(),
            with_scopes(w, nested(w.environment, scope)),
        ),
        StatementView::If(condition, then, otherwise) => match eval(
            host,
            fuel,
            condition,
            scope,
            w,
        ) {
            Some((Completion::Value(v), w1)) => if truthy(v) {
                exec(host, fuel, *then, scope, w1)
            } else {
                exec(host, fuel, *otherwise, scope, w1)
            },
            other => reported(other),
        },
        StatementView::While(condition, body) => exec_loop(host, fuel, s, scope, w),
        StatementView::Return(e) => match eval(host, fuel, e, scope, w) {
            Some((Completion::Value(v), w1)) => Some((Completion::Return(v), w1)),
            other => reported(other),
        },
        StatementView::Native(name) => asked(host, w, ActionView::Native(name, seq![])),
    }
}

/// The statements of a block from `from` on, in the scope of the block: each
/// in its turn, up to the first that does not end with a value.
pub open spec fn exec_block(
    host: Host,
    fuel: nat,
    statements: Seq<StatementView>,
    from: nat,
    scope: nat,
    w: World,
) -> Meaning
    decreases fuel, 1nat, statements, statements.len() - from,
{
    if from >= statements.len() {
        Some((Completion::Value(RuntimeTypeView::Nil), w))
    } else {
        match exec(host, fuel, statements[from as int], scope, w) {
            Some((Completion::Value(_), w1)) => exec_block(
                host,
                fuel,
                statements,
                from + 1,
                scope,
                w1,
            ),
            other => other,
        }
    }
}

/// The loop `s`: its condition, and while that is truthy its body and the
/// loop again.
pub open spec fn exec_loop(host: Host, fuel: nat, s: StatementView, scope: nat, w: World) -> Meaning
    decreases fuel, 1nat, s, 0nat,
{
    match s {
        StatementView::While(condition, body) => match eval(host, fuel, condition, scope, w) {
            Some((Completion::Value(v), w1)) => if !truthy(v) {
                Some((Completion::Value(RuntimeTypeView::Nil), w1))
            } else {
                match exec(host, fuel, *body, scope, w1) {
                    Some((Completion::Value(_), w2)) => if fuel == 0 {
                        None
                    } else {
                        exec_loop(host, (fuel - 1) as nat, s, scope, w2)
                    },
                    other => other,
                }
            },
            other => reported(other),
        },
        _ => None,
    }
}

/// The meaning of a program: its statements, each in its turn, in the global
/// scope, up to the first that does not end with a value.
pub open spec fn run(host: Host, fuel: nat, statements: Seq<StatementView>, w: World) -> Meaning {
    exec_block(host, fuel, statements, 0, 0, w)
}

/// A machine and its host: what the host was asked and what was printed so
/// far, and how the evaluation has ended, once it has.
pub struct Hosted {
    pub machine: MachineView,
    pub asked: nat,
    pub printed: Seq<RuntimeTypeView>,
    pub ended: Option<Result<RuntimeTypeView, RuntimeErrorView>>,
}

/// What the host does on a step of the machine: it records what is printed,
/// replies at once to a question, and notes the end.
pub open spec fn settled(host: Host, c: Hosted, next: Outcome) -> Hosted {
    match next.action {
        ActionView::Continue => Hosted {
            machine: next.machine,
            asked: c.asked,
            printed: c.printed,
            ended: c.ended,
        },
        ActionView::Print(v) => Hosted {
            machine: next.machine,
            asked: c.asked,
            printed: c.printed.push(v),
            ended: c.ended,
        },
        ActionView::Done(v) => Hosted {
            machine: next.machine,
            asked: c.asked,
            printed: c.printed,
            ended: Some(Ok(v)),
        },
        ActionView::Failed(e) => Hosted {
            machine: next.machine,
            asked: c.asked,
            printed: c.printed,
            ended: Some(Err(e)),
        },
        ActionView::Idle => c,
        question => Hosted {
            machine: supplied(next.machine, host(c.asked, question)),
            asked: c.asked + 1,
            printed: c.printed,
            ended: c.ended,
        },
    }
}

/// One step of the machine with its host.
pub open spec fn hosted_step(host: Host, c: Hosted) -> Hosted {
    settled(host, c, stepped(c.machine))
}

/// `n` steps of the machine with its host.
pub open spec fn hosted_run(host: Host, c: Hosted, n: nat) -> Hosted
    decreases n,
{
    if n == 0 {
        c
    } else {
        hosted_run(host, hosted_step(host, c), (n - 1) as nat)
    }
}

/// The machine in world `w` with this stack and this control.
pub open spec fn running(w: World, stack: Seq<FrameView>, control: ControlView) -> Hosted {
    Hosted {
        machine: MachineView { environment: w.environment, stack, control },
        asked: w.asked,
        printed: w.printed,
        ended: None,
    }
}

/// The machine that has ended with `result` and left world `w`.
pub open spec fn ended(w: World, result: Result<RuntimeTypeView, RuntimeErrorView>) -> Hosted {
    Hosted {
        machine: MachineView {
            environment: w.environment,
            stack: seq![],
            control: ControlView::Halted,
        },
        asked: w.asked,
        printed: w.printed,
        ended: Some(result),
    }
}

/// How an evaluation that is not inside a call ends for the host: with the
/// value, or with the failure; a `return` there is a failure with the
/// returned value.
pub open spec fn result_of(end: Completion) -> Result<RuntimeTypeView, RuntimeErrorView> {
    match end {
        Completion::Value(v) => Ok(v),
        Completion::Return(v) => Err(RuntimeErrorView::ReturnValue(v)),
        Completion::Error(x) => Err(x),
    }
}

/// The machine computes the meaning of expressions: started on an expression
/// in the global scope, with a host that replies at once, it ends after `n`
/// steps with what the expression means, and has asked, printed and left in
/// the scopes what the meaning says.
pub proof fn law_machine_evaluates(host: Host, fuel: nat, e: ExpressionView, w: World) -> (n: nat)
    requires
        eval(host, fuel, e, 0, w) is Some,
    ensures
        ({
            let (end, left) = eval(host, fuel, e, 0, w)->0;
            hosted_run(host, running(w, seq![], ControlView::Evaluate(e, 0)), n) == ended(
                left,
                result_of(end),
            )
        }),
{
    let start = running(w, seq![], ControlView::Evaluate(e, 0));
    let k = lemma_eval(host, fuel, e, 0, w, seq![]);
    let (end, left) = eval(host, fuel, e, 0, w)->0;
    match end {
        Completion::Value(v) => {
            let got = running(left, seq![], ControlView::Value(v));
            lemma_then_step(host, start, k, got, ended(left, Ok(v)));
            k + 1
        },
        _ => k,
    }
}

/// The machine computes the meaning of statements: started on a statement in
/// the global scope, with a host that replies at once, it ends after `n`
/// steps with what the statement means, and has asked, printed and left in
/// the scopes what the meaning says.
pub proof fn law_machine_executes(host: Host, fuel: nat, s: StatementView, w: World) -> (n: nat)
    requires
        exec(host, fuel, s, 0, w) is Some,
    ensures
        ({
            let (end, left) = exec(host, fuel, s, 0, w)->0;
            hosted_run(host, running(w, seq![], ControlView::Execute(s, 0)), n) == ended(
                left,
                result_of(end),
            )
        }),
{
    let start = running(w, seq![], ControlView::Execute(s, 0));
    let k = lemma_exec(host, fuel, s, 0, w, seq![]);
    let (end, left) = exec(host, fuel, s, 0, w)->0;
    match end {
        Completion::Value(v) => {
            let got = running(left, seq![], ControlView::Value(v));
            lemma_then_step(host, start, k, got, ended(left, Ok(v)));
            k + 1
        },
        _ => k,
    }
}

/// The machine computes the meaning of programs: started on the statements
/// of a program, with a host that replies at once, it ends after `n` steps
/// with what the program means, and has asked, printed and left in the
/// scopes what the meaning says.
pub proof fn law_machine_runs(host: Host, fuel: nat, statements: Seq<StatementView>, w: World)
    -> (n: nat)
    requires
        run(host, fuel, statements, w) is Some,
    ensures
        ({
            let (end, left) = run(host, fuel, statements, w)->0;
            hosted_run(
                host,
                running(
                    w,
                    seq![FrameView::Block(statements, 0, 0)],
                    ControlView::Value(RuntimeTypeView::Nil),
                ),
                n,
            ) == ended(left, result_of(end))
        }),
{
    let stack = Seq::<FrameView>::empty();
    let frame = FrameView::Block(statements, 0, 0);
    assert(stack.push(frame) =~= seq![frame]);
    let start = running(w, stack.push(frame), ControlView::Value(RuntimeTypeView::Nil));
    let k = lemma_block(host, fuel, statements, 0, 0, w, stack, RuntimeTypeView::Nil);
    let (end, left) = run(host, fuel, statements, w)->0;
    match end {
        Completion::Value(v) => {
            let got = running(left, stack, ControlView::Value(v));
            lemma_then_step(host, start, k, got, ended(left, Ok(v)));
            k + 1
        },
        _ => k,
    }
}

/// A number literal means what the host replies for the text of the literal.
pub proof fn law_number_literal(host: Host, fuel: nat, t: TokenView, scope: nat, w: World)
    requires
        t.token_type == TokenType::Number,
    ensures
        eval(host, fuel, ExpressionView::Literal(t), scope, w) == asked(
            host,
            w,
            ActionView::Number(t.literal),
        ),
{
}

/// `and` after a left operand whose value is not truthy, and `or` after one
/// whose value is, mean what the left operand means, whatever the right
/// operand is.
pub proof fn law_short_circuit_means_left(
    host: Host,
    fuel: nat,
    left: ExpressionView,
    operator: TokenView,
    right: ExpressionView,
    scope: nat,
    w: World,
)
    requires
        eval(host, fuel, left, scope, w) matches Some((Completion::Value(v), _)) && (
        operator.token_type == TokenType::Or) == truthy(v),
    ensures
        eval(
            host,
            fuel,
            ExpressionView::Logical(Box::new(left), operator, Box::new(right)),
            scope,
            w,
        ) == eval(host, fuel, left, scope, w),
{
}

/// A call of a function that is not native with a number of values that is
/// not the number of its parameters fails and leaves the world as it is.
pub proof fn law_arity_means_failure(
    host: Host,
    fuel: nat,
    function: RuntimeFunctionView,
    values: Seq<RuntimeTypeView>,
    w: World,
)
    requires
        !(function.body is Native),
        function.parameters.len() != values.len(),
    ensures
        call(host, fuel, function, values, w) == Some(
            (
                Completion::Error(
                    RuntimeErrorView::WrongArgumentsForFunction(
                        function.name,
                        function.parameters.len(),
                        values.len(),
                    ),
                ),
                w,
            ),
        ),
{
}

/// An assignment to a name that is bound means the value of its right side,
/// and the name has that value afterwards, seen from the scope of the
/// assignment.
pub proof fn law_assignment_means_binding(
    host: Host,
    fuel: nat,
    name: TokenView,
    value: ExpressionView,
    scope: nat,
    w: World,
)
    requires
        eval(host, fuel, value, scope, w) matches Some((Completion::Value(v), w1)) && valid(
            w1.environment,
        ) && resolve(w1.environment, scope as int, name.lexeme) is Some,
    ensures
        ({
            let (end, w1) = eval(host, fuel, value, scope, w)->0;
            let (assigned, w2) = eval(
                host,
                fuel,
                ExpressionView::Assign(name, Box::new(value)),
                scope,
                w,
            )->0;
            &&& assigned == end
            &&& lookup(w2.environment, scope as int, name.lexeme) == Some(end->Value_0)
        }),
{
    let (end, w1) = eval(host, fuel, value, scope, w)->0;
    law_assign_then_get(w1.environment, scope as int, name.lexeme, end->Value_0);
}

} // verus!
