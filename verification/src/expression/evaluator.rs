//! The evaluation of expressions: the values of literals, the operators,
//! and the first step of each kind of expression.

use vstd::prelude::*;
use vstd::string::*;
use crate::environment::{lookup, Environment, ScopeView};
use crate::expression::{Expression, ExpressionView};
use crate::machine::{
    asks, frame_views, goes, outcome_of, push_frame, Action, ActionView, Control, ControlView,
    Frame, FrameView, Outcome,
};
use crate::runtime::number::{
    equal, less, negate, negated, number_equal, number_less, Operation,
};
use crate::runtime::runtime_error::{line_message, RuntimeError, RuntimeErrorView};
use crate::runtime::runtime_type::{truthy, RuntimeType, RuntimeTypeView};
use crate::token::{Token, TokenType, TokenView};

verus! {

/// The evaluation of expressions.
pub struct ExprEvaluator;

/// What a binary operator makes of two values: a value, an operation on two
/// numbers that the host computes, or an error.
#[derive(Debug)]
pub enum Applied<'a> {
    Value(RuntimeType<'a>),
    Arithmetic(Operation, u64, u64),
    Error(RuntimeError<'a>),
}

/// The mathematical value of an [`Applied`].
pub enum AppliedView {
    Value(RuntimeTypeView),
    Arithmetic(Operation, u64, u64),
    Error(RuntimeErrorView),
}

impl<'a> View for Applied<'a> {
    type V = AppliedView;

    open spec fn view(&self) -> AppliedView {
        match self {
            Applied::Value(v) => AppliedView::Value(v@),
            Applied::Arithmetic(operation, a, b) => AppliedView::Arithmetic(*operation, *a, *b),
            Applied::Error(e) => AppliedView::Error(e@),
        }
    }
}

/// The value of a literal; `None` for a number, whose value the host
/// computes from the literal's text.
pub open spec fn literal(t: TokenView) -> Option<RuntimeTypeView> {
    match t.token_type {
        TokenType::Nil => Some(RuntimeTypeView::Nil),
        TokenType::True => Some(RuntimeTypeView::Boolean(true)),
        TokenType::False => Some(RuntimeTypeView::Boolean(false)),
        TokenType::Number => None,
        TokenType::String => Some(RuntimeTypeView::String(t.literal)),
        _ => Some(RuntimeTypeView::Nil),
    }
}

/// `!` gives whether the value is not truthy; `-` negates a number and fails
/// on any other value.
pub open spec fn unary(t: TokenView, v: RuntimeTypeView) -> Result<
    RuntimeTypeView,
    RuntimeErrorView,
> {
    match t.token_type {
        TokenType::Bang => Ok(RuntimeTypeView::Boolean(!truthy(v))),
        TokenType::Minus => match v {
            RuntimeTypeView::Number(n) => Ok(RuntimeTypeView::Number(negated(n))),
            _ => Err(
                RuntimeErrorView::UnaryError(line_message("Operand must be a number."@, t.line)),
            ),
        },
        _ => Ok(RuntimeTypeView::Nil),
    }
}

/// An operator on two numbers: arithmetic is the host's, comparison and
/// equality give a boolean.
pub open spec fn numeric(kind: TokenType, a: u64, b: u64) -> AppliedView {
    match kind {
        TokenType::Plus => AppliedView::Arithmetic(Operation::Add, a, b),
        TokenType::Minus => AppliedView::Arithmetic(Operation::Subtract, a, b),
        TokenType::Star => AppliedView::Arithmetic(Operation::Multiply, a, b),
        TokenType::Slash => AppliedView::Arithmetic(Operation::Divide, a, b),
        TokenType::Greater => AppliedView::Value(RuntimeTypeView::Boolean(number_less(b, a))),
        TokenType::GreaterEqual => AppliedView::Value(
            RuntimeTypeView::Boolean(number_less(b, a) || number_equal(a, b)),
        ),
        TokenType::Less => AppliedView::Value(RuntimeTypeView::Boolean(number_less(a, b))),
        TokenType::LessEqual => AppliedView::Value(
            RuntimeTypeView::Boolean(number_less(a, b) || number_equal(a, b)),
        ),
        TokenType::EqualEqual => AppliedView::Value(RuntimeTypeView::Boolean(number_equal(a, b))),
        TokenType::BangEqual => AppliedView::Value(RuntimeTypeView::Boolean(!number_equal(a, b))),
        _ => AppliedView::Value(RuntimeTypeView::Nil),
    }
}

/// The error of a binary operator, with the line of the operator.
pub open spec fn mismatch(message: Seq<char>, t: TokenView) -> AppliedView {
    AppliedView::Error(RuntimeErrorView::BinaryError(line_message(message, t.line)))
}

/// Whether `==` and `!=` compare values of this kind with one another.
pub open spec fn comparable(v: RuntimeTypeView) -> bool {
    v is Number || v is String || v is Boolean
}

/// Whether the two values are of one kind.
pub open spec fn same_kind(l: RuntimeTypeView, r: RuntimeTypeView) -> bool {
    ||| l is Number && r is Number
    ||| l is String && r is String
    ||| l is Boolean && r is Boolean
    ||| l is Function && r is Function
    ||| l is Nil && r is Nil
}

/// What a binary operator makes of two values. Numbers take every operator;
/// strings `+`, `==` and `!=`; booleans `==` and `!=`. Values of two kinds
/// are never equal, and no other operator takes them.
pub open spec fn binary(t: TokenView, l: RuntimeTypeView, r: RuntimeTypeView) -> AppliedView {
    match (l, r) {
        (RuntimeTypeView::Number(a), RuntimeTypeView::Number(b)) => numeric(t.token_type, a, b),
        (RuntimeTypeView::String(a), RuntimeTypeView::String(b)) => match t.token_type {
            TokenType::Plus => AppliedView::Value(RuntimeTypeView::String(a + b)),
            TokenType::EqualEqual => AppliedView::Value(RuntimeTypeView::Boolean(a == b)),
            TokenType::BangEqual => AppliedView::Value(RuntimeTypeView::Boolean(a != b)),
            _ => mismatch("Operands must be numbers."@, t),
        },
        (RuntimeTypeView::Boolean(a), RuntimeTypeView::Boolean(b)) => match t.token_type {
            TokenType::EqualEqual => AppliedView::Value(RuntimeTypeView::Boolean(a == b)),
            TokenType::BangEqual => AppliedView::Value(RuntimeTypeView::Boolean(a != b)),
            _ => mismatch("Invalid comparison for booleans."@, t),
        },
        _ => if same_kind(l, r) {
            mismatch("Operands must be two numbers or two strings."@, t)
        } else if t.token_type == TokenType::EqualEqual {
            AppliedView::Value(RuntimeTypeView::Boolean(false))
        } else if t.token_type == TokenType::BangEqual {
            AppliedView::Value(RuntimeTypeView::Boolean(true))
        } else if comparable(l) {
            mismatch("Operands must be numbers."@, t)
        } else {
            mismatch("Operands must be two numbers or two strings."@, t)
        },
    }
}

/// The first step of the evaluation of `e` in `scope`. A literal, a variable
/// and a left-out expression have their value at once (a number literal has
/// it from the host). Of any other expression the first operand is evaluated
/// next, and a frame that holds the rest waits for its value.
pub open spec fn evaluated(
    environment: Seq<ScopeView>,
    stack: Seq<FrameView>,
    e: ExpressionView,
    scope: nat,
) -> Outcome {
    match e {
        ExpressionView::Nil => goes(environment, stack, ControlView::Value(RuntimeTypeView::Nil)),
        ExpressionView::Literal(t) => match literal(t) {
            Some(v) => goes(environment, stack, ControlView::Value(v)),
            None => asks(environment, stack, ActionView::Number(t.literal)),
        },
        ExpressionView::Identifier(t) => match lookup(environment, scope as int, t.lexeme) {
            Some(v) => goes(environment, stack, ControlView::Value(v)),
            None => goes(
                environment,
                stack,
                ControlView::Raise(RuntimeErrorView::UndefinedIdentifier(t.lexeme)),
            ),
        },
        ExpressionView::Assign(t, value) => goes(
            environment,
            stack.push(FrameView::Assign(t, scope)),
            ControlView::Evaluate(*value, scope),
        ),
        ExpressionView::Grouping(inner) => goes(
            environment,
            stack,
            ControlView::Evaluate(*inner, scope),
        ),
        ExpressionView::Unary(t, operand) => goes(
            environment,
            stack.push(FrameView::Unary(t)),
            ControlView::Evaluate(*operand, scope),
        ),
        ExpressionView::Binary(left, t, right) => goes(
            environment,
            stack.push(FrameView::Left(t, *right, scope)),
            ControlView::Evaluate(*left, scope),
        ),
        ExpressionView::Logical(left, t, right) => goes(
            environment,
            stack.push(FrameView::Logical(t, *right, scope)),
            ControlView::Evaluate(*left, scope),
        ),
        ExpressionView::Call(callee, arguments) => goes(
            environment,
            stack.push(FrameView::Callee(*callee, arguments, scope)),
            ControlView::Evaluate(*callee, scope),
        ),
    }
}

impl ExprEvaluator {
    /// The value of a literal; `None` for a number.
    pub fn literal<'a>(token: &Token) -> (r: Option<RuntimeType<'a>>)
        ensures
            match r {
                Some(v) => literal(token@) == Some(v@),
                None => literal(token@) is None,
            },
    {
        match token.token_type {
            TokenType::Nil => Some(RuntimeType::Nil()),
            TokenType::True => Some(RuntimeType::Boolean(true)),
            TokenType::False => Some(RuntimeType::Boolean(false)),
            TokenType::Number => None,
            TokenType::String => Some(RuntimeType::String(token.literal.clone())),
            _ => Some(RuntimeType::Nil()),
        }
    }

    /// What the unary `operator` makes of `value`.
    pub fn unary<'a>(operator: &Token, value: RuntimeType<'a>) -> (r: Result<
        RuntimeType<'a>,
        RuntimeError<'a>,
    >)
        ensures
            match r {
                Ok(v) => unary(operator@, value@) == Ok::<RuntimeTypeView, RuntimeErrorView>(v@),
                Err(e) => unary(operator@, value@) == Err::<RuntimeTypeView, RuntimeErrorView>(
                    e@,
                ),
            },
    {
        match operator.token_type {
            TokenType::Bang => Ok(RuntimeType::Boolean(!value.is_truthy())),
            TokenType::Minus => match value {
                RuntimeType::Number(n) => Ok(RuntimeType::Number(negate(n))),
                _ => Err(
                    RuntimeError::UnaryError(
                        RuntimeError::at_line("Operand must be a number.", operator.line),
                    ),
                ),
            },
            _ => Ok(RuntimeType::Nil()),
        }
    }

    /// What `operator` makes of two numbers.
    fn numeric<'a>(kind: TokenType, a: u64, b: u64) -> (r: Applied<'a>)
        ensures
            r@ == numeric(kind, a, b),
    {
        match kind {
            TokenType::Plus => Applied::Arithmetic(Operation::Add, a, b),
            TokenType::Minus => Applied::Arithmetic(Operation::Subtract, a, b),
            TokenType::Star => Applied::Arithmetic(Operation::Multiply, a, b),
            TokenType::Slash => Applied::Arithmetic(Operation::Divide, a, b),
            TokenType::Greater => Applied::Value(RuntimeType::Boolean(less(b, a))),
            TokenType::GreaterEqual => Applied::Value(
                RuntimeType::Boolean(less(b, a) || equal(a, b)),
            ),
            TokenType::Less => Applied::Value(RuntimeType::Boolean(less(a, b))),
            TokenType::LessEqual => Applied::Value(
                RuntimeType::Boolean(less(a, b) || equal(a, b)),
            ),
            TokenType::EqualEqual => Applied::Value(RuntimeType::Boolean(equal(a, b))),
            TokenType::BangEqual => Applied::Value(RuntimeType::Boolean(!equal(a, b))),
            _ => Applied::Value(RuntimeType::Nil()),
        }
    }

    /// The error of a binary operator, with the line of the operator.
    fn mismatch<'a>(message: &str, operator: &Token) -> (r: Applied<'a>)
        ensures
            r@ == mismatch(message@, operator@),
    {
        Applied::Error(RuntimeError::BinaryError(RuntimeError::at_line(message, operator.line)))
    }

    /// What `operator` makes of two values of different kinds, or of two that
    /// are both `nil` or both functions.
    fn unlike<'a>(operator: &Token, left: &RuntimeType<'a>, right: &RuntimeType<'a>) -> (r:
        Applied<'a>)
        requires
            !(left@ is Number && right@ is Number),
            !(left@ is String && right@ is String),
            !(left@ is Boolean && right@ is Boolean),
        ensures
            r@ == binary(operator@, left@, right@),
    {
        let alike = match (left, right) {
            (RuntimeType::Function(_), RuntimeType::Function(_)) => true,
            (RuntimeType::Nil(), RuntimeType::Nil()) => true,
            _ => false,
        };
        let comparable = match left {
            RuntimeType::Number(_) => true,
            RuntimeType::String(_) => true,
            RuntimeType::Boolean(_) => true,
            _ => false,
        };
        if alike {
            ExprEvaluator::mismatch("Operands must be two numbers or two strings.", operator)
        } else if operator.token_type == TokenType::EqualEqual {
            Applied::Value(RuntimeType::Boolean(false))
        } else if operator.token_type == TokenType::BangEqual {
            Applied::Value(RuntimeType::Boolean(true))
        } else if comparable {
            ExprEvaluator::mismatch("Operands must be numbers.", operator)
        } else {
            ExprEvaluator::mismatch("Operands must be two numbers or two strings.", operator)
        }
    }

    /// What the binary `operator` makes of `left` and `right`.
    pub fn binary<'a>(operator: &Token, left: RuntimeType<'a>, right: RuntimeType<'a>) -> (r:
        Applied<'a>)
        ensures
            r@ == binary(operator@, left@, right@),
    {
        match left {
            RuntimeType::Number(a) => match right {
                RuntimeType::Number(b) => ExprEvaluator::numeric(operator.token_type, a, b),
                other => ExprEvaluator::unlike(operator, &RuntimeType::Number(a), &other),
            },
            RuntimeType::String(a) => match right {
                RuntimeType::String(b) => match operator.token_type {
                    TokenType::Plus => {
                        let mut joined = a;
                        joined.append(b.as_str());
                        Applied::Value(RuntimeType::String(joined))
                    },
                    TokenType::EqualEqual => Applied::Value(RuntimeType::Boolean(a == b)),
                    TokenType::BangEqual => Applied::Value(RuntimeType::Boolean(a != b)),
                    _ => ExprEvaluator::mismatch("Operands must be numbers.", operator),
                },
                other => ExprEvaluator::unlike(operator, &RuntimeType::String(a), &other),
            },
            RuntimeType::Boolean(a) => match right {
                RuntimeType::Boolean(b) => match operator.token_type {
                    TokenType::EqualEqual => Applied::Value(RuntimeType::Boolean(a == b)),
                    TokenType::BangEqual => Applied::Value(RuntimeType::Boolean(a != b)),
                    _ => ExprEvaluator::mismatch("Invalid comparison for booleans.", operator),
                },
                other => ExprEvaluator::unlike(operator, &RuntimeType::Boolean(a), &other),
            },
            other => ExprEvaluator::unlike(operator, &other, &right),
        }
    }

    /// The first step of the evaluation of `expression` in `scope`: the new
    /// control and what the step asks of the host. Frames that wait for a
    /// value go onto `stack`.
    pub fn evaluate<'a>(
        expression: &'a Expression,
        scope: usize,
        environment: &Environment<'a>,
        stack: &mut Vec<Frame<'a>>,
    ) -> (r: (Control<'a>, Action<'a>))
        ensures
            evaluated(environment@, frame_views(old(stack)@), expression@, scope as nat)
                == outcome_of(environment@, frame_views(final(stack)@), r.0@, r.1@),
    {
        match expression {
            Expression::Nil() => (Control::Value(RuntimeType::Nil()), Action::Continue),
            Expression::Literal(token) => match ExprEvaluator::literal(token) {
                Some(v) => (Control::Value(v), Action::Continue),
                None => (Control::Waiting, Action::Number(token.literal.clone())),
            },
            Expression::Identifier(token) => match environment.get(scope, &token.lexeme) {
                Some(v) => (Control::Value(v), Action::Continue),
                None => (
                    Control::Raise(RuntimeError::UndefinedIdentifier(token.lexeme.clone())),
                    Action::Continue,
                ),
            },
            Expression::Assign(token, value) => {
                push_frame(stack, Frame::Assign(token, scope));
                (Control::Evaluate(&**value, scope), Action::Continue)
            },
            Expression::Grouping(inner) => (Control::Evaluate(&**inner, scope), Action::Continue),
            Expression::Unary(token, operand) => {
                push_frame(stack, Frame::Unary(token));
                (Control::Evaluate(&**operand, scope), Action::Continue)
            },
            Expression::Binary(left, token, right) => {
                push_frame(stack, Frame::Left(token, &**right, scope));
                (Control::Evaluate(&**left, scope), Action::Continue)
            },
            Expression::Logical(left, token, right) => {
                push_frame(stack, Frame::Logical(token, &**right, scope));
                (Control::Evaluate(&**left, scope), Action::Continue)
            },
            Expression::Call(callee, arguments) => {
                push_frame(stack, Frame::Callee(&**callee, arguments, scope));
                (Control::Evaluate(&**callee, scope), Action::Continue)
            },
        }
    }
}

} // verus!
