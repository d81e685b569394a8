//! Expressions and their printed form.

pub mod evaluator;
pub mod parser;

use vstd::prelude::*;
use vstd::string::*;
use crate::token::{Token, TokenType, TokenView};

verus! {

/// An expression of the language.
#[derive(Debug)]
pub enum Expression {
    /// `nil`, `true`, `false`, a number or a string.
    Literal(Token),
    /// `!` or `-` before an operand.
    Unary(Token, Box<Expression>),
    /// Arithmetic, comparison or equality.
    Binary(Box<Expression>, Token, Box<Expression>),
    /// An expression in parentheses.
    Grouping(Box<Expression>),
    /// The value of a variable.
    Identifier(Token),
    /// A new value for a variable.
    Assign(Token, Box<Expression>),
    /// `and` or `or`.
    Logical(Box<Expression>, Token, Box<Expression>),
    /// A call of the callee with the arguments.
    Call(Box<Expression>, Vec<Expression>),
    /// What stands where the source leaves an expression out.
    Nil(),
}

/// The mathematical value of an [`Expression`].
pub enum ExpressionView {
    Literal(TokenView),
    Unary(TokenView, Box<ExpressionView>),
    Binary(Box<ExpressionView>, TokenView, Box<ExpressionView>),
    Grouping(Box<ExpressionView>),
    Identifier(TokenView),
    Assign(TokenView, Box<ExpressionView>),
    Logical(Box<ExpressionView>, TokenView, Box<ExpressionView>),
    Call(Box<ExpressionView>, Seq<ExpressionView>),
    Nil,
}

/// The mathematical value of an expression.
pub open spec fn expression_view(e: Expression) -> ExpressionView
    decreases e,
{
    match e {
        Expression::Literal(t) => ExpressionView::Literal(t@),
        Expression::Unary(t, r) => ExpressionView::Unary(t@, Box::new(expression_view(*r))),
        Expression::Binary(l, t, r) => ExpressionView::Binary(
            Box::new(expression_view(*l)),
            t@,
            Box::new(expression_view(*r)),
        ),
        Expression::Grouping(inner) => ExpressionView::Grouping(Box::new(expression_view(*inner))),
        Expression::Identifier(t) => ExpressionView::Identifier(t@),
        Expression::Assign(t, v) => ExpressionView::Assign(t@, Box::new(expression_view(*v))),
        Expression::Logical(l, t, r) => ExpressionView::Logical(
            Box::new(expression_view(*l)),
            t@,
            Box::new(expression_view(*r)),
        ),
        Expression::Call(c, arguments) => ExpressionView::Call(
            Box::new(expression_view(*c)),
            expression_views(arguments@),
        ),
        Expression::Nil() => ExpressionView::Nil,
    }
}

impl View for Expression {
    type V = ExpressionView;

    open spec fn view(&self) -> ExpressionView {
        expression_view(*self)
    }
}

/// The views of a sequence of expressions.
pub open spec fn expression_views(expressions: Seq<Expression>) -> Seq<ExpressionView>
    decreases expressions,
{
    Seq::new(
        expressions.len(),
        |i: int|
            if 0 <= i < expressions.len() {
                expression_view(expressions[i])
            } else {
                ExpressionView::Nil
            },
    )
}

impl Clone for Expression {
    #[verifier::loop_isolation(false)]
    fn clone(&self) -> (r: Self)
        ensures
            r@ == self@,
        decreases self,
    {
        match self {
            Expression::Literal(t) => Expression::Literal(t.clone()),
            Expression::Unary(t, operand) => Expression::Unary(
                t.clone(),
                Box::new((**operand).clone()),
            ),
            Expression::Binary(left, t, right) => Expression::Binary(
                Box::new((**left).clone()),
                t.clone(),
                Box::new((**right).clone()),
            ),
            Expression::Grouping(inner) => Expression::Grouping(Box::new((**inner).clone())),
            Expression::Identifier(t) => Expression::Identifier(t.clone()),
            Expression::Assign(t, value) => Expression::Assign(
                t.clone(),
                Box::new((**value).clone()),
            ),
            Expression::Logical(left, t, right) => Expression::Logical(
                Box::new((**left).clone()),
                t.clone(),
                Box::new((**right).clone()),
            ),
            Expression::Call(callee, arguments) => {
                let mut copies: Vec<Expression> = Vec::new();
                let mut i: usize = 0;
                while i < arguments.len()
                    invariant
                        i <= arguments@.len(),
                        copies@.len() == i,
                        forall|k: int| 0 <= k < i ==> copies@[k]@ == arguments@[k]@,
                    decreases arguments@.len() - i,
                {
                    copies.push(arguments[i].clone());
                    i += 1;
                }
                assert(expression_views(copies@) =~= expression_views(arguments@));
                Expression::Call(Box::new((**callee).clone()), copies)
            },
            Expression::Nil() => Expression::Nil(),
        }
    }
}

/// The texts, with `separator` between each two.
pub open spec fn join(texts: Seq<Seq<char>>, separator: Seq<char>) -> Seq<char>
    decreases texts.len(),
{
    if texts.len() == 0 {
        seq![]
    } else if texts.len() == 1 {
        texts[0]
    } else {
        join(texts.drop_last(), separator) + separator + texts.last()
    }
}

/// The printed form of an expression: a literal prints its payload (`nil`,
/// `true` and `false` their lexeme), operators print in prefix form inside
/// parentheses, `and` and `or` between their operands.
pub open spec fn expression_text(e: ExpressionView) -> Seq<char>
    decreases e,
{
    match e {
        ExpressionView::Literal(t) => if t.token_type == TokenType::Nil || t.token_type
            == TokenType::False || t.token_type == TokenType::True {
            t.lexeme
        } else {
            t.literal
        },
        ExpressionView::Unary(t, r) => "("@ + t.lexeme + " "@ + expression_text(*r) + ")"@,
        ExpressionView::Binary(l, t, r) => "("@ + t.lexeme + " "@ + expression_text(*l) + " "@
            + expression_text(*r) + ")"@,
        ExpressionView::Grouping(inner) => "(group "@ + expression_text(*inner) + ")"@,
        ExpressionView::Identifier(t) => t.lexeme,
        ExpressionView::Assign(t, v) => t.lexeme + " = "@ + expression_text(*v),
        ExpressionView::Logical(l, t, r) => expression_text(*l) + " "@ + t.lexeme + " "@
            + expression_text(*r),
        ExpressionView::Call(c, arguments) => expression_text(*c) + "("@ + join(
            expression_texts(arguments),
            ", "@,
        ) + ")"@,
        ExpressionView::Nil => "nil"@,
    }
}

/// The printed forms of a sequence of expressions.
pub open spec fn expression_texts(expressions: Seq<ExpressionView>) -> Seq<Seq<char>>
    decreases expressions,
{
    Seq::new(
        expressions.len(),
        |i: int|
            if 0 <= i < expressions.len() {
                expression_text(expressions[i])
            } else {
                seq![]
            },
    )
}

impl Expression {
    /// The printed form of the expression.
    #[verifier::loop_isolation(false)]
    pub fn to_string(&self) -> (r: String)
        ensures
            r@ == expression_text(self@),
        decreases self,
    {
        match self {
            Expression::Literal(token) => {
                match token.token_type {
                    TokenType::Nil | TokenType::False | TokenType::True => token.lexeme.clone(),
                    _ => token.literal.clone(),
                }
            },
            Expression::Unary(token, right) => {
                let mut s = String::from_str("(");
                s.append(token.lexeme.as_str());
                s.append(" ");
                s.append(right.to_string().as_str());
                s.append(")");
                s
            },
            Expression::Binary(left, token, right) => {
                let mut s = String::from_str("(");
                s.append(token.lexeme.as_str());
                s.append(" ");
                s.append(left.to_string().as_str());
                s.append(" ");
                s.append(right.to_string().as_str());
                s.append(")");
                s
            },
            Expression::Grouping(inner) => {
                let mut s = String::from_str("(group ");
                s.append(inner.to_string().as_str());
                s.append(")");
                s
            },
            Expression::Identifier(token) => token.lexeme.clone(),
            Expression::Assign(token, value) => {
                let mut s = token.lexeme.clone();
                s.append(" = ");
                s.append(value.to_string().as_str());
                s
            },
            Expression::Logical(left, token, right) => {
                let mut s = left.to_string();
                s.append(" ");
                s.append(token.lexeme.as_str());
                s.append(" ");
                s.append(right.to_string().as_str());
                s
            },
            Expression::Call(callee, arguments) => {
                let mut s = callee.to_string();
                s.append("(");
                let ghost head = s@;
                let ghost pieces = expression_texts(expression_views(arguments@));
                let mut i: usize = 0;
                while i < arguments.len()
                    invariant
                        i <= arguments@.len(),
                        s@ == head + join(pieces.subrange(0, i as int), ", "@),
                    decreases arguments@.len() - i,
                {
                    if i > 0 {
                        s.append(", ");
                    }
                    s.append(arguments[i].to_string().as_str());
                    proof {
                        let before = pieces.subrange(0, i as int);
                        let after = pieces.subrange(0, i + 1);
                        assert(after.drop_last() =~= before);
                    }
                    i += 1;
                }
                proof {
                    assert(pieces.subrange(0, i as int) =~= pieces);
                }
                s.append(")");
                s
            },
            Expression::Nil() => String::from_str("nil"),
        }
    }
}

} // verus!
