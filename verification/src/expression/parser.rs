//! The expression parser: precedence climbing from assignment down to the
//! primary expressions.
//!
//! The grammar is stated as functions from the tokens and a position to what
//! is parsed there and the position reached. A parse never moves back, and
//! one that succeeds has moved on: the executable parsers say so in their
//! contracts. The conditions of the form `i <= j` in the functions of the
//! grammar hold therefore wherever they stand; they are there for the
//! definitions to be well founded.

use vstd::prelude::*;
use vstd::string::*;
use crate::expression::{expression_text, expression_views, Expression, ExpressionView};
use crate::parser::parser_error::{ParserError, ParserErrorView};
use crate::parser::parser_utils::{accepts, at, ParserUtils};
use crate::token::{token_views, Token, TokenType, TokenView};

verus! {

/// The parser of expressions.
pub struct ExprParser;

/// What parsing from a position gives: the expression or the first error,
/// and the position reached.
pub type Parsed = (Result<ExpressionView, ParserErrorView>, int);

/// What parsing a list of arguments gives.
pub type ParsedList = (Result<Seq<ExpressionView>, ParserErrorView>, int);

/// The levels of the left-associative binary operators, from the one that
/// binds tightest.
#[derive(Clone, Copy, Debug, PartialEq, Eq, Structural)]
pub enum Level {
    Factor,
    Term,
    Comparison,
    Equality,
    And,
    Or,
}

impl Level {
    /// The place of the level, from 1 for the one that binds tightest.
    pub open spec fn rank(self) -> nat {
        match self {
            Level::Factor => 1,
            Level::Term => 2,
            Level::Comparison => 3,
            Level::Equality => 4,
            Level::And => 5,
            Level::Or => 6,
        }
    }

    /// The operators of the level.
    pub open spec fn operators(self) -> Seq<TokenType> {
        match self {
            Level::Factor => seq![TokenType::Slash, TokenType::Star],
            Level::Term => seq![TokenType::Minus, TokenType::Plus],
            Level::Comparison => seq![
                TokenType::Greater,
                TokenType::GreaterEqual,
                TokenType::Less,
                TokenType::LessEqual,
                TokenType::EqualEqual,
            ],
            Level::Equality => seq![TokenType::BangEqual, TokenType::EqualEqual],
            Level::And => seq![TokenType::And],
            Level::Or => seq![TokenType::Or],
        }
    }

    /// The level whose expressions are the operands of this one; the operands
    /// of a factor are unary expressions.
    pub open spec fn below(self) -> Level {
        match self {
            Level::Factor => Level::Factor,
            Level::Term => Level::Factor,
            Level::Comparison => Level::Term,
            Level::Equality => Level::Comparison,
            Level::And => Level::Equality,
            Level::Or => Level::And,
        }
    }

    /// The expression that an operator of the level makes of two operands.
    pub open spec fn join(self, left: ExpressionView, operator: TokenView, right: ExpressionView)
        -> ExpressionView {
        if self == Level::And || self == Level::Or {
            ExpressionView::Logical(Box::new(left), operator, Box::new(right))
        } else {
            ExpressionView::Binary(Box::new(left), operator, Box::new(right))
        }
    }
}

/// The number of tokens from position `i` on.
pub open spec fn remaining(tokens: Seq<TokenView>, i: int) -> nat {
    if 0 <= i <= tokens.len() {
        (tokens.len() - i) as nat
    } else {
        0
    }
}

/// expression → assignment
pub open spec fn parse_expression(tokens: Seq<TokenView>, i: int) -> Parsed
    decreases remaining(tokens, i), 9nat, 0nat,
{
    parse_assignment(tokens, i)
}

/// assignment → or ( "=" assignment )?
///
/// What stands before the `=` must be a variable; where it is not, or where
/// no value follows, the error carries its printed form.
pub open spec fn parse_assignment(tokens: Seq<TokenView>, i: int) -> Parsed
    decreases remaining(tokens, i), 8nat, 0nat,
{
    let (left, j) = parse_binary(tokens, i, Level::Or);
    match left {
        Err(e) => (Err(e), j),
        Ok(target) => if accepts(tokens, j, seq![TokenType::Equal]) && 0 <= i <= j {
            let (value, k) = parse_assignment(tokens, j + 1);
            match (value, target) {
                (Ok(v), ExpressionView::Identifier(name)) => (
                    Ok(ExpressionView::Assign(name, Box::new(v))),
                    k,
                ),
                _ => (Err(ParserErrorView::InvalidAssignment(expression_text(target))), k),
            }
        } else {
            (Ok(target), j)
        },
    }
}

/// The operand of an operator of `level`.
pub open spec fn parse_operand(tokens: Seq<TokenView>, i: int, level: Level) -> Parsed
    decreases remaining(tokens, i), level.rank(), 0nat,
{
    if level == Level::Factor {
        parse_unary(tokens, i)
    } else {
        parse_binary(tokens, i, level.below())
    }
}

/// level → operand ( operator operand )*
pub open spec fn parse_binary(tokens: Seq<TokenView>, i: int, level: Level) -> Parsed
    decreases remaining(tokens, i), level.rank(), 2nat,
{
    let (left, j) = parse_operand(tokens, i, level);
    match left {
        Err(e) => (Err(e), j),
        Ok(first) => if 0 <= i <= j {
            parse_binary_rest(tokens, j, level, first)
        } else {
            (Ok(first), j)
        },
    }
}

/// ( operator operand )* behind `left`, which takes the operands in from the
/// left.
pub open spec fn parse_binary_rest(
    tokens: Seq<TokenView>,
    i: int,
    level: Level,
    left: ExpressionView,
) -> Parsed
    decreases remaining(tokens, i), level.rank(), 1nat,
{
    if accepts(tokens, i, level.operators()) {
        let (right, j) = parse_operand(tokens, i + 1, level);
        match right {
            Err(e) => (Err(e), j),
            Ok(r) => if i < j {
                parse_binary_rest(tokens, j, level, level.join(left, tokens[i], r))
            } else {
                (Ok(left), j)
            },
        }
    } else {
        (Ok(left), i)
    }
}

/// unary → ( "!" | "-" ) unary | call
pub open spec fn parse_unary(tokens: Seq<TokenView>, i: int) -> Parsed
    decreases remaining(tokens, i), 0nat, 3nat,
{
    if accepts(tokens, i, seq![TokenType::Bang, TokenType::Minus]) {
        let (right, j) = parse_unary(tokens, i + 1);
        match right {
            Err(e) => (Err(e), j),
            Ok(r) => (Ok(ExpressionView::Unary(tokens[i], Box::new(r))), j),
        }
    } else {
        parse_call(tokens, i)
    }
}

/// call → primary ( "(" arguments? ")" )*
pub open spec fn parse_call(tokens: Seq<TokenView>, i: int) -> Parsed
    decreases remaining(tokens, i), 0nat, 2nat,
{
    let (callee, j) = parse_primary(tokens, i);
    match callee {
        Err(e) => (Err(e), j),
        Ok(c) => if 0 <= i <= j {
            parse_call_rest(tokens, j, c)
        } else {
            (Ok(c), j)
        },
    }
}

/// ( "(" arguments? ")" )* behind `callee`.
pub open spec fn parse_call_rest(tokens: Seq<TokenView>, i: int, callee: ExpressionView) -> Parsed
    decreases remaining(tokens, i), 0nat, 1nat,
{
    if accepts(tokens, i, seq![TokenType::LeftParen]) {
        let (arguments, j) = parse_arguments(tokens, i + 1);
        match arguments {
            Err(e) => (Err(e), j),
            Ok(list) => if accepts(tokens, j, seq![TokenType::RightParen]) && i < j {
                parse_call_rest(tokens, j + 1, ExpressionView::Call(Box::new(callee), list))
            } else {
                (Err(ParserErrorView::MissingToken(TokenType::RightParen)), j)
            },
        }
    } else {
        (Ok(callee), i)
    }
}

/// arguments → expression ( "," expression )*, or nothing before a `)`.
pub open spec fn parse_arguments(tokens: Seq<TokenView>, i: int) -> ParsedList
    decreases remaining(tokens, i), 10nat, 1nat,
{
    if at(tokens, i, TokenType::RightParen) {
        (Ok(seq![]), i)
    } else {
        let (first, j) = parse_expression(tokens, i);
        match first {
            Err(e) => (Err(e), j),
            Ok(a) => if 0 <= i <= j {
                parse_arguments_rest(tokens, j, seq![a])
            } else {
                (Ok(seq![a]), j)
            },
        }
    }
}

/// ( "," expression )* behind the arguments `list`.
pub open spec fn parse_arguments_rest(tokens: Seq<TokenView>, i: int, list: Seq<ExpressionView>)
    -> ParsedList
    decreases remaining(tokens, i), 10nat, 0nat,
{
    if accepts(tokens, i, seq![TokenType::Comma]) {
        let (next, j) = parse_expression(tokens, i + 1);
        match next {
            Err(e) => (Err(e), j),
            Ok(a) => if i < j {
                parse_arguments_rest(tokens, j, list.push(a))
            } else {
                (Ok(list.push(a)), j)
            },
        }
    } else {
        (Ok(list), i)
    }
}

/// primary → "false" | "true" | "nil" | NUMBER | STRING | IDENTIFIER
///         | "(" expression ")"
pub open spec fn parse_primary(tokens: Seq<TokenView>, i: int) -> Parsed
    decreases remaining(tokens, i), 0nat, 0nat,
{
    if accepts(
        tokens,
        i,
        seq![
            TokenType::False,
            TokenType::True,
            TokenType::Nil,
            TokenType::Number,
            TokenType::String,
        ],
    ) {
        (Ok(ExpressionView::Literal(tokens[i])), i + 1)
    } else if accepts(tokens, i, seq![TokenType::Identifier]) {
        (Ok(ExpressionView::Identifier(tokens[i])), i + 1)
    } else if accepts(tokens, i, seq![TokenType::LeftParen]) {
        let (inner, j) = parse_expression(tokens, i + 1);
        match inner {
            Err(e) => (Err(e), j),
            Ok(e) => if accepts(tokens, j, seq![TokenType::RightParen]) {
                (Ok(ExpressionView::Grouping(Box::new(e))), j + 1)
            } else {
                (Err(ParserErrorView::UnmatchedParentheses), j)
            },
        }
    } else {
        (Err(ParserErrorView::ExpectExpression("Expected LeftParen, got nothing."@)), i)
    }
}

/// Whether what was parsed is no assignment.
pub open spec fn no_assignment(parsed: Parsed) -> bool {
    !(parsed.0 matches Ok(ExpressionView::Assign(_, _)))
}

/// Calls behind a callee that is no assignment are no assignment.
pub proof fn lemma_call_rest_is_no_assignment(
    tokens: Seq<TokenView>,
    i: int,
    callee: ExpressionView,
)
    requires
        !(callee is Assign),
    ensures
        no_assignment(parse_call_rest(tokens, i, callee)),
    decreases remaining(tokens, i),
{
    if accepts(tokens, i, seq![TokenType::LeftParen]) {
        let (arguments, j) = parse_arguments(tokens, i + 1);
        match arguments {
            Ok(list) => {
                if accepts(tokens, j, seq![TokenType::RightParen]) && i < j {
                    lemma_call_rest_is_no_assignment(
                        tokens,
                        j + 1,
                        ExpressionView::Call(Box::new(callee), list),
                    );
                }
            },
            Err(_) => {},
        }
    }
}

/// A primary expression is no assignment.
pub proof fn lemma_primary_is_no_assignment(tokens: Seq<TokenView>, i: int)
    ensures
        no_assignment(parse_primary(tokens, i)),
{
}

/// A call is no assignment.
pub proof fn lemma_call_is_no_assignment(tokens: Seq<TokenView>, i: int)
    ensures
        no_assignment(parse_call(tokens, i)),
{
    lemma_primary_is_no_assignment(tokens, i);
    let (callee, j) = parse_primary(tokens, i);
    match callee {
        Ok(c) => {
            if 0 <= i <= j {
                lemma_call_rest_is_no_assignment(tokens, j, c);
            }
        },
        Err(_) => {},
    }
}

/// A unary expression is no assignment.
pub proof fn lemma_unary_is_no_assignment(tokens: Seq<TokenView>, i: int)
    ensures
        no_assignment(parse_unary(tokens, i)),
{
    lemma_call_is_no_assignment(tokens, i);
}

/// Operators behind an operand that is no assignment make no assignment.
pub proof fn lemma_binary_rest_is_no_assignment(
    tokens: Seq<TokenView>,
    i: int,
    level: Level,
    left: ExpressionView,
)
    requires
        !(left is Assign),
    ensures
        no_assignment(parse_binary_rest(tokens, i, level, left)),
    decreases remaining(tokens, i),
{
    if accepts(tokens, i, level.operators()) {
        let (right, j) = parse_operand(tokens, i + 1, level);
        match right {
            Ok(r) => {
                if i < j {
                    lemma_binary_rest_is_no_assignment(
                        tokens,
                        j,
                        level,
                        level.join(left, tokens[i], r),
                    );
                }
            },
            Err(_) => {},
        }
    }
}

/// An expression of a binary level is no assignment.
pub proof fn lemma_binary_is_no_assignment(tokens: Seq<TokenView>, i: int, level: Level)
    ensures
        no_assignment(parse_binary(tokens, i, level)),
    decreases level.rank(),
{
    if level == Level::Factor {
        lemma_unary_is_no_assignment(tokens, i);
    } else {
        lemma_binary_is_no_assignment(tokens, i, level.below());
    }
    let (left, j) = parse_operand(tokens, i, level);
    match left {
        Ok(first) => {
            if 0 <= i <= j {
                lemma_binary_rest_is_no_assignment(tokens, j, level, first);
            }
        },
        Err(_) => {},
    }
}

/// An assignment is parsed only where a variable stands before the `=`.
pub proof fn law_assignment_has_a_variable(tokens: Seq<TokenView>, i: int)
    ensures
        parse_assignment(tokens, i).0 matches Ok(ExpressionView::Assign(name, value))
            ==> parse_binary(tokens, i, Level::Or).0 == Ok::<ExpressionView, ParserErrorView>(
            ExpressionView::Identifier(name),
        ) && accepts(tokens, parse_binary(tokens, i, Level::Or).1, seq![TokenType::Equal]),
{
    lemma_binary_is_no_assignment(tokens, i, Level::Or);
}

/// The outcome of an executable parser as the model states it.
pub open spec fn outcome(r: Result<Expression, ParserError>, index: usize) -> Parsed {
    (
        match r {
            Ok(e) => Ok(e@),
            Err(e) => Err(e@),
        },
        index as int,
    )
}

/// A parser that succeeds has moved on, and none moves back or past the end.
pub open spec fn moved(before: usize, r: Result<Expression, ParserError>, after: usize, len: nat)
    -> bool {
    &&& before <= after
    &&& after <= len || after == before
    &&& r is Ok ==> before < after
}

impl Level {
    /// The operator of the level at `index`, where one stands there.
    fn accept(self, tokens: &Vec<Token>, index: &mut usize) -> (r: Option<Token>)
        ensures
            accepts(token_views(tokens@), *old(index) as int, self.operators()) ==> r == Some(
                tokens@[*old(index) as int],
            ) && *final(index) == *old(index) + 1,
            !accepts(token_views(tokens@), *old(index) as int, self.operators()) ==> r is None
                && *final(index) == *old(index),
    {
        match self {
            Level::Factor => {
                let kinds = [TokenType::Slash, TokenType::Star];
                ParserUtils::match_advance(tokens, index, &kinds)
            },
            Level::Term => {
                let kinds = [TokenType::Minus, TokenType::Plus];
                ParserUtils::match_advance(tokens, index, &kinds)
            },
            Level::Comparison => {
                let kinds = [
                    TokenType::Greater,
                    TokenType::GreaterEqual,
                    TokenType::Less,
                    TokenType::LessEqual,
                    TokenType::EqualEqual,
                ];
                ParserUtils::match_advance(tokens, index, &kinds)
            },
            Level::Equality => {
                let kinds = [TokenType::BangEqual, TokenType::EqualEqual];
                ParserUtils::match_advance(tokens, index, &kinds)
            },
            Level::And => {
                let kinds = [TokenType::And];
                ParserUtils::match_advance(tokens, index, &kinds)
            },
            Level::Or => {
                let kinds = [TokenType::Or];
                assert(kinds@ =~= self.operators());
                ParserUtils::match_advance(tokens, index, &kinds)
            },
        }
    }
}

impl ExprParser {
    /// The expression that the tokens start with.
    pub fn parse(tokens: &Vec<Token>) -> (r: Result<Expression, ParserError>)
        ensures
            outcome(r, 0).0 == parse_expression(token_views(tokens@), 0).0,
    {
        let mut index: usize = 0;
        ExprParser::expression(tokens, &mut index)
    }

    /// The expression that starts at `index`, which moves behind it.
    pub fn expression(tokens: &Vec<Token>, index: &mut usize) -> (r: Result<
        Expression,
        ParserError,
    >)
        ensures
            outcome(r, *final(index)) == parse_expression(
                token_views(tokens@),
                *old(index) as int,
            ),
            moved(*old(index), r, *final(index), tokens@.len()),
        decreases remaining(token_views(tokens@), *old(index) as int), 9nat, 0nat,
    {
        ExprParser::assignment(tokens, index)
    }

    /// The assignment, or the expression of a lower level, that starts at
    /// `index`.
    pub fn assignment(tokens: &Vec<Token>, index: &mut usize) -> (r: Result<
        Expression,
        ParserError,
    >)
        ensures
            outcome(r, *final(index)) == parse_assignment(
                token_views(tokens@),
                *old(index) as int,
            ),
            moved(*old(index), r, *final(index), tokens@.len()),
        decreases remaining(token_views(tokens@), *old(index) as int), 8nat, 0nat,
    {
        let target = match ExprParser::or(tokens, index) {
            Ok(e) => e,
            Err(e) => {
                return Err(e);
            },
        };
        match ExprParser::advance(tokens, index, TokenType::Equal) {
            Some(_equal) => {
                match ExprParser::assignment(tokens, index) {
                    Ok(value) => match target {
                        Expression::Identifier(name) => Ok(
                            Expression::Assign(name, Box::new(value)),
                        ),
                        other => Err(ParserError::InvalidAssignment(other.to_string())),
                    },
                    Err(_e) => Err(ParserError::InvalidAssignment(target.to_string())),
                }
            },
            None => Ok(target),
        }
    }

    /// The token at `index`, where it is of `kind` and ends no expression.
    fn advance(tokens: &Vec<Token>, index: &mut usize, kind: TokenType) -> (r: Option<Token>)
        ensures
            accepts(token_views(tokens@), *old(index) as int, seq![kind]) ==> r == Some(
                tokens@[*old(index) as int],
            ) && *final(index) == *old(index) + 1,
            !accepts(token_views(tokens@), *old(index) as int, seq![kind]) ==> r is None
                && *final(index) == *old(index),
    {
        let kinds = [kind];
        assert(kinds@ =~= seq![kind]);
        ParserUtils::match_advance(tokens, index, &kinds)
    }

    /// or → and ( "or" and )*
    fn or(tokens: &Vec<Token>, index: &mut usize) -> (r: Result<Expression, ParserError>)
        ensures
            outcome(r, *final(index)) == parse_binary(
                token_views(tokens@),
                *old(index) as int,
                Level::Or,
            ),
            moved(*old(index), r, *final(index), tokens@.len()),
        decreases remaining(token_views(tokens@), *old(index) as int), 7nat, 0nat,
    {
        ExprParser::binary(tokens, index, Level::Or)
    }

    /// and → equality ( "and" equality )*
    fn and(tokens: &Vec<Token>, index: &mut usize) -> (r: Result<Expression, ParserError>)
        ensures
            outcome(r, *final(index)) == parse_binary(
                token_views(tokens@),
                *old(index) as int,
                Level::And,
            ),
            moved(*old(index), r, *final(index), tokens@.len()),
        decreases remaining(token_views(tokens@), *old(index) as int), 7nat, 0nat,
    {
        ExprParser::binary(tokens, index, Level::And)
    }

    /// equality → comparison ( ( "!=" | "==" ) comparison )*
    fn equality(tokens: &Vec<Token>, index: &mut usize) -> (r: Result<Expression, ParserError>)
        ensures
            outcome(r, *final(index)) == parse_binary(
                token_views(tokens@),
                *old(index) as int,
                Level::Equality,
            ),
            moved(*old(index), r, *final(index), tokens@.len()),
        decreases remaining(token_views(tokens@), *old(index) as int), 7nat, 0nat,
    {
        ExprParser::binary(tokens, index, Level::Equality)
    }

    /// comparison → term ( ( ">" | ">=" | "<" | "<=" | "==" ) term )*
    fn comparison(tokens: &Vec<Token>, index: &mut usize) -> (r: Result<Expression, ParserError>)
        ensures
            outcome(r, *final(index)) == parse_binary(
                token_views(tokens@),
                *old(index) as int,
                Level::Comparison,
            ),
            moved(*old(index), r, *final(index), tokens@.len()),
        decreases remaining(token_views(tokens@), *old(index) as int), 7nat, 0nat,
    {
        ExprParser::binary(tokens, index, Level::Comparison)
    }

    /// term → factor ( ( "-" | "+" ) factor )*
    fn term(tokens: &Vec<Token>, index: &mut usize) -> (r: Result<Expression, ParserError>)
        ensures
            outcome(r, *final(index)) == parse_binary(
                token_views(tokens@),
                *old(index) as int,
                Level::Term,
            ),
            moved(*old(index), r, *final(index), tokens@.len()),
        decreases remaining(token_views(tokens@), *old(index) as int), 7nat, 0nat,
    {
        ExprParser::binary(tokens, index, Level::Term)
    }

    /// factor → unary ( ( "/" | "*" ) unary )*
    fn factor(tokens: &Vec<Token>, index: &mut usize) -> (r: Result<Expression, ParserError>)
        ensures
            outcome(r, *final(index)) == parse_binary(
                token_views(tokens@),
                *old(index) as int,
                Level::Factor,
            ),
            moved(*old(index), r, *final(index), tokens@.len()),
        decreases remaining(token_views(tokens@), *old(index) as int), 7nat, 0nat,
    {
        ExprParser::binary(tokens, index, Level::Factor)
    }

    /// The operand of an operator of `level` that starts at `index`.
    fn operand(tokens: &Vec<Token>, index: &mut usize, level: Level) -> (r: Result<
        Expression,
        ParserError,
    >)
        ensures
            outcome(r, *final(index)) == parse_operand(
                token_views(tokens@),
                *old(index) as int,
                level,
            ),
            moved(*old(index), r, *final(index), tokens@.len()),
        decreases remaining(token_views(tokens@), *old(index) as int), level.rank(), 0nat,
    {
        match level {
            Level::Factor => ExprParser::unary(tokens, index),
            Level::Term => ExprParser::binary(tokens, index, Level::Factor),
            Level::Comparison => ExprParser::binary(tokens, index, Level::Term),
            Level::Equality => ExprParser::binary(tokens, index, Level::Comparison),
            Level::And => ExprParser::binary(tokens, index, Level::Equality),
            Level::Or => ExprParser::binary(tokens, index, Level::And),
        }
    }

    /// The expression of `level` that starts at `index`.
    #[verifier::loop_isolation(false)]
    fn binary(tokens: &Vec<Token>, index: &mut usize, level: Level) -> (r: Result<
        Expression,
        ParserError,
    >)
        ensures
            outcome(r, *final(index)) == parse_binary(
                token_views(tokens@),
                *old(index) as int,
                level,
            ),
            moved(*old(index), r, *final(index), tokens@.len()),
        decreases remaining(token_views(tokens@), *old(index) as int), level.rank(), 2nat,
    {
        let ghost views = token_views(tokens@);
        let ghost start = *index;
        let mut expression = match ExprParser::operand(tokens, index, level) {
            Ok(e) => e,
            Err(e) => {
                return Err(e);
            },
        };
        let ghost whole = parse_binary(views, start as int, level);
        loop
            invariant
                start < *index <= tokens@.len(),
                parse_binary_rest(views, *index as int, level, expression@) == whole,
            decreases remaining(views, *index as int),
        {
            match level.accept(tokens, index) {
                Some(operator) => {
                    let right = match ExprParser::operand(tokens, index, level) {
                        Ok(e) => e,
                        Err(e) => {
                            return Err(e);
                        },
                    };
                    expression = match level {
                        Level::And | Level::Or => Expression::Logical(
                            Box::new(expression),
                            operator,
                            Box::new(right),
                        ),
                        _ => Expression::Binary(Box::new(expression), operator, Box::new(right)),
                    };
                },
                None => {
                    return Ok(expression);
                },
            }
        }
    }

    /// unary → ( "!" | "-" ) unary | call
    fn unary(tokens: &Vec<Token>, index: &mut usize) -> (r: Result<Expression, ParserError>)
        ensures
            outcome(r, *final(index)) == parse_unary(token_views(tokens@), *old(index) as int),
            moved(*old(index), r, *final(index), tokens@.len()),
        decreases remaining(token_views(tokens@), *old(index) as int), 0nat, 3nat,
    {
        let kinds = [TokenType::Bang, TokenType::Minus];
        match ParserUtils::match_advance(tokens, index, &kinds) {
            Some(operator) => {
                match ExprParser::unary(tokens, index) {
                    Ok(right) => Ok(Expression::Unary(operator, Box::new(right))),
                    Err(e) => Err(e),
                }
            },
            None => ExprParser::call(tokens, index),
        }
    }

    /// call → primary ( "(" arguments? ")" )*
    #[verifier::loop_isolation(false)]
    fn call(tokens: &Vec<Token>, index: &mut usize) -> (r: Result<Expression, ParserError>)
        ensures
            outcome(r, *final(index)) == parse_call(token_views(tokens@), *old(index) as int),
            moved(*old(index), r, *final(index), tokens@.len()),
        decreases remaining(token_views(tokens@), *old(index) as int), 0nat, 2nat,
    {
        let ghost views = token_views(tokens@);
        let ghost start = *index;
        let mut callee = match ExprParser::primary(tokens, index) {
            Ok(e) => e,
            Err(e) => {
                return Err(e);
            },
        };
        let ghost whole = parse_call(views, start as int);
        loop
            invariant
                start < *index <= tokens@.len(),
                parse_call_rest(views, *index as int, callee@) == whole,
            decreases remaining(views, *index as int),
        {
            match ExprParser::advance(tokens, index, TokenType::LeftParen) {
                Some(_left) => {
                    let arguments = match ExprParser::arguments(tokens, index) {
                        Ok(list) => list,
                        Err(e) => {
                            return Err(e);
                        },
                    };
                    match ExprParser::advance(tokens, index, TokenType::RightParen) {
                        Some(_right) => {
                            callee = Expression::Call(Box::new(callee), arguments);
                        },
                        None => {
                            return Err(ParserError::MissingToken(TokenType::RightParen));
                        },
                    }
                },
                None => {
                    return Ok(callee);
                },
            }
        }
    }

    /// arguments → expression ( "," expression )*, or nothing before a `)`.
    #[verifier::loop_isolation(false)]
    fn arguments(tokens: &Vec<Token>, index: &mut usize) -> (r: Result<
        Vec<Expression>,
        ParserError,
    >)
        ensures
            match r {
                Ok(list) => parse_arguments(token_views(tokens@), *old(index) as int) == (
                    Ok::<Seq<ExpressionView>, ParserErrorView>(
                        expression_views(list@),
                    ),
                    *final(index) as int,
                ),
                Err(e) => parse_arguments(token_views(tokens@), *old(index) as int) == (
                    Err::<Seq<ExpressionView>, ParserErrorView>(e@),
                    *final(index) as int,
                ),
            },
            *old(index) <= *final(index),
            *final(index) <= tokens@.len() || *final(index) == *old(index),
        decreases remaining(token_views(tokens@), *old(index) as int), 10nat, 1nat,
    {
        let ghost views = token_views(tokens@);
        let ghost start = *index;
        let mut arguments: Vec<Expression> = Vec::new();
        if *index < tokens.len() && tokens[*index].token_type == TokenType::RightParen {
            assert(expression_views(arguments@) =~= seq![]);
            return Ok(arguments);
        }
        match ExprParser::expression(tokens, index) {
            Ok(first) => {
                arguments.push(first);
            },
            Err(e) => {
                return Err(e);
            },
        }
        let ghost whole = parse_arguments(views, start as int);
        assert(expression_views(arguments@) =~= seq![arguments@[0]@]);
        loop
            invariant
                start < *index <= tokens@.len(),
                parse_arguments_rest(
                    views,
                    *index as int,
                    expression_views(arguments@),
                ) == whole,
            decreases remaining(views, *index as int),
        {
            match ExprParser::advance(tokens, index, TokenType::Comma) {
                Some(_comma) => {
                    match ExprParser::expression(tokens, index) {
                        Ok(next) => {
                            let ghost before = expression_views(arguments@);
                            arguments.push(next);
                            assert(expression_views(arguments@) =~= before.push(
                                next@,
                            ));
                        },
                        Err(e) => {
                            return Err(e);
                        },
                    }
                },
                None => {
                    return Ok(arguments);
                },
            }
        }
    }

    /// primary → literal | IDENTIFIER | "(" expression ")"
    fn primary(tokens: &Vec<Token>, index: &mut usize) -> (r: Result<Expression, ParserError>)
        ensures
            outcome(r, *final(index)) == parse_primary(token_views(tokens@), *old(index) as int),
            moved(*old(index), r, *final(index), tokens@.len()),
        decreases remaining(token_views(tokens@), *old(index) as int), 0nat, 0nat,
    {
        let literals = [
            TokenType::False,
            TokenType::True,
            TokenType::Nil,
            TokenType::Number,
            TokenType::String,
        ];
        match ParserUtils::match_advance(tokens, index, &literals) {
            Some(token) => {
                return Ok(Expression::Literal(token));
            },
            None => {},
        }
        match ExprParser::advance(tokens, index, TokenType::Identifier) {
            Some(token) => {
                return Ok(Expression::Identifier(token));
            },
            None => {},
        }
        match ExprParser::advance(tokens, index, TokenType::LeftParen) {
            Some(_left) => {
                let inner = match ExprParser::expression(tokens, index) {
                    Ok(e) => e,
                    Err(e) => {
                        return Err(e);
                    },
                };
                match ExprParser::advance(tokens, index, TokenType::RightParen) {
                    Some(_right) => Ok(Expression::Grouping(Box::new(inner))),
                    None => Err(ParserError::UnmatchedParentheses()),
                }
            },
            None => Err(
                ParserError::ExpectExpression(String::from_str("Expected LeftParen, got nothing.")),
            ),
        }
    }
}

} // verus!
