//! The parser's entry points.

pub mod parser_error;
pub mod parser_utils;

use vstd::prelude::*;
use vstd::utf8::encode_utf8;
use crate::expression::parser::{outcome, parse_expression, ExprParser};
use crate::expression::Expression;
use crate::parser::parser_error::ParserError;
use crate::lexer::lex;
use crate::statement::parser::{parse_program, program_outcome, StmtParser};
use crate::statement::Statement;
use crate::token::{token_views, Token};

verus! {

/// The parser: tokens to an expression or to a program.
pub struct Parser;

/// Lexing and parsing are functions of the source: whatever two runs on one
/// source give as the expression, it is the same.
pub proof fn law_expression_of_a_source(
    source: Seq<char>,
    first: (Vec<Token>, Result<Expression, ParserError>),
    second: (Vec<Token>, Result<Expression, ParserError>),
)
    requires
        token_views(first.0@) == lex(encode_utf8(source)).tokens,
        token_views(second.0@) == lex(encode_utf8(source)).tokens,
        outcome(first.1, 0).0 == parse_expression(token_views(first.0@), 0).0,
        outcome(second.1, 0).0 == parse_expression(token_views(second.0@), 0).0,
    ensures
        outcome(first.1, 0).0 == outcome(second.1, 0).0,
{
}

/// Lexing and parsing are functions of the source: whatever two runs on one
/// source give as the program, it is the same.
pub proof fn law_program_of_a_source(
    source: Seq<char>,
    first: (Vec<Token>, Result<Vec<Statement>, ParserError>),
    second: (Vec<Token>, Result<Vec<Statement>, ParserError>),
)
    requires
        token_views(first.0@) == lex(encode_utf8(source)).tokens,
        token_views(second.0@) == lex(encode_utf8(source)).tokens,
        program_outcome(first.1) == parse_program(token_views(first.0@)),
        program_outcome(second.1) == parse_program(token_views(second.0@)),
    ensures
        program_outcome(first.1) == program_outcome(second.1),
{
}

impl Parser {
    /// The expression that the tokens start with, or the first syntax error.
    pub fn parse_expression(tokens: &Vec<Token>) -> (r: Result<Expression, ParserError>)
        ensures
            outcome(r, 0).0 == parse_expression(token_views(tokens@), 0).0,
    {
        ExprParser::parse(tokens)
    }

    /// The statements of the program that the tokens spell, or the first
    /// syntax error.
    pub fn parse_statements(tokens: &Vec<Token>) -> (r: Result<Vec<Statement>, ParserError>)
        ensures
            program_outcome(r) == parse_program(token_views(tokens@)),
    {
        StmtParser::parse(tokens)
    }
}

} // verus!
