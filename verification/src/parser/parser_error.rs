//! Why a token sequence is no expression or program.

use vstd::prelude::*;
use vstd::string::*;
use crate::token::TokenType;

verus! {

/// A syntax error. The first one ends the parse.
#[derive(Debug)]
pub enum ParserError {
    /// A token of this kind had to follow and did not.
    MissingToken(TokenType),
    /// A `(` without its `)`.
    UnmatchedParentheses(),
    /// No expression starts where one has to; the text says what was
    /// expected.
    ExpectExpression(String),
    /// `=` behind what is no variable; the text is the printed form of what
    /// stands before the `=`.
    InvalidAssignment(String),
}

/// The mathematical value of a [`ParserError`].
pub enum ParserErrorView {
    MissingToken(TokenType),
    UnmatchedParentheses,
    ExpectExpression(Seq<char>),
    InvalidAssignment(Seq<char>),
}

impl View for ParserError {
    type V = ParserErrorView;

    open spec fn view(&self) -> ParserErrorView {
        match self {
            ParserError::MissingToken(t) => ParserErrorView::MissingToken(*t),
            ParserError::UnmatchedParentheses() => ParserErrorView::UnmatchedParentheses,
            ParserError::ExpectExpression(m) => ParserErrorView::ExpectExpression(m@),
            ParserError::InvalidAssignment(m) => ParserErrorView::InvalidAssignment(m@),
        }
    }
}

/// The message of a syntax error.
pub open spec fn parser_error_text(e: ParserErrorView) -> Seq<char> {
    match e {
        ParserErrorView::MissingToken(t) => "Missing Token: "@ + t.label_text() + "."@,
        ParserErrorView::UnmatchedParentheses => "Error: Unmatched parentheses"@,
        ParserErrorView::ExpectExpression(m) => "Expect expression. "@ + m,
        ParserErrorView::InvalidAssignment(m) => m,
    }
}

impl ParserError {
    /// The message of the error.
    pub fn to_string(&self) -> (r: String)
        ensures
            r@ == parser_error_text(self@),
    {
        match self {
            ParserError::MissingToken(t) => {
                let mut s = String::from_str("Missing Token: ");
                s.append(t.to_string().as_str());
                s.append(".");
                s
            },
            ParserError::UnmatchedParentheses() => String::from_str(
                "Error: Unmatched parentheses",
            ),
            ParserError::ExpectExpression(m) => {
                let mut s = String::from_str("Expect expression. ");
                s.append(m.as_str());
                s
            },
            ParserError::InvalidAssignment(m) => m.clone(),
        }
    }
}

} // verus!
