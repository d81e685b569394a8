//! Looking at the next token.

use vstd::prelude::*;
use crate::token::{token_views, Token, TokenType, TokenView};

verus! {

/// What the parsers share.
pub struct ParserUtils;

/// Whether a token of this kind ends an expression wherever it stands.
pub open spec fn soft_end(kind: TokenType) -> bool {
    kind == TokenType::EOL || kind == TokenType::EOF || kind == TokenType::Semicolon
}

/// Whether the token at `i` is of one of `kinds` and ends no expression.
pub open spec fn accepts(tokens: Seq<TokenView>, i: int, kinds: Seq<TokenType>) -> bool {
    0 <= i < tokens.len() && !soft_end(tokens[i].token_type) && kinds.contains(
        tokens[i].token_type,
    )
}

/// Whether the token at `i` is of `kind`.
pub open spec fn at(tokens: Seq<TokenView>, i: int, kind: TokenType) -> bool {
    0 <= i < tokens.len() && tokens[i].token_type == kind
}

impl ParserUtils {
    /// The token at `index`, where it is of one of `token_types` and ends no
    /// expression; `index` then moves past it.
    pub fn match_advance(tokens: &Vec<Token>, index: &mut usize, token_types: &[TokenType]) -> (r:
        Option<Token>)
        ensures
            accepts(token_views(tokens@), *old(index) as int, token_types@) ==> r == Some(
                tokens@[*old(index) as int],
            ) && *final(index) == *old(index) + 1,
            !accepts(token_views(tokens@), *old(index) as int, token_types@) ==> r is None
                && *final(index) == *old(index),
    {
        if *index >= tokens.len() {
            return None;
        }
        let token = &tokens[*index];
        if ParserUtils::matches(token, &[TokenType::EOL, TokenType::EOF, TokenType::Semicolon]) {
            return None;
        }
        if ParserUtils::matches(token, token_types) {
            *index += 1;
            return Some(token.clone());
        }
        None
    }

    /// Whether the token is of one of `token_types`.
    pub fn matches(token: &Token, token_types: &[TokenType]) -> (r: bool)
        ensures
            r == token_types@.contains(token.token_type),
    {
        let mut i: usize = 0;
        while i < token_types.len()
            invariant
                i <= token_types@.len(),
                forall|k: int| 0 <= k < i ==> token_types@[k] != token.token_type,
            decreases token_types@.len() - i,
        {
            if token_types[i] == token.token_type {
                return true;
            }
            i += 1;
        }
        false
    }
}

} // verus!
