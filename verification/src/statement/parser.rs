//! The statement parser: declarations, control flow, and the rewriting of
//! `for` into `while`.
//!
//! The grammar is stated as that of the expressions is: as functions from
//! the tokens and a position to what is parsed there and the position
//! reached. Tokens that do not end with an `EOF` are parsed too: where a
//! token is missing, the parser does what it does at an `EOF`.

use vstd::prelude::*;
use vstd::string::*;
use crate::expression::parser::{moved, parse_expression, remaining, ExprParser};
use crate::expression::{Expression, ExpressionView};
use crate::parser::parser_error::{ParserError, ParserErrorView};
use crate::parser::parser_utils::{accepts, at, ParserUtils};
use crate::statement::{statement_views, Statement, StatementView};
use crate::token::{fixed_token, token_views, Token, TokenType, TokenView};

verus! {

/// The parser of statements and programs.
pub struct StmtParser;

/// What parsing a statement from a position gives.
pub type ParsedStatement = (Result<StatementView, ParserErrorView>, int);

/// What parsing an expression in a statement gives.
pub type ParsedExpression = (Result<ExpressionView, ParserErrorView>, int);

/// What parsing a parameter list gives.
pub type ParsedParameters = (Result<Seq<TokenView>, ParserErrorView>, int);

/// The expression that starts at `i` and the token of kind `ending` behind
/// it, where one is asked for. With `optional`, an `ending` that stands at
/// `i` itself stands for a left-out expression.
pub open spec fn parse_closed(
    tokens: Seq<TokenView>,
    i: int,
    ending: Option<TokenType>,
    optional: bool,
) -> ParsedExpression {
    if optional && ending is Some && at(tokens, i, ending->0) {
        (Ok(ExpressionView::Nil), i + 1)
    } else {
        let (parsed, j) = parse_expression(tokens, i);
        match (parsed, ending) {
            (Err(e), _) => (Err(e), j),
            (Ok(e), None) => (Ok(e), j),
            (Ok(e), Some(kind)) => if at(tokens, j, kind) {
                (Ok(e), j + 1)
            } else {
                (Err(ParserErrorView::MissingToken(kind)), j)
            },
        }
    }
}

/// params → IDENTIFIER ( "," IDENTIFIER )*, behind the parameters `list`
/// and up to the `)`.
pub open spec fn parse_parameters_rest(tokens: Seq<TokenView>, i: int, list: Seq<TokenView>)
    -> ParsedParameters
    decreases remaining(tokens, i),
{
    if accepts(tokens, i, seq![TokenType::Identifier]) {
        let longer = list.push(tokens[i]);
        if accepts(tokens, i + 1, seq![TokenType::Comma]) {
            parse_parameters_rest(tokens, i + 2, longer)
        } else if accepts(tokens, i + 1, seq![TokenType::RightParen]) {
            (Ok(longer), i + 2)
        } else {
            (Err(ParserErrorView::MissingToken(TokenType::RightParen)), i + 1)
        }
    } else {
        (Err(ParserErrorView::MissingToken(TokenType::Identifier)), i)
    }
}

/// "(" params? ")"
pub open spec fn parse_parameters(tokens: Seq<TokenView>, i: int) -> ParsedParameters {
    if !accepts(tokens, i, seq![TokenType::LeftParen]) {
        (Err(ParserErrorView::MissingToken(TokenType::LeftParen)), i)
    } else if at(tokens, i + 1, TokenType::RightParen) {
        (Ok(seq![]), i + 2)
    } else {
        parse_parameters_rest(tokens, i + 1, seq![])
    }
}

/// varDecl → "var" IDENTIFIER ( "=" expression )? ";", from the `var` at `i`.
pub open spec fn parse_variable(tokens: Seq<TokenView>, i: int) -> ParsedStatement {
    if !accepts(tokens, i + 1, seq![TokenType::Identifier]) {
        (
            Err(ParserErrorView::ExpectExpression("Expected Indentifier for a variable."@)),
            i + 1,
        )
    } else if accepts(tokens, i + 2, seq![TokenType::Equal]) {
        let (value, j) = parse_closed(tokens, i + 3, Some(TokenType::Semicolon), false);
        match value {
            Ok(e) => (Ok(StatementView::Var(tokens[i + 1], e)), j),
            Err(e) => (Err(e), j),
        }
    } else if at(tokens, i + 2, TokenType::Semicolon) {
        (Ok(StatementView::Var(tokens[i + 1], ExpressionView::Nil)), i + 3)
    } else {
        (Err(ParserErrorView::MissingToken(TokenType::Semicolon)), i + 2)
    }
}

/// What `for (initializer; condition; increment) body` is rewritten to: the
/// initializer, then a loop on the condition around the body and the
/// increment.
pub open spec fn for_loop(
    initializer: StatementView,
    condition: ExpressionView,
    increment: ExpressionView,
    body: StatementView,
) -> StatementView {
    StatementView::Block(
        seq![
            initializer,
            StatementView::While(
                condition,
                Box::new(StatementView::Block(seq![body, StatementView::Expression(increment)])),
            ),
        ],
    )
}

/// The first clause of a `for`: a variable declaration, an expression
/// statement, or nothing before the `;`.
pub open spec fn parse_initializer(tokens: Seq<TokenView>, i: int) -> ParsedStatement {
    if at(tokens, i, TokenType::Var) {
        parse_variable(tokens, i)
    } else if at(tokens, i, TokenType::Semicolon) {
        (Ok(StatementView::Empty), i + 1)
    } else {
        let (parsed, j) = parse_closed(tokens, i, Some(TokenType::Semicolon), false);
        match parsed {
            Ok(e) => (Ok(StatementView::Expression(e)), j),
            Err(e) => (Err(e), j),
        }
    }
}

/// The second clause of a `for`; a left-out condition is `true`.
pub open spec fn parse_condition(tokens: Seq<TokenView>, i: int) -> ParsedExpression {
    if at(tokens, i, TokenType::Semicolon) {
        (Ok(ExpressionView::Literal(fixed_token(TokenType::True, tokens[i].line))), i + 1)
    } else {
        parse_closed(tokens, i, Some(TokenType::Semicolon), false)
    }
}

/// declaration → funDecl | varDecl | statement
pub open spec fn parse_declaration(tokens: Seq<TokenView>, i: int) -> ParsedStatement
    decreases remaining(tokens, i), 3nat,
{
    if at(tokens, i, TokenType::Fun) {
        parse_function(tokens, i)
    } else if at(tokens, i, TokenType::Var) {
        parse_variable(tokens, i)
    } else {
        parse_statement(tokens, i)
    }
}

/// funDecl → "fun" IDENTIFIER "(" params? ")" block, from the `fun` at `i`.
pub open spec fn parse_function(tokens: Seq<TokenView>, i: int) -> ParsedStatement
    decreases remaining(tokens, i), 2nat,
{
    if !accepts(tokens, i + 1, seq![TokenType::Identifier]) {
        (
            Err(ParserErrorView::ExpectExpression("Expected Identifier for function name."@)),
            i + 1,
        )
    } else {
        let (parameters, j) = parse_parameters(tokens, i + 2);
        match parameters {
            Err(e) => (Err(e), j),
            Ok(list) => if !at(tokens, j, TokenType::LeftBrace) || !(0 <= i < j) {
                (Err(ParserErrorView::MissingToken(TokenType::LeftBrace)), j)
            } else {
                let (body, k) = parse_statement(tokens, j);
                match body {
                    Err(e) => (Err(e), k),
                    Ok(b) => (Ok(StatementView::Function(tokens[i + 1], list, Box::new(b))), k),
                }
            },
        }
    }
}

/// printStmt → "print" expression ";", from the `print` at `i`.
pub open spec fn parse_print(tokens: Seq<TokenView>, i: int) -> ParsedStatement {
    let (parsed, j) = parse_closed(tokens, i + 1, Some(TokenType::Semicolon), false);
    match parsed {
        Ok(e) => (Ok(StatementView::Print(e)), j),
        Err(e) => (Err(e), j),
    }
}

/// returnStmt → "return" expression? ";", from the `return` at `i`.
pub open spec fn parse_return(tokens: Seq<TokenView>, i: int) -> ParsedStatement {
    let (parsed, j) = parse_closed(tokens, i + 1, Some(TokenType::Semicolon), true);
    match parsed {
        Ok(e) => (Ok(StatementView::Return(e)), j),
        Err(e) => (Err(e), j),
    }
}

/// exprStmt → expression ";"
pub open spec fn parse_expression_statement(tokens: Seq<TokenView>, i: int) -> ParsedStatement {
    let (parsed, j) = parse_closed(tokens, i, Some(TokenType::Semicolon), false);
    match parsed {
        Ok(e) => (Ok(StatementView::Expression(e)), j),
        Err(e) => (Err(e), j),
    }
}

/// ifStmt → "if" "(" expression ")" statement ( "else" statement )?, from
/// the `if` at `i`. The condition is parsed with its parentheses.
pub open spec fn parse_if(tokens: Seq<TokenView>, i: int) -> ParsedStatement
    decreases remaining(tokens, i), 0nat,
{
    if !at(tokens, i + 1, TokenType::LeftParen) {
        (Err(ParserErrorView::MissingToken(TokenType::LeftParen)), i + 1)
    } else {
        let (condition, j) = parse_closed(tokens, i + 1, None, false);
        match condition {
            Err(e) => (Err(e), j),
            Ok(c) => if !(0 <= i < j) {
                (Err(ParserErrorView::MissingToken(TokenType::LeftParen)), j)
            } else {
                let (then, k) = parse_statement(tokens, j);
                match then {
                    Err(e) => (Err(e), k),
                    Ok(t) => if accepts(tokens, k, seq![TokenType::Else]) && j <= k {
                        let (otherwise, m) = parse_statement(tokens, k + 1);
                        match otherwise {
                            Err(e) => (Err(e), m),
                            Ok(o) => (Ok(StatementView::If(c, Box::new(t), Box::new(o))), m),
                        }
                    } else {
                        (
                            Ok(StatementView::If(c, Box::new(t), Box::new(StatementView::Empty))),
                            k,
                        )
                    },
                }
            },
        }
    }
}

/// whileStmt → "while" "(" expression ")" statement, from the `while` at `i`.
pub open spec fn parse_while(tokens: Seq<TokenView>, i: int) -> ParsedStatement
    decreases remaining(tokens, i), 0nat,
{
    if !at(tokens, i + 1, TokenType::LeftParen) {
        (Err(ParserErrorView::MissingToken(TokenType::LeftParen)), i + 1)
    } else {
        let (condition, j) = parse_closed(tokens, i + 1, None, false);
        match condition {
            Err(e) => (Err(e), j),
            Ok(c) => if !(0 <= i < j) {
                (Err(ParserErrorView::MissingToken(TokenType::LeftParen)), j)
            } else {
                let (body, k) = parse_statement(tokens, j);
                match body {
                    Err(e) => (Err(e), k),
                    Ok(b) => (Ok(StatementView::While(c, Box::new(b))), k),
                }
            },
        }
    }
}

/// The three clauses of a `for`, from the `(` at `i` to behind the `)`.
pub open spec fn parse_clauses(tokens: Seq<TokenView>, i: int) -> (
    Result<(StatementView, ExpressionView, ExpressionView), ParserErrorView>,
    int,
) {
    if !accepts(tokens, i, seq![TokenType::LeftParen]) {
        (Err(ParserErrorView::MissingToken(TokenType::LeftParen)), i)
    } else {
        let (initializer, j) = parse_initializer(tokens, i + 1);
        match initializer {
            Err(e) => (Err(e), j),
            Ok(first) => {
                let (condition, k) = parse_condition(tokens, j);
                match condition {
                    Err(e) => (Err(e), k),
                    Ok(c) => {
                        let (increment, m) = parse_closed(
                            tokens,
                            k,
                            Some(TokenType::RightParen),
                            true,
                        );
                        match increment {
                            Err(e) => (Err(e), m),
                            Ok(step) => (Ok((first, c, step)), m),
                        }
                    },
                }
            },
        }
    }
}

/// forStmt → "for" "(" ( varDecl | exprStmt | ";" ) expression? ";"
///           expression? ")" statement, from the `for` at `i`.
pub open spec fn parse_for(tokens: Seq<TokenView>, i: int) -> ParsedStatement
    decreases remaining(tokens, i), 0nat,
{
    let (clauses, m) = parse_clauses(tokens, i + 1);
    match clauses {
        Err(e) => (Err(e), m),
        Ok((first, c, step)) => if !(0 <= i < m) {
            (Err(ParserErrorView::MissingToken(TokenType::RightParen)), m)
        } else {
            let (body, n) = parse_statement(tokens, m);
            match body {
                Err(e) => (Err(e), n),
                Ok(b) => (Ok(for_loop(first, c, step, b)), n),
            }
        },
    }
}

/// statement → exprStmt | printStmt | block | ifStmt | whileStmt | forStmt
///           | returnStmt | empty
///
/// The end of a line and the end of the tokens are empty statements, and so
/// is the absence of a token.
pub open spec fn parse_statement(tokens: Seq<TokenView>, i: int) -> ParsedStatement
    decreases remaining(tokens, i), 1nat,
{
    if !(0 <= i < tokens.len()) {
        (Ok(StatementView::Empty), i)
    } else if at(tokens, i, TokenType::EOL) || at(tokens, i, TokenType::EOF) {
        (Ok(StatementView::Empty), i + 1)
    } else if at(tokens, i, TokenType::LeftBrace) {
        parse_block_rest(tokens, i + 1, seq![])
    } else if at(tokens, i, TokenType::Print) {
        parse_print(tokens, i)
    } else if at(tokens, i, TokenType::If) {
        parse_if(tokens, i)
    } else if at(tokens, i, TokenType::While) {
        parse_while(tokens, i)
    } else if at(tokens, i, TokenType::For) {
        parse_for(tokens, i)
    } else if at(tokens, i, TokenType::Return) {
        parse_return(tokens, i)
    } else {
        parse_expression_statement(tokens, i)
    }
}

/// block → "{" declaration* "}", behind the `{` and the declarations `list`.
pub open spec fn parse_block_rest(tokens: Seq<TokenView>, i: int, list: Seq<StatementView>)
    -> ParsedStatement
    decreases remaining(tokens, i), 4nat,
{
    if at(tokens, i, TokenType::RightBrace) {
        (Ok(StatementView::Block(list)), i + 1)
    } else if !(0 <= i < tokens.len()) || at(tokens, i, TokenType::EOF) {
        (Err(ParserErrorView::MissingToken(TokenType::RightBrace)), i)
    } else {
        let (declaration, j) = parse_declaration(tokens, i);
        match declaration {
            Err(e) => (Err(e), j),
            Ok(d) => if i < j {
                parse_block_rest(tokens, j, list.push(d))
            } else {
                (Err(ParserErrorView::MissingToken(TokenType::RightBrace)), j)
            },
        }
    }
}

/// program → declaration* EOF, behind the declarations `list`.
pub open spec fn parse_program_rest(tokens: Seq<TokenView>, i: int, list: Seq<StatementView>)
    -> Result<Seq<StatementView>, ParserErrorView>
    decreases remaining(tokens, i),
{
    if 0 <= i < tokens.len() {
        let (declaration, j) = parse_declaration(tokens, i);
        match declaration {
            Err(e) => Err(e),
            Ok(d) => if i < j {
                parse_program_rest(tokens, j, list.push(d))
            } else {
                Ok(list.push(d))
            },
        }
    } else {
        Ok(list)
    }
}

/// The statements of a program; the `EOF` is an empty statement at their end.
pub open spec fn parse_program(tokens: Seq<TokenView>) -> Result<
    Seq<StatementView>,
    ParserErrorView,
> {
    parse_program_rest(tokens, 0, seq![])
}

/// The outcome of a parse of a program as the model states it.
pub open spec fn program_outcome(r: Result<Vec<Statement>, ParserError>) -> Result<
    Seq<StatementView>,
    ParserErrorView,
> {
    match r {
        Ok(list) => Ok(statement_views(list@)),
        Err(e) => Err(e@),
    }
}

/// The outcome of an executable parser as the model states it.
pub open spec fn statement_outcome(r: Result<Statement, ParserError>, index: usize)
    -> ParsedStatement {
    (
        match r {
            Ok(s) => Ok(s@),
            Err(e) => Err(e@),
        },
        index as int,
    )
}

/// The outcome of an executable parser as the model states it.
pub open spec fn expression_outcome(r: Result<Expression, ParserError>, index: usize)
    -> ParsedExpression {
    (
        match r {
            Ok(e) => Ok(e@),
            Err(e) => Err(e@),
        },
        index as int,
    )
}

/// A statement parser that succeeds on a token has moved on, and none moves
/// back or past the end.
pub open spec fn advanced(before: usize, ok: bool, after: usize, len: nat) -> bool {
    &&& before <= after
    &&& after <= len || after == before
    &&& ok && before < len ==> before < after
}

impl StmtParser {
    /// The statements of the program that the tokens spell.
    pub fn parse(tokens: &Vec<Token>) -> (r: Result<Vec<Statement>, ParserError>)
        ensures
            program_outcome(r) == parse_program(token_views(tokens@)),
    {
        let ghost views = token_views(tokens@);
        let mut declarations: Vec<Statement> = Vec::new();
        let mut index: usize = 0;
        assert(statement_views(declarations@) =~= seq![]);
        while index < tokens.len()
            invariant
                index <= tokens@.len(),
                views == token_views(tokens@),
                parse_program_rest(views, index as int, statement_views(declarations@))
                    == parse_program(views),
            decreases tokens@.len() - index,
        {
            match StmtParser::declaration(tokens, &mut index) {
                Ok(d) => {
                    let ghost before = statement_views(declarations@);
                    declarations.push(d);
                    assert(statement_views(declarations@) =~= before.push(d@));
                },
                Err(e) => {
                    return Err(e);
                },
            }
        }
        Ok(declarations)
    }

    /// Whether the token at `index` is of `kind`.
    fn is_at(tokens: &Vec<Token>, index: usize, kind: TokenType) -> (r: bool)
        ensures
            r == at(token_views(tokens@), index as int, kind),
            r ==> index < tokens.len(),
    {
        index < tokens.len() && tokens[index].token_type == kind
    }

    /// The token at `index`, where it is of `kind` and ends no expression.
    fn advance(tokens: &Vec<Token>, index: &mut usize, kind: TokenType) -> (r: Option<Token>)
        ensures
            accepts(token_views(tokens@), *old(index) as int, seq![kind]) ==> r == Some(
                tokens@[*old(index) as int],
            ) && *final(index) == *old(index) + 1,
            !accepts(token_views(tokens@), *old(index) as int, seq![kind]) ==> r is None
                && *final(index) == *old(index),
    {
        let kinds = [kind];
        assert(kinds@ =~= seq![kind]);
        ParserUtils::match_advance(tokens, index, &kinds)
    }

    /// declaration → funDecl | varDecl | statement
    fn declaration(tokens: &Vec<Token>, index: &mut usize) -> (r: Result<Statement, ParserError>)
        requires
            *old(index) < tokens.len(),
        ensures
            statement_outcome(r, *final(index)) == parse_declaration(
                token_views(tokens@),
                *old(index) as int,
            ),
            advanced(*old(index), r is Ok, *final(index), tokens@.len()),
        decreases remaining(token_views(tokens@), *old(index) as int), 3nat,
    {
        match tokens[*index].token_type {
            TokenType::Fun => StmtParser::fun_declaration(tokens, index),
            TokenType::Var => StmtParser::var_declaration(tokens, index),
            _ => StmtParser::statement(tokens, index),
        }
    }

    /// The function declaration whose `fun` is at `index`.
    fn fun_declaration(tokens: &Vec<Token>, index: &mut usize) -> (r: Result<
        Statement,
        ParserError,
    >)
        requires
            *old(index) < tokens.len(),
        ensures
            statement_outcome(r, *final(index)) == parse_function(
                token_views(tokens@),
                *old(index) as int,
            ),
            advanced(*old(index), r is Ok, *final(index), tokens@.len()),
        decreases remaining(token_views(tokens@), *old(index) as int), 2nat,
    {
        *index += 1;
        match StmtParser::advance(tokens, index, TokenType::Identifier) {
            Some(name) => {
                match StmtParser::fun_args(tokens, index) {
                    Ok(parameters) => {
                        if !StmtParser::is_at(tokens, *index, TokenType::LeftBrace) {
                            return Err(ParserError::MissingToken(TokenType::LeftBrace));
                        }
                        match StmtParser::statement(tokens, index) {
                            Ok(body) => Ok(Statement::Function(name, parameters, Box::new(body))),
                            Err(e) => Err(e),
                        }
                    },
                    Err(e) => Err(e),
                }
            },
            None => Err(
                ParserError::ExpectExpression(
                    String::from_str("Expected Identifier for function name."),
                ),
            ),
        }
    }

    /// The parameters in their parentheses, from the `(` at `index`.
    #[verifier::loop_isolation(false)]
    pub fn fun_args(tokens: &Vec<Token>, index: &mut usize) -> (r: Result<Vec<Token>, ParserError>)
        ensures
            match r {
                Ok(list) => parse_parameters(token_views(tokens@), *old(index) as int) == (
                    Ok::<Seq<TokenView>, ParserErrorView>(token_views(list@)),
                    *final(index) as int,
                ),
                Err(e) => parse_parameters(token_views(tokens@), *old(index) as int) == (
                    Err::<Seq<TokenView>, ParserErrorView>(e@),
                    *final(index) as int,
                ),
            },
            *old(index) <= *final(index),
            *final(index) <= tokens@.len() || *final(index) == *old(index),
            r is Ok ==> *old(index) < *final(index),
    {
        let ghost views = token_views(tokens@);
        let ghost start = *index;
        let mut parameters: Vec<Token> = Vec::new();
        match StmtParser::advance(tokens, index, TokenType::LeftParen) {
            Some(_left) => {
                if StmtParser::is_at(tokens, *index, TokenType::RightParen) {
                    *index += 1;
                    assert(token_views(parameters@) =~= seq![]);
                    return Ok(parameters);
                }
            },
            None => {
                return Err(ParserError::MissingToken(TokenType::LeftParen));
            },
        }
        assert(token_views(parameters@) =~= seq![]);
        let ghost whole = parse_parameters(views, start as int);
        loop
            invariant
                start < *index <= tokens@.len(),
                parse_parameters_rest(views, *index as int, token_views(parameters@)) == whole,
            decreases remaining(views, *index as int),
        {
            match StmtParser::advance(tokens, index, TokenType::Identifier) {
                Some(parameter) => {
                    let ghost before = token_views(parameters@);
                    parameters.push(parameter);
                    assert(token_views(parameters@) =~= before.push(parameter@));
                    if StmtParser::advance(tokens, index, TokenType::Comma).is_none() {
                        break ;
                    }
                },
                None => {
                    return Err(ParserError::MissingToken(TokenType::Identifier));
                },
            }
        }
        match StmtParser::advance(tokens, index, TokenType::RightParen) {
            Some(_right) => Ok(parameters),
            None => Err(ParserError::MissingToken(TokenType::RightParen)),
        }
    }

    /// The variable declaration whose `var` is at `index`.
    fn var_declaration(tokens: &Vec<Token>, index: &mut usize) -> (r: Result<
        Statement,
        ParserError,
    >)
        requires
            *old(index) < tokens.len(),
        ensures
            statement_outcome(r, *final(index)) == parse_variable(
                token_views(tokens@),
                *old(index) as int,
            ),
            advanced(*old(index), r is Ok, *final(index), tokens@.len()),
    {
        *index += 1;
        match StmtParser::advance(tokens, index, TokenType::Identifier) {
            Some(name) => match StmtParser::advance(tokens, index, TokenType::Equal) {
                Some(_equal) => {
                    match StmtParser::expression(
                        tokens,
                        index,
                        Some(TokenType::Semicolon),
                        false,
                    ) {
                        Ok(value) => Ok(Statement::Var(name, Box::new(value))),
                        Err(e) => Err(e),
                    }
                },
                None => {
                    if !StmtParser::is_at(tokens, *index, TokenType::Semicolon) {
                        return Err(ParserError::MissingToken(TokenType::Semicolon));
                    }
                    *index += 1;
                    Ok(Statement::Var(name, Box::new(Expression::Nil())))
                },
            },
            None => Err(
                ParserError::ExpectExpression(
                    String::from_str("Expected Indentifier for a variable."),
                ),
            ),
        }
    }

    /// The first clause of a `for`.
    fn initializer(tokens: &Vec<Token>, index: &mut usize) -> (r: Result<Statement, ParserError>)
        requires
            *old(index) <= tokens.len(),
        ensures
            statement_outcome(r, *final(index)) == parse_initializer(
                token_views(tokens@),
                *old(index) as int,
            ),
            *old(index) <= *final(index) <= tokens@.len(),
    {
        if StmtParser::is_at(tokens, *index, TokenType::Var) {
            StmtParser::var_declaration(tokens, index)
        } else if StmtParser::is_at(tokens, *index, TokenType::Semicolon) {
            *index += 1;
            Ok(Statement::Empty())
        } else {
            match StmtParser::expression(tokens, index, Some(TokenType::Semicolon), false) {
                Ok(e) => Ok(Statement::Expression(Box::new(e))),
                Err(e) => Err(e),
            }
        }
    }

    /// The second clause of a `for`.
    fn condition(tokens: &Vec<Token>, index: &mut usize) -> (r: Result<Expression, ParserError>)
        requires
            *old(index) <= tokens.len(),
        ensures
            expression_outcome(r, *final(index)) == parse_condition(
                token_views(tokens@),
                *old(index) as int,
            ),
            *old(index) <= *final(index) <= tokens@.len(),
    {
        if StmtParser::is_at(tokens, *index, TokenType::Semicolon) {
            let line = tokens[*index].line;
            *index += 1;
            Ok(Expression::Literal(Token::t_true(line)))
        } else {
            StmtParser::expression(tokens, index, Some(TokenType::Semicolon), false)
        }
    }

    /// The statement that starts at `index`.
    fn statement(tokens: &Vec<Token>, index: &mut usize) -> (r: Result<Statement, ParserError>)
        requires
            *old(index) <= tokens.len(),
        ensures
            statement_outcome(r, *final(index)) == parse_statement(
                token_views(tokens@),
                *old(index) as int,
            ),
            advanced(*old(index), r is Ok, *final(index), tokens@.len()),
        decreases remaining(token_views(tokens@), *old(index) as int), 1nat,
    {
        if *index >= tokens.len() {
            return Ok(Statement::Empty());
        }
        match tokens[*index].token_type {
            TokenType::EOL | TokenType::EOF => {
                *index += 1;
                Ok(Statement::Empty())
            },
            TokenType::LeftBrace => StmtParser::block(tokens, index),
            TokenType::Print => StmtParser::print_statement(tokens, index),
            TokenType::If => StmtParser::if_statement(tokens, index),
            TokenType::While => StmtParser::while_statement(tokens, index),
            TokenType::For => StmtParser::for_statement(tokens, index),
            TokenType::Return => StmtParser::return_statement(tokens, index),
            _ => StmtParser::expression_statement(tokens, index),
        }
    }

    /// The `print` statement whose `print` is at `index`.
    fn print_statement(tokens: &Vec<Token>, index: &mut usize) -> (r: Result<
        Statement,
        ParserError,
    >)
        requires
            *old(index) < tokens.len(),
        ensures
            statement_outcome(r, *final(index)) == parse_print(
                token_views(tokens@),
                *old(index) as int,
            ),
            advanced(*old(index), r is Ok, *final(index), tokens@.len()),
    {
        *index += 1;
        match StmtParser::expression(tokens, index, Some(TokenType::Semicolon), false) {
            Ok(expression) => Ok(Statement::Print(Box::new(expression))),
            Err(e) => Err(e),
        }
    }

    /// The `return` statement whose `return` is at `index`.
    fn return_statement(tokens: &Vec<Token>, index: &mut usize) -> (r: Result<
        Statement,
        ParserError,
    >)
        requires
            *old(index) < tokens.len(),
        ensures
            statement_outcome(r, *final(index)) == parse_return(
                token_views(tokens@),
                *old(index) as int,
            ),
            advanced(*old(index), r is Ok, *final(index), tokens@.len()),
    {
        *index += 1;
        match StmtParser::expression(tokens, index, Some(TokenType::Semicolon), true) {
            Ok(value) => Ok(Statement::Return(Box::new(value))),
            Err(e) => Err(e),
        }
    }

    /// The expression statement that starts at `index`.
    fn expression_statement(tokens: &Vec<Token>, index: &mut usize) -> (r: Result<
        Statement,
        ParserError,
    >)
        requires
            *old(index) < tokens.len(),
        ensures
            statement_outcome(r, *final(index)) == parse_expression_statement(
                token_views(tokens@),
                *old(index) as int,
            ),
            advanced(*old(index), r is Ok, *final(index), tokens@.len()),
    {
        match StmtParser::expression(tokens, index, Some(TokenType::Semicolon), false) {
            Ok(expression) => Ok(Statement::Expression(Box::new(expression))),
            Err(e) => Err(e),
        }
    }

    /// The block whose `{` is at `index`.
    #[verifier::loop_isolation(false)]
    fn block(tokens: &Vec<Token>, index: &mut usize) -> (r: Result<Statement, ParserError>)
        requires
            *old(index) < tokens.len(),
        ensures
            statement_outcome(r, *final(index)) == parse_block_rest(
                token_views(tokens@),
                *old(index) + 1,
                seq![],
            ),
            advanced(*old(index), r is Ok, *final(index), tokens@.len()),
        decreases remaining(token_views(tokens@), *old(index) as int), 0nat,
    {
        let ghost views = token_views(tokens@);
        let ghost start = *index;
        *index += 1;
        let mut statements: Vec<Statement> = Vec::new();
        assert(statement_views(statements@) =~= seq![]);
        let ghost whole = parse_block_rest(views, start + 1, seq![]);
        loop
            invariant
                start < *index <= tokens.len(),
                parse_block_rest(views, *index as int, statement_views(statements@)) == whole,
            decreases remaining(views, *index as int),
        {
            if StmtParser::is_at(tokens, *index, TokenType::RightBrace) {
                *index += 1;
                return Ok(Statement::Block(Box::new(statements)));
            }
            if *index >= tokens.len() || StmtParser::is_at(tokens, *index, TokenType::EOF) {
                return Err(ParserError::MissingToken(TokenType::RightBrace));
            }
            match StmtParser::declaration(tokens, index) {
                Ok(statement) => {
                    let ghost before = statement_views(statements@);
                    statements.push(statement);
                    assert(statement_views(statements@) =~= before.push(statement@));
                },
                Err(e) => {
                    return Err(e);
                },
            }
        }
    }

    /// The `if` statement whose `if` is at `index`.
    fn if_statement(tokens: &Vec<Token>, index: &mut usize) -> (r: Result<Statement, ParserError>)
        requires
            *old(index) < tokens.len(),
        ensures
            statement_outcome(r, *final(index)) == parse_if(
                token_views(tokens@),
                *old(index) as int,
            ),
            advanced(*old(index), r is Ok, *final(index), tokens@.len()),
        decreases remaining(token_views(tokens@), *old(index) as int), 0nat,
    {
        *index += 1;
        if !StmtParser::is_at(tokens, *index, TokenType::LeftParen) {
            return Err(ParserError::MissingToken(TokenType::LeftParen));
        }
        let condition = match StmtParser::expression(tokens, index, None, false) {
            Ok(e) => e,
            Err(e) => {
                return Err(e);
            },
        };
        let then = match StmtParser::statement(tokens, index) {
            Ok(s) => s,
            Err(e) => {
                return Err(e);
            },
        };
        match StmtParser::advance(tokens, index, TokenType::Else) {
            Some(_else) => {
                match StmtParser::statement(tokens, index) {
                    Ok(otherwise) => {
                        let whole = Statement::If(
                            Box::new(condition),
                            Box::new(then),
                            Box::new(otherwise),
                        );
                        assert(whole@ == StatementView::If(
                            condition@,
                            Box::new(then@),
                            Box::new(otherwise@),
                        ));
                        Ok(whole)
                    },
                    Err(e) => Err(e),
                }
            },
            None => Ok(
                Statement::If(Box::new(condition), Box::new(then), Box::new(Statement::Empty())),
            ),
        }
    }

    /// The `while` statement whose `while` is at `index`.
    fn while_statement(tokens: &Vec<Token>, index: &mut usize) -> (r: Result<
        Statement,
        ParserError,
    >)
        requires
            *old(index) < tokens.len(),
        ensures
            statement_outcome(r, *final(index)) == parse_while(
                token_views(tokens@),
                *old(index) as int,
            ),
            advanced(*old(index), r is Ok, *final(index), tokens@.len()),
        decreases remaining(token_views(tokens@), *old(index) as int), 0nat,
    {
        *index += 1;
        if !StmtParser::is_at(tokens, *index, TokenType::LeftParen) {
            return Err(ParserError::MissingToken(TokenType::LeftParen));
        }
        let condition = match StmtParser::expression(tokens, index, None, false) {
            Ok(e) => e,
            Err(e) => {
                return Err(e);
            },
        };
        match StmtParser::statement(tokens, index) {
            Ok(body) => Ok(Statement::While(Box::new(condition), Box::new(body))),
            Err(e) => Err(e),
        }
    }

    /// The three clauses of a `for`, from the `(` at `index`.
    fn clauses(tokens: &Vec<Token>, index: &mut usize) -> (r: Result<
        (Statement, Expression, Expression),
        ParserError,
    >)
        requires
            *old(index) <= tokens.len(),
        ensures
            match r {
                Ok((first, c, step)) => parse_clauses(token_views(tokens@), *old(index) as int)
                    == (
                    Ok::<(StatementView, ExpressionView, ExpressionView), ParserErrorView>(
                        (first@, c@, step@),
                    ),
                    *final(index) as int,
                ),
                Err(e) => parse_clauses(token_views(tokens@), *old(index) as int) == (
                    Err::<(StatementView, ExpressionView, ExpressionView), ParserErrorView>(e@),
                    *final(index) as int,
                ),
            },
            *old(index) <= *final(index) <= tokens.len(),
    {
        match StmtParser::advance(tokens, index, TokenType::LeftParen) {
            Some(_left) => {},
            None => {
                return Err(ParserError::MissingToken(TokenType::LeftParen));
            },
        }
        let initializer = match StmtParser::initializer(tokens, index) {
            Ok(s) => s,
            Err(e) => {
                return Err(e);
            },
        };
        let condition = match StmtParser::condition(tokens, index) {
            Ok(e) => e,
            Err(e) => {
                return Err(e);
            },
        };
        match StmtParser::expression(tokens, index, Some(TokenType::RightParen), true) {
            Ok(increment) => Ok((initializer, condition, increment)),
            Err(e) => Err(e),
        }
    }

    /// The `for` statement whose `for` is at `index`, rewritten as a loop.
    fn for_statement(tokens: &Vec<Token>, index: &mut usize) -> (r: Result<Statement, ParserError>)
        requires
            *old(index) < tokens.len(),
        ensures
            statement_outcome(r, *final(index)) == parse_for(
                token_views(tokens@),
                *old(index) as int,
            ),
            advanced(*old(index), r is Ok, *final(index), tokens@.len()),
        decreases remaining(token_views(tokens@), *old(index) as int), 0nat,
    {
        *index += 1;
        let (initializer, condition, increment) = match StmtParser::clauses(tokens, index) {
            Ok(parts) => parts,
            Err(e) => {
                return Err(e);
            },
        };
        match StmtParser::statement(tokens, index) {
            Ok(body) => Ok(StmtParser::desugar(initializer, condition, increment, body)),
            Err(e) => Err(e),
        }
    }

    /// The loop that a `for` with these parts is rewritten to.
    fn desugar(
        initializer: Statement,
        condition: Expression,
        increment: Expression,
        body: Statement,
    ) -> (r: Statement)
        ensures
            r@ == for_loop(initializer@, condition@, increment@, body@),
    {
        let mut inner: Vec<Statement> = Vec::new();
        inner.push(body);
        inner.push(Statement::Expression(Box::new(increment)));
        let ghost inner_views = statement_views(inner@);
        assert(inner_views =~= seq![body@, StatementView::Expression(increment@)]);
        let round = Statement::Block(Box::new(inner));
        let repeated = Statement::While(Box::new(condition), Box::new(round));
        assert(repeated@ == StatementView::While(condition@, Box::new(round@)));
        let mut outer: Vec<Statement> = Vec::new();
        outer.push(initializer);
        outer.push(repeated);
        assert(statement_views(outer@) =~= seq![initializer@, repeated@]);
        Statement::Block(Box::new(outer))
    }

    /// The expression at `index` and the closing token behind it.
    pub fn expression(
        tokens: &Vec<Token>,
        index: &mut usize,
        ending_opt: Option<TokenType>,
        optional: bool,
    ) -> (r: Result<Expression, ParserError>)
        ensures
            expression_outcome(r, *final(index)) == parse_closed(
                token_views(tokens@),
                *old(index) as int,
                ending_opt,
                optional,
            ),
            *old(index) <= *final(index),
            *final(index) <= tokens@.len() || *final(index) == *old(index),
            r is Ok ==> *old(index) < *final(index),
    {
        if optional {
            match ending_opt {
                Some(ending) => {
                    if StmtParser::is_at(tokens, *index, ending) {
                        *index += 1;
                        return Ok(Expression::Nil());
                    }
                },
                None => {},
            }
        }
        let expression = match ExprParser::expression(tokens, index) {
            Ok(e) => e,
            Err(e) => {
                return Err(e);
            },
        };
        match ending_opt {
            Some(ending) => {
                if !StmtParser::is_at(tokens, *index, ending) {
                    return Err(ParserError::MissingToken(ending));
                }
                *index += 1;
            },
            None => {},
        }
        Ok(expression)
    }
}

} // verus!
