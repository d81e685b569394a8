//! Statements.

pub mod evaluator;
pub mod parser;

use vstd::prelude::*;
use vstd::string::*;
use crate::expression::{expression_text, join, Expression, ExpressionView};
use crate::token::{token_line, token_views, Token, TokenView};

verus! {

/// A statement of the language.
#[derive(Debug)]
pub enum Statement {
    /// Nothing.
    Empty(),
    /// `print` and the expression whose value is printed.
    Print(Box<Expression>),
    /// An expression evaluated for its effect.
    Expression(Box<Expression>),
    /// A variable and the expression of its first value.
    Var(Token, Box<Expression>),
    /// A function: its name, its parameters and its body.
    Function(Token, Vec<Token>, Box<Statement>),
    /// Statements in a scope of their own.
    Block(Box<Vec<Statement>>),
    /// A condition, the statement for a truthy value and the one for the
    /// others.
    If(Box<Expression>, Box<Statement>, Box<Statement>),
    /// A condition and the statement repeated while its value is truthy.
    While(Box<Expression>, Box<Statement>),
    /// The expression whose value the enclosing call returns.
    Return(Box<Expression>),
    /// The body of a function that the host provides, by the name under
    /// which the host knows it. No source text parses to this.
    Native(String),
}

/// The mathematical value of a [`Statement`].
pub enum StatementView {
    Empty,
    Print(ExpressionView),
    Expression(ExpressionView),
    Var(TokenView, ExpressionView),
    Function(TokenView, Seq<TokenView>, Box<StatementView>),
    Block(Seq<StatementView>),
    If(ExpressionView, Box<StatementView>, Box<StatementView>),
    While(ExpressionView, Box<StatementView>),
    Return(ExpressionView),
    Native(Seq<char>),
}

/// The mathematical value of a statement.
pub open spec fn statement_view(s: Statement) -> StatementView
    decreases s,
{
    match s {
        Statement::Empty() => StatementView::Empty,
        Statement::Print(e) => StatementView::Print((*e)@),
        Statement::Expression(e) => StatementView::Expression((*e)@),
        Statement::Var(name, e) => StatementView::Var(name@, (*e)@),
        Statement::Function(name, parameters, body) => StatementView::Function(
            name@,
            token_views(parameters@),
            Box::new(statement_view(*body)),
        ),
        Statement::Block(statements) => StatementView::Block(statement_views((*statements)@)),
        Statement::If(condition, then, otherwise) => StatementView::If(
            (*condition)@,
            Box::new(statement_view(*then)),
            Box::new(statement_view(*otherwise)),
        ),
        Statement::While(condition, body) => StatementView::While(
            (*condition)@,
            Box::new(statement_view(*body)),
        ),
        Statement::Return(e) => StatementView::Return((*e)@),
        Statement::Native(name) => StatementView::Native(name@),
    }
}

/// The views of a sequence of statements.
pub open spec fn statement_views(statements: Seq<Statement>) -> Seq<StatementView>
    decreases statements,
{
    Seq::new(
        statements.len(),
        |i: int|
            if 0 <= i < statements.len() {
                statement_view(statements[i])
            } else {
                StatementView::Empty
            },
    )
}

impl View for Statement {
    type V = StatementView;

    open spec fn view(&self) -> StatementView {
        statement_view(*self)
    }
}

impl Clone for Statement {
    #[verifier::loop_isolation(false)]
    fn clone(&self) -> (r: Self)
        ensures
            r@ == self@,
        decreases self,
    {
        match self {
            Statement::Empty() => Statement::Empty(),
            Statement::Print(e) => Statement::Print(Box::new((**e).clone())),
            Statement::Expression(e) => Statement::Expression(Box::new((**e).clone())),
            Statement::Var(name, e) => Statement::Var(name.clone(), Box::new((**e).clone())),
            Statement::Function(name, parameters, body) => {
                let mut copies: Vec<Token> = Vec::new();
                let mut i: usize = 0;
                while i < parameters.len()
                    invariant
                        i <= parameters@.len(),
                        copies@.len() == i,
                        forall|k: int| 0 <= k < i ==> copies@[k]@ == parameters@[k]@,
                    decreases parameters@.len() - i,
                {
                    copies.push(parameters[i].clone());
                    i += 1;
                }
                assert(token_views(copies@) =~= token_views(parameters@));
                Statement::Function(name.clone(), copies, Box::new((**body).clone()))
            },
            Statement::Block(statements) => {
                let mut copies: Vec<Statement> = Vec::new();
                let mut i: usize = 0;
                while i < statements.len()
                    invariant
                        i <= statements@.len(),
                        copies@.len() == i,
                        forall|k: int| 0 <= k < i ==> copies@[k]@ == statements@[k]@,
                    decreases statements@.len() - i,
                {
                    copies.push(statements[i].clone());
                    i += 1;
                }
                assert(statement_views(copies@) =~= statement_views(statements@));
                Statement::Block(Box::new(copies))
            },
            Statement::If(condition, then, otherwise) => Statement::If(
                Box::new((**condition).clone()),
                Box::new((**then).clone()),
                Box::new((**otherwise).clone()),
            ),
            Statement::While(condition, body) => Statement::While(
                Box::new((**condition).clone()),
                Box::new((**body).clone()),
            ),
            Statement::Return(e) => Statement::Return(Box::new((**e).clone())),
            Statement::Native(name) => Statement::Native(name.clone()),
        }
    }
}

/// The lines that the tokens print as.
pub open spec fn token_lines(tokens: Seq<TokenView>) -> Seq<Seq<char>> {
    Seq::new(tokens.len(), |i: int| token_line(tokens[i]))
}

/// The description of a statement, for a reader who follows the parser.
pub open spec fn statement_text(s: StatementView) -> Seq<char>
    decreases s,
{
    match s {
        StatementView::Empty => seq![],
        StatementView::Print(e) => "Print: "@ + expression_text(e),
        StatementView::Expression(e) => "Expression: "@ + expression_text(e),
        StatementView::Var(name, e) => "Var: "@ + name.lexeme + ", "@ + expression_text(e),
        StatementView::Function(name, parameters, body) => "Function: name = "@ + name.lexeme
            + ", args = "@ + join(token_lines(parameters), ", "@) + ", body = "@ + statement_text(
            *body,
        ),
        StatementView::Block(statements) => "Statements: \n  "@ + join(
            statement_texts(statements),
            "\n  "@,
        ),
        StatementView::If(condition, then, otherwise) => "If:\n  Condition: "@ + expression_text(
            condition,
        ) + ";\n  Then: "@ + statement_text(*then) + ";\n  Else: "@ + statement_text(*otherwise)
            + ";"@,
        StatementView::While(condition, body) => "While:\n Condition: "@ + expression_text(
            condition,
        ) + ";\n Statement: "@ + statement_text(*body),
        StatementView::Return(e) => "Return: "@ + expression_text(e),
        StatementView::Native(_) => "Native function"@,
    }
}

/// The descriptions of the statements of a block, each behind two spaces.
pub open spec fn statement_texts(statements: Seq<StatementView>) -> Seq<Seq<char>>
    decreases statements,
{
    Seq::new(
        statements.len(),
        |i: int|
            if 0 <= i < statements.len() {
                "  "@ + statement_text(statements[i])
            } else {
                seq![]
            },
    )
}

impl Statement {
    /// The description of the statement.
    #[verifier::loop_isolation(false)]
    pub fn to_string(&self) -> (r: String)
        ensures
            r@ == statement_text(self@),
        decreases self,
    {
        match self {
            Statement::Empty() => {
                let s = String::new();
                s
            },
            Statement::Print(expression) => {
                let mut s = String::from_str("Print: ");
                s.append(expression.to_string().as_str());
                s
            },
            Statement::Expression(expression) => {
                let mut s = String::from_str("Expression: ");
                s.append(expression.to_string().as_str());
                s
            },
            Statement::Var(token, expression) => {
                let mut s = String::from_str("Var: ");
                s.append(token.lexeme.as_str());
                s.append(", ");
                s.append(expression.to_string().as_str());
                s
            },
            Statement::Function(name, parameters, body) => {
                let mut s = String::from_str("Function: name = ");
                s.append(name.lexeme.as_str());
                s.append(", args = ");
                let ghost head = s@;
                let ghost pieces = token_lines(token_views(parameters@));
                let mut i: usize = 0;
                while i < parameters.len()
                    invariant
                        i <= parameters@.len(),
                        s@ == head + join(pieces.subrange(0, i as int), ", "@),
                    decreases parameters@.len() - i,
                {
                    if i > 0 {
                        s.append(", ");
                    }
                    s.append(parameters[i].to_str().as_str());
                    proof {
                        let before = pieces.subrange(0, i as int);
                        let after = pieces.subrange(0, i + 1);
                        assert(after.drop_last() =~= before);
                    }
                    i += 1;
                }
                proof {
                    assert(pieces.subrange(0, i as int) =~= pieces);
                }
                s.append(", body = ");
                s.append(body.to_string().as_str());
                s
            },
            Statement::Block(statements) => {
                let mut s = String::from_str("Statements: \n  ");
                let ghost head = s@;
                let ghost pieces = statement_texts(statement_views(statements@));
                let mut i: usize = 0;
                while i < statements.len()
                    invariant
                        i <= statements@.len(),
                        s@ == head + join(pieces.subrange(0, i as int), "\n  "@),
                    decreases statements@.len() - i,
                {
                    if i > 0 {
                        s.append("\n  ");
                    }
                    s.append("  ");
                    s.append(statements[i].to_string().as_str());
                    proof {
                        let before = pieces.subrange(0, i as int);
                        let after = pieces.subrange(0, i + 1);
                        assert(after.drop_last() =~= before);
                    }
                    i += 1;
                }
                proof {
                    assert(pieces.subrange(0, i as int) =~= pieces);
                }
                s
            },
            Statement::If(condition, then, otherwise) => {
                let mut s = String::from_str("If:\n  Condition: ");
                s.append(condition.to_string().as_str());
                s.append(";\n  Then: ");
                s.append(then.to_string().as_str());
                s.append(";\n  Else: ");
                s.append(otherwise.to_string().as_str());
                s.append(";");
                s
            },
            Statement::While(condition, body) => {
                let mut s = String::from_str("While:\n Condition: ");
                s.append(condition.to_string().as_str());
                s.append(";\n Statement: ");
                s.append(body.to_string().as_str());
                s
            },
            Statement::Return(expression) => {
                let mut s = String::from_str("Return: ");
                s.append(expression.to_string().as_str());
                s
            },
            Statement::Native(_name) => String::from_str("Native function"),
        }
    }
}

} // verus!
