//! Why a program stops.

use vstd::prelude::*;
use vstd::string::*;
use crate::runtime::runtime_type::{value_text, RuntimeType, RuntimeTypeView};
use crate::text::{decimal_text, push_decimal};

verus! {

/// A failure of a running program.
#[derive(Debug)]
pub enum RuntimeError<'a> {
    /// An operand of `-` is no number.
    UnaryError(String),
    /// The operands of a binary operator do not fit it.
    BinaryError(String),
    /// No variable or function of this name is in scope.
    UndefinedIdentifier(String),
    /// A call of the function with this name: the number of its parameters,
    /// and the number of arguments given.
    WrongArgumentsForFunction(String, usize, usize),
    /// The failure of an expression inside a statement.
    StatementError(String),
    /// A `return` with this value outside of every call.
    ReturnValue(RuntimeType<'a>),
}

/// The mathematical value of a [`RuntimeError`].
pub enum RuntimeErrorView {
    UnaryError(Seq<char>),
    BinaryError(Seq<char>),
    UndefinedIdentifier(Seq<char>),
    WrongArgumentsForFunction(Seq<char>, nat, nat),
    StatementError(Seq<char>),
    ReturnValue(RuntimeTypeView),
}

impl<'a> View for RuntimeError<'a> {
    type V = RuntimeErrorView;

    open spec fn view(&self) -> RuntimeErrorView {
        match self {
            RuntimeError::UnaryError(m) => RuntimeErrorView::UnaryError(m@),
            RuntimeError::BinaryError(m) => RuntimeErrorView::BinaryError(m@),
            RuntimeError::UndefinedIdentifier(n) => RuntimeErrorView::UndefinedIdentifier(n@),
            RuntimeError::WrongArgumentsForFunction(n, e, g) => {
                RuntimeErrorView::WrongArgumentsForFunction(n@, *e as nat, *g as nat)
            },
            RuntimeError::StatementError(m) => RuntimeErrorView::StatementError(m@),
            RuntimeError::ReturnValue(v) => RuntimeErrorView::ReturnValue(v@),
        }
    }
}

/// The message of a failure. That of a returned number is the host's to give.
pub open spec fn error_text(e: RuntimeErrorView) -> Option<Seq<char>> {
    match e {
        RuntimeErrorView::UnaryError(m) => Some(m),
        RuntimeErrorView::BinaryError(m) => Some(m),
        RuntimeErrorView::UndefinedIdentifier(name) => Some(
            "Identifier '"@ + name + "' is undefined"@,
        ),
        RuntimeErrorView::WrongArgumentsForFunction(name, expected, got) => Some(
            "Function '"@ + name + "' was called with wrong number of arguments. Expected: "@
                + decimal_text(expected) + ", got: "@ + decimal_text(got),
        ),
        RuntimeErrorView::StatementError(m) => Some("Statement failure: "@ + m),
        RuntimeErrorView::ReturnValue(v) => match value_text(v) {
            Some(text) => Some("Return error with value: "@ + text),
            None => None,
        },
    }
}

/// A message that names the line of the operator.
pub open spec fn line_message(message: Seq<char>, line: nat) -> Seq<char> {
    message + "\n[line "@ + decimal_text(line) + "]"@
}

/// A failure as the statement around it reports it. What has no message of
/// its own is passed on as it is.
pub open spec fn statement_failure(e: RuntimeErrorView) -> RuntimeErrorView {
    match error_text(e) {
        Some(text) => RuntimeErrorView::StatementError(text),
        None => e,
    }
}

impl<'a> RuntimeError<'a> {
    /// The message of the failure; `None` for a returned number, whose
    /// decimal form the host computes.
    pub fn to_string(&self) -> (r: Option<String>)
        ensures
            r is Some <==> error_text(self@) is Some,
            r matches Some(s) ==> Some(s@) == error_text(self@),
    {
        match self {
            RuntimeError::UnaryError(m) => Some(m.clone()),
            RuntimeError::BinaryError(m) => Some(m.clone()),
            RuntimeError::UndefinedIdentifier(name) => {
                let mut s = String::from_str("Identifier '");
                s.append(name.as_str());
                s.append("' is undefined");
                Some(s)
            },
            RuntimeError::WrongArgumentsForFunction(name, expected, got) => {
                let mut s = String::from_str("Function '");
                s.append(name.as_str());
                s.append("' was called with wrong number of arguments. Expected: ");
                push_decimal(&mut s, *expected);
                s.append(", got: ");
                push_decimal(&mut s, *got);
                Some(s)
            },
            RuntimeError::StatementError(m) => {
                let mut s = String::from_str("Statement failure: ");
                s.append(m.as_str());
                Some(s)
            },
            RuntimeError::ReturnValue(v) => match v.to_string() {
                Some(text) => {
                    let mut s = String::from_str("Return error with value: ");
                    s.append(text.as_str());
                    Some(s)
                },
                None => None,
            },
        }
    }

    /// The failure as the statement around it reports it.
    pub fn in_statement(self) -> (r: Self)
        ensures
            r@ == statement_failure(self@),
    {
        match self.to_string() {
            Some(text) => RuntimeError::StatementError(text),
            None => self,
        }
    }

    /// `message` with the line of the operator behind it.
    pub fn at_line(message: &str, line: usize) -> (r: String)
        ensures
            r@ == line_message(message@, line as nat),
    {
        let mut s = String::from_str(message);
        s.append("\n[line ");
        push_decimal(&mut s, line);
        s.append("]");
        s
    }
}

} // verus!
