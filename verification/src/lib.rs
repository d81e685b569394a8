//! A tree-walking interpreter for a small dynamically typed scripting
//! language: a lexer, a recursive-descent parser and an evaluator, each with
//! its behaviour stated as a contract over a mathematical model.
//!
//! Numbers are doubles. The library holds them by their bits, compares and
//! negates them, and leaves arithmetic on them, their decimal form and
//! printing to its host: the evaluator is a [`machine::Machine`] that takes
//! one step at a time and says what it needs. What its steps add up to is
//! stated in [`semantics`].

pub mod text;
pub mod token;
pub mod lexer;
pub mod expression;
pub mod statement;
pub mod parser;
pub mod runtime;
pub mod environment;
pub mod machine;
pub mod semantics;
