//! Functions as values.

use vstd::prelude::*;
use vstd::string::*;
use crate::environment::Environment;
use crate::machine::{bound, called};
use crate::runtime::runtime_error::RuntimeError;
use crate::runtime::runtime_type::{value_views, RuntimeType};
use crate::statement::{Statement, StatementView};
use crate::token::{token_views, Token, TokenView};

verus! {

/// A function: its name, its parameters, its body, and the scope in which it
/// was defined, which its calls see. The parameters and the body are the
/// program's own; a function whose body is [`Statement::Native`] is the
/// host's.
#[derive(Debug)]
pub struct RuntimeFunction<'a> {
    pub fun_name: String,
    pub args: &'a Vec<Token>,
    pub body: &'a Statement,
    pub enclosing: usize,
}

/// The mathematical value of a [`RuntimeFunction`].
pub struct RuntimeFunctionView {
    pub name: Seq<char>,
    pub parameters: Seq<TokenView>,
    pub body: StatementView,
    pub enclosing: nat,
}

impl<'a> View for RuntimeFunction<'a> {
    type V = RuntimeFunctionView;

    open spec fn view(&self) -> RuntimeFunctionView {
        RuntimeFunctionView {
            name: self.fun_name@,
            parameters: token_views(self.args@),
            body: (*self.body)@,
            enclosing: self.enclosing as nat,
        }
    }
}

impl<'a> RuntimeFunction<'a> {
    /// The function with this name, these parameters and this body, defined
    /// in the scope `enclosing`.
    pub fn new(fun_name: String, args: &'a Vec<Token>, body: &'a Statement, enclosing: usize) -> (r:
        Self)
        ensures
            r@ == (RuntimeFunctionView {
                name: fun_name@,
                parameters: token_views(args@),
                body: (*body)@,
                enclosing: enclosing as nat,
            }),
    {
        RuntimeFunction { fun_name, args, body, enclosing }
    }

    /// The name of the function.
    pub fn get_name(&self) -> (r: String)
        ensures
            r@ == self@.name,
    {
        self.fun_name.clone()
    }

    /// Prepares a call with the values `args_values`: opens a scope inside
    /// the one that the function was defined in, binds each parameter there
    /// to the value at its position, and gives the number of the scope, in
    /// which the body is to run. It fails, and changes nothing, where the
    /// number of values is not that of the parameters.
    pub fn call(&self, environment: &mut Environment<'a>, args_values: Vec<RuntimeType<'a>>) -> (r:
        Result<usize, RuntimeError<'a>>)
        ensures
            match called(old(environment)@, self@, value_views(args_values@)) {
                Ok(scopes) => r matches Ok(scope) && scope == old(environment)@.len()
                    && final(environment)@ == scopes,
                Err(e) => r matches Err(x) && x@ == e && final(environment)@ == old(
                    environment,
                )@,
            },
    {
        if self.args.len() != args_values.len() {
            return Err(
                RuntimeError::WrongArgumentsForFunction(
                    self.fun_name.clone(),
                    self.args.len(),
                    args_values.len(),
                ),
            );
        }
        let scope = environment.local(self.enclosing);
        let ghost opened = environment@;
        let mut i: usize = 0;
        while i < self.args.len()
            invariant
                i <= self.args@.len(),
                self.args@.len() == args_values@.len(),
                bound(
                    environment@,
                    scope as nat,
                    token_views(self.args@),
                    value_views(args_values@),
                    i as int,
                ) == bound(
                    opened,
                    scope as nat,
                    token_views(self.args@),
                    value_views(args_values@),
                    0,
                ),
            decreases self.args@.len() - i,
        {
            environment.define(scope, self.args[i].lexeme.clone(), args_values[i].clone());
            i += 1;
        }
        Ok(scope)
    }

}

impl<'a> Clone for RuntimeFunction<'a> {
    fn clone(&self) -> (r: Self)
        ensures
            r@ == self@,
    {
        RuntimeFunction {
            fun_name: self.fun_name.clone(),
            args: self.args,
            body: self.body,
            enclosing: self.enclosing,
        }
    }
}

} // verus!
