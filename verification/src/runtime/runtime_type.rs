//! The values that expressions have.

use vstd::prelude::*;
use vstd::string::*;
use crate::runtime::runtime_function::{RuntimeFunction, RuntimeFunctionView};

verus! {

/// A value. A number is a double, held by its 64 bits.
#[derive(Debug)]
pub enum RuntimeType<'a> {
    Boolean(bool),
    String(String),
    Number(u64),
    Function(RuntimeFunction<'a>),
    Nil(),
}

/// The mathematical value of a [`RuntimeType`].
pub enum RuntimeTypeView {
    Boolean(bool),
    String(Seq<char>),
    Number(u64),
    Function(RuntimeFunctionView),
    Nil,
}

impl<'a> View for RuntimeType<'a> {
    type V = RuntimeTypeView;

    open spec fn view(&self) -> RuntimeTypeView {
        match self {
            RuntimeType::Boolean(b) => RuntimeTypeView::Boolean(*b),
            RuntimeType::String(s) => RuntimeTypeView::String(s@),
            RuntimeType::Number(n) => RuntimeTypeView::Number(*n),
            RuntimeType::Function(f) => RuntimeTypeView::Function(f@),
            RuntimeType::Nil() => RuntimeTypeView::Nil,
        }
    }
}

/// The views of a sequence of values.
pub open spec fn value_views<'a>(values: Seq<RuntimeType<'a>>) -> Seq<RuntimeTypeView> {
    Seq::new(values.len(), |i: int| values[i]@)
}

/// `nil` and `false` are not truthy; every other value is.
pub open spec fn truthy(v: RuntimeTypeView) -> bool {
    match v {
        RuntimeTypeView::Nil => false,
        RuntimeTypeView::Boolean(b) => b,
        _ => true,
    }
}

/// The text that a value prints as. That of a number is the host's to give.
pub open spec fn value_text(v: RuntimeTypeView) -> Option<Seq<char>> {
    match v {
        RuntimeTypeView::Boolean(b) => Some(
            if b {
                "true"@
            } else {
                "false"@
            },
        ),
        RuntimeTypeView::String(s) => Some(s),
        RuntimeTypeView::Number(_) => None,
        RuntimeTypeView::Function(f) => Some("<fn "@ + f.name + ">"@),
        RuntimeTypeView::Nil => Some("nil"@),
    }
}

impl<'a> RuntimeType<'a> {
    /// The text that the value prints as; `None` for a number, whose decimal
    /// form the host computes from its bits.
    pub fn to_string(&self) -> (r: Option<String>)
        ensures
            r is Some <==> value_text(self@) is Some,
            r matches Some(s) ==> Some(s@) == value_text(self@),
    {
        match self {
            RuntimeType::Boolean(v) => Some(
                String::from_str(
                    if *v {
                        "true"
                    } else {
                        "false"
                    },
                ),
            ),
            RuntimeType::String(v) => Some(v.clone()),
            RuntimeType::Number(_) => None,
            RuntimeType::Function(f) => {
                let mut s = String::from_str("<fn ");
                s.append(f.fun_name.as_str());
                s.append(">");
                Some(s)
            },
            RuntimeType::Nil() => Some(String::from_str("nil")),
        }
    }

    /// Whether the value counts as true in a condition.
    pub fn is_truthy(&self) -> (r: bool)
        ensures
            r == truthy(self@),
    {
        match self {
            RuntimeType::Nil() => false,
            RuntimeType::Boolean(b) => *b,
            _ => true,
        }
    }

}

impl<'a> Clone for RuntimeType<'a> {
    fn clone(&self) -> (r: Self)
        ensures
            r@ == self@,
    {
        match self {
            RuntimeType::Boolean(b) => RuntimeType::Boolean(*b),
            RuntimeType::String(s) => RuntimeType::String(s.clone()),
            RuntimeType::Number(n) => RuntimeType::Number(*n),
            RuntimeType::Function(f) => RuntimeType::Function(f.clone()),
            RuntimeType::Nil() => RuntimeType::Nil(),
        }
    }
}

} // verus!
