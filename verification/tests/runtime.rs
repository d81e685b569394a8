use lox::environment::Environment;
use lox::expression::evaluator::{Applied, ExprEvaluator};
use lox::expression::Expression;
use lox::machine::{push_frame, resume, Action, Control, Frame, Machine};
use lox::runtime::number::{equal, less, negate, Operation};
use lox::runtime::runtime_error::RuntimeError;
use lox::runtime::runtime_function::RuntimeFunction;
use lox::runtime::runtime_type::RuntimeType;
use lox::statement::evaluator::StmtEvaluator;
use lox::statement::Statement;
use lox::token::Token;

fn number(value: f64) -> RuntimeType<'static> {
    RuntimeType::Number(value.to_bits())
}

fn text(value: &str) -> RuntimeType<'static> {
    RuntimeType::String(value.to_string())
}

fn samples() -> Vec<f64> {
    vec![
        0.0,
        -0.0,
        1.0,
        -1.0,
        0.5,
        -0.5,
        2.0,
        1e300,
        -1e300,
        1e-300,
        -1e-300,
        5e-324,
        -5e-324,
        f64::MAX,
        f64::MIN,
        f64::MIN_POSITIVE,
        f64::INFINITY,
        f64::NEG_INFINITY,
        f64::NAN,
        -f64::NAN,
        f64::from_bits(0x7ff0_0000_0000_0001),
        f64::from_bits(0xffff_ffff_ffff_ffff),
        123456789.125,
        -123456789.125,
    ]
}

#[test]
fn less_is_less_on_doubles() {
    for a in samples() {
        for b in samples() {
            assert_eq!(less(a.to_bits(), b.to_bits()), a < b, "{} < {}", a, b);
        }
    }
}

#[test]
fn equal_is_equal_on_doubles() {
    for a in samples() {
        for b in samples() {
            assert_eq!(equal(a.to_bits(), b.to_bits()), a == b, "{} == {}", a, b);
        }
    }
}

#[test]
fn negate_is_minus_on_doubles() {
    for a in samples() {
        assert_eq!(negate(a.to_bits()), (-a).to_bits(), "-{}", a);
    }
    assert_eq!(negate(1f64.to_bits()), 0xbff0_0000_0000_0000);
}

#[test]
fn truthiness() {
    assert!(!RuntimeType::Nil().is_truthy());
    assert!(!RuntimeType::Boolean(false).is_truthy());
    assert!(RuntimeType::Boolean(true).is_truthy());
    assert!(number(0.0).is_truthy());
    assert!(number(f64::NAN).is_truthy());
    assert!(text("").is_truthy());
    let parameters = Vec::new();
    let body = Statement::Empty();
    assert!(RuntimeType::Function(RuntimeFunction::new("f".to_string(), &parameters, &body, 0))
        .is_truthy());
}

#[test]
fn values_as_text() {
    assert_eq!(RuntimeType::Nil().to_string(), Some("nil".to_string()));
    assert_eq!(RuntimeType::Boolean(true).to_string(), Some("true".to_string()));
    assert_eq!(RuntimeType::Boolean(false).to_string(), Some("false".to_string()));
    assert_eq!(text("a b").to_string(), Some("a b".to_string()));
    assert_eq!(number(1.5).to_string(), None);
    let parameters = Vec::new();
    let body = Statement::Empty();
    let function = RuntimeFunction::new("area".to_string(), &parameters, &body, 0);
    assert_eq!(function.get_name(), "area");
    assert_eq!(RuntimeType::Function(function).to_string(), Some("<fn area>".to_string()));
}

#[test]
fn duplicates_are_the_same_value() {
    assert!(matches!(number(2.5).clone(), RuntimeType::Number(bits) if bits == 2.5f64.to_bits()));
    assert!(matches!(text("abc").clone(), RuntimeType::String(s) if s == "abc"));
    assert!(matches!(RuntimeType::Boolean(true).clone(), RuntimeType::Boolean(true)));
    assert!(matches!(RuntimeType::Nil().clone(), RuntimeType::Nil()));
    let parameters = vec![Token::t_identifier("a".to_string(), 1)];
    let body = Statement::Empty();
    let function = RuntimeFunction::new("f".to_string(), &parameters, &body, 3);
    let copy = function.clone();
    assert_eq!(copy.fun_name, "f");
    assert_eq!(copy.args.len(), 1);
    assert_eq!(copy.enclosing, 3);
}

#[test]
fn errors_as_text() {
    assert_eq!(
        RuntimeError::UnaryError("Operand must be a number.\n[line 2]".to_string()).to_string(),
        Some("Operand must be a number.\n[line 2]".to_string())
    );
    assert_eq!(
        RuntimeError::BinaryError("Operands must be numbers.\n[line 1]".to_string()).to_string(),
        Some("Operands must be numbers.\n[line 1]".to_string())
    );
    assert_eq!(
        RuntimeError::UndefinedIdentifier("x".to_string()).to_string(),
        Some("Identifier 'x' is undefined".to_string())
    );
    assert_eq!(
        RuntimeError::WrongArgumentsForFunction("f".to_string(), 2, 10).to_string(),
        Some(
            "Function 'f' was called with wrong number of arguments. Expected: 2, got: 10"
                .to_string()
        )
    );
    assert_eq!(
        RuntimeError::StatementError("inner".to_string()).to_string(),
        Some("Statement failure: inner".to_string())
    );
    assert_eq!(
        RuntimeError::ReturnValue(text("v")).to_string(),
        Some("Return error with value: v".to_string())
    );
    assert_eq!(RuntimeError::ReturnValue(number(1.0)).to_string(), None);
    assert_eq!(RuntimeError::at_line("Wrong.", 12), "Wrong.\n[line 12]");
}

#[test]
fn a_statement_reports_a_failure_as_its_own() {
    let wrapped = RuntimeError::UndefinedIdentifier("x".to_string()).in_statement();
    assert!(matches!(&wrapped, RuntimeError::StatementError(m) if m == "Identifier 'x' is undefined"));
    let twice = wrapped.in_statement();
    assert!(matches!(
        &twice,
        RuntimeError::StatementError(m) if m == "Statement failure: Identifier 'x' is undefined"
    ));
    let returned = RuntimeError::ReturnValue(number(1.0)).in_statement();
    assert!(matches!(returned, RuntimeError::ReturnValue(RuntimeType::Number(_))));
}

#[test]
fn the_global_scope_is_scope_zero() {
    let mut environment = Environment::global();
    assert_eq!(environment.len(), 1);
    assert!(environment.get(0, &"a".to_string()).is_none());
    environment.define(0, "a".to_string(), number(1.0));
    assert!(matches!(environment.get(0, &"a".to_string()), Some(RuntimeType::Number(_))));
    assert!(environment.get(1, &"a".to_string()).is_none());
}

#[test]
fn define_overwrites_in_its_own_scope() {
    let mut environment = Environment::global();
    environment.define(0, "a".to_string(), text("first"));
    environment.define(0, "b".to_string(), text("other"));
    environment.define(0, "a".to_string(), text("second"));
    assert!(matches!(environment.get(0, &"a".to_string()), Some(RuntimeType::String(s)) if s == "second"));
    assert!(matches!(environment.get(0, &"b".to_string()), Some(RuntimeType::String(s)) if s == "other"));
    environment.define(7, "c".to_string(), text("nowhere"));
    assert_eq!(environment.len(), 1);
    assert!(environment.get(0, &"c".to_string()).is_none());
}

#[test]
fn inner_scopes_see_and_shadow_outer_ones() {
    let mut environment = Environment::global();
    environment.define(0, "a".to_string(), text("outer"));
    let inner = environment.local(0);
    assert_eq!(inner, 1);
    assert_eq!(environment.len(), 2);
    assert!(matches!(environment.get(inner, &"a".to_string()), Some(RuntimeType::String(s)) if s == "outer"));
    environment.define(inner, "a".to_string(), text("inner"));
    assert!(matches!(environment.get(inner, &"a".to_string()), Some(RuntimeType::String(s)) if s == "inner"));
    assert!(matches!(environment.get(0, &"a".to_string()), Some(RuntimeType::String(s)) if s == "outer"));
    let sibling = environment.local(0);
    assert_eq!(sibling, 2);
    assert!(matches!(environment.get(sibling, &"a".to_string()), Some(RuntimeType::String(s)) if s == "outer"));
    let deep = environment.local(inner);
    assert!(matches!(environment.get(deep, &"a".to_string()), Some(RuntimeType::String(s)) if s == "inner"));
}

#[test]
fn a_scope_inside_no_scope_sees_only_itself() {
    let mut environment = Environment::global();
    environment.define(0, "a".to_string(), text("global"));
    let orphan = environment.local(9);
    assert_eq!(orphan, 1);
    assert!(environment.get(orphan, &"a".to_string()).is_none());
}

#[test]
fn assign_changes_the_nearest_binding() {
    let mut environment = Environment::global();
    environment.define(0, "a".to_string(), text("outer"));
    let inner = environment.local(0);
    assert!(environment.assign(inner, "a".to_string(), text("changed")).is_ok());
    assert!(matches!(environment.get(0, &"a".to_string()), Some(RuntimeType::String(s)) if s == "changed"));
    environment.define(inner, "a".to_string(), text("inner"));
    assert!(environment.assign(inner, "a".to_string(), text("again")).is_ok());
    assert!(matches!(environment.get(inner, &"a".to_string()), Some(RuntimeType::String(s)) if s == "again"));
    assert!(matches!(environment.get(0, &"a".to_string()), Some(RuntimeType::String(s)) if s == "changed"));
}

#[test]
fn assign_makes_no_binding() {
    let mut environment = Environment::global();
    let inner = environment.local(0);
    let result = environment.assign(inner, "a".to_string(), number(1.0));
    assert!(matches!(result, Err(RuntimeError::UndefinedIdentifier(name)) if name == "a"));
    assert!(environment.get(inner, &"a".to_string()).is_none());
    assert!(environment.get(0, &"a".to_string()).is_none());
    let result = environment.assign(5, "a".to_string(), number(1.0));
    assert!(matches!(result, Err(RuntimeError::UndefinedIdentifier(_))));
}

#[test]
fn after_an_assignment_the_name_has_the_value() {
    let mut environment = Environment::global();
    environment.define(0, "x".to_string(), number(1.0));
    let inner = environment.local(0);
    let deep = environment.local(inner);
    assert!(environment.assign(deep, "x".to_string(), number(7.0)).is_ok());
    for scope in [0, inner, deep] {
        assert!(matches!(
            environment.get(scope, &"x".to_string()),
            Some(RuntimeType::Number(bits)) if bits == 7f64.to_bits()
        ));
    }
}

#[test]
fn a_call_binds_the_parameters_in_a_new_scope() {
    let parameters =
        vec![Token::t_identifier("a".to_string(), 1), Token::t_identifier("b".to_string(), 1)];
    let body = Statement::Empty();
    let mut environment = Environment::global();
    environment.define(0, "outer".to_string(), text("seen"));
    let defining = environment.local(0);
    let function = RuntimeFunction::new("f".to_string(), &parameters, &body, defining);
    let scope = function.call(&mut environment, vec![number(1.0), text("two")]).ok().unwrap();
    assert_eq!(scope, 2);
    assert_eq!(environment.len(), 3);
    assert!(matches!(environment.get(scope, &"a".to_string()), Some(RuntimeType::Number(_))));
    assert!(matches!(environment.get(scope, &"b".to_string()), Some(RuntimeType::String(s)) if s == "two"));
    assert!(matches!(environment.get(scope, &"outer".to_string()), Some(RuntimeType::String(s)) if s == "seen"));
    assert!(environment.get(defining, &"a".to_string()).is_none());
}

#[test]
fn a_call_with_the_wrong_number_of_values_changes_nothing() {
    let parameters = vec![Token::t_identifier("a".to_string(), 1)];
    let body = Statement::Empty();
    let mut environment = Environment::global();
    let function = RuntimeFunction::new("f".to_string(), &parameters, &body, 0);
    let result = function.call(&mut environment, vec![]);
    assert!(matches!(
        result,
        Err(RuntimeError::WrongArgumentsForFunction(name, 1, 0)) if name == "f"
    ));
    assert_eq!(environment.len(), 1);
    let result = function.call(&mut environment, vec![number(1.0), number(2.0)]);
    assert!(matches!(result, Err(RuntimeError::WrongArgumentsForFunction(_, 1, 2))));
    assert_eq!(environment.len(), 1);
}

#[test]
fn literals_have_their_values() {
    assert!(matches!(ExprEvaluator::literal(&Token::t_nil(1)), Some(RuntimeType::Nil())));
    assert!(matches!(ExprEvaluator::literal(&Token::t_true(1)), Some(RuntimeType::Boolean(true))));
    assert!(matches!(ExprEvaluator::literal(&Token::t_false(1)), Some(RuntimeType::Boolean(false))));
    let string = Token::t_literal("\"a\"".to_string(), "a".to_string(), 1);
    assert!(matches!(ExprEvaluator::literal(&string), Some(RuntimeType::String(s)) if s == "a"));
    let one = Token::t_number("1".to_string(), "1.0".to_string(), 1);
    assert!(ExprEvaluator::literal(&one).is_none());
    assert!(matches!(ExprEvaluator::literal(&Token::t_plus(1)), Some(RuntimeType::Nil())));
}

#[test]
fn unary_operators_on_values() {
    assert!(matches!(
        ExprEvaluator::unary(&Token::t_bang(1), RuntimeType::Nil()),
        Ok(RuntimeType::Boolean(true))
    ));
    assert!(matches!(
        ExprEvaluator::unary(&Token::t_bang(1), number(0.0)),
        Ok(RuntimeType::Boolean(false))
    ));
    assert!(matches!(
        ExprEvaluator::unary(&Token::t_minus(1), number(2.0)),
        Ok(RuntimeType::Number(bits)) if bits == (-2f64).to_bits()
    ));
    assert!(matches!(
        ExprEvaluator::unary(&Token::t_minus(9), text("a")),
        Err(RuntimeError::UnaryError(m)) if m == "Operand must be a number.\n[line 9]"
    ));
    assert!(matches!(
        ExprEvaluator::unary(&Token::t_plus(1), number(2.0)),
        Ok(RuntimeType::Nil())
    ));
}

#[test]
fn arithmetic_is_handed_to_the_host() {
    let (a, b) = (6f64.to_bits(), 3f64.to_bits());
    for (operator, operation) in [
        (Token::t_plus(1), Operation::Add),
        (Token::t_minus(1), Operation::Subtract),
        (Token::t_star(1), Operation::Multiply),
        (Token::t_slash(1), Operation::Divide),
    ] {
        match ExprEvaluator::binary(&operator, number(6.0), number(3.0)) {
            Applied::Arithmetic(found, x, y) => {
                assert_eq!(found, operation);
                assert_eq!((x, y), (a, b));
            }
            _ => panic!("an operation for the host"),
        }
    }
}

#[test]
fn comparisons_are_decided_here() {
    let cases = [
        (Token::t_greater(1), 2.0, 1.0, true),
        (Token::t_greater(1), 1.0, 1.0, false),
        (Token::t_greater_equal(1), 1.0, 1.0, true),
        (Token::t_greater_equal(1), 0.0, 1.0, false),
        (Token::t_less(1), 1.0, 2.0, true),
        (Token::t_less(1), 2.0, 2.0, false),
        (Token::t_less_equal(1), 2.0, 2.0, true),
        (Token::t_less_equal(1), 3.0, 2.0, false),
        (Token::t_equal_equal(1), 3.0, 3.0, true),
        (Token::t_equal_equal(1), 3.0, 2.0, false),
        (Token::t_bang_equal(1), 3.0, 2.0, true),
        (Token::t_bang_equal(1), 3.0, 3.0, false),
        (Token::t_greater_equal(1), f64::NAN, f64::NAN, false),
        (Token::t_less_equal(1), f64::NAN, 1.0, false),
        (Token::t_bang_equal(1), f64::NAN, f64::NAN, true),
    ];
    for (operator, a, b, expected) in cases {
        match ExprEvaluator::binary(&operator, number(a), number(b)) {
            Applied::Value(RuntimeType::Boolean(found)) => {
                assert_eq!(found, expected, "{} {} {}", a, operator.lexeme, b)
            }
            _ => panic!("a boolean"),
        }
    }
    assert!(matches!(
        ExprEvaluator::binary(&Token::t_comma(1), number(1.0), number(2.0)),
        Applied::Value(RuntimeType::Nil())
    ));
}

#[test]
fn strings_and_booleans_under_binary_operators() {
    assert!(matches!(
        ExprEvaluator::binary(&Token::t_plus(1), text("ab"), text("cd")),
        Applied::Value(RuntimeType::String(s)) if s == "abcd"
    ));
    assert!(matches!(
        ExprEvaluator::binary(&Token::t_equal_equal(1), text("ab"), text("ab")),
        Applied::Value(RuntimeType::Boolean(true))
    ));
    assert!(matches!(
        ExprEvaluator::binary(&Token::t_bang_equal(1), text("ab"), text("ab")),
        Applied::Value(RuntimeType::Boolean(false))
    ));
    assert!(matches!(
        ExprEvaluator::binary(&Token::t_star(3), text("ab"), text("ab")),
        Applied::Error(RuntimeError::BinaryError(m)) if m == "Operands must be numbers.\n[line 3]"
    ));
    assert!(matches!(
        ExprEvaluator::binary(
            &Token::t_equal_equal(1),
            RuntimeType::Boolean(true),
            RuntimeType::Boolean(false)
        ),
        Applied::Value(RuntimeType::Boolean(false))
    ));
    assert!(matches!(
        ExprEvaluator::binary(
            &Token::t_less(4),
            RuntimeType::Boolean(true),
            RuntimeType::Boolean(false)
        ),
        Applied::Error(RuntimeError::BinaryError(m))
            if m == "Invalid comparison for booleans.\n[line 4]"
    ));
}

#[test]
fn values_of_two_kinds_are_never_equal() {
    let pairs: Vec<(RuntimeType, RuntimeType)> = vec![
        (number(1.0), text("1")),
        (text("1"), number(1.0)),
        (number(0.0), RuntimeType::Boolean(false)),
        (RuntimeType::Boolean(false), RuntimeType::Nil()),
        (RuntimeType::Nil(), number(0.0)),
        (RuntimeType::Nil(), text("nil")),
    ];
    for (left, right) in pairs {
        assert!(matches!(
            ExprEvaluator::binary(&Token::t_equal_equal(1), left.clone(), right.clone()),
            Applied::Value(RuntimeType::Boolean(false))
        ));
        assert!(matches!(
            ExprEvaluator::binary(&Token::t_bang_equal(1), left.clone(), right.clone()),
            Applied::Value(RuntimeType::Boolean(true))
        ));
        assert!(matches!(
            ExprEvaluator::binary(&Token::t_plus(1), left, right),
            Applied::Error(RuntimeError::BinaryError(_))
        ));
    }
    assert!(matches!(
        ExprEvaluator::binary(&Token::t_minus(2), number(1.0), RuntimeType::Nil()),
        Applied::Error(RuntimeError::BinaryError(m)) if m == "Operands must be numbers.\n[line 2]"
    ));
    assert!(matches!(
        ExprEvaluator::binary(&Token::t_minus(2), RuntimeType::Nil(), number(1.0)),
        Applied::Error(RuntimeError::BinaryError(m))
            if m == "Operands must be two numbers or two strings.\n[line 2]"
    ));
    assert!(matches!(
        ExprEvaluator::binary(&Token::t_equal_equal(2), RuntimeType::Nil(), RuntimeType::Nil()),
        Applied::Error(RuntimeError::BinaryError(m))
            if m == "Operands must be two numbers or two strings.\n[line 2]"
    ));
}

#[test]
fn the_first_step_of_an_expression() {
    let environment = Environment::global();
    let mut stack = Vec::new();
    let nil = Expression::Nil();
    let (control, action) = ExprEvaluator::evaluate(&nil, 0, &environment, &mut stack);
    assert!(matches!(control, Control::Value(RuntimeType::Nil())));
    assert!(matches!(action, Action::Continue));
    assert!(stack.is_empty());

    let one = Expression::Literal(Token::t_number("1".to_string(), "1.0".to_string(), 1));
    let (control, action) = ExprEvaluator::evaluate(&one, 0, &environment, &mut stack);
    assert!(matches!(control, Control::Waiting));
    assert!(matches!(action, Action::Number(literal) if literal == "1.0"));

    let missing = Expression::Identifier(Token::t_identifier("x".to_string(), 1));
    let (control, _) = ExprEvaluator::evaluate(&missing, 0, &environment, &mut stack);
    assert!(matches!(control, Control::Raise(RuntimeError::UndefinedIdentifier(name)) if name == "x"));

    let sum = Expression::Binary(
        Box::new(Expression::Nil()),
        Token::t_plus(1),
        Box::new(Expression::Literal(Token::t_true(1))),
    );
    let (control, _) = ExprEvaluator::evaluate(&sum, 0, &environment, &mut stack);
    assert!(matches!(control, Control::Evaluate(Expression::Nil(), 0)));
    assert_eq!(stack.len(), 1);
    assert!(matches!(stack[0], Frame::Left(_, Expression::Literal(_), 0)));
}

#[test]
fn the_first_step_of_a_statement() {
    let mut environment = Environment::global();
    let mut stack = Vec::new();
    let print = Statement::Print(Box::new(Expression::Nil()));
    let (control, action) = StmtEvaluator::evaluate(&print, 0, &mut environment, &mut stack);
    assert!(matches!(control, Control::Evaluate(Expression::Nil(), 0)));
    assert!(matches!(action, Action::Continue));
    assert!(matches!(stack[0], Frame::Print));

    let block = Statement::Block(Box::new(vec![Statement::Empty()]));
    let (control, _) = StmtEvaluator::evaluate(&block, 0, &mut environment, &mut stack);
    assert!(matches!(control, Control::Value(RuntimeType::Nil())));
    assert_eq!(environment.len(), 2);
    assert!(matches!(stack[1], Frame::Block(_, 0, 1)));

    let function = Statement::Function(
        Token::t_identifier("f".to_string(), 1),
        Vec::new(),
        Box::new(Statement::Empty()),
    );
    let (control, _) = StmtEvaluator::evaluate(&function, 1, &mut environment, &mut stack);
    assert!(matches!(control, Control::Value(RuntimeType::Nil())));
    assert!(matches!(
        environment.get(1, &"f".to_string()),
        Some(RuntimeType::Function(f)) if f.enclosing == 1 && f.fun_name == "f"
    ));
    assert!(environment.get(0, &"f".to_string()).is_none());

    let native = Statement::Native("clock".to_string());
    let (control, action) = StmtEvaluator::evaluate(&native, 0, &mut environment, &mut stack);
    assert!(matches!(control, Control::Waiting));
    assert!(matches!(action, Action::Native(name, arguments) if name == "clock" && arguments.is_empty()));
}

#[test]
fn and_does_not_touch_its_right_operand() {
    let mut environment = Environment::global();
    let mut stack = Vec::new();
    let right = Expression::Identifier(Token::t_identifier("missing".to_string(), 1));
    let and = Token::t_and(1);
    let (control, action) =
        resume(Frame::Logical(&and, &right, 0), RuntimeType::Boolean(false), &mut environment, &mut stack);
    assert!(matches!(control, Control::Value(RuntimeType::Boolean(false))));
    assert!(matches!(action, Action::Continue));
    assert!(stack.is_empty());
    let (control, _) =
        resume(Frame::Logical(&and, &right, 0), RuntimeType::Boolean(true), &mut environment, &mut stack);
    assert!(matches!(control, Control::Evaluate(Expression::Identifier(_), 0)));
    let or = Token::t_or(1);
    let (control, _) = resume(Frame::Logical(&or, &right, 0), text("x"), &mut environment, &mut stack);
    assert!(matches!(control, Control::Value(RuntimeType::String(s)) if s == "x"));
    let (control, _) =
        resume(Frame::Logical(&or, &right, 0), RuntimeType::Nil(), &mut environment, &mut stack);
    assert!(matches!(control, Control::Evaluate(Expression::Identifier(_), 0)));
}

#[test]
fn return_leaves_the_frames_of_the_call() {
    let mut environment = Environment::global();
    let mut stack = Vec::new();
    push_frame(&mut stack, Frame::Print);
    push_frame(&mut stack, Frame::Call);
    push_frame(&mut stack, Frame::Discard);
    let (control, _) = resume(Frame::Return, text("out"), &mut environment, &mut stack);
    assert!(matches!(control, Control::Value(RuntimeType::String(s)) if s == "out"));
    assert_eq!(stack.len(), 1);
    assert!(matches!(stack[0], Frame::Print));
    let (control, _) = resume(Frame::Return, text("top"), &mut environment, &mut stack);
    assert!(matches!(control, Control::Raise(RuntimeError::ReturnValue(RuntimeType::String(s))) if s == "top"));
    assert!(stack.is_empty());
}

#[test]
fn a_machine_that_has_ended_is_idle() {
    let nil = Expression::Nil();
    let machine = Machine::evaluate(Environment::global(), &nil);
    let (machine, action) = machine.step();
    assert!(matches!(action, Action::Continue));
    let (machine, action) = machine.step();
    assert!(matches!(action, Action::Done(RuntimeType::Nil())));
    let (machine, action) = machine.step();
    assert!(matches!(action, Action::Idle));
    let machine = machine.supply(Ok(number(1.0)));
    let (machine, action) = machine.run(10);
    assert!(matches!(action, Action::Idle));
    assert_eq!(machine.into_environment().len(), 1);
}

#[test]
fn a_waiting_machine_goes_on_with_the_reply() {
    let one = Expression::Literal(Token::t_number("1".to_string(), "1.0".to_string(), 1));
    let machine = Machine::evaluate(Environment::global(), &one);
    let (machine, action) = machine.step();
    assert!(matches!(action, Action::Number(literal) if literal == "1.0"));
    let (machine, action) = machine.step();
    assert!(matches!(action, Action::Idle));
    let machine = machine.supply(Ok(number(1.0)));
    let (_, action) = machine.step();
    assert!(matches!(action, Action::Done(RuntimeType::Number(bits)) if bits == 1f64.to_bits()));

    let machine = Machine::evaluate(Environment::global(), &one);
    let (machine, _) = machine.step();
    let machine = machine.supply(Err(RuntimeError::UnaryError("no".to_string())));
    let (_, action) = machine.step();
    assert!(matches!(action, Action::Failed(RuntimeError::UnaryError(m)) if m == "no"));
}

#[test]
fn run_stops_when_its_budget_is_spent() {
    let body = Statement::Empty();
    let forever = Statement::While(Box::new(Expression::Literal(Token::t_true(1))), Box::new(body));
    let machine = Machine::execute(Environment::global(), &forever);
    let (machine, action) = machine.run(0);
    assert!(matches!(action, Action::Continue));
    let (machine, action) = machine.run(1000);
    assert!(matches!(action, Action::Continue));
    let (_, action) = machine.run(1);
    assert!(matches!(action, Action::Continue));
}
