use lox::environment::Environment;
use lox::machine::{Action, Machine};
use lox::parser::parser_error::ParserError;
use lox::parser::Parser;
use lox::runtime::number::Operation;
use lox::runtime::runtime_error::RuntimeError;
use lox::runtime::runtime_type::RuntimeType;
use lox::token::Token;

fn render(value: &RuntimeType) -> String {
    match value {
        RuntimeType::Number(bits) => format!("{}", f64::from_bits(*bits)),
        other => other.to_string().unwrap(),
    }
}

fn message(error: &RuntimeError) -> String {
    match error {
        RuntimeError::ReturnValue(RuntimeType::Number(bits)) => {
            format!("Return error with value: {}", f64::from_bits(*bits))
        }
        other => other.to_string().unwrap(),
    }
}

fn arithmetic(operation: Operation, a: u64, b: u64) -> u64 {
    let (x, y) = (f64::from_bits(a), f64::from_bits(b));
    let r = match operation {
        Operation::Add => x + y,
        Operation::Subtract => x - y,
        Operation::Multiply => x * y,
        Operation::Divide => x / y,
    };
    r.to_bits()
}

fn drive<'a>(
    machine: Machine<'a>,
    printed: &mut Vec<String>,
) -> (Environment<'a>, Result<RuntimeType<'a>, RuntimeError<'a>>) {
    let mut machine = machine;
    loop {
        let (next, action) = machine.run(64);
        machine = next;
        match action {
            Action::Continue => {}
            Action::Print(value) => printed.push(render(&value)),
            Action::Number(literal) => {
                let bits = literal.parse::<f64>().unwrap().to_bits();
                machine = machine.supply(Ok(RuntimeType::Number(bits)));
            }
            Action::Arithmetic(operation, a, b) => {
                machine = machine.supply(Ok(RuntimeType::Number(arithmetic(operation, a, b))));
            }
            Action::Native(name, arguments) => {
                let reply = if name == "answer" {
                    Ok(RuntimeType::Number(42f64.to_bits()))
                } else if name == "count" {
                    Ok(RuntimeType::Number((arguments.len() as f64).to_bits()))
                } else {
                    Err(RuntimeError::UndefinedIdentifier(name))
                };
                machine = machine.supply(reply);
            }
            Action::Done(value) => return (machine.into_environment(), Ok(value)),
            Action::Failed(error) => return (machine.into_environment(), Err(error)),
            Action::Idle => panic!("the machine is idle"),
        }
    }
}

/// What a program prints, and the message of the error that ends it.
fn run(source: &str) -> (Vec<String>, Option<String>) {
    let (tokens, errors) = Token::tokenize(&source.to_string());
    assert!(errors.is_empty(), "lexical errors: {:?}", errors);
    let statements = Parser::parse_statements(&tokens).expect("the program parses");
    let mut printed = Vec::new();
    let (_, result) = drive(Machine::program(Environment::global(), &statements), &mut printed);
    match result {
        Ok(_) => (printed, None),
        Err(error) => (printed, Some(message(&error))),
    }
}

/// The text of the value of an expression, or the message of its error.
fn evaluate(source: &str) -> Result<String, String> {
    let (tokens, errors) = Token::tokenize(&source.to_string());
    assert!(errors.is_empty(), "lexical errors: {:?}", errors);
    let expression = Parser::parse_expression(&tokens).expect("the expression parses");
    let mut printed = Vec::new();
    let (_, result) = drive(Machine::evaluate(Environment::global(), &expression), &mut printed);
    match result {
        Ok(value) => Ok(render(&value)),
        Err(error) => Err(message(&error)),
    }
}

fn parse_error(source: &str) -> ParserError {
    let (tokens, _) = Token::tokenize(&source.to_string());
    Parser::parse_statements(&tokens).err().expect("a syntax error")
}

fn printed(source: &str) -> Vec<String> {
    let (lines, error) = run(source);
    assert_eq!(error, None);
    lines
}

#[test]
fn parse_prints_prefix_form() {
    let (tokens, _) = Token::tokenize(&"(1 + 2) * -3".to_string());
    let expression = Parser::parse_expression(&tokens).unwrap();
    assert_eq!(expression.to_string(), "(* (group (+ 1.0 2.0)) (- 3.0))");
}

#[test]
fn strings_concatenate() {
    assert_eq!(evaluate("\"foo\" + \"bar\""), Ok("foobar".to_string()));
}

#[test]
fn block_shadows_and_restores() {
    assert_eq!(printed("var a = 1;\n{ var a = 2; print a; }\nprint a;\n"), vec!["2", "1"]);
}

#[test]
fn closure_keeps_its_scope() {
    let source = "fun make(n) { fun inc() { n = n + 1; return n; } return inc; }\n\
                  var f = make(10);\n\
                  print f(); print f();\n";
    assert_eq!(printed(source), vec!["11", "12"]);
}

#[test]
fn adding_a_string_to_a_number_fails() {
    let error = evaluate("1 + \"x\"").unwrap_err();
    assert_eq!(error, "Operands must be numbers.\n[line 1]");
}

#[test]
fn var_without_a_name_is_a_syntax_error() {
    assert!(matches!(parse_error("var 3 = 1;"), ParserError::ExpectExpression(_)));
}

#[test]
fn undefined_variable_fails() {
    let (lines, error) = run("print a;");
    assert!(lines.is_empty());
    assert_eq!(error, Some("Statement failure: Identifier 'a' is undefined".to_string()));
}

#[test]
fn arithmetic_follows_precedence() {
    assert_eq!(evaluate("1 + 2 * 3 - 8 / 4"), Ok("5".to_string()));
    assert_eq!(evaluate("(1 + 2) * 3"), Ok("9".to_string()));
    assert_eq!(evaluate("7 / 2"), Ok("3.5".to_string()));
    assert_eq!(evaluate("1 / 0"), Ok("inf".to_string()));
}

#[test]
fn unary_operators() {
    assert_eq!(evaluate("-3"), Ok("-3".to_string()));
    assert_eq!(evaluate("--3"), Ok("3".to_string()));
    assert_eq!(evaluate("!nil"), Ok("true".to_string()));
    assert_eq!(evaluate("!0"), Ok("false".to_string()));
    assert_eq!(evaluate("!\"\""), Ok("false".to_string()));
    assert_eq!(evaluate("-\"a\""), Err("Operand must be a number.\n[line 1]".to_string()));
}

#[test]
fn comparisons_of_numbers() {
    assert_eq!(evaluate("1 < 2"), Ok("true".to_string()));
    assert_eq!(evaluate("2 <= 2"), Ok("true".to_string()));
    assert_eq!(evaluate("1 > 2"), Ok("false".to_string()));
    assert_eq!(evaluate("2 >= 3"), Ok("false".to_string()));
    assert_eq!(evaluate("-1 < 1"), Ok("true".to_string()));
    assert_eq!(evaluate("-1 < -2"), Ok("false".to_string()));
    assert_eq!(evaluate("0 == -0"), Ok("true".to_string()));
    assert_eq!(evaluate("2 != 2"), Ok("false".to_string()));
    assert_eq!(evaluate("(0 / 0) == (0 / 0)"), Ok("false".to_string()));
    assert_eq!(evaluate("(0 / 0) != (0 / 0)"), Ok("true".to_string()));
}

#[test]
fn equality_across_kinds() {
    assert_eq!(evaluate("1 == \"1\""), Ok("false".to_string()));
    assert_eq!(evaluate("\"1\" != 1"), Ok("true".to_string()));
    assert_eq!(evaluate("nil == false"), Ok("false".to_string()));
    assert_eq!(evaluate("true == true"), Ok("true".to_string()));
    assert_eq!(evaluate("true != false"), Ok("true".to_string()));
    assert_eq!(evaluate("\"a\" == \"a\""), Ok("true".to_string()));
    assert_eq!(evaluate("\"a\" != \"b\""), Ok("true".to_string()));
}

#[test]
fn operators_reject_what_they_do_not_take() {
    assert_eq!(
        evaluate("true + false"),
        Err("Invalid comparison for booleans.\n[line 1]".to_string())
    );
    assert_eq!(
        evaluate("nil == nil"),
        Err("Operands must be two numbers or two strings.\n[line 1]".to_string())
    );
    assert_eq!(
        evaluate("nil + 1"),
        Err("Operands must be two numbers or two strings.\n[line 1]".to_string())
    );
    assert_eq!(evaluate("\"a\" - \"b\""), Err("Operands must be numbers.\n[line 1]".to_string()));
    assert_eq!(evaluate("\"a\" < 1"), Err("Operands must be numbers.\n[line 1]".to_string()));
}

#[test]
fn logical_operators_give_an_operand() {
    assert_eq!(evaluate("nil or \"yes\""), Ok("yes".to_string()));
    assert_eq!(evaluate("1 or 2"), Ok("1".to_string()));
    assert_eq!(evaluate("1 and 2"), Ok("2".to_string()));
    assert_eq!(evaluate("nil and 2"), Ok("nil".to_string()));
    assert_eq!(evaluate("false or false"), Ok("false".to_string()));
}

#[test]
fn and_skips_its_right_operand() {
    assert_eq!(evaluate("false and missing"), Ok("false".to_string()));
    assert_eq!(evaluate("true or missing"), Ok("true".to_string()));
    assert_eq!(evaluate("true and missing"), Err("Identifier 'missing' is undefined".to_string()));
}

#[test]
fn assignment_gives_the_value_and_keeps_it() {
    assert_eq!(printed("var a = 1; print a = 2; print a;"), vec!["2", "2"]);
    assert_eq!(printed("var a = 1; { a = 3; } print a;"), vec!["3"]);
    assert_eq!(printed("var a; var b; a = b = 4; print a; print b;"), vec!["4", "4"]);
}

#[test]
fn assignment_makes_no_variable() {
    let (lines, error) = run("a = 1;");
    assert!(lines.is_empty());
    assert_eq!(error, Some("Statement failure: Identifier 'a' is undefined".to_string()));
}

#[test]
fn uninitialised_variable_is_nil() {
    assert_eq!(printed("var a; print a;"), vec!["nil"]);
}

#[test]
fn if_chooses_a_branch() {
    assert_eq!(printed("if (1 < 2) print \"then\"; else print \"else\";"), vec!["then"]);
    assert_eq!(printed("if (nil) print \"then\"; else print \"else\";"), vec!["else"]);
    assert_eq!(printed("if (false) print \"then\";"), Vec::<String>::new());
}

#[test]
fn while_repeats() {
    assert_eq!(
        printed("var i = 0; while (i < 3) { print i; i = i + 1; }"),
        vec!["0", "1", "2"]
    );
}

#[test]
fn for_is_a_while() {
    assert_eq!(
        printed("for (var i = 0; i < 3; i = i + 1) print i;"),
        vec!["0", "1", "2"]
    );
    assert_eq!(
        printed("var i = 5; for (; i < 7;) { print i; i = i + 1; }"),
        vec!["5", "6"]
    );
}

#[test]
fn for_without_a_condition_runs_until_return() {
    let source = "fun f() { for (var i = 0;; i = i + 1) { if (i == 3) return i; } }\nprint f();";
    assert_eq!(printed(source), vec!["3"]);
}

#[test]
fn functions_return_values() {
    let source = "fun add(a, b) { return a + b; }\nprint add(1, 2);\nprint add;";
    assert_eq!(printed(source), vec!["3", "<fn add>"]);
}

#[test]
fn function_without_return_is_nil() {
    assert_eq!(printed("fun f() { 1; }\nprint f();"), vec!["nil"]);
    assert_eq!(printed("fun f() { return; }\nprint f();"), vec!["nil"]);
}

#[test]
fn recursion() {
    let source = "fun fib(n) { if (n < 2) return n; return fib(n - 1) + fib(n - 2); }\n\
                  print fib(15);";
    assert_eq!(printed(source), vec!["610"]);
}

#[test]
fn return_leaves_loops_and_blocks() {
    let source = "fun f() { while (true) { { return \"out\"; } } }\nprint f();";
    assert_eq!(printed(source), vec!["out"]);
}

#[test]
fn calls_of_calls() {
    let source = "fun outer() { fun inner() { return 7; } return inner; }\nprint outer()();";
    assert_eq!(printed(source), vec!["7"]);
}

#[test]
fn wrong_number_of_arguments() {
    let (lines, error) = run("fun f(a) { print \"body\"; }\nf(1, 2);");
    assert!(lines.is_empty());
    assert_eq!(
        error,
        Some(
            "Statement failure: Function 'f' was called with wrong number of arguments. \
             Expected: 1, got: 2"
                .to_string()
        )
    );
}

#[test]
fn calling_what_is_no_function() {
    let (_, error) = run("var a = 1; a();");
    assert_eq!(error, Some("Statement failure: Identifier 'a' is undefined".to_string()));
}

#[test]
fn return_outside_of_a_call() {
    let (lines, error) = run("print 1; return 2; print 3;");
    assert_eq!(lines, vec!["1"]);
    assert_eq!(error, Some("Return error with value: 2".to_string()));
}

#[test]
fn failure_inside_a_call_is_reported_by_each_statement() {
    let (_, error) = run("fun f() { print missing; }\nprint f();");
    assert_eq!(
        error,
        Some("Statement failure: Statement failure: Identifier 'missing' is undefined".to_string())
    );
}

#[test]
fn native_functions_are_the_hosts() {
    let parameters = Vec::new();
    let answer = lox::statement::Statement::Native("answer".to_string());
    let count = lox::statement::Statement::Native("count".to_string());
    let (tokens, _) = Token::tokenize(&"print answer() + count(1, 2, 3);".to_string());
    let statements = Parser::parse_statements(&tokens).unwrap();
    let mut environment = Environment::global();
    environment.define(
        0,
        "answer".to_string(),
        RuntimeType::Function(lox::runtime::runtime_function::RuntimeFunction::new(
            "answer".to_string(),
            &parameters,
            &answer,
            0,
        )),
    );
    environment.define(
        0,
        "count".to_string(),
        RuntimeType::Function(lox::runtime::runtime_function::RuntimeFunction::new(
            "count".to_string(),
            &parameters,
            &count,
            0,
        )),
    );
    let mut printed = Vec::new();
    for statement in &statements {
        let (left, result) = drive(Machine::execute(environment, statement), &mut printed);
        environment = left;
        assert!(result.is_ok());
    }
    assert_eq!(printed, vec!["45"]);
}

#[test]
fn line_of_the_operator_is_in_the_message() {
    let (_, error) = run("var a = 1;\nvar b = \"x\";\nprint a\n  - b;");
    assert_eq!(error, Some("Statement failure: Operands must be numbers.\n[line 4]".to_string()));
}

#[test]
fn number_literals_have_the_value_of_their_text() {
    let environment = Environment::global();
    let (tokens, _) = Token::tokenize(&"12.50".to_string());
    let expression = Parser::parse_expression(&tokens).unwrap();
    let mut printed = Vec::new();
    let (_, result) = drive(Machine::evaluate(environment, &expression), &mut printed);
    assert!(matches!(result, Ok(RuntimeType::Number(bits)) if bits == 12.5f64.to_bits()));
    assert_eq!(evaluate("0.1"), Ok("0.1".to_string()));
    assert_eq!(evaluate("0.1 + 0.2"), Ok("0.30000000000000004".to_string()));
    assert_eq!(evaluate("100"), Ok("100".to_string()));
}

#[test]
fn scopes_of_ended_blocks_stay_for_their_closures() {
    let source = "var get;\n{ var hidden = \"kept\"; fun read() { return hidden; } get = read; }\nprint get();";
    assert_eq!(printed(source), vec!["kept"]);
    let source = "var set; var get;\n{ var n = 1; fun s(v) { n = v; } fun g() { return n; } set = s; get = g; }\nset(5); print get();";
    assert_eq!(printed(source), vec!["5"]);
}

#[test]
fn arguments_are_evaluated_from_the_left() {
    let source = "fun show(v) { print v; return v; }\nfun three(a, b, c) { return c; }\nprint three(show(1), show(2), show(3));";
    assert_eq!(printed(source), vec!["1", "2", "3", "3"]);
}

#[test]
fn a_callee_that_is_no_function_fails_before_the_arguments() {
    let (lines, error) = run("fun show(v) { print v; return v; }\nvar a = 1;\na(show(2));");
    assert!(lines.is_empty());
    assert_eq!(error, Some("Statement failure: Identifier 'a' is undefined".to_string()));
    let (_, error) = run("\"text\"();");
    assert_eq!(error, Some("Statement failure: Identifier 'text' is undefined".to_string()));
}

#[test]
fn parameters_shadow_outer_names() {
    let source = "var a = \"outer\";\nfun f(a) { print a; a = \"changed\"; print a; }\nf(\"inner\"); print a;";
    assert_eq!(printed(source), vec!["inner", "changed", "outer"]);
}

#[test]
fn calls_see_the_scope_of_the_definition() {
    let source = "var a = \"global\";\nfun show() { print a; }\n{ var a = \"local\"; show(); }";
    assert_eq!(printed(source), vec!["global"]);
}

#[test]
fn a_program_is_its_statements_in_their_order() {
    let (tokens, _) = Token::tokenize(&"var a = 1; print a; a = a + 1; print a;".to_string());
    let statements = Parser::parse_statements(&tokens).unwrap();
    let mut together = Vec::new();
    let (left, result) = drive(Machine::program(Environment::global(), &statements), &mut together);
    assert!(matches!(result, Ok(RuntimeType::Nil())));
    assert_eq!(left.len(), 1);
    let mut one_by_one = Vec::new();
    let mut environment = Environment::global();
    for statement in &statements {
        let (next, result) = drive(Machine::execute(environment, statement), &mut one_by_one);
        environment = next;
        assert!(result.is_ok());
    }
    assert_eq!(together, vec!["1", "2"]);
    assert_eq!(together, one_by_one);
}

#[test]
fn an_empty_program_ends_at_once() {
    let statements = Vec::new();
    let mut printed = Vec::new();
    let (_, result) = drive(Machine::program(Environment::global(), &statements), &mut printed);
    assert!(matches!(result, Ok(RuntimeType::Nil())));
    assert!(printed.is_empty());
}
