use lox::expression::parser::ExprParser;
use lox::expression::Expression;
use lox::parser::parser_error::ParserError;
use lox::parser::parser_utils::ParserUtils;
use lox::parser::Parser;
use lox::statement::parser::StmtParser;
use lox::statement::Statement;
use lox::token::{Token, TokenType};

fn tokens(source: &str) -> Vec<Token> {
    let (tokens, errors) = Token::tokenize(&source.to_string());
    assert!(errors.is_empty(), "{:?}", errors);
    tokens
}

fn expression(source: &str) -> String {
    Parser::parse_expression(&tokens(source)).expect("an expression").to_string()
}

fn expression_error(source: &str) -> String {
    Parser::parse_expression(&tokens(source)).err().expect("a syntax error").to_string()
}

fn program(source: &str) -> Vec<String> {
    Parser::parse_statements(&tokens(source))
        .expect("a program")
        .iter()
        .map(|s| s.to_string())
        .collect()
}

fn program_error(source: &str) -> String {
    Parser::parse_statements(&tokens(source)).err().expect("a syntax error").to_string()
}

#[test]
fn literals_print_their_payload() {
    assert_eq!(expression("1"), "1.0");
    assert_eq!(expression("2.50"), "2.5");
    assert_eq!(expression("\"text\""), "text");
    assert_eq!(expression("nil"), "nil");
    assert_eq!(expression("true"), "true");
    assert_eq!(expression("false"), "false");
}

#[test]
fn operators_print_in_prefix_form() {
    assert_eq!(expression("(1 + 2) * -3"), "(* (group (+ 1.0 2.0)) (- 3.0))");
    assert_eq!(expression("!true"), "(! true)");
    assert_eq!(expression("!!x"), "(! (! x))");
    assert_eq!(expression("(\"a\")"), "(group a)");
}

#[test]
fn factors_bind_tighter_than_terms() {
    assert_eq!(expression("1 + 2 * 3"), "(+ 1.0 (* 2.0 3.0))");
    assert_eq!(expression("1 * 2 + 3"), "(+ (* 1.0 2.0) 3.0)");
    assert_eq!(expression("1 < 2 + 3"), "(< 1.0 (+ 2.0 3.0))");
    assert_eq!(expression("1 + 2 != 3 * 4"), "(!= (+ 1.0 2.0) (* 3.0 4.0))");
    assert_eq!(expression("-1 * 2"), "(* (- 1.0) 2.0)");
}

#[test]
fn binary_operators_associate_to_the_left() {
    assert_eq!(expression("1 - 2 - 3"), "(- (- 1.0 2.0) 3.0)");
    assert_eq!(expression("8 / 4 / 2"), "(/ (/ 8.0 4.0) 2.0)");
    assert_eq!(expression("1 < 2 < 3"), "(< (< 1.0 2.0) 3.0)");
    assert_eq!(expression("1 != 2 != 3"), "(!= (!= 1.0 2.0) 3.0)");
    assert_eq!(expression("1 == 2 >= 3"), "(>= (== 1.0 2.0) 3.0)");
}

#[test]
fn logical_operators_print_between_their_operands() {
    assert_eq!(expression("a and b"), "a and b");
    assert_eq!(expression("a or b and c"), "a or b and c");
    assert_eq!(expression("a and b or c"), "a and b or c");
    assert_eq!(expression("a == 1 and b"), "(== a 1.0) and b");
    let parsed = Parser::parse_expression(&tokens("a or b and c")).unwrap();
    match parsed {
        Expression::Logical(left, operator, right) => {
            assert_eq!(operator.token_type, TokenType::Or);
            assert!(matches!(*left, Expression::Identifier(_)));
            assert!(matches!(*right, Expression::Logical(_, _, _)));
        }
        _ => panic!("an or"),
    }
}

#[test]
fn assignment_associates_to_the_right() {
    assert_eq!(expression("a = 1"), "a = 1.0");
    assert_eq!(expression("a = b = 2"), "a = b = 2.0");
    assert_eq!(expression("a = 1 + 2"), "a = (+ 1.0 2.0)");
    let parsed = Parser::parse_expression(&tokens("a = b = 2")).unwrap();
    match parsed {
        Expression::Assign(name, value) => {
            assert_eq!(name.lexeme, "a");
            assert!(matches!(*value, Expression::Assign(_, _)));
        }
        _ => panic!("an assignment"),
    }
}

#[test]
fn assignment_needs_a_variable_on_its_left() {
    let error = Parser::parse_expression(&tokens("1 + 2 = 3")).err().unwrap();
    assert!(matches!(&error, ParserError::InvalidAssignment(text) if text == "(+ 1.0 2.0)"));
    assert_eq!(error.to_string(), "(+ 1.0 2.0)");
    assert_eq!(expression_error("(a) = 3"), "(group a)");
    assert_eq!(expression_error("a = "), "a");
}

#[test]
fn calls() {
    assert_eq!(expression("f()"), "f()");
    assert_eq!(expression("f(1)"), "f(1.0)");
    assert_eq!(expression("f(1, a + 2, \"s\")"), "f(1.0, (+ a 2.0), s)");
    assert_eq!(expression("f(g(1))"), "f(g(1.0))");
    assert_eq!(expression("f(1)(2)()"), "f(1.0)(2.0)()");
    assert_eq!(expression("-f(1)"), "(- f(1.0))");
    let parsed = Parser::parse_expression(&tokens("f(1, 2)")).unwrap();
    match parsed {
        Expression::Call(callee, arguments) => {
            assert!(matches!(*callee, Expression::Identifier(_)));
            assert_eq!(arguments.len(), 2);
        }
        _ => panic!("a call"),
    }
}

#[test]
fn a_call_needs_its_closing_parenthesis() {
    let error = Parser::parse_expression(&tokens("f(1")).err().unwrap();
    assert!(matches!(error, ParserError::MissingToken(TokenType::RightParen)));
    assert_eq!(error.to_string(), "Missing Token: RightParen.");
    assert_eq!(expression_error("f(1 2)"), "Missing Token: RightParen.");
}

#[test]
fn a_group_needs_its_closing_parenthesis() {
    let error = Parser::parse_expression(&tokens("(1 + 2")).err().unwrap();
    assert!(matches!(error, ParserError::UnmatchedParentheses()));
    assert_eq!(error.to_string(), "Error: Unmatched parentheses");
}

#[test]
fn an_expression_has_to_start_somewhere() {
    let error = Parser::parse_expression(&tokens("")).err().unwrap();
    assert!(matches!(error, ParserError::ExpectExpression(_)));
    assert_eq!(error.to_string(), "Expect expression. Expected LeftParen, got nothing.");
    assert_eq!(
        expression_error("1 + "),
        "Expect expression. Expected LeftParen, got nothing."
    );
    assert_eq!(expression_error("*"), "Expect expression. Expected LeftParen, got nothing.");
}

#[test]
fn a_semicolon_ends_an_expression() {
    assert_eq!(expression("1 + 2; 3"), "(+ 1.0 2.0)");
    let list = tokens("1 + 2; 3");
    let mut index = 0;
    let parsed = ExprParser::expression(&list, &mut index).unwrap();
    assert_eq!(parsed.to_string(), "(+ 1.0 2.0)");
    assert_eq!(index, 3);
    let again = ExprParser::parse(&list).unwrap();
    assert_eq!(again.to_string(), "(+ 1.0 2.0)");
}

#[test]
fn assignment_from_a_position() {
    let list = tokens("x x = 1 + 2 ;");
    let mut index = 1;
    let parsed = ExprParser::assignment(&list, &mut index).unwrap();
    assert_eq!(parsed.to_string(), "x = (+ 1.0 2.0)");
    assert_eq!(index, 6);
}

#[test]
fn match_advance_moves_past_a_match_only() {
    let list = tokens("+ ; -");
    let mut index = 0;
    assert!(ParserUtils::match_advance(&list, &mut index, &[TokenType::Minus]).is_none());
    assert_eq!(index, 0);
    let plus = ParserUtils::match_advance(&list, &mut index, &[TokenType::Minus, TokenType::Plus]);
    assert_eq!(plus.unwrap().token_type, TokenType::Plus);
    assert_eq!(index, 1);
    assert!(ParserUtils::match_advance(&list, &mut index, &[TokenType::Semicolon]).is_none());
    assert_eq!(index, 1);
    index = 4;
    assert!(ParserUtils::match_advance(&list, &mut index, &[TokenType::EOF]).is_none());
    assert_eq!(index, 4);
}

#[test]
fn matches_looks_for_the_kind() {
    let token = Token::t_plus(1);
    assert!(ParserUtils::matches(&token, &[TokenType::Minus, TokenType::Plus]));
    assert!(!ParserUtils::matches(&token, &[TokenType::Minus]));
    assert!(!ParserUtils::matches(&token, &[]));
}

#[test]
fn statements_describe_themselves() {
    assert_eq!(program("print 1;"), vec!["Print: 1.0", ""]);
    assert_eq!(program("1 + 2;"), vec!["Expression: (+ 1.0 2.0)", ""]);
    assert_eq!(program("var a = 1;"), vec!["Var: a, 1.0", ""]);
    assert_eq!(program("var a;"), vec!["Var: a, nil", ""]);
    assert_eq!(
        program("{ print 1; print 2; }"),
        vec!["Statements: \n    Print: 1.0\n    Print: 2.0", ""]
    );
    assert_eq!(
        program("if (a) print 1; else print 2;"),
        vec!["If:\n  Condition: (group a);\n  Then: Print: 1.0;\n  Else: Print: 2.0;", ""]
    );
    assert_eq!(
        program("if (a) print 1;"),
        vec!["If:\n  Condition: (group a);\n  Then: Print: 1.0;\n  Else: ;", ""]
    );
    assert_eq!(
        program("while (a) a = 1;"),
        vec!["While:\n Condition: (group a);\n Statement: Expression: a = 1.0", ""]
    );
    assert_eq!(program("return 1;"), vec!["Return: 1.0", ""]);
    assert_eq!(program("return;"), vec!["Return: nil", ""]);
    assert_eq!(
        program("fun f(a, b) { return a; }"),
        vec![
            "Function: name = f, args = IDENTIFIER a null, IDENTIFIER b null, \
             body = Statements: \n    Return: a",
            ""
        ]
    );
    assert_eq!(Statement::Native("clock".to_string()).to_string(), "Native function");
}

#[test]
fn the_end_of_the_tokens_is_an_empty_statement() {
    let statements = Parser::parse_statements(&tokens("")).unwrap();
    assert_eq!(statements.len(), 1);
    assert!(matches!(statements[0], Statement::Empty()));
    let statements = StmtParser::parse(&tokens("print 1; print 2;")).unwrap();
    assert_eq!(statements.len(), 3);
    assert!(matches!(statements[2], Statement::Empty()));
}

#[test]
fn for_is_rewritten_to_while() {
    let statements = Parser::parse_statements(&tokens("for (var i = 0; i < 3; i = i + 1) print i;"))
        .unwrap();
    assert_eq!(
        statements[0].to_string(),
        "Statements: \n    Var: i, 0.0\n    While:\n Condition: (< i 3.0);\n \
         Statement: Statements: \n    Print: i\n    Expression: i = (+ i 1.0)"
    );
    match &statements[0] {
        Statement::Block(outer) => {
            assert_eq!(outer.len(), 2);
            assert!(matches!(outer[0], Statement::Var(_, _)));
            match &outer[1] {
                Statement::While(_, body) => match &**body {
                    Statement::Block(inner) => {
                        assert_eq!(inner.len(), 2);
                        assert!(matches!(inner[0], Statement::Print(_)));
                        assert!(matches!(inner[1], Statement::Expression(_)));
                    }
                    _ => panic!("a block in the loop"),
                },
                _ => panic!("a loop"),
            }
        }
        _ => panic!("a block"),
    }
}

#[test]
fn clauses_of_for_may_be_left_out() {
    let statements = Parser::parse_statements(&tokens("for (;;) print 1;")).unwrap();
    match &statements[0] {
        Statement::Block(outer) => {
            assert!(matches!(outer[0], Statement::Empty()));
            match &outer[1] {
                Statement::While(condition, body) => {
                    match &**condition {
                        Expression::Literal(token) => {
                            assert_eq!(token.token_type, TokenType::True);
                            assert_eq!(token.lexeme, "true");
                        }
                        _ => panic!("a literal"),
                    }
                    match &**body {
                        Statement::Block(inner) => match &inner[1] {
                            Statement::Expression(increment) => {
                                assert!(matches!(**increment, Expression::Nil()))
                            }
                            _ => panic!("an expression statement"),
                        },
                        _ => panic!("a block in the loop"),
                    }
                }
                _ => panic!("a loop"),
            }
        }
        _ => panic!("a block"),
    }
    assert_eq!(
        program("for (a = 1; a < 2;) {}")[0],
        "Statements: \n    Expression: a = 1.0\n    While:\n Condition: (< a 2.0);\n \
         Statement: Statements: \n    Statements: \n  \n    Expression: nil"
    );
}

#[test]
fn missing_semicolons() {
    let error = Parser::parse_statements(&tokens("print 1")).err().unwrap();
    assert!(matches!(error, ParserError::MissingToken(TokenType::Semicolon)));
    assert_eq!(error.to_string(), "Missing Token: Semicolon.");
    assert_eq!(program_error("1 + 2"), "Missing Token: Semicolon.");
    assert_eq!(program_error("var a"), "Missing Token: Semicolon.");
    assert_eq!(program_error("var a = 1"), "Missing Token: Semicolon.");
    assert_eq!(program_error("return 1"), "Missing Token: Semicolon.");
    assert_eq!(program_error("for (var i = 0; i < 1) print i;"), "Missing Token: Semicolon.");
}

#[test]
fn missing_braces_and_parentheses() {
    assert_eq!(program_error("{ print 1;"), "Missing Token: RightBrace.");
    assert_eq!(program_error("if a print 1;"), "Missing Token: LeftParen.");
    assert_eq!(program_error("while a print 1;"), "Missing Token: LeftParen.");
    assert_eq!(program_error("for print 1;"), "Missing Token: LeftParen.");
    assert_eq!(program_error("for (;; i = 1 print i;"), "Missing Token: RightParen.");
    assert_eq!(program_error("if (a print 1;"), "Error: Unmatched parentheses");
    assert_eq!(program_error("fun f { }"), "Missing Token: LeftParen.");
    assert_eq!(program_error("fun f(a b) { }"), "Missing Token: RightParen.");
    assert_eq!(program_error("fun f(a, ) { }"), "Missing Token: Identifier.");
    assert_eq!(program_error("fun f(1) { }"), "Missing Token: Identifier.");
    assert_eq!(program_error("fun f() print 1;"), "Missing Token: LeftBrace.");
}

#[test]
fn declarations_need_a_name() {
    assert_eq!(
        program_error("var 3 = 1;"),
        "Expect expression. Expected Indentifier for a variable."
    );
    assert_eq!(
        program_error("fun (a) { }"),
        "Expect expression. Expected Identifier for function name."
    );
}

#[test]
fn an_initialiser_that_fails_is_an_error() {
    assert_eq!(
        program_error("var a = ;"),
        "Expect expression. Expected LeftParen, got nothing."
    );
}

#[test]
fn the_first_error_ends_the_parse() {
    assert_eq!(program_error("print 1; print (2; print 3"), "Error: Unmatched parentheses");
}

#[test]
fn parameters_in_their_parentheses() {
    let list = tokens("(a, b, c) {");
    let mut index = 0;
    let parameters = StmtParser::fun_args(&list, &mut index).unwrap();
    assert_eq!(
        parameters.iter().map(|t| t.lexeme.clone()).collect::<Vec<_>>(),
        vec!["a", "b", "c"]
    );
    assert_eq!(index, 7);
    let list = tokens("() {");
    let mut index = 0;
    assert!(StmtParser::fun_args(&list, &mut index).unwrap().is_empty());
    assert_eq!(index, 2);
}

#[test]
fn an_expression_and_what_closes_it() {
    let list = tokens("1 + 2 ; )");
    let mut index = 0;
    let parsed =
        StmtParser::expression(&list, &mut index, Some(TokenType::Semicolon), false).unwrap();
    assert_eq!(parsed.to_string(), "(+ 1.0 2.0)");
    assert_eq!(index, 4);
    let mut index = 4;
    let parsed =
        StmtParser::expression(&list, &mut index, Some(TokenType::RightParen), true).unwrap();
    assert!(matches!(parsed, Expression::Nil()));
    assert_eq!(index, 5);
    let mut index = 0;
    let parsed = StmtParser::expression(&list, &mut index, None, false).unwrap();
    assert_eq!(parsed.to_string(), "(+ 1.0 2.0)");
    assert_eq!(index, 3);
    let mut index = 0;
    let error = StmtParser::expression(&list, &mut index, Some(TokenType::RightParen), false)
        .err()
        .unwrap();
    assert!(matches!(error, ParserError::MissingToken(TokenType::RightParen)));
    let mut index = 3;
    let error = StmtParser::expression(&list, &mut index, Some(TokenType::Semicolon), false)
        .err()
        .unwrap();
    assert!(matches!(error, ParserError::ExpectExpression(_)));
}

#[test]
fn parsing_twice_gives_the_same() {
    let source = "fun f(a) { if (a > 1) return a * f(a - 1); return 1; }\nprint f(5);";
    assert_eq!(program(source), program(source));
    assert_eq!(expression("1 + 2 * (3 - x)"), expression("1 + 2 * (3 - x)"));
}

#[test]
fn tokens_without_an_eof_are_parsed_too() {
    let mut list = tokens("print 1;");
    list.pop();
    let statements = Parser::parse_statements(&list).unwrap();
    assert_eq!(statements.len(), 1);
    let mut open = tokens("{ print 1;");
    open.pop();
    let error = Parser::parse_statements(&open).err().unwrap();
    assert!(matches!(error, ParserError::MissingToken(TokenType::RightBrace)));
    let mut call = tokens("f(");
    call.pop();
    let error = Parser::parse_expression(&call).err().unwrap();
    assert!(matches!(error, ParserError::ExpectExpression(_)));
}

#[test]
fn copies_of_trees_print_the_same() {
    let parsed = Parser::parse_expression(&tokens("f(1, a or b)(-2) == (x = \"s\")")).unwrap();
    assert_eq!(parsed.clone().to_string(), parsed.to_string());
    let source = "fun f(a, b) { for (var i = 0; i < a; i = i + 1) { if (i == b) return i; else print i; } }\nwhile (true) f(1, 2);";
    let statements = Parser::parse_statements(&tokens(source)).unwrap();
    for statement in &statements {
        assert_eq!(statement.clone().to_string(), statement.to_string());
    }
    assert_eq!(Statement::Native("n".to_string()).clone().to_string(), "Native function");
}

#[test]
fn tokens_compare_by_all_their_parts() {
    assert!(Token::t_plus(1) == Token::t_plus(1));
    assert!(Token::t_plus(1) != Token::t_plus(2));
    assert!(Token::t_plus(1) != Token::t_minus(1));
    assert!(Token::t_identifier("a".to_string(), 1) == Token::t_identifier("a".to_string(), 1));
    assert!(Token::t_identifier("a".to_string(), 1) != Token::t_identifier("b".to_string(), 1));
    assert!(
        Token::t_number("1".to_string(), "1.0".to_string(), 1)
            != Token::t_number("1".to_string(), "1".to_string(), 1)
    );
    let token = Token::t_literal("\"x\"".to_string(), "x".to_string(), 4);
    assert!(token.clone() == token);
}
