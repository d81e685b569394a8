use lox::token::{Token, TokenType, TokenizeError};

fn lex(source: &str) -> (Vec<Token>, Vec<String>) {
    Token::tokenize(&source.to_string())
}

fn lines(source: &str) -> Vec<String> {
    let (tokens, _errors) = lex(source);
    tokens.iter().map(|t| t.to_str()).collect()
}

fn kinds(source: &str) -> Vec<TokenType> {
    let (tokens, _errors) = lex(source);
    tokens.iter().map(|t| t.token_type).collect()
}

#[test]
fn parentheses_with_spaces() {
    assert_eq!(lines("(  )"), vec!["LEFT_PAREN ( null", "RIGHT_PAREN ) null", "EOF  null"]);
}

#[test]
fn number_with_trailing_zero() {
    assert_eq!(lines("12.30"), vec!["NUMBER 12.30 12.3", "EOF  null"]);
}

#[test]
fn whole_number_gets_a_fraction() {
    assert_eq!(lines("10"), vec!["NUMBER 10 10.0", "EOF  null"]);
}

#[test]
fn empty_source_is_one_eof() {
    let (tokens, errors) = lex("");
    assert_eq!(tokens.len(), 1);
    assert_eq!(tokens[0].token_type, TokenType::EOF);
    assert_eq!(tokens[0].line, 1);
    assert!(errors.is_empty());
}

#[test]
fn the_last_token_is_the_only_eof() {
    for source in ["", "1 + 2", "@ \"open", "// only a comment", "fun f() { return 1; }\n"] {
        let found = kinds(source);
        assert_eq!(found.last(), Some(&TokenType::EOF));
        assert_eq!(found.iter().filter(|k| **k == TokenType::EOF).count(), 1);
    }
}

#[test]
fn no_trivia_is_emitted() {
    let found = kinds(" \t\n// a comment\n ( ) ");
    assert_eq!(found, vec![TokenType::LeftParen, TokenType::RightParen, TokenType::EOF]);
}

#[test]
fn punctuation() {
    assert_eq!(
        lines("(){},.+*-;"),
        vec![
            "LEFT_PAREN ( null",
            "RIGHT_PAREN ) null",
            "LEFT_BRACE { null",
            "RIGHT_BRACE } null",
            "COMMA , null",
            "DOT . null",
            "PLUS + null",
            "STAR * null",
            "MINUS - null",
            "SEMICOLON ; null",
            "EOF  null",
        ]
    );
}

#[test]
fn the_longest_operator_wins() {
    assert_eq!(
        kinds("<= < >= > != ! == = /"),
        vec![
            TokenType::LessEqual,
            TokenType::Less,
            TokenType::GreaterEqual,
            TokenType::Greater,
            TokenType::BangEqual,
            TokenType::Bang,
            TokenType::EqualEqual,
            TokenType::Equal,
            TokenType::Slash,
            TokenType::EOF,
        ]
    );
    assert_eq!(kinds("==="), vec![TokenType::EqualEqual, TokenType::Equal, TokenType::EOF]);
    assert_eq!(kinds("!"), vec![TokenType::Bang, TokenType::EOF]);
    assert_eq!(lines("<="), vec!["LESS_EQUAL <= null", "EOF  null"]);
}

#[test]
fn a_comment_runs_to_the_end_of_its_line() {
    let (tokens, errors) = lex("1 // two @ \"three\n4");
    assert!(errors.is_empty());
    assert_eq!(tokens.len(), 3);
    assert_eq!(tokens[0].lexeme, "1");
    assert_eq!(tokens[1].lexeme, "4");
    assert_eq!(tokens[1].line, 2);
    assert_eq!(kinds("/ /"), vec![TokenType::Slash, TokenType::Slash, TokenType::EOF]);
}

#[test]
fn keywords_are_exact_words() {
    assert_eq!(
        kinds("and class else false for fun if nil or return super this true var while print"),
        vec![
            TokenType::And,
            TokenType::Class,
            TokenType::Else,
            TokenType::False,
            TokenType::For,
            TokenType::Fun,
            TokenType::If,
            TokenType::Nil,
            TokenType::Or,
            TokenType::Return,
            TokenType::Super,
            TokenType::This,
            TokenType::True,
            TokenType::Var,
            TokenType::While,
            TokenType::Print,
            TokenType::EOF,
        ]
    );
    assert_eq!(lines("while"), vec!["WHILE while null", "EOF  null"]);
    assert_eq!(
        lines("and_ Or printer _ _x1 x_2y"),
        vec![
            "IDENTIFIER and_ null",
            "IDENTIFIER Or null",
            "IDENTIFIER printer null",
            "IDENTIFIER _ null",
            "IDENTIFIER _x1 null",
            "IDENTIFIER x_2y null",
            "EOF  null",
        ]
    );
}

#[test]
fn identifiers_do_not_start_with_a_digit() {
    assert_eq!(lines("1a"), vec!["NUMBER 1 1.0", "IDENTIFIER a null", "EOF  null"]);
}

#[test]
fn numbers() {
    assert_eq!(lines("0"), vec!["NUMBER 0 0.0", "EOF  null"]);
    assert_eq!(lines("007"), vec!["NUMBER 007 7.0", "EOF  null"]);
    assert_eq!(lines("000"), vec!["NUMBER 000 0.0", "EOF  null"]);
    assert_eq!(lines("0.50"), vec!["NUMBER 0.50 0.5", "EOF  null"]);
    assert_eq!(lines("1.000"), vec!["NUMBER 1.000 1.0", "EOF  null"]);
    assert_eq!(lines("10.01"), vec!["NUMBER 10.01 10.01", "EOF  null"]);
    assert_eq!(lines("100.0100"), vec!["NUMBER 100.0100 100.01", "EOF  null"]);
    assert_eq!(lines("3.14159"), vec!["NUMBER 3.14159 3.14159", "EOF  null"]);
}

#[test]
fn a_dot_needs_a_digit_behind_it() {
    assert_eq!(lines("1."), vec!["NUMBER 1 1.0", "DOT . null", "EOF  null"]);
    assert_eq!(lines("1.a"), vec!["NUMBER 1 1.0", "DOT . null", "IDENTIFIER a null", "EOF  null"]);
    assert_eq!(
        lines("1.5.3"),
        vec!["NUMBER 1.5 1.5", "DOT . null", "NUMBER 3 3.0", "EOF  null"]
    );
    assert_eq!(lines(".5"), vec!["DOT . null", "NUMBER 5 5.0", "EOF  null"]);
    assert_eq!(lines("1..2"), vec!["NUMBER 1 1.0", "DOT . null", "DOT . null", "NUMBER 2 2.0", "EOF  null"]);
}

#[test]
fn canonical_literal_agrees_with_the_double() {
    for lexeme in ["12.30", "10", "0.1", "007", "1234567.125", "0.000001", "99999999999999", "5.0"] {
        let number: f64 = lexeme.parse().unwrap();
        let expected =
            if number.fract() == 0. { format!("{}.0", number) } else { number.to_string() };
        let (tokens, _) = lex(lexeme);
        assert_eq!(tokens[0].literal, expected, "for {}", lexeme);
    }
}

#[test]
fn strings() {
    assert_eq!(lines("\"foo bar\""), vec!["STRING \"foo bar\" foo bar", "EOF  null"]);
    assert_eq!(lines("\"\""), vec!["STRING \"\" ", "EOF  null"]);
    assert_eq!(lines("\"a\"\"b\""), vec!["STRING \"a\" a", "STRING \"b\" b", "EOF  null"]);
}

#[test]
fn strings_keep_what_is_no_ascii() {
    let (tokens, errors) = lex("\"héllo → wörld\" x");
    assert!(errors.is_empty());
    assert_eq!(tokens[0].token_type, TokenType::String);
    assert_eq!(tokens[0].lexeme, "\"héllo → wörld\"");
    assert_eq!(tokens[0].literal, "héllo → wörld");
    assert_eq!(tokens[1].lexeme, "x");
}

#[test]
fn a_string_may_span_lines() {
    let (tokens, errors) = lex("\"a\nb\" x\ny");
    assert!(errors.is_empty());
    assert_eq!(tokens[0].literal, "a\nb");
    assert_eq!(tokens[0].line, 1);
    assert_eq!(tokens[1].lexeme, "x");
    assert_eq!(tokens[1].line, 2);
    assert_eq!(tokens[2].lexeme, "y");
    assert_eq!(tokens[2].line, 3);
    assert_eq!(tokens[3].line, 3);
}

#[test]
fn an_unterminated_string_is_an_error() {
    let (tokens, errors) = lex("\"abc");
    assert_eq!(errors, vec!["[line 1] Error: Unterminated string."]);
    assert_eq!(tokens.len(), 1);
    assert_eq!(tokens[0].token_type, TokenType::EOF);
}

#[test]
fn lexing_resumes_on_the_line_after_an_unterminated_string() {
    let (tokens, errors) = lex("1 \"abc def\nvar x");
    assert_eq!(errors, vec!["[line 1] Error: Unterminated string."]);
    let found: Vec<(TokenType, usize)> = tokens.iter().map(|t| (t.token_type, t.line)).collect();
    assert_eq!(
        found,
        vec![
            (TokenType::Number, 1),
            (TokenType::Var, 2),
            (TokenType::Identifier, 2),
            (TokenType::EOF, 2),
        ]
    );
}

#[test]
fn an_unexpected_character_is_an_error_and_lexing_goes_on() {
    let (tokens, errors) = lex(",.$(#");
    assert_eq!(
        errors,
        vec!["[line 1] Error: Unexpected character: $", "[line 1] Error: Unexpected character: #"]
    );
    assert_eq!(
        tokens.iter().map(|t| t.token_type).collect::<Vec<_>>(),
        vec![TokenType::Comma, TokenType::Dot, TokenType::LeftParen, TokenType::EOF]
    );
}

#[test]
fn errors_name_their_line() {
    let (_, errors) = lex("\n\n@\n\"open");
    assert_eq!(
        errors,
        vec!["[line 3] Error: Unexpected character: @", "[line 4] Error: Unterminated string."]
    );
    let long = "\n".repeat(11) + "%";
    let (_, errors) = lex(&long);
    assert_eq!(errors, vec!["[line 12] Error: Unexpected character: %"]);
}

#[test]
fn bytes_above_ascii_outside_strings_are_unexpected() {
    let (tokens, errors) = lex("é");
    assert_eq!(tokens.len(), 1);
    assert_eq!(
        errors,
        vec!["[line 1] Error: Unexpected character: Ã", "[line 1] Error: Unexpected character: ©"]
    );
}

#[test]
fn tokens_know_their_line() {
    let (tokens, _) = lex("a\n\nb // c\n\td\n");
    let found: Vec<(String, usize)> = tokens.iter().map(|t| (t.lexeme.clone(), t.line)).collect();
    assert_eq!(
        found,
        vec![
            ("a".to_string(), 1),
            ("b".to_string(), 3),
            ("d".to_string(), 4),
            ("".to_string(), 5),
        ]
    );
}

#[test]
fn lexemes_and_trivia_spell_the_source() {
    let source = "var a = 12.50; // note\nprint \"x y\" + a;\n";
    let (tokens, errors) = lex(source);
    assert!(errors.is_empty());
    let mut at = 0;
    for token in &tokens {
        let found = if token.token_type == TokenType::EOF {
            source.len() - at
        } else {
            source[at..].find(token.lexeme.as_str()).unwrap()
        };
        let between = &source[at..at + found];
        let code = between.split("//").next().unwrap();
        assert!(code.chars().all(|c| c == ' ' || c == '\t' || c == '\n'), "{:?}", between);
        at += found + token.lexeme.len();
    }
    assert_eq!(at, source.len());
}

#[test]
fn constructors_fix_name_lexeme_and_literal() {
    assert_eq!(Token::t_left_paren(3).to_str(), "LEFT_PAREN ( null");
    assert_eq!(Token::t_right_paren(1).to_str(), "RIGHT_PAREN ) null");
    assert_eq!(Token::t_left_brace(1).to_str(), "LEFT_BRACE { null");
    assert_eq!(Token::t_right_brace(1).to_str(), "RIGHT_BRACE } null");
    assert_eq!(Token::t_comma(1).to_str(), "COMMA , null");
    assert_eq!(Token::t_dot(1).to_str(), "DOT . null");
    assert_eq!(Token::t_plus(1).to_str(), "PLUS + null");
    assert_eq!(Token::t_star(1).to_str(), "STAR * null");
    assert_eq!(Token::t_minus(1).to_str(), "MINUS - null");
    assert_eq!(Token::t_semicolon(1).to_str(), "SEMICOLON ; null");
    assert_eq!(Token::t_space(1).to_str(), "SPACE  null");
    assert_eq!(Token::t_tab(1).to_str(), "TAB  null");
    assert_eq!(Token::t_less(1).to_str(), "LESS < null");
    assert_eq!(Token::t_less_equal(1).to_str(), "LESS_EQUAL <= null");
    assert_eq!(Token::t_greater(1).to_str(), "GREATER > null");
    assert_eq!(Token::t_greater_equal(1).to_str(), "GREATER_EQUAL >= null");
    assert_eq!(Token::t_bang(1).to_str(), "BANG ! null");
    assert_eq!(Token::t_bang_equal(1).to_str(), "BANG_EQUAL != null");
    assert_eq!(Token::t_equal(1).to_str(), "EQUAL = null");
    assert_eq!(Token::t_equal_equal(1).to_str(), "EQUAL_EQUAL == null");
    assert_eq!(Token::t_slash(1).to_str(), "SLASH / null");
    assert_eq!(Token::t_comment(1).to_str(), "COMMENT // null");
    assert_eq!(Token::t_and(1).to_str(), "AND and null");
    assert_eq!(Token::t_class(1).to_str(), "CLASS class null");
    assert_eq!(Token::t_else(1).to_str(), "ELSE else null");
    assert_eq!(Token::t_false(1).to_str(), "FALSE false null");
    assert_eq!(Token::t_for(1).to_str(), "FOR for null");
    assert_eq!(Token::t_fun(1).to_str(), "FUN fun null");
    assert_eq!(Token::t_if(1).to_str(), "IF if null");
    assert_eq!(Token::t_nil(1).to_str(), "NIL nil null");
    assert_eq!(Token::t_or(1).to_str(), "OR or null");
    assert_eq!(Token::t_return(1).to_str(), "RETURN return null");
    assert_eq!(Token::t_super(1).to_str(), "SUPER super null");
    assert_eq!(Token::t_this(1).to_str(), "THIS this null");
    assert_eq!(Token::t_true(1).to_str(), "TRUE true null");
    assert_eq!(Token::t_var(1).to_str(), "VAR var null");
    assert_eq!(Token::t_while(1).to_str(), "WHILE while null");
    assert_eq!(Token::t_print(1).to_str(), "PRINT print null");
    assert_eq!(Token::t_eol(1).to_str(), "EOL \n null");
    assert_eq!(Token::t_eof(1).to_str(), "EOF  null");
    assert_eq!(
        Token::t_literal("\"a\"".to_string(), "a".to_string(), 1).to_str(),
        "STRING \"a\" a"
    );
    assert_eq!(Token::t_number("1".to_string(), "1.0".to_string(), 1).to_str(), "NUMBER 1 1.0");
    assert_eq!(Token::t_identifier("x".to_string(), 1).to_str(), "IDENTIFIER x null");
}

#[test]
fn constructors_keep_the_line_and_the_kind() {
    let token = Token::t_while(17);
    assert_eq!(token.line, 17);
    assert_eq!(token.token_type, TokenType::While);
    assert_eq!(token.name, "WHILE");
    let copy = token.clone();
    assert_eq!(copy.line, 17);
    assert_eq!(copy.lexeme, "while");
    assert_eq!(copy.literal, "null");
    assert_eq!(Token::t_identifier("abc".to_string(), 2).token_type, TokenType::Identifier);
}

#[test]
fn kinds_have_two_names() {
    assert_eq!(TokenType::LeftParen.name(), "LEFT_PAREN");
    assert_eq!(TokenType::LeftParen.to_string(), "LeftParen");
    assert_eq!(TokenType::GreaterEqual.name(), "GREATER_EQUAL");
    assert_eq!(TokenType::GreaterEqual.to_string(), "GreaterEqual");
    assert_eq!(TokenType::Semicolon.to_string(), "Semicolon");
    assert_eq!(TokenType::EOF.to_string(), "EOF");
    assert_eq!(TokenType::Identifier.name(), "IDENTIFIER");
}

#[test]
fn tokenize_errors_carry_their_message() {
    let unexpected = TokenizeError::UnexpectedCharacter("Unexpected character: @".to_string());
    let open = TokenizeError::UndeterminedString("Unterminated string.".to_string());
    assert!(matches!(unexpected, TokenizeError::UnexpectedCharacter(m) if m.ends_with('@')));
    assert!(matches!(open, TokenizeError::UndeterminedString(m) if m == "Unterminated string."));
}

#[test]
fn decimal_numerals() {
    assert_eq!(lox::text::decimal(0), "0");
    assert_eq!(lox::text::decimal(7), "7");
    assert_eq!(lox::text::decimal(10), "10");
    assert_eq!(lox::text::decimal(1234567890), "1234567890");
    assert_eq!(lox::text::decimal(usize::MAX), usize::MAX.to_string());
    let mut s = "n=".to_string();
    lox::text::push_decimal(&mut s, 405);
    assert_eq!(s, "n=405");
}

#[test]
fn text_helpers() {
    assert_eq!(lox::text::text_of(b"hello world", 6, 11), "world");
    assert_eq!(lox::text::text_of(b"hello", 2, 2), "");
    assert!(lox::text::same_text("für", "für"));
    assert!(!lox::text::same_text("fur", "für"));
    assert!(!lox::text::same_text("a", "ab"));
    assert!(lox::text::same_text("", ""));
}
