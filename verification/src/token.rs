//! Tokens and the lexer.

use vstd::prelude::*;
use vstd::string::*;
pub use crate::lexer::TokenizeError;
use crate::text::same_text;

verus! {

/// The lexical categories. `Space`, `Tab`, `Comment` and `EOL` are trivia:
/// the lexer recognises them and emits none of them.
#[derive(Clone, Copy, Debug, PartialEq, Eq, Structural)]
pub enum TokenType {
    LeftParen,
    RightParen,
    LeftBrace,
    RightBrace,
    Comma,
    Dot,
    Plus,
    Star,
    Minus,
    Semicolon,
    Space,
    Tab,
    Less,
    LessEqual,
    Greater,
    GreaterEqual,
    Bang,
    BangEqual,
    Equal,
    EqualEqual,
    Slash,
    Comment,
    And,
    Class,
    Else,
    False,
    For,
    Fun,
    If,
    Nil,
    Or,
    Return,
    Super,
    This,
    True,
    Var,
    While,
    Print,
    String,
    Number,
    Identifier,
    EOL,
    EOF,
}

impl TokenType {
    /// The upper-case name under which a token of this kind is printed.
    pub open spec fn name_text(self) -> Seq<char> {
        match self {
            TokenType::LeftParen => "LEFT_PAREN"@,
            TokenType::RightParen => "RIGHT_PAREN"@,
            TokenType::LeftBrace => "LEFT_BRACE"@,
            TokenType::RightBrace => "RIGHT_BRACE"@,
            TokenType::Comma => "COMMA"@,
            TokenType::Dot => "DOT"@,
            TokenType::Plus => "PLUS"@,
            TokenType::Star => "STAR"@,
            TokenType::Minus => "MINUS"@,
            TokenType::Semicolon => "SEMICOLON"@,
            TokenType::Space => "SPACE"@,
            TokenType::Tab => "TAB"@,
            TokenType::Less => "LESS"@,
            TokenType::LessEqual => "LESS_EQUAL"@,
            TokenType::Greater => "GREATER"@,
            TokenType::GreaterEqual => "GREATER_EQUAL"@,
            TokenType::Bang => "BANG"@,
            TokenType::BangEqual => "BANG_EQUAL"@,
            TokenType::Equal => "EQUAL"@,
            TokenType::EqualEqual => "EQUAL_EQUAL"@,
            TokenType::Slash => "SLASH"@,
            TokenType::Comment => "COMMENT"@,
            TokenType::And => "AND"@,
            TokenType::Class => "CLASS"@,
            TokenType::Else => "ELSE"@,
            TokenType::False => "FALSE"@,
            TokenType::For => "FOR"@,
            TokenType::Fun => "FUN"@,
            TokenType::If => "IF"@,
            TokenType::Nil => "NIL"@,
            TokenType::Or => "OR"@,
            TokenType::Return => "RETURN"@,
            TokenType::Super => "SUPER"@,
            TokenType::This => "THIS"@,
            TokenType::True => "TRUE"@,
            TokenType::Var => "VAR"@,
            TokenType::While => "WHILE"@,
            TokenType::Print => "PRINT"@,
            TokenType::String => "STRING"@,
            TokenType::Number => "NUMBER"@,
            TokenType::Identifier => "IDENTIFIER"@,
            TokenType::EOL => "EOL"@,
            TokenType::EOF => "EOF"@,
        }
    }

    /// The name of the variant itself, as diagnostics print it.
    pub open spec fn label_text(self) -> Seq<char> {
        match self {
            TokenType::LeftParen => "LeftParen"@,
            TokenType::RightParen => "RightParen"@,
            TokenType::LeftBrace => "LeftBrace"@,
            TokenType::RightBrace => "RightBrace"@,
            TokenType::Comma => "Comma"@,
            TokenType::Dot => "Dot"@,
            TokenType::Plus => "Plus"@,
            TokenType::Star => "Star"@,
            TokenType::Minus => "Minus"@,
            TokenType::Semicolon => "Semicolon"@,
            TokenType::Space => "Space"@,
            TokenType::Tab => "Tab"@,
            TokenType::Less => "Less"@,
            TokenType::LessEqual => "LessEqual"@,
            TokenType::Greater => "Greater"@,
            TokenType::GreaterEqual => "GreaterEqual"@,
            TokenType::Bang => "Bang"@,
            TokenType::BangEqual => "BangEqual"@,
            TokenType::Equal => "Equal"@,
            TokenType::EqualEqual => "EqualEqual"@,
            TokenType::Slash => "Slash"@,
            TokenType::Comment => "Comment"@,
            TokenType::And => "And"@,
            TokenType::Class => "Class"@,
            TokenType::Else => "Else"@,
            TokenType::False => "False"@,
            TokenType::For => "For"@,
            TokenType::Fun => "Fun"@,
            TokenType::If => "If"@,
            TokenType::Nil => "Nil"@,
            TokenType::Or => "Or"@,
            TokenType::Return => "Return"@,
            TokenType::Super => "Super"@,
            TokenType::This => "This"@,
            TokenType::True => "True"@,
            TokenType::Var => "Var"@,
            TokenType::While => "While"@,
            TokenType::Print => "Print"@,
            TokenType::String => "String"@,
            TokenType::Number => "Number"@,
            TokenType::Identifier => "Identifier"@,
            TokenType::EOL => "EOL"@,
            TokenType::EOF => "EOF"@,
        }
    }

    /// The lexeme of a token of this kind where the kind fixes it; empty for
    /// strings, numbers and identifiers, whose lexeme comes from the source.
    pub open spec fn lexeme_text(self) -> Seq<char> {
        match self {
            TokenType::LeftParen => "("@,
            TokenType::RightParen => ")"@,
            TokenType::LeftBrace => "{"@,
            TokenType::RightBrace => "}"@,
            TokenType::Comma => ","@,
            TokenType::Dot => "."@,
            TokenType::Plus => "+"@,
            TokenType::Star => "*"@,
            TokenType::Minus => "-"@,
            TokenType::Semicolon => ";"@,
            TokenType::Space => ""@,
            TokenType::Tab => ""@,
            TokenType::Less => "<"@,
            TokenType::LessEqual => "<="@,
            TokenType::Greater => ">"@,
            TokenType::GreaterEqual => ">="@,
            TokenType::Bang => "!"@,
            TokenType::BangEqual => "!="@,
            TokenType::Equal => "="@,
            TokenType::EqualEqual => "=="@,
            TokenType::Slash => "/"@,
            TokenType::Comment => "//"@,
            TokenType::And => "and"@,
            TokenType::Class => "class"@,
            TokenType::Else => "else"@,
            TokenType::False => "false"@,
            TokenType::For => "for"@,
            TokenType::Fun => "fun"@,
            TokenType::If => "if"@,
            TokenType::Nil => "nil"@,
            TokenType::Or => "or"@,
            TokenType::Return => "return"@,
            TokenType::Super => "super"@,
            TokenType::This => "this"@,
            TokenType::True => "true"@,
            TokenType::Var => "var"@,
            TokenType::While => "while"@,
            TokenType::Print => "print"@,
            TokenType::String => ""@,
            TokenType::Number => ""@,
            TokenType::Identifier => ""@,
            TokenType::EOL => "\n"@,
            TokenType::EOF => ""@,
        }
    }

    /// Whether the lexer drops tokens of this kind.
    pub open spec fn is_trivia(self) -> bool {
        self == TokenType::Space || self == TokenType::Tab || self == TokenType::Comment || self
            == TokenType::EOL
    }

    /// The upper-case name under which a token of this kind is printed.
    pub fn name(self) -> (r: &'static str)
        ensures
            r@ == self.name_text(),
    {
        match self {
            TokenType::LeftParen => "LEFT_PAREN",
            TokenType::RightParen => "RIGHT_PAREN",
            TokenType::LeftBrace => "LEFT_BRACE",
            TokenType::RightBrace => "RIGHT_BRACE",
            TokenType::Comma => "COMMA",
            TokenType::Dot => "DOT",
            TokenType::Plus => "PLUS",
            TokenType::Star => "STAR",
            TokenType::Minus => "MINUS",
            TokenType::Semicolon => "SEMICOLON",
            TokenType::Space => "SPACE",
            TokenType::Tab => "TAB",
            TokenType::Less => "LESS",
            TokenType::LessEqual => "LESS_EQUAL",
            TokenType::Greater => "GREATER",
            TokenType::GreaterEqual => "GREATER_EQUAL",
            TokenType::Bang => "BANG",
            TokenType::BangEqual => "BANG_EQUAL",
            TokenType::Equal => "EQUAL",
            TokenType::EqualEqual => "EQUAL_EQUAL",
            TokenType::Slash => "SLASH",
            TokenType::Comment => "COMMENT",
            TokenType::And => "AND",
            TokenType::Class => "CLASS",
            TokenType::Else => "ELSE",
            TokenType::False => "FALSE",
            TokenType::For => "FOR",
            TokenType::Fun => "FUN",
            TokenType::If => "IF",
            TokenType::Nil => "NIL",
            TokenType::Or => "OR",
            TokenType::Return => "RETURN",
            TokenType::Super => "SUPER",
            TokenType::This => "THIS",
            TokenType::True => "TRUE",
            TokenType::Var => "VAR",
            TokenType::While => "WHILE",
            TokenType::Print => "PRINT",
            TokenType::String => "STRING",
            TokenType::Number => "NUMBER",
            TokenType::Identifier => "IDENTIFIER",
            TokenType::EOL => "EOL",
            TokenType::EOF => "EOF",
        }
    }

    /// The name of the variant itself, as diagnostics print it.
    pub fn to_string(&self) -> (r: String)
        ensures
            r@ == self.label_text(),
    {
        let label: &'static str = match self {
            TokenType::LeftParen => "LeftParen",
            TokenType::RightParen => "RightParen",
            TokenType::LeftBrace => "LeftBrace",
            TokenType::RightBrace => "RightBrace",
            TokenType::Comma => "Comma",
            TokenType::Dot => "Dot",
            TokenType::Plus => "Plus",
            TokenType::Star => "Star",
            TokenType::Minus => "Minus",
            TokenType::Semicolon => "Semicolon",
            TokenType::Space => "Space",
            TokenType::Tab => "Tab",
            TokenType::Less => "Less",
            TokenType::LessEqual => "LessEqual",
            TokenType::Greater => "Greater",
            TokenType::GreaterEqual => "GreaterEqual",
            TokenType::Bang => "Bang",
            TokenType::BangEqual => "BangEqual",
            TokenType::Equal => "Equal",
            TokenType::EqualEqual => "EqualEqual",
            TokenType::Slash => "Slash",
            TokenType::Comment => "Comment",
            TokenType::And => "And",
            TokenType::Class => "Class",
            TokenType::Else => "Else",
            TokenType::False => "False",
            TokenType::For => "For",
            TokenType::Fun => "Fun",
            TokenType::If => "If",
            TokenType::Nil => "Nil",
            TokenType::Or => "Or",
            TokenType::Return => "Return",
            TokenType::Super => "Super",
            TokenType::This => "This",
            TokenType::True => "True",
            TokenType::Var => "Var",
            TokenType::While => "While",
            TokenType::Print => "Print",
            TokenType::String => "String",
            TokenType::Number => "Number",
            TokenType::Identifier => "Identifier",
            TokenType::EOL => "EOL",
            TokenType::EOF => "EOF",
        };
        String::from_str(label)
    }

    /// The lexeme that the kind fixes.
    fn lexeme(self) -> (r: &'static str)
        ensures
            r@ == self.lexeme_text(),
    {
        match self {
            TokenType::LeftParen => "(",
            TokenType::RightParen => ")",
            TokenType::LeftBrace => "{",
            TokenType::RightBrace => "}",
            TokenType::Comma => ",",
            TokenType::Dot => ".",
            TokenType::Plus => "+",
            TokenType::Star => "*",
            TokenType::Minus => "-",
            TokenType::Semicolon => ";",
            TokenType::Space => "",
            TokenType::Tab => "",
            TokenType::Less => "<",
            TokenType::LessEqual => "<=",
            TokenType::Greater => ">",
            TokenType::GreaterEqual => ">=",
            TokenType::Bang => "!",
            TokenType::BangEqual => "!=",
            TokenType::Equal => "=",
            TokenType::EqualEqual => "==",
            TokenType::Slash => "/",
            TokenType::Comment => "//",
            TokenType::And => "and",
            TokenType::Class => "class",
            TokenType::Else => "else",
            TokenType::False => "false",
            TokenType::For => "for",
            TokenType::Fun => "fun",
            TokenType::If => "if",
            TokenType::Nil => "nil",
            TokenType::Or => "or",
            TokenType::Return => "return",
            TokenType::Super => "super",
            TokenType::This => "this",
            TokenType::True => "true",
            TokenType::Var => "var",
            TokenType::While => "while",
            TokenType::Print => "print",
            TokenType::String => "",
            TokenType::Number => "",
            TokenType::Identifier => "",
            TokenType::EOL => "\n",
            TokenType::EOF => "",
        }
    }
}

/// One token: its kind, its printed name, the matched text, the payload
/// (`null` where the kind carries none) and the line on which it starts.
#[derive(Debug)]
pub struct Token {
    pub token_type: TokenType,
    pub name: &'static str,
    pub lexeme: String,
    pub literal: String,
    pub line: usize,
}

/// The mathematical value of a token.
pub struct TokenView {
    pub token_type: TokenType,
    pub name: Seq<char>,
    pub lexeme: Seq<char>,
    pub literal: Seq<char>,
    pub line: nat,
}

impl View for Token {
    type V = TokenView;

    open spec fn view(&self) -> TokenView {
        TokenView {
            token_type: self.token_type,
            name: self.name@,
            lexeme: self.lexeme@,
            literal: self.literal@,
            line: self.line as nat,
        }
    }
}

impl Clone for Token {
    fn clone(&self) -> (r: Self)
        ensures
            r == *self,
    {
        Token {
            token_type: self.token_type,
            name: self.name,
            lexeme: self.lexeme.clone(),
            literal: self.literal.clone(),
            line: self.line,
        }
    }
}

/// Tokens are equal where all their parts are.
impl PartialEq for Token {
    fn eq(&self, other: &Self) -> (r: bool) {
        self.token_type == other.token_type && same_text(self.name, other.name) && self.lexeme
            == other.lexeme && self.literal == other.literal && self.line == other.line
    }
}

impl vstd::std_specs::cmp::PartialEqSpecImpl for Token {
    open spec fn obeys_eq_spec() -> bool {
        true
    }

    open spec fn eq_spec(&self, other: &Self) -> bool {
        self@ == other@
    }
}

/// The views of a sequence of tokens.
pub open spec fn token_views(tokens: Seq<Token>) -> Seq<TokenView> {
    Seq::new(tokens.len(), |i: int| tokens[i]@)
}

/// The token of a kind that fixes its lexeme.
pub open spec fn fixed_token(kind: TokenType, line: nat) -> TokenView {
    TokenView {
        token_type: kind,
        name: kind.name_text(),
        lexeme: kind.lexeme_text(),
        literal: "null"@,
        line,
    }
}

/// A string token: the lexeme with its quotes, the literal without.
pub open spec fn string_token(lexeme: Seq<char>, literal: Seq<char>, line: nat) -> TokenView {
    TokenView {
        token_type: TokenType::String,
        name: TokenType::String.name_text(),
        lexeme,
        literal,
        line,
    }
}

/// A number token.
pub open spec fn number_token(lexeme: Seq<char>, literal: Seq<char>, line: nat) -> TokenView {
    TokenView {
        token_type: TokenType::Number,
        name: TokenType::Number.name_text(),
        lexeme,
        literal,
        line,
    }
}

/// An identifier token.
pub open spec fn identifier_token(lexeme: Seq<char>, line: nat) -> TokenView {
    TokenView {
        token_type: TokenType::Identifier,
        name: TokenType::Identifier.name_text(),
        lexeme,
        literal: "null"@,
        line,
    }
}

/// What one token prints as: name, lexeme and literal, a space between.
pub open spec fn token_line(token: TokenView) -> Seq<char> {
    token.name + seq![' '] + token.lexeme + seq![' '] + token.literal
}

impl Token {
    /// The token of a kind that fixes its lexeme.
    fn fixed(kind: TokenType, line: usize) -> (r: Token)
        ensures
            r@ == fixed_token(kind, line as nat),
    {
        Token {
            token_type: kind,
            name: kind.name(),
            lexeme: String::from_str(kind.lexeme()),
            literal: String::from_str("null"),
            line,
        }
    }

    /// The token `(` on `line`.
    pub fn t_left_paren(line: usize) -> (r: Token)
        ensures
            r@ == fixed_token(TokenType::LeftParen, line as nat),
    {
        Token::fixed(TokenType::LeftParen, line)
    }

    /// The token `)` on `line`.
    pub fn t_right_paren(line: usize) -> (r: Token)
        ensures
            r@ == fixed_token(TokenType::RightParen, line as nat),
    {
        Token::fixed(TokenType::RightParen, line)
    }

    /// The token `{` on `line`.
    pub fn t_left_brace(line: usize) -> (r: Token)
        ensures
            r@ == fixed_token(TokenType::LeftBrace, line as nat),
    {
        Token::fixed(TokenType::LeftBrace, line)
    }

    /// The token `}` on `line`.
    pub fn t_right_brace(line: usize) -> (r: Token)
        ensures
            r@ == fixed_token(TokenType::RightBrace, line as nat),
    {
        Token::fixed(TokenType::RightBrace, line)
    }

    /// The token `,` on `line`.
    pub fn t_comma(line: usize) -> (r: Token)
        ensures
            r@ == fixed_token(TokenType::Comma, line as nat),
    {
        Token::fixed(TokenType::Comma, line)
    }

    /// The token `.` on `line`.
    pub fn t_dot(line: usize) -> (r: Token)
        ensures
            r@ == fixed_token(TokenType::Dot, line as nat),
    {
        Token::fixed(TokenType::Dot, line)
    }

    /// The token `+` on `line`.
    pub fn t_plus(line: usize) -> (r: Token)
        ensures
            r@ == fixed_token(TokenType::Plus, line as nat),
    {
        Token::fixed(TokenType::Plus, line)
    }

    /// The token `*` on `line`.
    pub fn t_star(line: usize) -> (r: Token)
        ensures
            r@ == fixed_token(TokenType::Star, line as nat),
    {
        Token::fixed(TokenType::Star, line)
    }

    /// The token `-` on `line`.
    pub fn t_minus(line: usize) -> (r: Token)
        ensures
            r@ == fixed_token(TokenType::Minus, line as nat),
    {
        Token::fixed(TokenType::Minus, line)
    }

    /// The token `;` on `line`.
    pub fn t_semicolon(line: usize) -> (r: Token)
        ensures
            r@ == fixed_token(TokenType::Semicolon, line as nat),
    {
        Token::fixed(TokenType::Semicolon, line)
    }

    /// The trivia that a space is.
    pub fn t_space(line: usize) -> (r: Token)
        ensures
            r@ == fixed_token(TokenType::Space, line as nat),
    {
        Token::fixed(TokenType::Space, line)
    }

    /// The trivia that a tab is.
    pub fn t_tab(line: usize) -> (r: Token)
        ensures
            r@ == fixed_token(TokenType::Tab, line as nat),
    {
        Token::fixed(TokenType::Tab, line)
    }

    /// The token `<` on `line`.
    pub fn t_less(line: usize) -> (r: Token)
        ensures
            r@ == fixed_token(TokenType::Less, line as nat),
    {
        Token::fixed(TokenType::Less, line)
    }

    /// The token `<=` on `line`.
    pub fn t_less_equal(line: usize) -> (r: Token)
        ensures
            r@ == fixed_token(TokenType::LessEqual, line as nat),
    {
        Token::fixed(TokenType::LessEqual, line)
    }

    /// The token `>` on `line`.
    pub fn t_greater(line: usize) -> (r: Token)
        ensures
            r@ == fixed_token(TokenType::Greater, line as nat),
    {
        Token::fixed(TokenType::Greater, line)
    }

    /// The token `>=` on `line`.
    pub fn t_greater_equal(line: usize) -> (r: Token)
        ensures
            r@ == fixed_token(TokenType::GreaterEqual, line as nat),
    {
        Token::fixed(TokenType::GreaterEqual, line)
    }

    /// The token `!` on `line`.
    pub fn t_bang(line: usize) -> (r: Token)
        ensures
            r@ == fixed_token(TokenType::Bang, line as nat),
    {
        Token::fixed(TokenType::Bang, line)
    }

    /// The token `!=` on `line`.
    pub fn t_bang_equal(line: usize) -> (r: Token)
        ensures
            r@ == fixed_token(TokenType::BangEqual, line as nat),
    {
        Token::fixed(TokenType::BangEqual, line)
    }

    /// The token `=` on `line`.
    pub fn t_equal(line: usize) -> (r: Token)
        ensures
            r@ == fixed_token(TokenType::Equal, line as nat),
    {
        Token::fixed(TokenType::Equal, line)
    }

    /// The token `==` on `line`.
    pub fn t_equal_equal(line: usize) -> (r: Token)
        ensures
            r@ == fixed_token(TokenType::EqualEqual, line as nat),
    {
        Token::fixed(TokenType::EqualEqual, line)
    }

    /// The token `/` on `line`.
    pub fn t_slash(line: usize) -> (r: Token)
        ensures
            r@ == fixed_token(TokenType::Slash, line as nat),
    {
        Token::fixed(TokenType::Slash, line)
    }

    /// The trivia that `//` starts.
    pub fn t_comment(line: usize) -> (r: Token)
        ensures
            r@ == fixed_token(TokenType::Comment, line as nat),
    {
        Token::fixed(TokenType::Comment, line)
    }

    /// The keyword `and` on `line`.
    pub fn t_and(line: usize) -> (r: Token)
        ensures
            r@ == fixed_token(TokenType::And, line as nat),
    {
        Token::fixed(TokenType::And, line)
    }

    /// The keyword `class` on `line`.
    pub fn t_class(line: usize) -> (r: Token)
        ensures
            r@ == fixed_token(TokenType::Class, line as nat),
    {
        Token::fixed(TokenType::Class, line)
    }

    /// The keyword `else` on `line`.
    pub fn t_else(line: usize) -> (r: Token)
        ensures
            r@ == fixed_token(TokenType::Else, line as nat),
    {
        Token::fixed(TokenType::Else, line)
    }

    /// The keyword `false` on `line`.
    pub fn t_false(line: usize) -> (r: Token)
        ensures
            r@ == fixed_token(TokenType::False, line as nat),
    {
        Token::fixed(TokenType::False, line)
    }

    /// The keyword `for` on `line`.
    pub fn t_for(line: usize) -> (r: Token)
        ensures
            r@ == fixed_token(TokenType::For, line as nat),
    {
        Token::fixed(TokenType::For, line)
    }

    /// The keyword `fun` on `line`.
    pub fn t_fun(line: usize) -> (r: Token)
        ensures
            r@ == fixed_token(TokenType::Fun, line as nat),
    {
        Token::fixed(TokenType::Fun, line)
    }

    /// The keyword `if` on `line`.
    pub fn t_if(line: usize) -> (r: Token)
        ensures
            r@ == fixed_token(TokenType::If, line as nat),
    {
        Token::fixed(TokenType::If, line)
    }

    /// The keyword `nil` on `line`.
    pub fn t_nil(line: usize) -> (r: Token)
        ensures
            r@ == fixed_token(TokenType::Nil, line as nat),
    {
        Token::fixed(TokenType::Nil, line)
    }

    /// The keyword `or` on `line`.
    pub fn t_or(line: usize) -> (r: Token)
        ensures
            r@ == fixed_token(TokenType::Or, line as nat),
    {
        Token::fixed(TokenType::Or, line)
    }

    /// The keyword `return` on `line`.
    pub fn t_return(line: usize) -> (r: Token)
        ensures
            r@ == fixed_token(TokenType::Return, line as nat),
    {
        Token::fixed(TokenType::Return, line)
    }

    /// The keyword `super` on `line`.
    pub fn t_super(line: usize) -> (r: Token)
        ensures
            r@ == fixed_token(TokenType::Super, line as nat),
    {
        Token::fixed(TokenType::Super, line)
    }

    /// The keyword `this` on `line`.
    pub fn t_this(line: usize) -> (r: Token)
        ensures
            r@ == fixed_token(TokenType::This, line as nat),
    {
        Token::fixed(TokenType::This, line)
    }

    /// The keyword `true` on `line`.
    pub fn t_true(line: usize) -> (r: Token)
        ensures
            r@ == fixed_token(TokenType::True, line as nat),
    {
        Token::fixed(TokenType::True, line)
    }

    /// The keyword `var` on `line`.
    pub fn t_var(line: usize) -> (r: Token)
        ensures
            r@ == fixed_token(TokenType::Var, line as nat),
    {
        Token::fixed(TokenType::Var, line)
    }

    /// The keyword `while` on `line`.
    pub fn t_while(line: usize) -> (r: Token)
        ensures
            r@ == fixed_token(TokenType::While, line as nat),
    {
        Token::fixed(TokenType::While, line)
    }

    /// The keyword `print` on `line`.
    pub fn t_print(line: usize) -> (r: Token)
        ensures
            r@ == fixed_token(TokenType::Print, line as nat),
    {
        Token::fixed(TokenType::Print, line)
    }

    /// A string token: the lexeme with its quotes, the literal without.
    pub fn t_literal(lexeme: String, literal: String, line: usize) -> (r: Token)
        ensures
            r@ == string_token(lexeme@, literal@, line as nat),
    {
        Token {
            token_type: TokenType::String,
            name: TokenType::String.name(),
            lexeme,
            literal,
            line,
        }
    }

    /// A number token: the lexeme as the source spells it, the literal in
    /// canonical form.
    pub fn t_number(lexeme: String, literal: String, line: usize) -> (r: Token)
        ensures
            r@ == number_token(lexeme@, literal@, line as nat),
    {
        Token {
            token_type: TokenType::Number,
            name: TokenType::Number.name(),
            lexeme,
            literal,
            line,
        }
    }

    /// An identifier token.
    pub fn t_identifier(lexeme: String, line: usize) -> (r: Token)
        ensures
            r@ == identifier_token(lexeme@, line as nat),
    {
        Token {
            token_type: TokenType::Identifier,
            name: TokenType::Identifier.name(),
            lexeme,
            literal: String::from_str("null"),
            line,
        }
    }

    /// The trivia that the end of a line is.
    pub fn t_eol(line: usize) -> (r: Token)
        ensures
            r@ == fixed_token(TokenType::EOL, line as nat),
    {
        Token::fixed(TokenType::EOL, line)
    }

    /// The token that ends the tokens.
    pub fn t_eof(line: usize) -> (r: Token)
        ensures
            r@ == fixed_token(TokenType::EOF, line as nat),
    {
        Token::fixed(TokenType::EOF, line)
    }

    /// The line that the token prints as: name, lexeme, literal.
    pub fn to_str(&self) -> (r: String)
        ensures
            r@ == token_line(self@),
    {
        proof {
            reveal_strlit(" ");
        }
        let mut s = String::from_str(self.name);
        s.append(" ");
        s.append(self.lexeme.as_str());
        s.append(" ");
        s.append(self.literal.as_str());
        s
    }
}

} // verus!
