//! The lexer: source bytes to tokens and error messages.
//!
//! The source is read byte by byte. Letters are the letters of ASCII; a byte
//! above ASCII is part of the source only inside a string or a comment, and
//! an unexpected character anywhere else. The line of a token is the line
//! on which it starts, counted by the line feeds before it.
//!
//! The literal of a number is the decimal of the numeral itself, in a
//! canonical form. Numbers are doubles, of which this library holds only
//! the bits: a host that wants the decimal of the nearest double computes it
//! from the lexeme and makes the token anew with [`Token::t_number`].

use vstd::prelude::*;
use vstd::slice::slice_subrange;
use vstd::string::*;
use vstd::utf8::{
    decode_utf8, decode_utf8_encode_utf8, encode_utf8, is_ascii_chars_encode_utf8, valid_utf8,
};
use crate::text::{ascii_text, decimal_text, push_decimal, same_text, text_of, utf8_text};
use crate::token::{
    fixed_token, identifier_token, number_token, string_token, token_views, Token, TokenType,
    TokenView,
};

verus! {

/// Why no token starts at a position.
#[derive(Debug)]
pub enum TokenizeError {
    /// A byte with which no token starts; the message names it.
    UnexpectedCharacter(String),
    /// A string without its closing quote.
    UndeterminedString(String),
}

/// The mathematical value of a [`TokenizeError`].
pub enum TokenizeErrorView {
    UnexpectedCharacter(Seq<char>),
    UndeterminedString(Seq<char>),
}

impl View for TokenizeError {
    type V = TokenizeErrorView;

    open spec fn view(&self) -> TokenizeErrorView {
        match self {
            TokenizeError::UnexpectedCharacter(m) => TokenizeErrorView::UnexpectedCharacter(m@),
            TokenizeError::UndeterminedString(m) => TokenizeErrorView::UndeterminedString(m@),
        }
    }
}

/// The classes of bytes of which the lexer consumes whole runs.
#[derive(Clone, Copy, Debug, PartialEq, Eq, Structural)]
pub enum ByteClass {
    /// A decimal digit.
    Digit,
    /// A letter, a digit or `_`.
    Word,
    /// Anything but a line feed.
    Line,
    /// Anything but a double quote.
    Text,
}

/// Whether the byte is a decimal digit.
pub open spec fn is_digit(b: u8) -> bool {
    '0' <= b as char <= '9'
}

/// Whether the byte is a letter of ASCII or `_`.
pub open spec fn is_letter(b: u8) -> bool {
    let c = b as char;
    ('a' <= c <= 'z') || ('A' <= c <= 'Z') || c == '_'
}

/// Whether the byte is of the class.
pub open spec fn in_class(class: ByteClass, b: u8) -> bool {
    match class {
        ByteClass::Digit => is_digit(b),
        ByteClass::Word => is_letter(b) || is_digit(b),
        ByteClass::Line => b as char != '\n',
        ByteClass::Text => b as char != '"',
    }
}

/// The end of the longest run of bytes of `class` that starts at `from`.
pub open spec fn run_end(bytes: Seq<u8>, from: int, class: ByteClass) -> int
    decreases bytes.len() - from,
{
    if 0 <= from < bytes.len() && in_class(class, bytes[from]) {
        run_end(bytes, from + 1, class)
    } else {
        from
    }
}

/// The number of line feeds among the first `to` bytes.
pub open spec fn newlines(bytes: Seq<u8>, to: int) -> nat
    decreases to,
{
    if to <= 0 || to > bytes.len() {
        0
    } else {
        newlines(bytes, to - 1) + if bytes[to - 1] as char == '\n' {
            1nat
        } else {
            0nat
        }
    }
}

/// The 1-based line on which position `i` lies.
pub open spec fn line_at(bytes: Seq<u8>, i: int) -> nat {
    1 + newlines(bytes, i)
}

/// Where the number that starts at `i` ends: after the digits, and after a
/// `.` with the digits behind it where at least one digit follows the `.`.
pub open spec fn number_end(bytes: Seq<u8>, i: int) -> int {
    let whole = run_end(bytes, i, ByteClass::Digit);
    if whole + 1 < bytes.len() && bytes[whole] as char == '.' && is_digit(bytes[whole + 1]) {
        run_end(bytes, whole + 1, ByteClass::Digit)
    } else {
        whole
    }
}

/// The first position in `from..to` that holds no `0`, or `to - 1` if all do.
pub open spec fn leading_zeros(bytes: Seq<u8>, from: int, to: int) -> int
    decreases to - from,
{
    if 0 <= from && from + 1 < to <= bytes.len() && bytes[from] as char == '0' {
        leading_zeros(bytes, from + 1, to)
    } else {
        from
    }
}

/// The end of `from..to` once the `0`s at its end are taken off.
pub open spec fn trailing_zeros(bytes: Seq<u8>, from: int, to: int) -> int
    decreases to - from,
{
    if 0 <= from < to <= bytes.len() && bytes[to - 1] as char == '0' {
        trailing_zeros(bytes, from, to - 1)
    } else {
        to
    }
}

/// The canonical decimal of the number in `start..end`, whose digits before
/// the `.` end at `dot`: no needless zeros, and always a fraction, `.0`
/// where the number has none.
pub open spec fn number_literal(bytes: Seq<u8>, start: int, dot: int, end: int) -> Seq<char> {
    let lead = leading_zeros(bytes, start, dot);
    let whole = ascii_text(bytes.subrange(lead, dot));
    let kept = if dot < end {
        trailing_zeros(bytes, dot + 1, end)
    } else {
        dot + 1
    };
    let fraction = if dot + 1 < kept {
        ascii_text(bytes.subrange(dot + 1, kept))
    } else {
        seq!['0']
    };
    whole + seq!['.'] + fraction
}

/// The keyword that `word` spells, if it is one.
pub open spec fn keyword(word: Seq<char>) -> Option<TokenType> {
    if word == "and"@ {
        Some(TokenType::And)
    } else if word == "class"@ {
        Some(TokenType::Class)
    } else if word == "else"@ {
        Some(TokenType::Else)
    } else if word == "false"@ {
        Some(TokenType::False)
    } else if word == "for"@ {
        Some(TokenType::For)
    } else if word == "fun"@ {
        Some(TokenType::Fun)
    } else if word == "if"@ {
        Some(TokenType::If)
    } else if word == "nil"@ {
        Some(TokenType::Nil)
    } else if word == "or"@ {
        Some(TokenType::Or)
    } else if word == "return"@ {
        Some(TokenType::Return)
    } else if word == "super"@ {
        Some(TokenType::Super)
    } else if word == "this"@ {
        Some(TokenType::This)
    } else if word == "true"@ {
        Some(TokenType::True)
    } else if word == "var"@ {
        Some(TokenType::Var)
    } else if word == "while"@ {
        Some(TokenType::While)
    } else if word == "print"@ {
        Some(TokenType::Print)
    } else {
        None
    }
}

/// A token and the number of bytes that it spans, or the reason why no token
/// starts here.
pub type Scanned = Result<(TokenView, nat), TokenizeErrorView>;

/// The word that starts at `i`: a keyword or an identifier.
pub open spec fn scan_word(bytes: Seq<u8>, i: int, line: nat) -> Scanned {
    let end = run_end(bytes, i, ByteClass::Word);
    let word = ascii_text(bytes.subrange(i, end));
    match keyword(word) {
        Some(kind) => Ok((fixed_token(kind, line), (end - i) as nat)),
        None => Ok((identifier_token(word, line), (end - i) as nat)),
    }
}

/// The number that starts at `i`.
pub open spec fn scan_number(bytes: Seq<u8>, i: int, line: nat) -> Scanned {
    let dot = run_end(bytes, i, ByteClass::Digit);
    let end = number_end(bytes, i);
    Ok(
        (
            number_token(
                ascii_text(bytes.subrange(i, end)),
                number_literal(bytes, i, dot, end),
                line,
            ),
            (end - i) as nat,
        ),
    )
}

/// The string whose opening quote is at `i`. It runs to the next quote, on
/// whatever line that is; what lies between must be well-formed UTF-8.
pub open spec fn scan_string(bytes: Seq<u8>, i: int, line: nat) -> Scanned {
    let close = run_end(bytes, i + 1, ByteClass::Text);
    let inner = bytes.subrange(i + 1, close);
    if close < bytes.len() && valid_utf8(inner) {
        Ok(
            (
                string_token(
                    seq!['"'] + decode_utf8(inner) + seq!['"'],
                    decode_utf8(inner),
                    line,
                ),
                (close + 1 - i) as nat,
            ),
        )
    } else {
        Err(TokenizeErrorView::UndeterminedString("Unterminated string."@))
    }
}

/// The one-byte token at `i`, or the two-byte token `double` where the byte
/// `second` follows.
pub open spec fn scan_pair(
    bytes: Seq<u8>,
    i: int,
    second: char,
    single: TokenType,
    double: TokenType,
    line: nat,
) -> Scanned {
    if i + 1 < bytes.len() && bytes[i + 1] as char == second {
        Ok((fixed_token(double, line), 2))
    } else {
        Ok((fixed_token(single, line), 1))
    }
}

/// The kind of the one-byte token that `c` is, trivia included.
pub open spec fn single(c: char) -> Option<TokenType> {
    if c == '(' {
        Some(TokenType::LeftParen)
    } else if c == ')' {
        Some(TokenType::RightParen)
    } else if c == '{' {
        Some(TokenType::LeftBrace)
    } else if c == '}' {
        Some(TokenType::RightBrace)
    } else if c == ',' {
        Some(TokenType::Comma)
    } else if c == '.' {
        Some(TokenType::Dot)
    } else if c == '+' {
        Some(TokenType::Plus)
    } else if c == '*' {
        Some(TokenType::Star)
    } else if c == '-' {
        Some(TokenType::Minus)
    } else if c == ';' {
        Some(TokenType::Semicolon)
    } else if c == ' ' {
        Some(TokenType::Space)
    } else if c == '\t' {
        Some(TokenType::Tab)
    } else if c == '\n' {
        Some(TokenType::EOL)
    } else {
        None
    }
}

/// What starts at position `i`, which lies on `line`.
pub open spec fn scan(bytes: Seq<u8>, i: int, line: nat) -> Scanned
    recommends
        0 <= i < bytes.len(),
{
    let c = bytes[i] as char;
    if single(c) is Some {
        Ok((fixed_token(single(c)->0, line), 1))
    } else if c == '/' {
        scan_pair(bytes, i, '/', TokenType::Slash, TokenType::Comment, line)
    } else if c == '<' {
        scan_pair(bytes, i, '=', TokenType::Less, TokenType::LessEqual, line)
    } else if c == '>' {
        scan_pair(bytes, i, '=', TokenType::Greater, TokenType::GreaterEqual, line)
    } else if c == '!' {
        scan_pair(bytes, i, '=', TokenType::Bang, TokenType::BangEqual, line)
    } else if c == '=' {
        scan_pair(bytes, i, '=', TokenType::Equal, TokenType::EqualEqual, line)
    } else if c == '"' {
        scan_string(bytes, i, line)
    } else if is_digit(bytes[i]) {
        scan_number(bytes, i, line)
    } else if is_letter(bytes[i]) {
        scan_word(bytes, i, line)
    } else {
        Err(TokenizeErrorView::UnexpectedCharacter("Unexpected character: "@.push(c)))
    }
}

/// An error message with the line on which the error starts.
pub open spec fn error_line(line: nat, message: Seq<char>) -> Seq<char> {
    "[line "@ + decimal_text(line) + "] Error: "@ + message
}

/// What the lexer makes of a source: the tokens, and the error messages.
pub struct Lexed {
    pub tokens: Seq<TokenView>,
    pub errors: Seq<Seq<char>>,
}

/// The position at which lexing goes on after what starts at `i`: behind a
/// token, at the end of the line of a comment or of an unterminated string,
/// behind an unexpected character.
pub open spec fn resume(bytes: Seq<u8>, i: int) -> int {
    match scan(bytes, i, line_at(bytes, i)) {
        Ok((token, len)) => if token.token_type == TokenType::Comment {
            run_end(bytes, i, ByteClass::Line)
        } else {
            i + len
        },
        Err(TokenizeErrorView::UnexpectedCharacter(_)) => i + 1,
        Err(TokenizeErrorView::UndeterminedString(_)) => run_end(bytes, i, ByteClass::Line),
    }
}

/// What the lexer makes of the source from position `i` on. Trivia is
/// dropped and `EOF` closes the tokens. Lexing always moves on
/// ([`lemma_resume_moves_on`]); the definition asks for it only to be well
/// founded.
pub open spec fn lex_from(bytes: Seq<u8>, i: int) -> Lexed
    decreases bytes.len() - i,
{
    if i < 0 || i >= bytes.len() {
        Lexed {
            tokens: seq![fixed_token(TokenType::EOF, line_at(bytes, bytes.len() as int))],
            errors: seq![],
        }
    } else {
        let line = line_at(bytes, i);
        let next = resume(bytes, i);
        let rest = lex_from(
            bytes,
            if i < next <= bytes.len() {
                next
            } else {
                i + 1
            },
        );
        match scan(bytes, i, line) {
            Ok((token, len)) => {
                if token.token_type.is_trivia() {
                    rest
                } else {
                    Lexed { tokens: seq![token] + rest.tokens, errors: rest.errors }
                }
            },
            Err(TokenizeErrorView::UnexpectedCharacter(message)) => Lexed {
                tokens: rest.tokens,
                errors: seq![error_line(line, message)] + rest.errors,
            },
            Err(TokenizeErrorView::UndeterminedString(message)) => Lexed {
                tokens: rest.tokens,
                errors: seq![error_line(line, message)] + rest.errors,
            },
        }
    }
}

/// What the lexer makes of a whole source.
pub open spec fn lex(bytes: Seq<u8>) -> Lexed {
    lex_from(bytes, 0)
}

/// The texts of a sequence of strings.
pub open spec fn texts(strings: Seq<String>) -> Seq<Seq<char>> {
    Seq::new(strings.len(), |i: int| strings[i]@)
}

/// A run ends inside the source, holds only bytes of its class, and stops at
/// the first byte that is not of it.
pub proof fn lemma_run_end(bytes: Seq<u8>, from: int, class: ByteClass)
    requires
        0 <= from <= bytes.len(),
    ensures
        from <= run_end(bytes, from, class) <= bytes.len(),
        forall|k: int| from <= k < run_end(bytes, from, class) ==> in_class(class, #[trigger] bytes[k]),
        run_end(bytes, from, class) < bytes.len() ==> !in_class(
            class,
            bytes[run_end(bytes, from, class)],
        ),
    decreases bytes.len() - from,
{
    if from < bytes.len() && in_class(class, bytes[from]) {
        lemma_run_end(bytes, from + 1, class);
    }
}

/// Lexing moves on from every position, and not past the end.
pub proof fn lemma_resume_moves_on(bytes: Seq<u8>, i: int)
    requires
        0 <= i < bytes.len(),
    ensures
        i < resume(bytes, i) <= bytes.len(),
{
    lemma_run_end(bytes, i, ByteClass::Line);
    lemma_run_end(bytes, i + 1, ByteClass::Text);
    lemma_run_end(bytes, i, ByteClass::Word);
    let whole = run_end(bytes, i, ByteClass::Digit);
    lemma_run_end(bytes, i, ByteClass::Digit);
    if whole + 1 < bytes.len() {
        lemma_run_end(bytes, whole + 1, ByteClass::Digit);
    }
}

/// No more line feeds lie before a position than bytes do.
pub proof fn lemma_newlines_bound(bytes: Seq<u8>, to: int)
    requires
        0 <= to <= bytes.len(),
    ensures
        newlines(bytes, to) <= to,
    decreases to,
{
    if to > 0 {
        lemma_newlines_bound(bytes, to - 1);
    }
}

/// No scan gives an `EOF`.
pub proof fn lemma_scan_kind(bytes: Seq<u8>, i: int, line: nat)
    requires
        0 <= i < bytes.len(),
    ensures
        scan(bytes, i, line) matches Ok((token, n)) ==> token.token_type != TokenType::EOF,
{
}

/// The tokens end with an `EOF`, and hold no other `EOF` and no trivia.
pub proof fn law_tokens_end_with_eof(bytes: Seq<u8>, i: int)
    ensures
        lex_from(bytes, i).tokens.len() >= 1,
        lex_from(bytes, i).tokens.last().token_type == TokenType::EOF,
        forall|k: int|
            0 <= k < lex_from(bytes, i).tokens.len() - 1 ==> {
                let token = #[trigger] lex_from(bytes, i).tokens[k];
                token.token_type != TokenType::EOF && !token.token_type.is_trivia()
            },
    decreases bytes.len() - i,
{
    if 0 <= i < bytes.len() {
        let next = resume(bytes, i);
        let then = if i < next <= bytes.len() {
            next
        } else {
            i + 1
        };
        law_tokens_end_with_eof(bytes, then);
        lemma_scan_kind(bytes, i, line_at(bytes, i));
    }
}

/// The bytes that the lexer's reading of the source from `i` on stands for:
/// the lexeme of each token, and as they are the bytes of all that the lexer
/// drops, which is the trivia and what an error makes it skip.
pub open spec fn spelled(bytes: Seq<u8>, i: int) -> Seq<u8>
    decreases bytes.len() - i,
{
    if i < 0 || i >= bytes.len() {
        seq![]
    } else {
        let next = resume(bytes, i);
        let then = if i < next <= bytes.len() {
            next
        } else {
            i + 1
        };
        let piece = match scan(bytes, i, line_at(bytes, i)) {
            Ok((token, len)) => if token.token_type.is_trivia() {
                bytes.subrange(i, then)
            } else {
                encode_utf8(token.lexeme)
            },
            Err(_) => bytes.subrange(i, then),
        };
        piece + spelled(bytes, then)
    }
}

/// Bytes below 128, each read as one character, are the encoding of those
/// characters.
pub proof fn lemma_ascii_spelling(b: Seq<u8>)
    requires
        forall|k: int| 0 <= k < b.len() ==> b[k] < 128,
    ensures
        encode_utf8(ascii_text(b)) == b,
{
    let chars = ascii_text(b);
    is_ascii_chars_encode_utf8(chars);
    assert forall|k: int| 0 <= k < b.len() implies encode_utf8(chars)[k] == b[k] by {}
}

/// The encoding of two texts, one behind the other.
pub proof fn lemma_encode_concat(a: Seq<char>, b: Seq<char>)
    ensures
        encode_utf8(a + b) == encode_utf8(a) + encode_utf8(b),
    decreases a.len(),
{
    if a.len() > 0 {
        lemma_encode_concat(a.drop_first(), b);
        assert((a + b).drop_first() =~= a.drop_first() + b);
    }
}

/// The lexeme of a one-byte token that is no trivia is its character.
pub proof fn lemma_single_lexeme(c: char)
    requires
        single(c) is Some,
        !single(c)->0.is_trivia(),
    ensures
        single(c)->0.lexeme_text() == seq![c],
{
    reveal_strlit("(");
    reveal_strlit(")");
    reveal_strlit("{");
    reveal_strlit("}");
    reveal_strlit(",");
    reveal_strlit(".");
    reveal_strlit("+");
    reveal_strlit("*");
    reveal_strlit("-");
    reveal_strlit(";");
}

/// The lexeme of a token that one of `/ < > ! =` starts and that is no
/// comment: the character alone, or the character and `=`.
pub proof fn lemma_pair_lexeme(first: char, kind: TokenType)
    requires
        first == '/' && kind == TokenType::Slash || first == '<' && (kind == TokenType::Less
            || kind == TokenType::LessEqual) || first == '>' && (kind == TokenType::Greater
            || kind == TokenType::GreaterEqual) || first == '!' && (kind == TokenType::Bang
            || kind == TokenType::BangEqual) || first == '=' && (kind == TokenType::Equal || kind
            == TokenType::EqualEqual),
    ensures
        kind.lexeme_text() == if kind == TokenType::LessEqual || kind == TokenType::GreaterEqual
            || kind == TokenType::BangEqual || kind == TokenType::EqualEqual {
            seq![first, '=']
        } else {
            seq![first]
        },
{
    reveal_strlit("/");
    reveal_strlit("<");
    reveal_strlit("<=");
    reveal_strlit(">");
    reveal_strlit(">=");
    reveal_strlit("!");
    reveal_strlit("!=");
    reveal_strlit("=");
    reveal_strlit("==");
}

/// The lexeme of a token is the text of the source where the token stands:
/// its encoding is the bytes that the token spans.
pub proof fn law_lexeme_is_source_text(bytes: Seq<u8>, i: int, line: nat)
    requires
        0 <= i < bytes.len(),
    ensures
        scan(bytes, i, line) matches Ok((token, len)) ==> token.token_type.is_trivia() || (1
            <= len && i + len <= bytes.len() && encode_utf8(token.lexeme) == bytes.subrange(
            i,
            i + len,
        )),
{
    let c = bytes[i] as char;
    if single(c) is Some {
        if !single(c)->0.is_trivia() {
            lemma_single_lexeme(c);
            let b = bytes.subrange(i, i + 1);
            assert(ascii_text(b) =~= seq![c]);
            lemma_ascii_spelling(b);
        }
    } else if c == '/' || c == '<' || c == '>' || c == '!' || c == '=' {
        match scan(bytes, i, line) {
            Ok((token, len)) => {
                if !token.token_type.is_trivia() {
                    lemma_pair_lexeme(c, token.token_type);
                    let b = bytes.subrange(i, i + len);
                    if len == 2 {
                        assert(ascii_text(b) =~= seq![c, '=']);
                    } else {
                        assert(ascii_text(b) =~= seq![c]);
                    }
                    lemma_ascii_spelling(b);
                }
            },
            Err(_) => {},
        }
    } else if c == '"' {
        let close = run_end(bytes, i + 1, ByteClass::Text);
        lemma_run_end(bytes, i + 1, ByteClass::Text);
        let inner = bytes.subrange(i + 1, close);
        if close < bytes.len() && valid_utf8(inner) {
            let quote = seq!['"'];
            let q = seq![34u8];
            assert(ascii_text(q) =~= quote);
            lemma_ascii_spelling(q);
            decode_utf8_encode_utf8(inner);
            lemma_encode_concat(quote + decode_utf8(inner), quote);
            lemma_encode_concat(quote, decode_utf8(inner));
        }
    } else if is_digit(bytes[i]) {
        let whole = run_end(bytes, i, ByteClass::Digit);
        let end = number_end(bytes, i);
        lemma_run_end(bytes, i, ByteClass::Digit);
        if whole + 1 < bytes.len() {
            lemma_run_end(bytes, whole + 1, ByteClass::Digit);
        }
        let b = bytes.subrange(i, end);
        assert forall|k: int| 0 <= k < b.len() implies b[k] < 128 by {}
        lemma_ascii_spelling(b);
    } else if is_letter(bytes[i]) {
        let end = run_end(bytes, i, ByteClass::Word);
        lemma_run_end(bytes, i, ByteClass::Word);
        let b = bytes.subrange(i, end);
        assert forall|k: int| 0 <= k < b.len() implies b[k] < 128 by {}
        lemma_ascii_spelling(b);
    }
}

/// Whether the text is a name: letters, digits and `_`, and no digit first.
pub open spec fn is_name(text: Seq<char>) -> bool {
    &&& text.len() >= 1
    &&& is_letter(text[0] as u8)
    &&& forall|k: int|
        0 <= k < text.len() ==> text[k] as u32 <= 127 && (is_letter(text[k] as u8) || is_digit(
            text[k] as u8,
        ))
}

/// The lexeme of every identifier is a name.
pub proof fn law_identifier_is_a_name(bytes: Seq<u8>, i: int, line: nat)
    requires
        0 <= i < bytes.len(),
    ensures
        scan(bytes, i, line) matches Ok((token, len)) ==> token.token_type
            == TokenType::Identifier ==> is_name(token.lexeme),
{
    if is_letter(bytes[i]) && !(single(bytes[i] as char) is Some) {
        let end = run_end(bytes, i, ByteClass::Word);
        lemma_run_end(bytes, i, ByteClass::Word);
        let word = ascii_text(bytes.subrange(i, end));
        assert forall|k: int| 0 <= k < word.len() implies word[k] as u32 <= 127 && (is_letter(
            word[k] as u8,
        ) || is_digit(word[k] as u8)) by {}
    }
}

/// The lexemes of the tokens, in their order and with the bytes that the
/// lexer drops between them, are the source.
pub proof fn law_tokens_spell_the_source(bytes: Seq<u8>, i: int)
    requires
        0 <= i <= bytes.len(),
    ensures
        spelled(bytes, i) == bytes.subrange(i, bytes.len() as int),
    decreases bytes.len() - i,
{
    if i < bytes.len() {
        let next = resume(bytes, i);
        let then = if i < next <= bytes.len() {
            next
        } else {
            i + 1
        };
        law_tokens_spell_the_source(bytes, then);
        law_lexeme_is_source_text(bytes, i, line_at(bytes, i));
    }
}

/// Whether the byte is of the class.
fn class_holds(class: ByteClass, b: u8) -> (r: bool)
    ensures
        r == in_class(class, b),
{
    let c: char = b as char;
    let digit = '0' <= c && c <= '9';
    match class {
        ByteClass::Digit => digit,
        ByteClass::Word => digit || ('a' <= c && c <= 'z') || ('A' <= c && c <= 'Z') || c == '_',
        ByteClass::Line => c != '\n',
        ByteClass::Text => c != '"',
    }
}

/// The end of the longest run of bytes of `class` that starts at `from`.
fn skip_run(bytes: &[u8], from: usize, class: ByteClass) -> (r: usize)
    requires
        from <= bytes@.len(),
    ensures
        r == run_end(bytes@, from as int, class),
        from <= r <= bytes@.len(),
{
    let mut i: usize = from;
    while i < bytes.len() && class_holds(class, bytes[i])
        invariant
            from <= i <= bytes@.len(),
            run_end(bytes@, i as int, class) == run_end(bytes@, from as int, class),
        decreases bytes@.len() - i,
    {
        i += 1;
    }
    i
}

/// The line of position `to`, given the line of position `from`.
fn line_after(bytes: &[u8], from: usize, to: usize, line: usize) -> (r: usize)
    requires
        from <= to <= bytes@.len(),
        bytes@.len() < usize::MAX,
        line == line_at(bytes@, from as int),
    ensures
        r == line_at(bytes@, to as int),
{
    let mut k: usize = from;
    let mut current: usize = line;
    while k < to
        invariant
            from <= k <= to <= bytes@.len(),
            bytes@.len() < usize::MAX,
            current == line_at(bytes@, k as int),
        decreases to - k,
    {
        proof {
            lemma_newlines_bound(bytes@, k as int);
        }
        if bytes[k] as char == '\n' {
            current += 1;
        }
        k += 1;
    }
    current
}

impl Token {
    /// The tokens of `source` and the messages of its lexical errors. The
    /// source is read byte by byte; the last token is always `EOF`.
    pub fn tokenize(source: &String) -> (r: (Vec<Token>, Vec<String>))
        requires
            encode_utf8(source@).len() < usize::MAX,
        ensures
            token_views(r.0@) == lex(encode_utf8(source@)).tokens,
            texts(r.1@) == lex(encode_utf8(source@)).errors,
            r.0@.len() >= 1,
            r.0@.last().token_type == TokenType::EOF,
    {
        let bytes = source.as_str().as_bytes();
        let mut tokens: Vec<Token> = Vec::new();
        let mut errors: Vec<String> = Vec::new();
        let mut line: usize = 1;
        let mut i: usize = 0;
        while i < bytes.len()
            invariant
                i <= bytes@.len(),
                bytes@.len() < usize::MAX,
                line == line_at(bytes@, i as int),
                token_views(tokens@) + lex_from(bytes@, i as int).tokens == lex(bytes@).tokens,
                texts(errors@) + lex_from(bytes@, i as int).errors == lex(bytes@).errors,
            decreases bytes@.len() - i,
        {
            proof {
                lemma_resume_moves_on(bytes@, i as int);
            }
            let next: usize;
            match Token::from_bytes(bytes, i, line) {
                Ok((token, len)) => {
                    match token.token_type {
                        TokenType::Comment => {
                            next = skip_run(bytes, i, ByteClass::Line);
                        },
                        TokenType::EOL | TokenType::Space | TokenType::Tab => {
                            next = i + len;
                        },
                        _ => {
                            next = i + len;
                            tokens.push(token);
                        },
                    }
                },
                Err(error) => {
                    let mut message = String::from_str("[line ");
                    push_decimal(&mut message, line);
                    message.append("] Error: ");
                    match error {
                        TokenizeError::UnexpectedCharacter(m) => {
                            message.append(m.as_str());
                            next = i + 1;
                        },
                        TokenizeError::UndeterminedString(m) => {
                            message.append(m.as_str());
                            next = skip_run(bytes, i, ByteClass::Line);
                        },
                    }
                    errors.push(message);
                },
            }
            line = line_after(bytes, i, next, line);
            i = next;
        }
        proof {
            lemma_newlines_bound(bytes@, bytes@.len() as int);
        }
        let eof = Token::t_eof(line);
        tokens.push(eof);
        (tokens, errors)
    }

    /// What starts at `index`, with the number of bytes that it spans.
    fn from_bytes(bytes: &[u8], index: usize, line: usize) -> (r: Result<
        (Token, usize),
        TokenizeError,
    >)
        requires
            index < bytes@.len(),
        ensures
            match r {
                Ok((token, len)) => scan(bytes@, index as int, line as nat) == Ok::<
                    (TokenView, nat),
                    TokenizeErrorView,
                >((token@, len as nat)) && index + len <= bytes@.len(),
                Err(error) => scan(bytes@, index as int, line as nat) == Err::<
                    (TokenView, nat),
                    TokenizeErrorView,
                >(error@),
            },
    {
        let c: char = bytes[index] as char;
        match c {
            '(' => Ok((Token::t_left_paren(line), 1)),
            ')' => Ok((Token::t_right_paren(line), 1)),
            '{' => Ok((Token::t_left_brace(line), 1)),
            '}' => Ok((Token::t_right_brace(line), 1)),
            ',' => Ok((Token::t_comma(line), 1)),
            '.' => Ok((Token::t_dot(line), 1)),
            '+' => Ok((Token::t_plus(line), 1)),
            '*' => Ok((Token::t_star(line), 1)),
            '-' => Ok((Token::t_minus(line), 1)),
            ';' => Ok((Token::t_semicolon(line), 1)),
            ' ' => Ok((Token::t_space(line), 1)),
            '\t' => Ok((Token::t_tab(line), 1)),
            '\n' => Ok((Token::t_eol(line), 1)),
            '/' => Token::with_pair(bytes, index, '/', Token::t_slash(line), Token::t_comment(line)),
            '<' => Token::with_pair(
                bytes,
                index,
                '=',
                Token::t_less(line),
                Token::t_less_equal(line),
            ),
            '>' => Token::with_pair(
                bytes,
                index,
                '=',
                Token::t_greater(line),
                Token::t_greater_equal(line),
            ),
            '!' => Token::with_pair(
                bytes,
                index,
                '=',
                Token::t_bang(line),
                Token::t_bang_equal(line),
            ),
            '=' => Token::with_pair(
                bytes,
                index,
                '=',
                Token::t_equal(line),
                Token::t_equal_equal(line),
            ),
            '"' => Token::with_literal(bytes, index, line),
            _ => {
                if class_holds(ByteClass::Digit, bytes[index]) {
                    Token::with_number(bytes, index, line)
                } else if class_holds(ByteClass::Word, bytes[index]) {
                    Token::with_identifier(bytes, index, line)
                } else {
                    let mut message = String::from_str("Unexpected character: ");
                    message.push(c);
                    Err(TokenizeError::UnexpectedCharacter(message))
                }
            },
        }
    }

    /// The keyword or identifier that starts at `index`.
    fn with_identifier(bytes: &[u8], index: usize, line: usize) -> (r: Result<
        (Token, usize),
        TokenizeError,
    >)
        requires
            index < bytes@.len(),
        ensures
            r matches Ok((token, len)) && scan_word(bytes@, index as int, line as nat) == Ok::<
                (TokenView, nat),
                TokenizeErrorView,
            >((token@, len as nat)) && index + len <= bytes@.len(),
    {
        let end = skip_run(bytes, index, ByteClass::Word);
        let word = text_of(bytes, index, end);
        let s = word.as_str();
        let token = if same_text(s, "and") {
            Token::t_and(line)
        } else if same_text(s, "class") {
            Token::t_class(line)
        } else if same_text(s, "else") {
            Token::t_else(line)
        } else if same_text(s, "false") {
            Token::t_false(line)
        } else if same_text(s, "for") {
            Token::t_for(line)
        } else if same_text(s, "fun") {
            Token::t_fun(line)
        } else if same_text(s, "if") {
            Token::t_if(line)
        } else if same_text(s, "nil") {
            Token::t_nil(line)
        } else if same_text(s, "or") {
            Token::t_or(line)
        } else if same_text(s, "return") {
            Token::t_return(line)
        } else if same_text(s, "super") {
            Token::t_super(line)
        } else if same_text(s, "this") {
            Token::t_this(line)
        } else if same_text(s, "true") {
            Token::t_true(line)
        } else if same_text(s, "var") {
            Token::t_var(line)
        } else if same_text(s, "while") {
            Token::t_while(line)
        } else if same_text(s, "print") {
            Token::t_print(line)
        } else {
            Token::t_identifier(word, line)
        };
        Ok((token, end - index))
    }

    /// The number that starts at `index`.
    fn with_number(bytes: &[u8], index: usize, line: usize) -> (r: Result<
        (Token, usize),
        TokenizeError,
    >)
        requires
            index < bytes@.len(),
        ensures
            r matches Ok((token, len)) && scan_number(bytes@, index as int, line as nat) == Ok::<
                (TokenView, nat),
                TokenizeErrorView,
            >((token@, len as nat)) && index + len <= bytes@.len(),
    {
        let size = bytes.len();
        let dot = skip_run(bytes, index, ByteClass::Digit);
        let mut end = dot;
        if dot < size - 1 && bytes[dot] as char == '.' && class_holds(
            ByteClass::Digit,
            bytes[dot + 1],
        ) {
            end = skip_run(bytes, dot + 1, ByteClass::Digit);
        }
        let lexeme = text_of(bytes, index, end);

        let mut lead = index;
        while dot - lead > 1 && bytes[lead] as char == '0'
            invariant
                index <= lead <= dot <= bytes@.len(),
                leading_zeros(bytes@, lead as int, dot as int) == leading_zeros(
                    bytes@,
                    index as int,
                    dot as int,
                ),
            decreases dot - lead,
        {
            lead += 1;
        }
        let mut literal = text_of(bytes, lead, dot);
        literal.push('.');
        let mut kept = dot;
        if dot < end {
            kept = end;
            while dot + 1 < kept && bytes[kept - 1] as char == '0'
                invariant
                    dot + 1 <= kept <= end <= bytes@.len(),
                    trailing_zeros(bytes@, dot + 1, kept as int) == trailing_zeros(
                        bytes@,
                        dot + 1,
                        end as int,
                    ),
                decreases kept - dot,
            {
                kept -= 1;
            }
        }
        if dot < end && dot + 1 < kept {
            let fraction = text_of(bytes, dot + 1, kept);
            literal.append(fraction.as_str());
        } else {
            literal.push('0');
        }
        proof {
            assert(literal@ =~= number_literal(bytes@, index as int, dot as int, end as int));
        }
        Ok((Token::t_number(lexeme, literal, line), end - index))
    }

    /// The string whose opening quote is at `index`.
    fn with_literal(bytes: &[u8], index: usize, line: usize) -> (r: Result<
        (Token, usize),
        TokenizeError,
    >)
        requires
            index < bytes@.len(),
        ensures
            match r {
                Ok((token, len)) => scan_string(bytes@, index as int, line as nat) == Ok::<
                    (TokenView, nat),
                    TokenizeErrorView,
                >((token@, len as nat)) && index + len <= bytes@.len(),
                Err(error) => scan_string(bytes@, index as int, line as nat) == Err::<
                    (TokenView, nat),
                    TokenizeErrorView,
                >(error@),
            },
    {
        let size = bytes.len();
        let close = skip_run(bytes, index + 1, ByteClass::Text);
        if close < size {
            match utf8_text(slice_subrange(bytes, index + 1, close)) {
                Some(inner) => {
                    proof {
                        reveal_strlit("\"");
                    }
                    let mut lexeme = String::from_str("\"");
                    lexeme.append(inner);
                    lexeme.append("\"");
                    assert(lexeme@ =~= seq!['"'] + inner@ + seq!['"']);
                    return Ok(
                        (Token::t_literal(lexeme, String::from_str(inner), line), close + 1 - index),
                    );
                },
                None => {},
            }
        }
        Err(TokenizeError::UndeterminedString(String::from_str("Unterminated string.")))
    }

    /// `single`, or `double` where the byte after `index` is `second`.
    fn with_pair(bytes: &[u8], index: usize, second: char, single: Token, double: Token) -> (r:
        Result<(Token, usize), TokenizeError>)
        requires
            index < bytes@.len(),
        ensures
            r matches Ok((token, len)) && index + len <= bytes@.len() && if index + 1 < bytes@.len()
                && bytes@[index + 1] as char == second {
                token == double && len == 2
            } else {
                token == single && len == 1
            },
    {
        if index >= bytes.len() - 1 {
            Ok((single, 1))
        } else if bytes[index + 1] as char == second {
            Ok((double, 2))
        } else {
            Ok((single, 1))
        }
    }
}

} // verus!
