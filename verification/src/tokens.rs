//! Lexical units of the language.
//!
//! A [`Token`] is one classified unit of source text: an operator or
//! delimiter symbol, a literal with its payload, an identifier with its raw
//! text, or a reserved keyword. Tokens are immutable once produced; the
//! tokenizer hands the parser a fully materialized buffer of them.
//!
//! A float literal keeps its source text rather than a machine float: this
//! crate never computes with the value, it only carries the digits through to
//! the consumer of the tree.

use vstd::prelude::*;
use vstd::string::StringExecFns;
use crate::strings::{escaped_text, int_digits, push_escaped, push_i64_decimal};

verus! {

/// One lexical unit of source text.
#[derive(Debug, Clone, PartialEq)]
pub enum Token {
    // Arithmetic operators
    Plus,
    Minus,
    Star,
    Slash,
    Percent,
    // Assignment and equality
    Equals,
    EqualsEquals,
    NotEquals,
    // Comparison operators
    GreaterThan,
    LessThan,
    GreaterThanEquals,
    LessThanEquals,
    // Logical operators
    And,
    Or,
    Bang,
    // Delimiters
    LeftParen,
    RightParen,
    LeftBrace,
    RightBrace,
    Semicolon,
    Colon,
    // Literals and identifiers
    Integer(i64),
    /// A float literal, kept as its source digits (`[0-9]+.[0-9]+`).
    Float(String),
    String(String),
    Boolean(bool),
    Identifier(String),
    // Keywords
    KeywordLet,
    KeywordIf,
    KeywordElse,
    KeywordWhile,
    KeywordFor,
    KeywordPrint,
    Arrow,
    BigArrow,
    // Declared-type keywords
    TypeI32,
    TypeI64,
    TypeBool,
    TypeF32,
    TypeF64,
    TypeString,
}

/// The mathematical image of a [`Token`]: payloads become sequences of
/// characters and unbounded integers, so that specifications can speak of
/// them directly.
pub enum TokenModel {
    Plus,
    Minus,
    Star,
    Slash,
    Percent,
    Equals,
    EqualsEquals,
    NotEquals,
    GreaterThan,
    LessThan,
    GreaterThanEquals,
    LessThanEquals,
    And,
    Or,
    Bang,
    LeftParen,
    RightParen,
    LeftBrace,
    RightBrace,
    Semicolon,
    Colon,
    Integer(int),
    Float(Seq<char>),
    String(Seq<char>),
    Boolean(bool),
    Identifier(Seq<char>),
    KeywordLet,
    KeywordIf,
    KeywordElse,
    KeywordWhile,
    KeywordFor,
    KeywordPrint,
    Arrow,
    BigArrow,
    TypeI32,
    TypeI64,
    TypeBool,
    TypeF32,
    TypeF64,
    TypeString,
}

impl View for Token {
    type V = TokenModel;

    open spec fn view(&self) -> TokenModel {
        match self {
            Token::Plus => TokenModel::Plus,
            Token::Minus => TokenModel::Minus,
            Token::Star => TokenModel::Star,
            Token::Slash => TokenModel::Slash,
            Token::Percent => TokenModel::Percent,
            Token::Equals => TokenModel::Equals,
            Token::EqualsEquals => TokenModel::EqualsEquals,
            Token::NotEquals => TokenModel::NotEquals,
            Token::GreaterThan => TokenModel::GreaterThan,
            Token::LessThan => TokenModel::LessThan,
            Token::GreaterThanEquals => TokenModel::GreaterThanEquals,
            Token::LessThanEquals => TokenModel::LessThanEquals,
            Token::And => TokenModel::And,
            Token::Or => TokenModel::Or,
            Token::Bang => TokenModel::Bang,
            Token::LeftParen => TokenModel::LeftParen,
            Token::RightParen => TokenModel::RightParen,
            Token::LeftBrace => TokenModel::LeftBrace,
            Token::RightBrace => TokenModel::RightBrace,
            Token::Semicolon => TokenModel::Semicolon,
            Token::Colon => TokenModel::Colon,
            Token::Integer(v) => TokenModel::Integer(*v as int),
            Token::Float(s) => TokenModel::Float(s@),
            Token::String(s) => TokenModel::String(s@),
            Token::Boolean(b) => TokenModel::Boolean(*b),
            Token::Identifier(s) => TokenModel::Identifier(s@),
            Token::KeywordLet => TokenModel::KeywordLet,
            Token::KeywordIf => TokenModel::KeywordIf,
            Token::KeywordElse => TokenModel::KeywordElse,
            Token::KeywordWhile => TokenModel::KeywordWhile,
            Token::KeywordFor => TokenModel::KeywordFor,
            Token::KeywordPrint => TokenModel::KeywordPrint,
            Token::Arrow => TokenModel::Arrow,
            Token::BigArrow => TokenModel::BigArrow,
            Token::TypeI32 => TokenModel::TypeI32,
            Token::TypeI64 => TokenModel::TypeI64,
            Token::TypeBool => TokenModel::TypeBool,
            Token::TypeF32 => TokenModel::TypeF32,
            Token::TypeF64 => TokenModel::TypeF64,
            Token::TypeString => TokenModel::TypeString,
        }
    }
}

/// A small integer naming each token's shape, payload ignored. Two tokens
/// are of the same kind exactly when their codes agree.
pub open spec fn kind_code(t: TokenModel) -> int {
    match t {
        TokenModel::Plus => 0,
        TokenModel::Minus => 1,
        TokenModel::Star => 2,
        TokenModel::Slash => 3,
        TokenModel::Percent => 4,
        TokenModel::Equals => 5,
        TokenModel::EqualsEquals => 6,
        TokenModel::NotEquals => 7,
        TokenModel::GreaterThan => 8,
        TokenModel::LessThan => 9,
        TokenModel::GreaterThanEquals => 10,
        TokenModel::LessThanEquals => 11,
        TokenModel::And => 12,
        TokenModel::Or => 13,
        TokenModel::Bang => 14,
        TokenModel::LeftParen => 15,
        TokenModel::RightParen => 16,
        TokenModel::LeftBrace => 17,
        TokenModel::RightBrace => 18,
        TokenModel::Semicolon => 19,
        TokenModel::Colon => 20,
        TokenModel::Integer(_) => 21,
        TokenModel::Float(_) => 22,
        TokenModel::String(_) => 23,
        TokenModel::Boolean(_) => 24,
        TokenModel::Identifier(_) => 25,
        TokenModel::KeywordLet => 26,
        TokenModel::KeywordIf => 27,
        TokenModel::KeywordElse => 28,
        TokenModel::KeywordWhile => 29,
        TokenModel::KeywordFor => 30,
        TokenModel::KeywordPrint => 31,
        TokenModel::Arrow => 32,
        TokenModel::BigArrow => 33,
        TokenModel::TypeI32 => 34,
        TokenModel::TypeI64 => 35,
        TokenModel::TypeBool => 36,
        TokenModel::TypeF32 => 37,
        TokenModel::TypeF64 => 38,
        TokenModel::TypeString => 39,
    }
}

/// Whether two tokens have the same shape, ignoring any payload. This is the
/// notion of "matching" that the parser's single-token lookahead uses.
pub open spec fn same_kind(a: TokenModel, b: TokenModel) -> bool {
    kind_code(a) == kind_code(b)
}

impl Token {
    /// The executable counterpart of [`kind_code`].
    pub fn kind(&self) -> (k: u32)
        ensures
            k as int == kind_code(self@),
    {
        match self {
            Token::Plus => 0,
            Token::Minus => 1,
            Token::Star => 2,
            Token::Slash => 3,
            Token::Percent => 4,
            Token::Equals => 5,
            Token::EqualsEquals => 6,
            Token::NotEquals => 7,
            Token::GreaterThan => 8,
            Token::LessThan => 9,
            Token::GreaterThanEquals => 10,
            Token::LessThanEquals => 11,
            Token::And => 12,
            Token::Or => 13,
            Token::Bang => 14,
            Token::LeftParen => 15,
            Token::RightParen => 16,
            Token::LeftBrace => 17,
            Token::RightBrace => 18,
            Token::Semicolon => 19,
            Token::Colon => 20,
            Token::Integer(_) => 21,
            Token::Float(_) => 22,
            Token::String(_) => 23,
            Token::Boolean(_) => 24,
            Token::Identifier(_) => 25,
            Token::KeywordLet => 26,
            Token::KeywordIf => 27,
            Token::KeywordElse => 28,
            Token::KeywordWhile => 29,
            Token::KeywordFor => 30,
            Token::KeywordPrint => 31,
            Token::Arrow => 32,
            Token::BigArrow => 33,
            Token::TypeI32 => 34,
            Token::TypeI64 => 35,
            Token::TypeBool => 36,
            Token::TypeF32 => 37,
            Token::TypeF64 => 38,
            Token::TypeString => 39,
        }
    }
}

/// The image of a whole token buffer.
pub open spec fn tokens_model(ts: Seq<Token>) -> Seq<TokenModel> {
    ts.map_values(|t: Token| t@)
}

/// The display form of a token: its variant name, with any payload in
/// parentheses (string-like payloads quoted and escaped). This is the text
/// the parser puts into an unexpected-token failure.
#[verifier::opaque]
pub open spec fn token_text(t: TokenModel) -> Seq<char> {
    match t {
        TokenModel::Plus => "Plus"@,
        TokenModel::Minus => "Minus"@,
        TokenModel::Star => "Star"@,
        TokenModel::Slash => "Slash"@,
        TokenModel::Percent => "Percent"@,
        TokenModel::Equals => "Equals"@,
        TokenModel::EqualsEquals => "EqualsEquals"@,
        TokenModel::NotEquals => "NotEquals"@,
        TokenModel::GreaterThan => "GreaterThan"@,
        TokenModel::LessThan => "LessThan"@,
        TokenModel::GreaterThanEquals => "GreaterThanEquals"@,
        TokenModel::LessThanEquals => "LessThanEquals"@,
        TokenModel::And => "And"@,
        TokenModel::Or => "Or"@,
        TokenModel::Bang => "Bang"@,
        TokenModel::LeftParen => "LeftParen"@,
        TokenModel::RightParen => "RightParen"@,
        TokenModel::LeftBrace => "LeftBrace"@,
        TokenModel::RightBrace => "RightBrace"@,
        TokenModel::Semicolon => "Semicolon"@,
        TokenModel::Colon => "Colon"@,
        TokenModel::Integer(v) => "Integer("@ + int_digits(v) + ")"@,
        TokenModel::Float(s) => "Float("@ + s + ")"@,
        TokenModel::String(s) => "String(\""@ + escaped_text(s) + "\")"@,
        TokenModel::Boolean(b) => if b {
            "Boolean(true)"@
        } else {
            "Boolean(false)"@
        },
        TokenModel::Identifier(s) => "Identifier(\""@ + s + "\")"@,
        TokenModel::KeywordLet => "KeywordLet"@,
        TokenModel::KeywordIf => "KeywordIf"@,
        TokenModel::KeywordElse => "KeywordElse"@,
        TokenModel::KeywordWhile => "KeywordWhile"@,
        TokenModel::KeywordFor => "KeywordFor"@,
        TokenModel::KeywordPrint => "KeywordPrint"@,
        TokenModel::Arrow => "Arrow"@,
        TokenModel::BigArrow => "BigArrow"@,
        TokenModel::TypeI32 => "TypeI32"@,
        TokenModel::TypeI64 => "TypeI64"@,
        TokenModel::TypeBool => "TypeBool"@,
        TokenModel::TypeF32 => "TypeF32"@,
        TokenModel::TypeF64 => "TypeF64"@,
        TokenModel::TypeString => "TypeString"@,
    }
}

impl Token {
    /// The executable counterpart of [`token_text`].
    pub fn display_text(&self) -> (r: String)
        ensures
            r@ == token_text(self@),
    {
        proof {
            reveal(token_text);
        }
        match self {
            Token::Plus => "Plus".to_owned(),
            Token::Minus => "Minus".to_owned(),
            Token::Star => "Star".to_owned(),
            Token::Slash => "Slash".to_owned(),
            Token::Percent => "Percent".to_owned(),
            Token::Equals => "Equals".to_owned(),
            Token::EqualsEquals => "EqualsEquals".to_owned(),
            Token::NotEquals => "NotEquals".to_owned(),
            Token::GreaterThan => "GreaterThan".to_owned(),
            Token::LessThan => "LessThan".to_owned(),
            Token::GreaterThanEquals => "GreaterThanEquals".to_owned(),
            Token::LessThanEquals => "LessThanEquals".to_owned(),
            Token::And => "And".to_owned(),
            Token::Or => "Or".to_owned(),
            Token::Bang => "Bang".to_owned(),
            Token::LeftParen => "LeftParen".to_owned(),
            Token::RightParen => "RightParen".to_owned(),
            Token::LeftBrace => "LeftBrace".to_owned(),
            Token::RightBrace => "RightBrace".to_owned(),
            Token::Semicolon => "Semicolon".to_owned(),
            Token::Colon => "Colon".to_owned(),
            Token::Integer(v) => {
                let mut s = "Integer(".to_owned();
                push_i64_decimal(&mut s, *v);
                s.append(")");
                proof {
                    assert(s@ =~= token_text(self@));
                }
                s
            },
            Token::Float(text) => {
                let mut s = "Float(".to_owned();
                s.append(text.as_str());
                s.append(")");
                proof {
                    assert(s@ =~= token_text(self@));
                }
                s
            },
            Token::String(text) => {
                let mut s = "String(\"".to_owned();
                push_escaped(&mut s, text.as_str());
                s.append("\")");
                proof {
                    assert(s@ =~= token_text(self@));
                }
                s
            },
            Token::Boolean(b) => if *b {
                "Boolean(true)".to_owned()
            } else {
                "Boolean(false)".to_owned()
            },
            Token::Identifier(text) => {
                let mut s = "Identifier(\"".to_owned();
                s.append(text.as_str());
                s.append("\")");
                proof {
                    assert(s@ =~= token_text(self@));
                }
                s
            },
            Token::KeywordLet => "KeywordLet".to_owned(),
            Token::KeywordIf => "KeywordIf".to_owned(),
            Token::KeywordElse => "KeywordElse".to_owned(),
            Token::KeywordWhile => "KeywordWhile".to_owned(),
            Token::KeywordFor => "KeywordFor".to_owned(),
            Token::KeywordPrint => "KeywordPrint".to_owned(),
            Token::Arrow => "Arrow".to_owned(),
            Token::BigArrow => "BigArrow".to_owned(),
            Token::TypeI32 => "TypeI32".to_owned(),
            Token::TypeI64 => "TypeI64".to_owned(),
            Token::TypeBool => "TypeBool".to_owned(),
            Token::TypeF32 => "TypeF32".to_owned(),
            Token::TypeF64 => "TypeF64".to_owned(),
            Token::TypeString => "TypeString".to_owned(),
        }
    }
}

} // verus!
