//! The tokenizer: raw source text to a buffer of classified tokens.
//!
//! Scanning is maximal munch over a single ordered set of rules, evaluated
//! once per position: two-character operators before their one-character
//! prefixes, delimiters, numeric literals (an integer run; a stricter
//! digits-point-digits shape for floats), quoted strings with a fixed escape
//! set, then identifier runs with a keyword table consulted afterwards.
//! Whitespace (space, tab, newline, form feed) is skipped and never emitted.
//! A position where no rule matches is a terminal lexical failure naming the
//! character found there.
//!
//! The spec functions here are the reference model of that scan; the
//! executable [`tokenize`] is proved to return exactly what the model says.

use vstd::prelude::*;
use crate::errors::{ErrorModel, ParserError};
use crate::strings::{chars_to_string, push_char};
use crate::tokens::{tokens_model, Token, TokenModel};

verus! {

/// Whitespace that the tokenizer skips: space, tab, newline, form feed.
pub open spec fn is_ws(c: char) -> bool {
    c == ' ' || c == '\t' || c == '\n' || c == '\u{c}'
}

/// A decimal digit.
pub open spec fn is_digit(c: char) -> bool {
    '0' <= c && c <= '9'
}

/// A character that may open an identifier run.
pub open spec fn is_word_start(c: char) -> bool {
    ('a' <= c && c <= 'z') || ('A' <= c && c <= 'Z') || c == '_'
}

/// A character that may continue an identifier run.
pub open spec fn is_word(c: char) -> bool {
    is_word_start(c) || is_digit(c)
}

/// The numeric value of a digit character.
pub open spec fn digit_value(c: char) -> int {
    c as int - '0' as int
}

/// The first index at or after `i` that does not hold a digit.
pub open spec fn digit_run_end(s: Seq<char>, i: int) -> int
    decreases s.len() - i,
{
    if 0 <= i < s.len() && is_digit(s[i]) {
        digit_run_end(s, i + 1)
    } else {
        i
    }
}

/// The first index at or after `i` that does not hold an identifier
/// character.
pub open spec fn word_run_end(s: Seq<char>, i: int) -> int
    decreases s.len() - i,
{
    if 0 <= i < s.len() && is_word(s[i]) {
        word_run_end(s, i + 1)
    } else {
        i
    }
}

/// The first index at or after `i` that does not hold whitespace.
pub open spec fn ws_end(s: Seq<char>, i: int) -> int
    decreases s.len() - i,
{
    if 0 <= i < s.len() && is_ws(s[i]) {
        ws_end(s, i + 1)
    } else {
        i
    }
}

/// The value of a run of digit characters, most significant first.
pub open spec fn digits_value(s: Seq<char>) -> int
    decreases s.len(),
{
    if s.len() == 0 {
        0
    } else {
        digits_value(s.drop_last()) * 10 + digit_value(s.last())
    }
}

/// A character that may follow a backslash inside a string literal.
pub open spec fn is_escape(c: char) -> bool {
    c == 'n' || c == 'r' || c == 't' || c == '"' || c == '\\'
}

/// The character an escape sequence denotes.
pub open spec fn escape_value(c: char) -> char {
    if c == 'n' {
        '\n'
    } else if c == 'r' {
        '\r'
    } else if c == 't' {
        '\t'
    } else if c == '"' {
        '"'
    } else {
        '\\'
    }
}

/// Scans the inside of a string literal from `i` (just past the opening
/// quote): the decoded content and the index just past the closing quote,
/// or `None` if the literal is unterminated or holds a bad escape.
pub open spec fn string_scan(s: Seq<char>, i: int) -> Option<(Seq<char>, int)>
    decreases s.len() - i,
{
    if i < 0 || i >= s.len() {
        None
    } else if s[i] == '"' {
        Some((Seq::empty(), i + 1))
    } else if s[i] == '\\' {
        if i + 1 < s.len() && is_escape(s[i + 1]) {
            match string_scan(s, i + 2) {
                None => None,
                Some((rest, e)) => Some((seq![escape_value(s[i + 1])] + rest, e)),
            }
        } else {
            None
        }
    } else {
        match string_scan(s, i + 1) {
            None => None,
            Some((rest, e)) => Some((seq![s[i]] + rest, e)),
        }
    }
}

/// The token an identifier run denotes, after consulting the keyword table.
pub open spec fn word_token(w: Seq<char>) -> TokenModel {
    if w == "let"@ {
        TokenModel::KeywordLet
    } else if w == "if"@ {
        TokenModel::KeywordIf
    } else if w == "else"@ {
        TokenModel::KeywordElse
    } else if w == "while"@ {
        TokenModel::KeywordWhile
    } else if w == "for"@ {
        TokenModel::KeywordFor
    } else if w == "print"@ {
        TokenModel::KeywordPrint
    } else if w == "true"@ {
        TokenModel::Boolean(true)
    } else if w == "false"@ {
        TokenModel::Boolean(false)
    } else if w == "i32"@ {
        TokenModel::TypeI32
    } else if w == "i64"@ {
        TokenModel::TypeI64
    } else if w == "bool"@ {
        TokenModel::TypeBool
    } else if w == "f32"@ {
        TokenModel::TypeF32
    } else if w == "f64"@ {
        TokenModel::TypeF64
    } else if w == "String"@ {
        TokenModel::TypeString
    } else {
        TokenModel::Identifier(w)
    }
}

/// The largest value an integer literal may denote; a longer digit run
/// falls back to a float token, as a machine float would still hold it.
pub open spec fn max_integer() -> int {
    0x7fff_ffff_ffff_ffff
}

/// The token starting at position `i`, with the position just past it, or
/// `None` if no lexical rule matches there.
pub open spec fn token_at(s: Seq<char>, i: int) -> Option<(TokenModel, int)> {
    if i < 0 || i >= s.len() {
        None
    } else {
        let c = s[i];
        let two = i + 1 < s.len();
        if c == '=' {
            if two && s[i + 1] == '=' {
                Some((TokenModel::EqualsEquals, i + 2))
            } else if two && s[i + 1] == '>' {
                Some((TokenModel::BigArrow, i + 2))
            } else {
                Some((TokenModel::Equals, i + 1))
            }
        } else if c == '!' {
            if two && s[i + 1] == '=' {
                Some((TokenModel::NotEquals, i + 2))
            } else {
                Some((TokenModel::Bang, i + 1))
            }
        } else if c == '>' {
            if two && s[i + 1] == '=' {
                Some((TokenModel::GreaterThanEquals, i + 2))
            } else {
                Some((TokenModel::GreaterThan, i + 1))
            }
        } else if c == '<' {
            if two && s[i + 1] == '=' {
                Some((TokenModel::LessThanEquals, i + 2))
            } else {
                Some((TokenModel::LessThan, i + 1))
            }
        } else if c == '&' {
            if two && s[i + 1] == '&' {
                Some((TokenModel::And, i + 2))
            } else {
                None
            }
        } else if c == '|' {
            if two && s[i + 1] == '|' {
                Some((TokenModel::Or, i + 2))
            } else {
                None
            }
        } else if c == '-' {
            if two && s[i + 1] == '>' {
                Some((TokenModel::Arrow, i + 2))
            } else {
                Some((TokenModel::Minus, i + 1))
            }
        } else if c == '+' {
            Some((TokenModel::Plus, i + 1))
        } else if c == '*' {
            Some((TokenModel::Star, i + 1))
        } else if c == '/' {
            Some((TokenModel::Slash, i + 1))
        } else if c == '%' {
            Some((TokenModel::Percent, i + 1))
        } else if c == '(' {
            Some((TokenModel::LeftParen, i + 1))
        } else if c == ')' {
            Some((TokenModel::RightParen, i + 1))
        } else if c == '{' {
            Some((TokenModel::LeftBrace, i + 1))
        } else if c == '}' {
            Some((TokenModel::RightBrace, i + 1))
        } else if c == ';' {
            Some((TokenModel::Semicolon, i + 1))
        } else if c == ':' {
            Some((TokenModel::Colon, i + 1))
        } else if is_digit(c) {
            let e = digit_run_end(s, i);
            if e < s.len() && s[e] == '.' && e + 1 < s.len() && is_digit(s[e + 1]) {
                let e2 = digit_run_end(s, e + 1);
                Some((TokenModel::Float(s.subrange(i, e2)), e2))
            } else {
                let v = digits_value(s.subrange(i, e));
                if v <= max_integer() {
                    Some((TokenModel::Integer(v), e))
                } else {
                    Some((TokenModel::Float(s.subrange(i, e)), e))
                }
            }
        } else if c == '"' {
            match string_scan(s, i + 1) {
                None => None,
                Some((content, e)) => Some((TokenModel::String(content), e)),
            }
        } else if is_word_start(c) {
            let e = word_run_end(s, i);
            Some((word_token(s.subrange(i, e)), e))
        } else {
            None
        }
    }
}

/// Every character of a digit run is a digit.
pub proof fn lemma_digit_run(s: Seq<char>, i: int)
    ensures
        forall|k: int| i <= k < digit_run_end(s, i) ==> is_digit(s[k]),
    decreases s.len() - i,
{
    if 0 <= i < s.len() && is_digit(s[i]) {
        lemma_digit_run(s, i + 1);
    }
}

/// A scan never moves backwards: each run end lies at or after its start.
pub proof fn lemma_run_end_ge(s: Seq<char>, i: int)
    ensures
        digit_run_end(s, i) >= i,
        word_run_end(s, i) >= i,
        ws_end(s, i) >= i,
    decreases s.len() - i,
{
    if 0 <= i < s.len() {
        lemma_run_end_ge(s, i + 1);
    }
}

/// The token sequence from position `i` on, or the first failure. The only
/// failure is an unexpected character, and it names exactly the character at
/// the first position where no rule matched.
pub open spec fn tokenize_from(s: Seq<char>, i: int) -> Result<Seq<TokenModel>, ErrorModel>
    decreases s.len() - i,
{
    // ws_end and token_at in fact always move forward; the two guards only
    // make that evident to the termination check.
    let j0 = ws_end(s, i);
    let j = if j0 < i {
        i
    } else {
        j0
    };
    if j >= s.len() {
        Ok(Seq::empty())
    } else {
        match token_at(s, j) {
            None => Err(ErrorModel::UnexpectedCharacter(s[j])),
            Some((t, k)) => {
                let k2 = if k <= j {
                    j + 1
                } else if k > s.len() {
                    s.len() as int
                } else {
                    k
                };
                match tokenize_from(s, k2) {
                    Err(e) => Err(e),
                    Ok(rest) => Ok(seq![t] + rest),
                }
            },
        }
    }
}

/// The complete scan of a source text.
pub open spec fn spec_tokenize(s: Seq<char>) -> Result<Seq<TokenModel>, ErrorModel> {
    tokenize_from(s, 0)
}

fn is_ws_char(c: char) -> (b: bool)
    ensures
        b == is_ws(c),
{
    c == ' ' || c == '\t' || c == '\n' || c == '\u{c}'
}

fn is_digit_char(c: char) -> (b: bool)
    ensures
        b == is_digit(c),
{
    '0' <= c && c <= '9'
}

fn is_word_start_char(c: char) -> (b: bool)
    ensures
        b == is_word_start(c),
{
    ('a' <= c && c <= 'z') || ('A' <= c && c <= 'Z') || c == '_'
}

fn is_word_char(c: char) -> (b: bool)
    ensures
        b == is_word(c),
{
    is_word_start_char(c) || is_digit_char(c)
}

fn digit_run_end_at(v: &Vec<char>, i: usize) -> (e: usize)
    requires
        i <= v.len(),
    ensures
        e as int == digit_run_end(v@, i as int),
        i <= e <= v.len(),
{
    let mut e = i;
    while e < v.len() && is_digit_char(v[e])
        invariant
            i <= e <= v.len(),
            digit_run_end(v@, i as int) == digit_run_end(v@, e as int),
        decreases v.len() - e,
    {
        e = e + 1;
    }
    e
}

fn word_run_end_at(v: &Vec<char>, i: usize) -> (e: usize)
    requires
        i <= v.len(),
    ensures
        e as int == word_run_end(v@, i as int),
        i <= e <= v.len(),
{
    let mut e = i;
    while e < v.len() && is_word_char(v[e])
        invariant
            i <= e <= v.len(),
            word_run_end(v@, i as int) == word_run_end(v@, e as int),
        decreases v.len() - e,
    {
        e = e + 1;
    }
    e
}

/// The integer value of the digit run `v[from..to]`, or `None` where the run
/// denotes more than an `i64` literal may hold.
fn digits_to_i64(v: &Vec<char>, from: usize, to: usize) -> (r: Option<i64>)
    requires
        from <= to <= v.len(),
        forall|k: int| from <= k < to ==> is_digit(v@[k]),
    ensures
        (r is Some) <==> digits_value(v@.subrange(from as int, to as int)) <= max_integer(),
        r is Some ==> r->0 as int == digits_value(v@.subrange(from as int, to as int)),
{
    let mut acc: u128 = 0;
    let mut over: bool = false;
    let mut k = from;
    while k < to
        invariant
            from <= k <= to <= v.len(),
            forall|m: int| from <= m < to ==> is_digit(v@[m]),
            !over ==> acc as int == digits_value(v@.subrange(from as int, k as int)) && acc as int
                <= max_integer(),
            over ==> digits_value(v@.subrange(from as int, k as int)) > max_integer(),
        decreases to - k,
    {
        let ghost pre = v@.subrange(from as int, k as int);
        let ghost post = v@.subrange(from as int, k as int + 1);
        proof {
            assert(post.drop_last() =~= pre);
            assert(post.last() == v@[k as int]);
        }
        let c = v[k];
        let d: u128 = (c as u32 - 48) as u128;
        proof {
            assert(is_digit(v@[k as int]));
            assert(d as int == digit_value(v@[k as int]));
        }
        if over {
            proof {
                assert(digits_value(pre) > max_integer());
                assert(digits_value(post) == digits_value(pre) * 10 + digit_value(v@[k as int]));
                assert(digits_value(pre) * 10 + digit_value(v@[k as int]) > max_integer())
                    by (nonlinear_arith)
                    requires
                        digits_value(pre) > max_integer(),
                        0 <= digit_value(v@[k as int]),
                ;
            }
        } else {
            acc = acc * 10 + d;
            if acc > 0x7fff_ffff_ffff_ffffu128 {
                over = true;
            }
        }
        k = k + 1;
    }
    if over {
        None
    } else {
        Some(acc as i64)
    }
}

/// Scans the inside of a string literal, decoding its escapes.
fn scan_string(v: &Vec<char>, i: usize) -> (r: Option<(String, usize)>)
    requires
        i <= v.len(),
    ensures
        match string_scan(v@, i as int) {
            None => r is None,
            Some((content, e)) => r matches Some(p) && p.0@ == content && p.1 as int == e,
        },
        r matches Some(p) ==> i < p.1 <= v.len(),
{
    let mut content = String::new();
    let mut k = i;
    loop
        invariant
            i <= k <= v.len(),
            match string_scan(v@, k as int) {
                None => string_scan(v@, i as int) is None,
                Some((rest, e)) => string_scan(v@, i as int) == Some::<(Seq<char>, int)>(
                    (content@ + rest, e),
                ),
            },
        decreases v.len() - k,
    {
        if k >= v.len() {
            return None;
        }
        let c = v[k];
        if c == '"' {
            proof {
                assert(content@ + Seq::<char>::empty() =~= content@);
            }
            return Some((content, k + 1));
        }
        if c == '\\' {
            if k + 1 < v.len() && (v[k + 1] == 'n' || v[k + 1] == 'r' || v[k + 1] == 't' || v[k + 1]
                == '"' || v[k + 1] == '\\') {
            } else {
                return None;
            }
            let d = v[k + 1];
            let decoded = if d == 'n' {
                '\n'
            } else if d == 'r' {
                '\r'
            } else if d == 't' {
                '\t'
            } else if d == '"' {
                '"'
            } else {
                '\\'
            };
            proof {
                assert(decoded == escape_value(v@[k as int + 1]));
                if let Some((rest2, e2)) = string_scan(v@, k as int + 2) {
                    assert(content@ + (seq![decoded] + rest2) =~= content@.push(decoded) + rest2);
                }
            }
            push_char(&mut content, decoded);
            k = k + 2;
        } else {
            proof {
                if let Some((rest2, e2)) = string_scan(v@, k as int + 1) {
                    assert(content@ + (seq![v@[k as int]] + rest2) =~= content@.push(v@[k as int])
                        + rest2);
                }
            }
            push_char(&mut content, c);
            k = k + 1;
        }
    }
}

/// The keyword table, consulted after an identifier run has been matched.
fn classify_word(w: String) -> (t: Token)
    ensures
        t@ == word_token(w@),
{
    if w == "let".to_owned() {
        Token::KeywordLet
    } else if w == "if".to_owned() {
        Token::KeywordIf
    } else if w == "else".to_owned() {
        Token::KeywordElse
    } else if w == "while".to_owned() {
        Token::KeywordWhile
    } else if w == "for".to_owned() {
        Token::KeywordFor
    } else if w == "print".to_owned() {
        Token::KeywordPrint
    } else if w == "true".to_owned() {
        Token::Boolean(true)
    } else if w == "false".to_owned() {
        Token::Boolean(false)
    } else if w == "i32".to_owned() {
        Token::TypeI32
    } else if w == "i64".to_owned() {
        Token::TypeI64
    } else if w == "bool".to_owned() {
        Token::TypeBool
    } else if w == "f32".to_owned() {
        Token::TypeF32
    } else if w == "f64".to_owned() {
        Token::TypeF64
    } else if w == "String".to_owned() {
        Token::TypeString
    } else {
        Token::Identifier(w)
    }
}

/// The token starting at `i`, which must be in bounds, or `None` where no
/// rule matches. On success the returned position lies strictly past `i`.
fn next_token(v: &Vec<char>, i: usize) -> (r: Option<(Token, usize)>)
    requires
        i < v.len(),
    ensures
        match token_at(v@, i as int) {
            None => r is None,
            Some((t, k)) => r matches Some(p) && p.0@ == t && p.1 as int == k,
        },
        r matches Some(p) ==> i < p.1 <= v.len(),
{
    let c = v[i];
    let two = i + 1 < v.len();
    if c == '=' {
        if two && v[i + 1] == '=' {
            Some((Token::EqualsEquals, i + 2))
        } else if two && v[i + 1] == '>' {
            Some((Token::BigArrow, i + 2))
        } else {
            Some((Token::Equals, i + 1))
        }
    } else if c == '!' {
        if two && v[i + 1] == '=' {
            Some((Token::NotEquals, i + 2))
        } else {
            Some((Token::Bang, i + 1))
        }
    } else if c == '>' {
        if two && v[i + 1] == '=' {
            Some((Token::GreaterThanEquals, i + 2))
        } else {
            Some((Token::GreaterThan, i + 1))
        }
    } else if c == '<' {
        if two && v[i + 1] == '=' {
            Some((Token::LessThanEquals, i + 2))
        } else {
            Some((Token::LessThan, i + 1))
        }
    } else if c == '&' {
        if two && v[i + 1] == '&' {
            Some((Token::And, i + 2))
        } else {
            None
        }
    } else if c == '|' {
        if two && v[i + 1] == '|' {
            Some((Token::Or, i + 2))
        } else {
            None
        }
    } else if c == '-' {
        if two && v[i + 1] == '>' {
            Some((Token::Arrow, i + 2))
        } else {
            Some((Token::Minus, i + 1))
        }
    } else if c == '+' {
        Some((Token::Plus, i + 1))
    } else if c == '*' {
        Some((Token::Star, i + 1))
    } else if c == '/' {
        Some((Token::Slash, i + 1))
    } else if c == '%' {
        Some((Token::Percent, i + 1))
    } else if c == '(' {
        Some((Token::LeftParen, i + 1))
    } else if c == ')' {
        Some((Token::RightParen, i + 1))
    } else if c == '{' {
        Some((Token::LeftBrace, i + 1))
    } else if c == '}' {
        Some((Token::RightBrace, i + 1))
    } else if c == ';' {
        Some((Token::Semicolon, i + 1))
    } else if c == ':' {
        Some((Token::Colon, i + 1))
    } else if is_digit_char(c) {
        let e = digit_run_end_at(v, i);
        proof {
            lemma_run_end_ge(v@, i as int + 1);
            lemma_digit_run(v@, i as int);
        }
        if e < v.len() && v[e] == '.' && e + 1 < v.len() && is_digit_char(v[e + 1]) {
            let e2 = digit_run_end_at(v, e + 1);
            let text = chars_to_string(v, i, e2);
            Some((Token::Float(text), e2))
        } else {
            match digits_to_i64(v, i, e) {
                Some(value) => Some((Token::Integer(value), e)),
                None => {
                    let text = chars_to_string(v, i, e);
                    Some((Token::Float(text), e))
                },
            }
        }
    } else if c == '"' {
        match scan_string(v, i + 1) {
            None => None,
            Some((content, e)) => Some((Token::String(content), e)),
        }
    } else if is_word_start_char(c) {
        let e = word_run_end_at(v, i);
        proof {
            lemma_run_end_ge(v@, i as int + 1);
        }
        let word = chars_to_string(v, i, e);
        Some((classify_word(word), e))
    } else {
        None
    }
}

/// Scans a whole character buffer into tokens, or fails on the first
/// character no rule matches, before any parsing is attempted.
pub fn tokenize(v: &Vec<char>) -> (r: Result<Vec<Token>, ParserError>)
    ensures
        match spec_tokenize(v@) {
            Ok(ts) => r is Ok && tokens_model(r->Ok_0@) == ts,
            Err(e) => r is Err && r->Err_0@ == e,
        },
{
    let mut out: Vec<Token> = Vec::new();
    let mut cur: usize = 0;
    loop
        invariant
            cur <= v.len(),
            match tokenize_from(v@, cur as int) {
                Ok(rest) => spec_tokenize(v@) == Ok::<_, ErrorModel>(tokens_model(out@) + rest),
                Err(e) => spec_tokenize(v@) == Err::<Seq<TokenModel>, _>(e),
            },
        ensures
            match spec_tokenize(v@) {
                Ok(ts) => out@.len() == ts.len() && tokens_model(out@) == ts,
                Err(_) => false,
            },
        decreases v.len() - cur,
    {
        // skip whitespace
        let mut k = cur;
        while k < v.len() && is_ws_char(v[k])
            invariant
                cur <= k <= v.len(),
                ws_end(v@, cur as int) == ws_end(v@, k as int),
            decreases v.len() - k,
        {
            k = k + 1;
        }
        proof {
            assert(ws_end(v@, cur as int) == k as int);
        }
        if k >= v.len() {
            proof {
                assert(tokenize_from(v@, cur as int) == Ok::<Seq<TokenModel>, ErrorModel>(
                    Seq::empty(),
                ));
                assert(tokens_model(out@) + Seq::<TokenModel>::empty() =~= tokens_model(out@));
            }
            break ;
        }
        match next_token(v, k) {
            None => {
                return Err(ParserError::UnexpectedCharacter(v[k]));
            },
            Some((tok, nxt)) => {
                proof {
                    let t = tok@;
                    match tokenize_from(v@, nxt as int) {
                        Ok(rest2) => {
                            assert(tokenize_from(v@, cur as int) == Ok::<Seq<TokenModel>, ErrorModel>(
                                seq![t] + rest2,
                            ));
                            assert(tokens_model(out@.push(tok)) =~= tokens_model(out@).push(t));
                            assert(tokens_model(out@) + (seq![t] + rest2) =~= tokens_model(
                                out@.push(tok),
                            ) + rest2);
                        },
                        Err(_) => {},
                    }
                }
                out.push(tok);
                cur = nxt;
            },
        }
    }
    Ok(out)
}

} // verus!
