//! The closed taxonomy of parse-time failures.
//!
//! Every failure the tokenizer or the parser can raise is one of these
//! variants, carrying just enough text to render a short, stably-coded
//! message. A raised error is terminal: parsing halts at the first one.

use vstd::prelude::*;
use vstd::string::StringExecFns;
use crate::strings::push_char;

verus! {

/// A parse-time failure.
#[derive(Debug, Clone, PartialEq)]
pub enum ParserError {
    /// The tokenizer met a character no lexical rule accepts.
    UnexpectedCharacter(char),
    /// The parser met a token no grammar rule accepts here; the payload is
    /// the token's display form.
    UnexpectedToken(String),
    /// The token buffer ended where the grammar still required a token.
    UnexpectedEndOfInput,
    /// A specific token was required and absent; the payload names it.
    ExpectedToken(String),
    /// A specific token was required after a construct: expected, then found.
    ExpectedAfter(String, String),
    /// As [`ParserError::ExpectedAfter`], with a clarifying suffix.
    ExpectedAfterCustom(String, String, String),
    /// The left-hand side of `=` was not a bare identifier.
    InvalidAssignment(String),
}

/// The mathematical image of a [`ParserError`].
pub enum ErrorModel {
    UnexpectedCharacter(char),
    UnexpectedToken(Seq<char>),
    UnexpectedEndOfInput,
    ExpectedToken(Seq<char>),
    ExpectedAfter(Seq<char>, Seq<char>),
    ExpectedAfterCustom(Seq<char>, Seq<char>, Seq<char>),
    InvalidAssignment(Seq<char>),
}

impl View for ParserError {
    type V = ErrorModel;

    open spec fn view(&self) -> ErrorModel {
        match self {
            ParserError::UnexpectedCharacter(c) => ErrorModel::UnexpectedCharacter(*c),
            ParserError::UnexpectedToken(t) => ErrorModel::UnexpectedToken(t@),
            ParserError::UnexpectedEndOfInput => ErrorModel::UnexpectedEndOfInput,
            ParserError::ExpectedToken(t) => ErrorModel::ExpectedToken(t@),
            ParserError::ExpectedAfter(e, f) => ErrorModel::ExpectedAfter(e@, f@),
            ParserError::ExpectedAfterCustom(e, f, m) => ErrorModel::ExpectedAfterCustom(
                e@,
                f@,
                m@,
            ),
            ParserError::InvalidAssignment(m) => ErrorModel::InvalidAssignment(m@),
        }
    }
}

/// The rendered message of each failure, with its stable code.
pub open spec fn error_message(e: ErrorModel) -> Seq<char> {
    match e {
        ErrorModel::UnexpectedCharacter(c) => "(P001): Unexpected character `"@ + seq![c] + "`"@,
        ErrorModel::UnexpectedToken(t) => "(P002): Unexpected token `"@ + t + "`"@,
        ErrorModel::UnexpectedEndOfInput => "(P003): Unexpected end of input"@,
        ErrorModel::ExpectedToken(t) => "(P004): Expected token `"@ + t + "`"@,
        ErrorModel::ExpectedAfter(e, f) => "(P005): Expected `"@ + e + "` after `"@ + f + "`"@,
        ErrorModel::ExpectedAfterCustom(e, f, m) => "(P005): Expected `"@ + e + "` after `"@ + f
            + "` "@ + m,
        ErrorModel::InvalidAssignment(m) => "(P006): Invalid assignment "@ + m,
    }
}

/// The human-readable, stably-coded message for a parse-time failure.
pub fn get_print_error(error: &ParserError) -> (r: String)
    ensures
        r@ == error_message(error@),
{
    match error {
        ParserError::UnexpectedCharacter(c) => {
            let mut s = "(P001): Unexpected character `".to_owned();
            push_char(&mut s, *c);
            s.append("`");
            proof {
                assert(s@ =~= error_message(error@));
            }
            s
        },
        ParserError::UnexpectedToken(t) => {
            let mut s = "(P002): Unexpected token `".to_owned();
            s.append(t.as_str());
            s.append("`");
            proof {
                assert(s@ =~= error_message(error@));
            }
            s
        },
        ParserError::UnexpectedEndOfInput => "(P003): Unexpected end of input".to_owned(),
        ParserError::ExpectedToken(t) => {
            let mut s = "(P004): Expected token `".to_owned();
            s.append(t.as_str());
            s.append("`");
            proof {
                assert(s@ =~= error_message(error@));
            }
            s
        },
        ParserError::ExpectedAfter(e, f) => {
            let mut s = "(P005): Expected `".to_owned();
            s.append(e.as_str());
            s.append("` after `");
            s.append(f.as_str());
            s.append("`");
            proof {
                assert(s@ =~= error_message(error@));
            }
            s
        },
        ParserError::ExpectedAfterCustom(e, f, m) => {
            let mut s = "(P005): Expected `".to_owned();
            s.append(e.as_str());
            s.append("` after `");
            s.append(f.as_str());
            s.append("` ");
            s.append(m.as_str());
            proof {
                assert(s@ =~= error_message(error@));
            }
            s
        },
        ParserError::InvalidAssignment(m) => {
            let mut s = "(P006): Invalid assignment ".to_owned();
            s.append(m.as_str());
            proof {
                assert(s@ =~= error_message(error@));
            }
            s
        },
    }
}

} // verus!
