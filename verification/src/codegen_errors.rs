//! Failures of the native-code backend that consumes the syntax tree.
//!
//! The backend itself lives outside this crate; the taxonomy and rendering
//! of its failures are plain data and belong here with the other error
//! tables.

use vstd::prelude::*;
use vstd::string::StringExecFns;

verus! {

/// A failure of the code-generation backend.
#[derive(Debug, Clone, PartialEq)]
pub enum CodeGenError {
    UndefinedVariable(String),
    TypeMismatch(String, String),
    TypeMismatchCustom(String),
    InvalidOperation(String),
    NoFunction,
    StringError(String),
    OperatorNotSupported(String, String),
    InternalError(String),
    StoreError(String),
}

/// The mathematical image of a [`CodeGenError`].
pub enum CodeGenErrorModel {
    UndefinedVariable(Seq<char>),
    TypeMismatch(Seq<char>, Seq<char>),
    TypeMismatchCustom(Seq<char>),
    InvalidOperation(Seq<char>),
    NoFunction,
    StringError(Seq<char>),
    OperatorNotSupported(Seq<char>, Seq<char>),
    InternalError(Seq<char>),
    StoreError(Seq<char>),
}

impl View for CodeGenError {
    type V = CodeGenErrorModel;

    open spec fn view(&self) -> CodeGenErrorModel {
        match self {
            CodeGenError::UndefinedVariable(v) => CodeGenErrorModel::UndefinedVariable(v@),
            CodeGenError::TypeMismatch(e, a) => CodeGenErrorModel::TypeMismatch(e@, a@),
            CodeGenError::TypeMismatchCustom(m) => CodeGenErrorModel::TypeMismatchCustom(m@),
            CodeGenError::InvalidOperation(o) => CodeGenErrorModel::InvalidOperation(o@),
            CodeGenError::NoFunction => CodeGenErrorModel::NoFunction,
            CodeGenError::StringError(m) => CodeGenErrorModel::StringError(m@),
            CodeGenError::OperatorNotSupported(o, t) => CodeGenErrorModel::OperatorNotSupported(
                o@,
                t@,
            ),
            CodeGenError::InternalError(m) => CodeGenErrorModel::InternalError(m@),
            CodeGenError::StoreError(v) => CodeGenErrorModel::StoreError(v@),
        }
    }
}

/// The rendered message of each failure, with its stable code.
pub open spec fn codegen_error_message(e: CodeGenErrorModel) -> Seq<char> {
    match e {
        CodeGenErrorModel::InternalError(m) => "(C000): Internal error: "@ + m,
        CodeGenErrorModel::UndefinedVariable(v) => "(C001): Undefined variable `"@ + v + "`"@,
        CodeGenErrorModel::TypeMismatch(e2, a) => "(C002): Type mismatch, expected `"@ + e2
            + "` but got `"@ + a + "`"@,
        CodeGenErrorModel::TypeMismatchCustom(m) => "(C002): Type mismatch: "@ + m,
        CodeGenErrorModel::InvalidOperation(o) => "(C003): Invalid operation `"@ + o + "`"@,
        CodeGenErrorModel::NoFunction => "(C004): No function found"@,
        CodeGenErrorModel::StringError(m) => "(C005): String error: "@ + m,
        CodeGenErrorModel::OperatorNotSupported(o, t) => "(C006): Operator `"@ + o
            + "` not supported for `"@ + t + "`"@,
        CodeGenErrorModel::StoreError(v) => "(C007): Store error for variable `"@ + v + "`"@,
    }
}

/// The human-readable, stably-coded message for a backend failure.
pub fn get_print_error(error: &CodeGenError) -> (r: String)
    ensures
        r@ == codegen_error_message(error@),
{
    match error {
        CodeGenError::InternalError(m) => {
            let mut s = "(C000): Internal error: ".to_owned();
            s.append(m.as_str());
            s
        },
        CodeGenError::UndefinedVariable(v) => {
            let mut s = "(C001): Undefined variable `".to_owned();
            s.append(v.as_str());
            s.append("`");
            proof {
                assert(s@ =~= codegen_error_message(error@));
            }
            s
        },
        CodeGenError::TypeMismatch(e, a) => {
            let mut s = "(C002): Type mismatch, expected `".to_owned();
            s.append(e.as_str());
            s.append("` but got `");
            s.append(a.as_str());
            s.append("`");
            proof {
                assert(s@ =~= codegen_error_message(error@));
            }
            s
        },
        CodeGenError::TypeMismatchCustom(m) => {
            let mut s = "(C002): Type mismatch: ".to_owned();
            s.append(m.as_str());
            s
        },
        CodeGenError::InvalidOperation(o) => {
            let mut s = "(C003): Invalid operation `".to_owned();
            s.append(o.as_str());
            s.append("`");
            proof {
                assert(s@ =~= codegen_error_message(error@));
            }
            s
        },
        CodeGenError::NoFunction => "(C004): No function found".to_owned(),
        CodeGenError::StringError(m) => {
            let mut s = "(C005): String error: ".to_owned();
            s.append(m.as_str());
            s
        },
        CodeGenError::OperatorNotSupported(o, t) => {
            let mut s = "(C006): Operator `".to_owned();
            s.append(o.as_str());
            s.append("` not supported for `");
            s.append(t.as_str());
            s.append("`");
            proof {
                assert(s@ =~= codegen_error_message(error@));
            }
            s
        },
        CodeGenError::StoreError(v) => {
            let mut s = "(C007): Store error for variable `".to_owned();
            s.append(v.as_str());
            s.append("`");
            proof {
                assert(s@ =~= codegen_error_message(error@));
            }
            s
        },
    }
}

} // verus!
