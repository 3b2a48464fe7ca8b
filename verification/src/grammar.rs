//! The reference model of the grammar.
//!
//! These spec functions define, over token images, exactly what the
//! recursive-descent parser returns for every input: which tree on success,
//! which failure otherwise, and where the cursor stands afterwards. The
//! executable parser is proved to agree with them clause for clause.
//!
//! A program is a sequence of statements; a statement is an expression
//! optionally followed by a consumed (never required) semicolon. Expressions
//! dispatch on `if` and `print`, then fall to assignment; the binary
//! operator ladder runs, loosest first: logical-or, logical-and, equality,
//! relational, additive, multiplicative, then unary prefixes and primaries.
//! Every level is left-associative; assignment is right-associative.

use vstd::prelude::*;
use crate::errors::ErrorModel;
use crate::expr::ExprModel;
use crate::nodes::NodeModel;
use crate::ops::{BinaryOp, UnaryOp};
use crate::tokens::{same_kind, token_text, TokenModel};
use crate::types::Types;

verus! {

/// The outcome of one parse rule: a value and the cursor just past what was
/// consumed, or the first failure met.
pub enum Parsed<T> {
    Good(T, int),
    Fail(ErrorModel),
}

/// Whether the token at `i` exists and has the same shape as `k`.
pub open spec fn spec_match(toks: Seq<TokenModel>, i: int, k: TokenModel) -> bool {
    0 <= i < toks.len() && same_kind(toks[i], k)
}

/// The continuation index after a sub-parse, held inside `(i, len]`. Every
/// successful sub-parse in fact consumes at least one token, so the guards
/// never change the value; they only make termination evident.
pub open spec fn step_index(len: int, i: int, j: int) -> int {
    if j <= i {
        i + 1
    } else if j > len {
        len
    } else {
        j
    }
}

/// The continuation index of a same-level continuation, held inside
/// `[i, len]`.
pub open spec fn rest_index(len: int, i: int, j: int) -> int {
    if j < i {
        i
    } else if j > len {
        len
    } else {
        j
    }
}

/// A primary form: a literal or identifier leaf, a parenthesized
/// expression, or a brace-delimited block.
#[verifier::opaque]
pub open spec fn spec_primary(toks: Seq<TokenModel>, i: int) -> Parsed<ExprModel>
    decreases toks.len() - i, 2int,
        when 0 <= i <= toks.len()
{
    if i >= toks.len() {
        Parsed::Fail(ErrorModel::UnexpectedEndOfInput)
    } else {
        match toks[i] {
            TokenModel::Integer(v) => Parsed::Good(ExprModel::Literal(NodeModel::Integer(v)), i + 1),
            TokenModel::Float(s) => Parsed::Good(ExprModel::Literal(NodeModel::Float(s)), i + 1),
            TokenModel::String(s) => Parsed::Good(ExprModel::Literal(NodeModel::String(s)), i + 1),
            TokenModel::Boolean(b) => Parsed::Good(ExprModel::Literal(NodeModel::Boolean(b)), i + 1),
            TokenModel::Identifier(n) => Parsed::Good(
                ExprModel::Literal(NodeModel::Identifier(n)),
                i + 1,
            ),
            TokenModel::LeftParen => match spec_expression(toks, i + 1) {
                Parsed::Fail(e) => Parsed::Fail(e),
                Parsed::Good(inner, j) => if spec_match(toks, j, TokenModel::RightParen) {
                    Parsed::Good(inner, j + 1)
                } else {
                    Parsed::Fail(ErrorModel::ExpectedAfter(")"@, "expression"@))
                },
            },
            TokenModel::LeftBrace => match spec_block_rest(toks, i + 1) {
                Parsed::Fail(e) => Parsed::Fail(e),
                Parsed::Good(items, e) => if 1 <= e <= toks.len() && toks[e - 1]
                    is RightBrace {
                    Parsed::Good(ExprModel::Block(items), e)
                } else {
                    Parsed::Fail(ErrorModel::ExpectedAfter("}"@, "block"@))
                },
            },
            t => Parsed::Fail(ErrorModel::UnexpectedToken(token_text(t))),
        }
    }
}

/// A unary chain: prefix `-` or `!` operators, right-associative, then a
/// primary.
pub open spec fn spec_unary(toks: Seq<TokenModel>, i: int) -> Parsed<ExprModel>
    decreases toks.len() - i, 3int,
        when 0 <= i <= toks.len()
{
    if i < toks.len() && (toks[i] is Minus || toks[i] is Bang) {
        let op = if toks[i] is Minus {
            UnaryOp::Minus
        } else {
            UnaryOp::Not
        };
        match spec_unary(toks, i + 1) {
            Parsed::Fail(e) => Parsed::Fail(e),
            Parsed::Good(operand, j) => Parsed::Good(
                ExprModel::Unary { operator: op, operand: Box::new(operand) },
                j,
            ),
        }
    } else {
        spec_primary(toks, i)
    }
}

/// The multiplicative continuation: folds `* / %` left-associatively onto
/// `acc`.
pub open spec fn spec_factor_rest(toks: Seq<TokenModel>, i: int, acc: ExprModel) -> Parsed<
    ExprModel,
>
    decreases toks.len() - i, 1int,
        when 0 <= i <= toks.len()
{
    if i < toks.len() && (toks[i] is Slash || toks[i] is Star || toks[i] is Percent) {
        let op = if toks[i] is Slash {
            BinaryOp::Divide
        } else if toks[i] is Star {
            BinaryOp::Multiply
        } else {
            BinaryOp::Modulo
        };
        match spec_unary(toks, i + 1) {
            Parsed::Fail(e) => Parsed::Fail(e),
            Parsed::Good(right, j) => spec_factor_rest(
                toks,
                step_index(toks.len() as int, i, j),
                ExprModel::Binary { left: Box::new(acc), operator: op, right: Box::new(right) },
            ),
        }
    } else {
        Parsed::Good(acc, i)
    }
}

/// The multiplicative level.
pub open spec fn spec_factor(toks: Seq<TokenModel>, i: int) -> Parsed<ExprModel>
    decreases toks.len() - i, 4int,
        when 0 <= i <= toks.len()
{
    match spec_unary(toks, i) {
        Parsed::Fail(e) => Parsed::Fail(e),
        Parsed::Good(first, j) => spec_factor_rest(toks, rest_index(toks.len() as int, i, j), first),
    }
}

/// The additive continuation: folds `- +` left-associatively onto `acc`.
pub open spec fn spec_term_rest(toks: Seq<TokenModel>, i: int, acc: ExprModel) -> Parsed<ExprModel>
    decreases toks.len() - i, 1int,
        when 0 <= i <= toks.len()
{
    if i < toks.len() && (toks[i] is Minus || toks[i] is Plus) {
        let op = if toks[i] is Minus {
            BinaryOp::Subtract
        } else {
            BinaryOp::Add
        };
        match spec_factor(toks, i + 1) {
            Parsed::Fail(e) => Parsed::Fail(e),
            Parsed::Good(right, j) => spec_term_rest(
                toks,
                step_index(toks.len() as int, i, j),
                ExprModel::Binary { left: Box::new(acc), operator: op, right: Box::new(right) },
            ),
        }
    } else {
        Parsed::Good(acc, i)
    }
}

/// The additive level.
pub open spec fn spec_term(toks: Seq<TokenModel>, i: int) -> Parsed<ExprModel>
    decreases toks.len() - i, 5int,
        when 0 <= i <= toks.len()
{
    match spec_factor(toks, i) {
        Parsed::Fail(e) => Parsed::Fail(e),
        Parsed::Good(first, j) => spec_term_rest(toks, rest_index(toks.len() as int, i, j), first),
    }
}

/// The relational continuation: folds `> >= < <=` onto `acc`.
pub open spec fn spec_comparison_rest(toks: Seq<TokenModel>, i: int, acc: ExprModel) -> Parsed<
    ExprModel,
>
    decreases toks.len() - i, 1int,
        when 0 <= i <= toks.len()
{
    if i < toks.len() && (toks[i] is GreaterThan || toks[i] is GreaterThanEquals || toks[i]
        is LessThan || toks[i] is LessThanEquals) {
        let op = if toks[i] is GreaterThan {
            BinaryOp::Greater
        } else if toks[i] is GreaterThanEquals {
            BinaryOp::GreaterEqual
        } else if toks[i] is LessThan {
            BinaryOp::Less
        } else {
            BinaryOp::LessEqual
        };
        match spec_term(toks, i + 1) {
            Parsed::Fail(e) => Parsed::Fail(e),
            Parsed::Good(right, j) => spec_comparison_rest(
                toks,
                step_index(toks.len() as int, i, j),
                ExprModel::Binary { left: Box::new(acc), operator: op, right: Box::new(right) },
            ),
        }
    } else {
        Parsed::Good(acc, i)
    }
}

/// The relational level.
pub open spec fn spec_comparison(toks: Seq<TokenModel>, i: int) -> Parsed<ExprModel>
    decreases toks.len() - i, 6int,
        when 0 <= i <= toks.len()
{
    match spec_term(toks, i) {
        Parsed::Fail(e) => Parsed::Fail(e),
        Parsed::Good(first, j) => spec_comparison_rest(
            toks,
            rest_index(toks.len() as int, i, j),
            first,
        ),
    }
}

/// The equality continuation: folds `!= ==` onto `acc`.
pub open spec fn spec_equality_rest(toks: Seq<TokenModel>, i: int, acc: ExprModel) -> Parsed<
    ExprModel,
>
    decreases toks.len() - i, 1int,
        when 0 <= i <= toks.len()
{
    if i < toks.len() && (toks[i] is NotEquals || toks[i] is EqualsEquals) {
        let op = if toks[i] is NotEquals {
            BinaryOp::NotEqual
        } else {
            BinaryOp::Equal
        };
        match spec_comparison(toks, i + 1) {
            Parsed::Fail(e) => Parsed::Fail(e),
            Parsed::Good(right, j) => spec_equality_rest(
                toks,
                step_index(toks.len() as int, i, j),
                ExprModel::Binary { left: Box::new(acc), operator: op, right: Box::new(right) },
            ),
        }
    } else {
        Parsed::Good(acc, i)
    }
}

/// The equality level.
pub open spec fn spec_equality(toks: Seq<TokenModel>, i: int) -> Parsed<ExprModel>
    decreases toks.len() - i, 7int,
        when 0 <= i <= toks.len()
{
    match spec_comparison(toks, i) {
        Parsed::Fail(e) => Parsed::Fail(e),
        Parsed::Good(first, j) => spec_equality_rest(
            toks,
            rest_index(toks.len() as int, i, j),
            first,
        ),
    }
}

/// The logical-and continuation.
pub open spec fn spec_and_rest(toks: Seq<TokenModel>, i: int, acc: ExprModel) -> Parsed<ExprModel>
    decreases toks.len() - i, 1int,
        when 0 <= i <= toks.len()
{
    if i < toks.len() && toks[i] is And {
        match spec_equality(toks, i + 1) {
            Parsed::Fail(e) => Parsed::Fail(e),
            Parsed::Good(right, j) => spec_and_rest(
                toks,
                step_index(toks.len() as int, i, j),
                ExprModel::Binary {
                    left: Box::new(acc),
                    operator: BinaryOp::And,
                    right: Box::new(right),
                },
            ),
        }
    } else {
        Parsed::Good(acc, i)
    }
}

/// The logical-and level.
pub open spec fn spec_and(toks: Seq<TokenModel>, i: int) -> Parsed<ExprModel>
    decreases toks.len() - i, 8int,
        when 0 <= i <= toks.len()
{
    match spec_equality(toks, i) {
        Parsed::Fail(e) => Parsed::Fail(e),
        Parsed::Good(first, j) => spec_and_rest(toks, rest_index(toks.len() as int, i, j), first),
    }
}

/// The logical-or continuation.
pub open spec fn spec_or_rest(toks: Seq<TokenModel>, i: int, acc: ExprModel) -> Parsed<ExprModel>
    decreases toks.len() - i, 1int,
        when 0 <= i <= toks.len()
{
    if i < toks.len() && toks[i] is Or {
        match spec_and(toks, i + 1) {
            Parsed::Fail(e) => Parsed::Fail(e),
            Parsed::Good(right, j) => spec_or_rest(
                toks,
                step_index(toks.len() as int, i, j),
                ExprModel::Binary {
                    left: Box::new(acc),
                    operator: BinaryOp::Or,
                    right: Box::new(right),
                },
            ),
        }
    } else {
        Parsed::Good(acc, i)
    }
}

/// The logical-or level: the loosest-binding value expression.
pub open spec fn spec_or(toks: Seq<TokenModel>, i: int) -> Parsed<ExprModel>
    decreases toks.len() - i, 9int,
        when 0 <= i <= toks.len()
{
    match spec_and(toks, i) {
        Parsed::Fail(e) => Parsed::Fail(e),
        Parsed::Good(first, j) => spec_or_rest(toks, rest_index(toks.len() as int, i, j), first),
    }
}

/// A declared-type annotation: one of the type keywords; a bare identifier
/// naming a known primitive is accepted too, any other name is an
/// unknown-type failure.
pub open spec fn spec_parse_type(toks: Seq<TokenModel>, i: int) -> Parsed<Types> {
    if 0 <= i < toks.len() {
        match toks[i] {
            TokenModel::Identifier(name) => if name == "i32"@ {
                Parsed::Good(Types::I32, i + 1)
            } else if name == "i64"@ {
                Parsed::Good(Types::I64, i + 1)
            } else if name == "bool"@ {
                Parsed::Good(Types::Bool, i + 1)
            } else if name == "f32"@ {
                Parsed::Good(Types::F32, i + 1)
            } else if name == "f64"@ {
                Parsed::Good(Types::F64, i + 1)
            } else if name == "String"@ {
                Parsed::Good(Types::String, i + 1)
            } else {
                Parsed::Fail(ErrorModel::UnexpectedToken("unknown type: "@ + name))
            },
            TokenModel::TypeI32 => Parsed::Good(Types::I32, i + 1),
            TokenModel::TypeI64 => Parsed::Good(Types::I64, i + 1),
            TokenModel::TypeBool => Parsed::Good(Types::Bool, i + 1),
            TokenModel::TypeF32 => Parsed::Good(Types::F32, i + 1),
            TokenModel::TypeF64 => Parsed::Good(Types::F64, i + 1),
            TokenModel::TypeString => Parsed::Good(Types::String, i + 1),
            _ => Parsed::Fail(ErrorModel::ExpectedToken("type"@)),
        }
    } else {
        Parsed::Fail(ErrorModel::ExpectedToken("type"@))
    }
}

/// Assignment and declaration, the loosest expression rule.
///
/// `let <identifier> [: <type>] = <expr>` declares a name; the right-hand
/// side runs through this same rule, so assignment is right-associative. A
/// bare `<expr> = <expr>` is legal only when the left-hand side parsed down
/// to a single identifier leaf; any other shape is an invalid-assignment
/// failure.
#[verifier::opaque]
pub open spec fn spec_assignment(toks: Seq<TokenModel>, i: int) -> Parsed<ExprModel>
    decreases toks.len() - i, 10int,
        when 0 <= i <= toks.len()
{
    if i >= toks.len() {
        // nothing at all parses here: the rule falls through to a primary,
        // which fails at end of input
        Parsed::Fail(ErrorModel::UnexpectedEndOfInput)
    } else if toks[i] is KeywordLet {
        if i + 1 < toks.len() && toks[i + 1] is Identifier {
            let name = toks[i + 1]->Identifier_0;
            if spec_match(toks, i + 2, TokenModel::Colon) {
                match spec_parse_type(toks, i + 3) {
                    Parsed::Fail(e) => Parsed::Fail(e),
                    Parsed::Good(ty, j) => if spec_match(toks, j, TokenModel::Equals) {
                        match spec_assignment(toks, step_index(toks.len() as int, i, j + 1)) {
                            Parsed::Fail(e) => Parsed::Fail(e),
                            Parsed::Good(value, k) => Parsed::Good(
                                ExprModel::LetDeclaration {
                                    identifier: name,
                                    var_type: Some(ty),
                                    value: Box::new(value),
                                },
                                k,
                            ),
                        }
                    } else {
                        Parsed::Fail(ErrorModel::ExpectedAfterCustom("="@, ""@, "identifier"@))
                    },
                }
            } else if spec_match(toks, i + 2, TokenModel::Equals) {
                match spec_assignment(toks, i + 3) {
                    Parsed::Fail(e) => Parsed::Fail(e),
                    Parsed::Good(value, k) => Parsed::Good(
                        ExprModel::LetDeclaration {
                            identifier: name,
                            var_type: None,
                            value: Box::new(value),
                        },
                        k,
                    ),
                }
            } else {
                Parsed::Fail(ErrorModel::ExpectedAfterCustom("="@, ""@, "identifier"@))
            }
        } else {
            Parsed::Fail(ErrorModel::ExpectedAfter("identifier"@, "let"@))
        }
    } else {
        match spec_or(toks, i) {
            Parsed::Fail(e) => Parsed::Fail(e),
            Parsed::Good(lhs, j) => if spec_match(toks, j, TokenModel::Equals) {
                match lhs {
                    ExprModel::Literal(NodeModel::Identifier(name)) => match spec_assignment(
                        toks,
                        step_index(toks.len() as int, i, j + 1),
                    ) {
                        Parsed::Fail(e) => Parsed::Fail(e),
                        Parsed::Good(value, k) => Parsed::Good(
                            ExprModel::Assignment { identifier: name, value: Box::new(value) },
                            k,
                        ),
                    },
                    _ => Parsed::Fail(ErrorModel::InvalidAssignment("target must be an identifier"@)),
                }
            } else {
                Parsed::Good(lhs, j)
            },
        }
    }
}

/// The body of a brace-delimited block: statements until a closing brace is
/// matched or the tokens run out. The caller checks that the token last
/// consumed really was the closing brace — that is how a run-out is told
/// apart from a proper close.
pub open spec fn spec_block_rest(toks: Seq<TokenModel>, i: int) -> Parsed<Seq<ExprModel>>
    decreases toks.len() - i, 13int,
        when 0 <= i <= toks.len()
{
    if spec_match(toks, i, TokenModel::RightBrace) {
        Parsed::Good(Seq::empty(), i + 1)
    } else if i >= toks.len() {
        Parsed::Good(Seq::empty(), i)
    } else {
        match spec_statement(toks, i) {
            Parsed::Fail(e) => Parsed::Fail(e),
            Parsed::Good(stmt, j) => match spec_block_rest(
                toks,
                step_index(toks.len() as int, i, j),
            ) {
                Parsed::Fail(e) => Parsed::Fail(e),
                Parsed::Good(rest, e) => Parsed::Good(seq![stmt] + rest, e),
            },
        }
    }
}

/// A conditional: `if <expr> { <statements> } [else { <statements> }]`. Both
/// branches are blocks even when empty; an absent `else` yields no else
/// branch at all, so an absent alternative and an empty one stay
/// distinguishable.
#[verifier::opaque]
pub open spec fn spec_if_else(toks: Seq<TokenModel>, i: int) -> Parsed<ExprModel>
    decreases toks.len() - i, 10int,
        when 0 <= i <= toks.len()
{
    if !spec_match(toks, i, TokenModel::KeywordIf) {
        Parsed::Fail(ErrorModel::ExpectedToken("if"@))
    } else {
        match spec_expression(toks, i + 1) {
            Parsed::Fail(e) => Parsed::Fail(e),
            Parsed::Good(cond, j) => if !spec_match(toks, j, TokenModel::LeftBrace) {
                Parsed::Fail(ErrorModel::ExpectedAfter("{"@, "if condition"@))
            } else {
                match spec_block_rest(toks, step_index(toks.len() as int, i, j + 1)) {
                    Parsed::Fail(e) => Parsed::Fail(e),
                    Parsed::Good(then_items, e1) => if !(1 <= e1 <= toks.len() && toks[e1 - 1]
                        is RightBrace) {
                        Parsed::Fail(ErrorModel::ExpectedAfter("}"@, "if-block"@))
                    } else if spec_match(toks, e1, TokenModel::KeywordElse) {
                        if !spec_match(toks, e1 + 1, TokenModel::LeftBrace) {
                            Parsed::Fail(ErrorModel::ExpectedAfter("{"@, "else"@))
                        } else {
                            match spec_block_rest(toks, step_index(toks.len() as int, i, e1 + 2)) {
                                Parsed::Fail(e) => Parsed::Fail(e),
                                Parsed::Good(else_items, e2) => if !(1 <= e2 <= toks.len() && toks[e2
                                    - 1] is RightBrace) {
                                    Parsed::Fail(ErrorModel::ExpectedAfter("}"@, "else-block"@))
                                } else {
                                    Parsed::Good(
                                        ExprModel::IfElse {
                                            condition: Box::new(cond),
                                            then_branch: Box::new(ExprModel::Block(then_items)),
                                            else_branch: Some(
                                                Box::new(ExprModel::Block(else_items)),
                                            ),
                                        },
                                        e2,
                                    )
                                },
                            }
                        }
                    } else {
                        Parsed::Good(
                            ExprModel::IfElse {
                                condition: Box::new(cond),
                                then_branch: Box::new(ExprModel::Block(then_items)),
                                else_branch: None,
                            },
                            e1,
                        )
                    },
                }
            },
        }
    }
}

/// A print statement: `print ( <expr> )`, parentheses required; the inner
/// expression uses the value grammar, so a bare assignment cannot stand
/// there.
#[verifier::opaque]
pub open spec fn spec_print(toks: Seq<TokenModel>, i: int) -> Parsed<ExprModel>
    decreases toks.len() - i, 10int,
        when 0 <= i <= toks.len()
{
    if !spec_match(toks, i, TokenModel::KeywordPrint) {
        Parsed::Fail(ErrorModel::ExpectedAfter("print"@, "statement"@))
    } else if !(i + 1 < toks.len() && toks[i + 1] is LeftParen) {
        Parsed::Fail(ErrorModel::ExpectedAfter("("@, "print"@))
    } else {
        match spec_or(toks, i + 2) {
            Parsed::Fail(e) => Parsed::Fail(e),
            Parsed::Good(inner, j) => if 0 <= j < toks.len() && toks[j] is RightParen {
                Parsed::Good(ExprModel::Print(Box::new(inner)), j + 1)
            } else {
                Parsed::Fail(ErrorModel::ExpectedAfterCustom(")"@, "print"@, "expression"@))
            },
        }
    }
}

/// An expression: a conditional, a print statement, or an
/// assignment-or-lower expression, told apart by one token of lookahead.
pub open spec fn spec_expression(toks: Seq<TokenModel>, i: int) -> Parsed<ExprModel>
    decreases toks.len() - i, 11int,
        when 0 <= i <= toks.len()
{
    if 0 <= i < toks.len() && toks[i] is KeywordIf {
        spec_if_else(toks, i)
    } else if 0 <= i < toks.len() && toks[i] is KeywordPrint {
        spec_print(toks, i)
    } else {
        spec_assignment(toks, i)
    }
}

/// A statement: an expression, then one semicolon is consumed if present —
/// semicolons separate statements, they never terminate them.
pub open spec fn spec_statement(toks: Seq<TokenModel>, i: int) -> Parsed<ExprModel>
    decreases toks.len() - i, 12int,
        when 0 <= i <= toks.len()
{
    match spec_expression(toks, i) {
        Parsed::Fail(e) => Parsed::Fail(e),
        Parsed::Good(stmt, j) => if spec_match(toks, j, TokenModel::Semicolon) {
            Parsed::Good(stmt, j + 1)
        } else {
            Parsed::Good(stmt, j)
        },
    }
}

/// The statements from `i` to the end of the buffer, in source order.
pub open spec fn spec_program_rest(toks: Seq<TokenModel>, i: int) -> Parsed<Seq<ExprModel>>
    decreases toks.len() - i, 13int,
        when 0 <= i <= toks.len()
{
    if i >= toks.len() {
        Parsed::Good(Seq::empty(), i)
    } else {
        match spec_statement(toks, i) {
            Parsed::Fail(e) => Parsed::Fail(e),
            Parsed::Good(stmt, j) => match spec_program_rest(
                toks,
                step_index(toks.len() as int, i, j),
            ) {
                Parsed::Fail(e) => Parsed::Fail(e),
                Parsed::Good(rest, e) => Parsed::Good(seq![stmt] + rest, e),
            },
        }
    }
}

/// How an expression dispatches on its first token: to the conditional
/// rule, the print rule, or the assignment rule.
pub proof fn lemma_expression_dispatch(toks: Seq<TokenModel>, i: int)
    requires
        0 <= i <= toks.len(),
    ensures
        (i < toks.len() && toks[i] is KeywordIf) ==> spec_expression(toks, i) == spec_if_else(
            toks,
            i,
        ),
        (i < toks.len() && !(toks[i] is KeywordIf) && toks[i] is KeywordPrint) ==> spec_expression(
            toks,
            i,
        ) == spec_print(toks, i),
        !(i < toks.len() && (toks[i] is KeywordIf || toks[i] is KeywordPrint))
            ==> spec_expression(toks, i) == spec_assignment(toks, i),
{
    reveal_with_fuel(spec_if_else, 1);
    reveal_with_fuel(spec_print, 1);
    reveal_with_fuel(spec_assignment, 1);
}

/// At the end of the buffer no value expression parses: the ladder falls
/// through to a primary, which fails for want of a token.
pub proof fn lemma_value_expr_at_end(toks: Seq<TokenModel>, i: int)
    requires
        i == toks.len(),
        0 <= i,
    ensures
        spec_or(toks, i) == Parsed::Fail::<ExprModel>(ErrorModel::UnexpectedEndOfInput),
{
    reveal_with_fuel(spec_primary, 1);
}

/// A whole program: one tree per top-level statement, or the first failure.
pub open spec fn spec_parse_program(toks: Seq<TokenModel>) -> Result<Seq<ExprModel>, ErrorModel> {
    match spec_program_rest(toks, 0) {
        Parsed::Good(stmts, _) => Ok(stmts),
        Parsed::Fail(e) => Err(e),
    }
}

} // verus!
