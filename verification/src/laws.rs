//! Laws of the front end, stated and proved once and for all inputs.
//!
//! Each proof function here states a property of the reference model that
//! every run of the executable tokenizer and parser therefore enjoys, since
//! those are proved to agree with the model exactly.

use vstd::prelude::*;
use crate::errors::ErrorModel;
use crate::expr::ExprModel;
use crate::grammar::{
    spec_assignment, spec_match, spec_or, spec_parse_program, spec_primary, spec_program_rest,
    spec_statement, spec_term_rest, step_index, Parsed,
};
use crate::lexer::{is_ws, spec_tokenize, token_at, tokenize_from, ws_end};
use crate::nodes::NodeModel;
use crate::ops::BinaryOp;
use crate::parser::spec_parse_source;
use crate::tokens::TokenModel;
use crate::types::Types;

verus! {

/// The image of a single-token literal or identifier leaf.
pub open spec fn leaf_of(t: TokenModel) -> ExprModel {
    match t {
        TokenModel::Integer(v) => ExprModel::Literal(NodeModel::Integer(v)),
        TokenModel::Identifier(n) => ExprModel::Literal(NodeModel::Identifier(n)),
        _ => ExprModel::Literal(NodeModel::Boolean(false)),
    }
}

/// Whether a token continues some binary-operator level.
pub open spec fn is_infix_op(t: TokenModel) -> bool {
    ||| t is Minus
    ||| t is Plus
    ||| t is Star
    ||| t is Slash
    ||| t is Percent
    ||| t is GreaterThan
    ||| t is GreaterThanEquals
    ||| t is LessThan
    ||| t is LessThanEquals
    ||| t is EqualsEquals
    ||| t is NotEquals
    ||| t is And
    ||| t is Or
}

/// A lone literal or identifier token, not followed by an infix operator,
/// runs down the whole operator ladder unchanged.
proof fn lemma_ladder_leaf(toks: Seq<TokenModel>, i: int)
    requires
        0 <= i < toks.len(),
        toks[i] is Integer || toks[i] is Identifier,
        i + 1 < toks.len() ==> !is_infix_op(toks[i + 1]),
    ensures
        spec_or(toks, i) == Parsed::Good(leaf_of(toks[i]), i + 1),
{
    reveal_with_fuel(spec_primary, 1);
    let lit = leaf_of(toks[i]);
    assert(spec_primary(toks, i) == Parsed::Good(lit, i + 1));
    assert(crate::grammar::spec_unary(toks, i) == Parsed::Good(lit, i + 1));
    assert(crate::grammar::spec_factor(toks, i) == Parsed::Good(lit, i + 1));
    assert(crate::grammar::spec_term(toks, i) == Parsed::Good(lit, i + 1));
    assert(crate::grammar::spec_comparison(toks, i) == Parsed::Good(lit, i + 1));
    assert(crate::grammar::spec_equality(toks, i) == Parsed::Good(lit, i + 1));
    assert(crate::grammar::spec_and(toks, i) == Parsed::Good(lit, i + 1));
    assert(spec_or(toks, i) == Parsed::Good(lit, i + 1));
}

/// A `let` binding of an integer literal, with no annotation: for every
/// name and every literal value, the program parses to exactly one
/// declaration node, carrying no declared type and an integer leaf equal to
/// the literal.
pub proof fn lemma_let_declaration_shape(name: Seq<char>, value: int)
    ensures
        spec_parse_program(
            seq![
                TokenModel::KeywordLet,
                TokenModel::Identifier(name),
                TokenModel::Equals,
                TokenModel::Integer(value),
            ],
        ) == Ok::<_, ErrorModel>(
            seq![
                ExprModel::LetDeclaration {
                    identifier: name,
                    var_type: None,
                    value: Box::new(ExprModel::Literal(NodeModel::Integer(value))),
                },
            ],
        ),
{
    reveal_with_fuel(spec_assignment, 3);
    reveal_with_fuel(spec_primary, 2);
    reveal_with_fuel(spec_program_rest, 3);
    let toks = seq![
        TokenModel::KeywordLet,
        TokenModel::Identifier(name),
        TokenModel::Equals,
        TokenModel::Integer(value),
    ];
    let decl = ExprModel::LetDeclaration {
        identifier: name,
        var_type: None,
        value: Box::new(ExprModel::Literal(NodeModel::Integer(value))),
    };
    lemma_ladder_leaf(toks, 3);
    assert(spec_assignment(toks, 3) == Parsed::Good(
        ExprModel::Literal(NodeModel::Integer(value)),
        4,
    ));
    assert(spec_assignment(toks, 0) == Parsed::Good(decl, 4));
    assert(spec_program_rest(toks, 4) == Parsed::Good(Seq::<ExprModel>::empty(), 4));
    assert(seq![decl] + Seq::<ExprModel>::empty() =~= seq![decl]);
}

/// A `let` binding with an explicit `i32` annotation: for every name and
/// every literal value, the declaration node's type annotation is `I32`,
/// whatever the literal's magnitude.
pub proof fn lemma_let_declaration_with_type_shape(name: Seq<char>, value: int)
    ensures
        spec_parse_program(
            seq![
                TokenModel::KeywordLet,
                TokenModel::Identifier(name),
                TokenModel::Colon,
                TokenModel::TypeI32,
                TokenModel::Equals,
                TokenModel::Integer(value),
                TokenModel::Semicolon,
            ],
        ) == Ok::<_, ErrorModel>(
            seq![
                ExprModel::LetDeclaration {
                    identifier: name,
                    var_type: Some(Types::I32),
                    value: Box::new(ExprModel::Literal(NodeModel::Integer(value))),
                },
            ],
        ),
{
    reveal_with_fuel(spec_assignment, 3);
    reveal_with_fuel(spec_primary, 2);
    reveal_with_fuel(spec_program_rest, 3);
    let toks = seq![
        TokenModel::KeywordLet,
        TokenModel::Identifier(name),
        TokenModel::Colon,
        TokenModel::TypeI32,
        TokenModel::Equals,
        TokenModel::Integer(value),
        TokenModel::Semicolon,
    ];
    let decl = ExprModel::LetDeclaration {
        identifier: name,
        var_type: Some(Types::I32),
        value: Box::new(ExprModel::Literal(NodeModel::Integer(value))),
    };
    assert(step_index(toks.len() as int, 0, 6) == 6);
    lemma_ladder_leaf(toks, 5);
    assert(spec_assignment(toks, 5) == Parsed::Good(
        ExprModel::Literal(NodeModel::Integer(value)),
        6,
    ));
    assert(spec_assignment(toks, 0) == Parsed::Good(decl, 6));
    assert(spec_statement(toks, 0) == Parsed::Good(decl, 7));
    assert(spec_program_rest(toks, 7) == Parsed::Good(Seq::<ExprModel>::empty(), 7));
    assert(seq![decl] + Seq::<ExprModel>::empty() =~= seq![decl]);
}

/// Statement separation preserves source order, and the separator is
/// optional before the end: two semicolon-separated declarations followed by
/// an unterminated addition parse to exactly three statements, in order,
/// the third a binary addition over the two identifier leaves.
#[verifier::spinoff_prover]
#[verifier::rlimit(100)]
pub proof fn lemma_statements_in_order(x: Seq<char>, y: Seq<char>, a: int, b: int)
    ensures
        spec_parse_program(
            seq![
                TokenModel::KeywordLet,
                TokenModel::Identifier(x),
                TokenModel::Equals,
                TokenModel::Integer(a),
                TokenModel::Semicolon,
                TokenModel::KeywordLet,
                TokenModel::Identifier(y),
                TokenModel::Equals,
                TokenModel::Integer(b),
                TokenModel::Semicolon,
                TokenModel::Identifier(x),
                TokenModel::Plus,
                TokenModel::Identifier(y),
            ],
        ) == Ok::<_, ErrorModel>(
            seq![
                ExprModel::LetDeclaration {
                    identifier: x,
                    var_type: None,
                    value: Box::new(ExprModel::Literal(NodeModel::Integer(a))),
                },
                ExprModel::LetDeclaration {
                    identifier: y,
                    var_type: None,
                    value: Box::new(ExprModel::Literal(NodeModel::Integer(b))),
                },
                ExprModel::Binary {
                    left: Box::new(ExprModel::Literal(NodeModel::Identifier(x))),
                    operator: BinaryOp::Add,
                    right: Box::new(ExprModel::Literal(NodeModel::Identifier(y))),
                },
            ],
        ),
{
    reveal_with_fuel(spec_assignment, 3);
    reveal_with_fuel(spec_primary, 2);
    reveal_with_fuel(spec_term_rest, 3);
    reveal_with_fuel(spec_program_rest, 5);
    let toks = seq![
        TokenModel::KeywordLet,
        TokenModel::Identifier(x),
        TokenModel::Equals,
        TokenModel::Integer(a),
        TokenModel::Semicolon,
        TokenModel::KeywordLet,
        TokenModel::Identifier(y),
        TokenModel::Equals,
        TokenModel::Integer(b),
        TokenModel::Semicolon,
        TokenModel::Identifier(x),
        TokenModel::Plus,
        TokenModel::Identifier(y),
    ];
    let d1 = ExprModel::LetDeclaration {
        identifier: x,
        var_type: None,
        value: Box::new(ExprModel::Literal(NodeModel::Integer(a))),
    };
    let d2 = ExprModel::LetDeclaration {
        identifier: y,
        var_type: None,
        value: Box::new(ExprModel::Literal(NodeModel::Integer(b))),
    };
    let sum = ExprModel::Binary {
        left: Box::new(ExprModel::Literal(NodeModel::Identifier(x))),
        operator: BinaryOp::Add,
        right: Box::new(ExprModel::Literal(NodeModel::Identifier(y))),
    };
    lemma_ladder_leaf(toks, 3);
    assert(spec_assignment(toks, 3) == Parsed::Good(
        ExprModel::Literal(NodeModel::Integer(a)),
        4,
    ));
    assert(spec_assignment(toks, 0) == Parsed::Good(d1, 4));
    assert(spec_statement(toks, 0) == Parsed::Good(d1, 5));
    lemma_ladder_leaf(toks, 8);
    assert(spec_assignment(toks, 8) == Parsed::Good(
        ExprModel::Literal(NodeModel::Integer(b)),
        9,
    ));
    assert(spec_assignment(toks, 5) == Parsed::Good(d2, 9));
    assert(spec_statement(toks, 5) == Parsed::Good(d2, 10));
    let leaf_x = ExprModel::Literal(NodeModel::Identifier(x));
    let leaf_y = ExprModel::Literal(NodeModel::Identifier(y));
    assert(spec_primary(toks, 10) == Parsed::Good(leaf_x, 11));
    assert(crate::grammar::spec_unary(toks, 10) == Parsed::Good(leaf_x, 11));
    assert(crate::grammar::spec_factor(toks, 10) == Parsed::Good(leaf_x, 11));
    assert(spec_primary(toks, 12) == Parsed::Good(leaf_y, 13));
    assert(crate::grammar::spec_unary(toks, 12) == Parsed::Good(leaf_y, 13));
    assert(crate::grammar::spec_factor(toks, 12) == Parsed::Good(leaf_y, 13));
    assert(spec_term_rest(toks, 11, leaf_x) == Parsed::Good(sum, 13));
    assert(crate::grammar::spec_term(toks, 10) == Parsed::Good(sum, 13));
    assert(crate::grammar::spec_comparison(toks, 10) == Parsed::Good(sum, 13));
    assert(crate::grammar::spec_equality(toks, 10) == Parsed::Good(sum, 13));
    assert(crate::grammar::spec_and(toks, 10) == Parsed::Good(sum, 13));
    assert(spec_or(toks, 10) == Parsed::Good(sum, 13));
    assert(spec_assignment(toks, 10) == Parsed::Good(sum, 13));
    assert(spec_statement(toks, 10) == Parsed::Good(sum, 13));
    assert(spec_program_rest(toks, 13) == Parsed::Good(Seq::<ExprModel>::empty(), 13));
    assert(spec_program_rest(toks, 10) == Parsed::Good(seq![sum], 13)) by {
        assert(seq![sum] + Seq::<ExprModel>::empty() =~= seq![sum]);
    }
    assert(spec_program_rest(toks, 5) == Parsed::Good(seq![d2, sum], 13)) by {
        assert(seq![d2] + seq![sum] =~= seq![d2, sum]);
    }
    assert(spec_program_rest(toks, 0) == Parsed::Good(seq![d1, d2, sum], 13)) by {
        assert(seq![d1] + seq![d2, sum] =~= seq![d1, d2, sum]);
    }
}

/// A conditional with an empty brace pair parses to a then branch that is an
/// empty block and an else branch that is absent — not an empty block — so
/// the two stay distinguishable; adding `else { }` yields both branches
/// present and empty.
#[verifier::spinoff_prover]
#[verifier::rlimit(100)]
pub proof fn lemma_if_else_blocks(c1: Seq<char>, c2: Seq<char>)
    ensures
        spec_parse_program(
            seq![
                TokenModel::KeywordIf,
                TokenModel::Identifier(c1),
                TokenModel::EqualsEquals,
                TokenModel::Identifier(c2),
                TokenModel::LeftBrace,
                TokenModel::RightBrace,
            ],
        ) == Ok::<_, ErrorModel>(
            seq![
                ExprModel::IfElse {
                    condition: Box::new(
                        ExprModel::Binary {
                            left: Box::new(ExprModel::Literal(NodeModel::Identifier(c1))),
                            operator: BinaryOp::Equal,
                            right: Box::new(ExprModel::Literal(NodeModel::Identifier(c2))),
                        },
                    ),
                    then_branch: Box::new(ExprModel::Block(Seq::empty())),
                    else_branch: None,
                },
            ],
        ),
        spec_parse_program(
            seq![
                TokenModel::KeywordIf,
                TokenModel::Identifier(c1),
                TokenModel::EqualsEquals,
                TokenModel::Identifier(c2),
                TokenModel::LeftBrace,
                TokenModel::RightBrace,
                TokenModel::KeywordElse,
                TokenModel::LeftBrace,
                TokenModel::RightBrace,
            ],
        ) == Ok::<_, ErrorModel>(
            seq![
                ExprModel::IfElse {
                    condition: Box::new(
                        ExprModel::Binary {
                            left: Box::new(ExprModel::Literal(NodeModel::Identifier(c1))),
                            operator: BinaryOp::Equal,
                            right: Box::new(ExprModel::Literal(NodeModel::Identifier(c2))),
                        },
                    ),
                    then_branch: Box::new(ExprModel::Block(Seq::empty())),
                    else_branch: Some(Box::new(ExprModel::Block(Seq::empty()))),
                },
            ],
        ),
{
    reveal_with_fuel(crate::grammar::spec_if_else, 2);
    reveal_with_fuel(crate::grammar::spec_block_rest, 2);
    reveal_with_fuel(crate::grammar::spec_equality_rest, 3);
    reveal_with_fuel(spec_assignment, 2);
    reveal_with_fuel(spec_primary, 2);
    reveal_with_fuel(spec_program_rest, 2);
    let cond = ExprModel::Binary {
        left: Box::new(ExprModel::Literal(NodeModel::Identifier(c1))),
        operator: BinaryOp::Equal,
        right: Box::new(ExprModel::Literal(NodeModel::Identifier(c2))),
    };
    let toks1 = seq![
        TokenModel::KeywordIf,
        TokenModel::Identifier(c1),
        TokenModel::EqualsEquals,
        TokenModel::Identifier(c2),
        TokenModel::LeftBrace,
        TokenModel::RightBrace,
    ];
    let if1 = ExprModel::IfElse {
        condition: Box::new(cond),
        then_branch: Box::new(ExprModel::Block(Seq::empty())),
        else_branch: None,
    };
    let leaf1 = ExprModel::Literal(NodeModel::Identifier(c1));
    let leaf2 = ExprModel::Literal(NodeModel::Identifier(c2));
    assert(spec_primary(toks1, 1) == Parsed::Good(leaf1, 2));
    assert(crate::grammar::spec_unary(toks1, 1) == Parsed::Good(leaf1, 2));
    assert(crate::grammar::spec_factor(toks1, 1) == Parsed::Good(leaf1, 2));
    assert(crate::grammar::spec_term(toks1, 1) == Parsed::Good(leaf1, 2));
    assert(crate::grammar::spec_comparison(toks1, 1) == Parsed::Good(leaf1, 2));
    assert(spec_primary(toks1, 3) == Parsed::Good(leaf2, 4));
    assert(crate::grammar::spec_unary(toks1, 3) == Parsed::Good(leaf2, 4));
    assert(crate::grammar::spec_factor(toks1, 3) == Parsed::Good(leaf2, 4));
    assert(crate::grammar::spec_term(toks1, 3) == Parsed::Good(leaf2, 4));
    assert(crate::grammar::spec_comparison(toks1, 3) == Parsed::Good(leaf2, 4));
    assert(crate::grammar::spec_equality_rest(toks1, 2, leaf1) == Parsed::Good(cond, 4));
    assert(crate::grammar::spec_equality(toks1, 1) == Parsed::Good(cond, 4));
    assert(crate::grammar::spec_and(toks1, 1) == Parsed::Good(cond, 4));
    assert(spec_or(toks1, 1) == Parsed::Good(cond, 4));
    assert(spec_assignment(toks1, 1) == Parsed::Good(cond, 4));
    crate::grammar::lemma_expression_dispatch(toks1, 1);
    assert(crate::grammar::spec_block_rest(toks1, 5) == Parsed::Good(Seq::<ExprModel>::empty(), 6));
    assert(crate::grammar::spec_if_else(toks1, 0) == Parsed::Good(if1, 6));
    crate::grammar::lemma_expression_dispatch(toks1, 0);
    assert(spec_statement(toks1, 0) == Parsed::Good(if1, 6));
    assert(spec_program_rest(toks1, 6) == Parsed::Good(Seq::<ExprModel>::empty(), 6));
    assert(seq![if1] + Seq::<ExprModel>::empty() =~= seq![if1]);

    let toks2 = seq![
        TokenModel::KeywordIf,
        TokenModel::Identifier(c1),
        TokenModel::EqualsEquals,
        TokenModel::Identifier(c2),
        TokenModel::LeftBrace,
        TokenModel::RightBrace,
        TokenModel::KeywordElse,
        TokenModel::LeftBrace,
        TokenModel::RightBrace,
    ];
    let if2 = ExprModel::IfElse {
        condition: Box::new(cond),
        then_branch: Box::new(ExprModel::Block(Seq::empty())),
        else_branch: Some(Box::new(ExprModel::Block(Seq::empty()))),
    };
    let leafb1 = ExprModel::Literal(NodeModel::Identifier(c1));
    let leafb2 = ExprModel::Literal(NodeModel::Identifier(c2));
    assert(spec_primary(toks2, 1) == Parsed::Good(leafb1, 2));
    assert(crate::grammar::spec_unary(toks2, 1) == Parsed::Good(leafb1, 2));
    assert(crate::grammar::spec_factor(toks2, 1) == Parsed::Good(leafb1, 2));
    assert(crate::grammar::spec_term(toks2, 1) == Parsed::Good(leafb1, 2));
    assert(crate::grammar::spec_comparison(toks2, 1) == Parsed::Good(leafb1, 2));
    assert(spec_primary(toks2, 3) == Parsed::Good(leafb2, 4));
    assert(crate::grammar::spec_unary(toks2, 3) == Parsed::Good(leafb2, 4));
    assert(crate::grammar::spec_factor(toks2, 3) == Parsed::Good(leafb2, 4));
    assert(crate::grammar::spec_term(toks2, 3) == Parsed::Good(leafb2, 4));
    assert(crate::grammar::spec_comparison(toks2, 3) == Parsed::Good(leafb2, 4));
    assert(crate::grammar::spec_equality_rest(toks2, 2, leafb1) == Parsed::Good(cond, 4));
    assert(crate::grammar::spec_equality(toks2, 1) == Parsed::Good(cond, 4));
    assert(crate::grammar::spec_and(toks2, 1) == Parsed::Good(cond, 4));
    assert(spec_or(toks2, 1) == Parsed::Good(cond, 4));
    assert(spec_assignment(toks2, 1) == Parsed::Good(cond, 4));
    crate::grammar::lemma_expression_dispatch(toks2, 1);
    assert(crate::grammar::spec_block_rest(toks2, 5) == Parsed::Good(Seq::<ExprModel>::empty(), 6));
    assert(crate::grammar::spec_block_rest(toks2, 8) == Parsed::Good(Seq::<ExprModel>::empty(), 9));
    assert(crate::grammar::spec_if_else(toks2, 0) == Parsed::Good(if2, 9));
    crate::grammar::lemma_expression_dispatch(toks2, 0);
    assert(spec_statement(toks2, 0) == Parsed::Good(if2, 9));
    assert(spec_program_rest(toks2, 9) == Parsed::Good(Seq::<ExprModel>::empty(), 9));
    assert(seq![if2] + Seq::<ExprModel>::empty() =~= seq![if2]);
}

/// Left-hand assignment targets are restricted to bare identifiers: when a
/// value expression is followed by `=`, any left-hand shape other than a
/// single identifier leaf fails with the invalid-assignment failure, and an
/// identifier leaf can only yield an assignment node to that name.
pub proof fn lemma_assignment_target_must_be_identifier(toks: Seq<TokenModel>, i: int)
    requires
        0 <= i <= toks.len(),
        !(i < toks.len() && toks[i] is KeywordLet),
    ensures
        match spec_or(toks, i) {
            Parsed::Good(lhs, j) => spec_match(toks, j, TokenModel::Equals) ==> {
                &&& !(lhs matches ExprModel::Literal(NodeModel::Identifier(_)))
                    ==> spec_assignment(toks, i) == Parsed::Fail::<ExprModel>(
                    ErrorModel::InvalidAssignment("target must be an identifier"@),
                )
                &&& (lhs matches ExprModel::Literal(NodeModel::Identifier(name))
                    ==> (spec_assignment(toks, i) matches Parsed::Good(m, _)
                    ==> m matches ExprModel::Assignment { identifier, value: _ } && identifier
                    == name))
            },
            Parsed::Fail(_) => true,
        },
{
    reveal_with_fuel(spec_assignment, 1);
    if i == toks.len() {
        crate::grammar::lemma_value_expr_at_end(toks, i);
    }
}

/// A lexical failure is always an unexpected-character failure, and it names
/// exactly the character standing where no lexical rule matched: a
/// non-whitespace character from which no token can be read.
pub proof fn lemma_lexical_failure_names_unmatched_character(s: Seq<char>)
    ensures
        spec_tokenize(s) is Err ==> exists|k: int|
            0 <= k < s.len() && !is_ws(#[trigger] s[k]) && token_at(s, k) is None && spec_tokenize(
                s,
            ) == Err::<Seq<TokenModel>, _>(ErrorModel::UnexpectedCharacter(s[k])),
{
    lemma_tokenize_from_failure(s, 0);
}

/// The induction behind [`lemma_lexical_failure_names_unmatched_character`],
/// over the scan position.
proof fn lemma_tokenize_from_failure(s: Seq<char>, i: int)
    requires
        0 <= i <= s.len(),
    ensures
        tokenize_from(s, i) is Err ==> exists|k: int|
            i <= k < s.len() && !is_ws(#[trigger] s[k]) && token_at(s, k) is None && tokenize_from(
                s,
                i,
            ) == Err::<Seq<TokenModel>, _>(ErrorModel::UnexpectedCharacter(s[k])),
    decreases s.len() - i,
{
    lemma_ws_end(s, i);
    let j = ws_end(s, i);
    if j < s.len() {
        match token_at(s, j) {
            None => {
                assert(tokenize_from(s, i) == Err::<Seq<TokenModel>, _>(
                    ErrorModel::UnexpectedCharacter(s[j]),
                ));
            },
            Some((t, k)) => {
                let k2 = if k <= j {
                    j + 1
                } else if k > s.len() {
                    s.len() as int
                } else {
                    k
                };
                lemma_tokenize_from_failure(s, k2);
            },
        }
    }
}

/// Skipping whitespace stays inside the text and stops on a non-whitespace
/// character.
proof fn lemma_ws_end(s: Seq<char>, i: int)
    requires
        0 <= i <= s.len(),
    ensures
        i <= ws_end(s, i) <= s.len(),
        ws_end(s, i) < s.len() ==> !is_ws(s[ws_end(s, i)]),
    decreases s.len() - i,
{
    if i < s.len() && is_ws(s[i]) {
        lemma_ws_end(s, i + 1);
    }
}

/// Parsing is a function of the source text alone: equal inputs give equal
/// outcomes, token for token and tree for tree. Together with the contracts
/// of [`crate::parser::Parser::new`] and [`crate::parser::Parser::parse`],
/// which pin their results to [`spec_parse_source`], re-parsing the same
/// source text always yields structurally equal trees.
pub proof fn lemma_parsing_deterministic(s1: Seq<char>, s2: Seq<char>)
    requires
        s1 == s2,
    ensures
        spec_parse_source(s1) == spec_parse_source(s2),
{
}

} // verus!
