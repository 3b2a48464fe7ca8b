//! The recursive-descent parser.
//!
//! A [`Parser`] owns a fully materialized token buffer and a single cursor;
//! lookahead is one token, plus an explicit previous-token check used to
//! tell a properly closed block apart from one cut short by end of input.
//! Every method is proved to return exactly what the reference model in
//! [`crate::grammar`] says, so parsing is a function of the source text
//! alone: the same input always yields the same trees and the same first
//! failure.

use vstd::prelude::*;
use crate::errors::{ErrorModel, ParserError};
use crate::expr::{Expr, ExprModel};
use crate::grammar::{
    rest_index, spec_and, spec_and_rest, spec_assignment, spec_block_rest, spec_comparison,
    spec_comparison_rest, spec_equality, spec_equality_rest, spec_expression, spec_factor,
    spec_factor_rest, spec_if_else, spec_match, spec_or, spec_or_rest, spec_parse_program,
    spec_parse_type, spec_primary, spec_print, spec_program_rest, spec_statement, spec_term,
    spec_term_rest, spec_unary, step_index, lemma_expression_dispatch, lemma_value_expr_at_end,
    Parsed,
};
use crate::lexer::{spec_tokenize, tokenize};
use crate::nodes::Nodes;
use crate::ops::{BinaryOp, UnaryOp};
use crate::strings::str_chars;
use crate::tokens::{tokens_model, Token, TokenModel};
use crate::types::Types;

verus! {

/// What the whole front end returns for a given source text: the token
/// scan's first failure, or the parse of the resulting token buffer. The
/// contracts of [`Parser::new`] and [`Parser::parse`] pin the executable
/// path to this function, so parsing is deterministic in the source text.
pub open spec fn spec_parse_source(s: Seq<char>) -> Result<Seq<ExprModel>, ErrorModel> {
    match spec_tokenize(s) {
        Err(e) => Err(e),
        Ok(ts) => spec_parse_program(ts),
    }
}

/// The parser state: the token buffer and the cursor over it.
#[derive(Debug, Clone, PartialEq)]
pub struct Parser {
    tokens: Vec<Token>,
    current: usize,
}

impl Parser {
    /// The image of the token buffer.
    pub closed spec fn toks(&self) -> Seq<TokenModel> {
        tokens_model(self.tokens@)
    }

    /// The cursor position.
    pub closed spec fn pos(&self) -> int {
        self.current as int
    }

    /// The cursor never stands past the end of the buffer.
    pub closed spec fn wf(&self) -> bool {
        self.current <= self.tokens.len() && self.toks().len() == self.tokens@.len()
    }

    /// Tokenizes the whole input up front: either a parser over the
    /// complete token buffer, cursor at the start, or the lexical failure.
    pub fn new(input: String) -> (r: Result<Parser, ParserError>)
        ensures
            match spec_tokenize(input@) {
                Ok(ts) => r matches Ok(p) && p.toks() == ts && p.pos() == 0 && p.wf(),
                Err(e) => r matches Err(pe) && pe@ == e,
            },
    {
        let chars = str_chars(input.as_str());
        match tokenize(&chars) {
            Ok(tokens) => Ok(Parser { tokens, current: 0 }),
            Err(e) => Err(e),
        }
    }

    /// The token under the cursor, if any.
    fn peek(&self) -> (r: Option<&Token>)
        requires
            self.wf(),
        ensures
            match r {
                Some(t) => self.pos() < self.toks().len() && t@ == self.toks()[self.pos()],
                None => self.pos() == self.toks().len(),
            },
    {
        if self.current < self.tokens.len() {
            Some(&self.tokens[self.current])
        } else {
            None
        }
    }

    /// Moves the cursor one token forward, unless already at the end.
    fn advance(&mut self)
        requires
            old(self).wf(),
        ensures
            final(self).wf(),
            final(self).toks() == old(self).toks(),
            final(self).pos() == if old(self).pos() < old(self).toks().len() {
                old(self).pos() + 1
            } else {
                old(self).pos()
            },
    {
        if !self.is_at_end() {
            self.current = self.current + 1;
        }
    }

    /// Whether the cursor has passed the last token.
    fn is_at_end(&self) -> (b: bool)
        requires
            self.wf(),
        ensures
            b == (self.pos() >= self.toks().len()),
    {
        self.current >= self.tokens.len()
    }

    /// The token just before the cursor, if the cursor has moved at all.
    fn previous(&self) -> (r: Option<&Token>)
        requires
            self.wf(),
        ensures
            match r {
                Some(t) => self.pos() >= 1 && t@ == self.toks()[self.pos() - 1],
                None => self.pos() == 0,
            },
    {
        if self.current > 0 {
            Some(&self.tokens[self.current - 1])
        } else {
            None
        }
    }

    /// Consumes an equality operator, if one is next.
    fn match_equality_op(&mut self) -> (r: Option<BinaryOp>)
        requires
            old(self).wf(),
        ensures
            final(self).wf(),
            final(self).toks() == old(self).toks(),
            ({
                let toks = old(self).toks();
                let p = old(self).pos();
                if p < toks.len() && (toks[p] is NotEquals || toks[p] is EqualsEquals) {
                    r matches Some(op) && final(self).pos() == p + 1 && op == (if toks[p]
                        is NotEquals {
                        BinaryOp::NotEqual
                    } else {
                        BinaryOp::Equal
                    })
                } else {
                    r is None && final(self).pos() == p
                }
            }),
    {
        if self.match_token(&Token::NotEquals) {
            Some(BinaryOp::NotEqual)
        } else if self.match_token(&Token::EqualsEquals) {
            Some(BinaryOp::Equal)
        } else {
            None
        }
    }

    /// Consumes a relational operator, if one is next.
    fn match_comparison_op(&mut self) -> (r: Option<BinaryOp>)
        requires
            old(self).wf(),
        ensures
            final(self).wf(),
            final(self).toks() == old(self).toks(),
            ({
                let toks = old(self).toks();
                let p = old(self).pos();
                if p < toks.len() && (toks[p] is GreaterThan || toks[p] is GreaterThanEquals
                    || toks[p] is LessThan || toks[p] is LessThanEquals) {
                    r matches Some(op) && final(self).pos() == p + 1 && op == (if toks[p]
                        is GreaterThan {
                        BinaryOp::Greater
                    } else if toks[p] is GreaterThanEquals {
                        BinaryOp::GreaterEqual
                    } else if toks[p] is LessThan {
                        BinaryOp::Less
                    } else {
                        BinaryOp::LessEqual
                    })
                } else {
                    r is None && final(self).pos() == p
                }
            }),
    {
        if self.match_token(&Token::GreaterThan) {
            Some(BinaryOp::Greater)
        } else if self.match_token(&Token::GreaterThanEquals) {
            Some(BinaryOp::GreaterEqual)
        } else if self.match_token(&Token::LessThan) {
            Some(BinaryOp::Less)
        } else if self.match_token(&Token::LessThanEquals) {
            Some(BinaryOp::LessEqual)
        } else {
            None
        }
    }

    /// Consumes an additive operator, if one is next.
    fn match_term_op(&mut self) -> (r: Option<BinaryOp>)
        requires
            old(self).wf(),
        ensures
            final(self).wf(),
            final(self).toks() == old(self).toks(),
            ({
                let toks = old(self).toks();
                let p = old(self).pos();
                if p < toks.len() && (toks[p] is Minus || toks[p] is Plus) {
                    r matches Some(op) && final(self).pos() == p + 1 && op == (if toks[p]
                        is Minus {
                        BinaryOp::Subtract
                    } else {
                        BinaryOp::Add
                    })
                } else {
                    r is None && final(self).pos() == p
                }
            }),
    {
        if self.match_token(&Token::Minus) {
            Some(BinaryOp::Subtract)
        } else if self.match_token(&Token::Plus) {
            Some(BinaryOp::Add)
        } else {
            None
        }
    }

    /// Consumes a multiplicative operator, if one is next.
    fn match_factor_op(&mut self) -> (r: Option<BinaryOp>)
        requires
            old(self).wf(),
        ensures
            final(self).wf(),
            final(self).toks() == old(self).toks(),
            ({
                let toks = old(self).toks();
                let p = old(self).pos();
                if p < toks.len() && (toks[p] is Slash || toks[p] is Star || toks[p] is Percent) {
                    r matches Some(op) && final(self).pos() == p + 1 && op == (if toks[p]
                        is Slash {
                        BinaryOp::Divide
                    } else if toks[p] is Star {
                        BinaryOp::Multiply
                    } else {
                        BinaryOp::Modulo
                    })
                } else {
                    r is None && final(self).pos() == p
                }
            }),
    {
        if self.match_token(&Token::Slash) {
            Some(BinaryOp::Divide)
        } else if self.match_token(&Token::Star) {
            Some(BinaryOp::Multiply)
        } else if self.match_token(&Token::Percent) {
            Some(BinaryOp::Modulo)
        } else {
            None
        }
    }

    /// Consumes a prefix operator, if one is next.
    fn match_unary_op(&mut self) -> (r: Option<UnaryOp>)
        requires
            old(self).wf(),
        ensures
            final(self).wf(),
            final(self).toks() == old(self).toks(),
            ({
                let toks = old(self).toks();
                let p = old(self).pos();
                if p < toks.len() && (toks[p] is Minus || toks[p] is Bang) {
                    r matches Some(op) && final(self).pos() == p + 1 && op == (if toks[p]
                        is Minus {
                        UnaryOp::Minus
                    } else {
                        UnaryOp::Not
                    })
                } else {
                    r is None && final(self).pos() == p
                }
            }),
    {
        if self.match_token(&Token::Minus) {
            Some(UnaryOp::Minus)
        } else if self.match_token(&Token::Bang) {
            Some(UnaryOp::Not)
        } else {
            None
        }
    }

    /// Consumes the next token if it has the same shape as `expected`.
    fn match_token(&mut self, expected: &Token) -> (b: bool)
        requires
            old(self).wf(),
        ensures
            final(self).wf(),
            final(self).toks() == old(self).toks(),
            b == spec_match(old(self).toks(), old(self).pos(), expected@),
            b ==> final(self).pos() == old(self).pos() + 1,
            !b ==> final(self).pos() == old(self).pos(),
    {
        if self.current < self.tokens.len() {
            let k = self.tokens[self.current].kind();
            if k == expected.kind() {
                self.current = self.current + 1;
                return true;
            }
        }
        false
    }
}

impl Parser {
    /// The whole program: one tree per top-level statement, in source
    /// order, or the first failure anywhere — no partial result and no
    /// recovery.
    #[verifier::rlimit(100)]
    pub fn parse(&mut self) -> (r: Result<Vec<Expr>, ParserError>)
        requires
            old(self).wf(),
        ensures
            final(self).wf(),
            final(self).toks() == old(self).toks(),
            match spec_program_rest(old(self).toks(), old(self).pos()) {
                Parsed::Good(ms, j) => r matches Ok(es) && Expr::model_seq(es@) == ms && final(self).pos() == j,
                Parsed::Fail(err) => r matches Err(pe) && pe@ == err,
            },
            old(self).pos() == 0 ==> match spec_parse_program(old(self).toks()) {
                Ok(ms) => r matches Ok(es) && Expr::model_seq(es@) == ms,
                Err(err) => r matches Err(pe) && pe@ == err,
            },
    {
        let ghost toks = self.toks();
        let ghost i0 = self.pos();
        let mut statements: Vec<Expr> = Vec::new();
        loop
            invariant
                self.wf(),
                self.toks() == toks,
                toks == old(self).toks(),
                i0 == old(self).pos(),
                0 <= i0 <= self.pos(),
                match spec_program_rest(toks, self.pos()) {
                    Parsed::Good(rest, j) => spec_program_rest(toks, i0) == Parsed::Good(
                        Expr::model_seq(statements@) + rest,
                        j,
                    ),
                    Parsed::Fail(e) => spec_program_rest(toks, i0) == Parsed::Fail::<
                        Seq<ExprModel>,
                    >(e),
                },
            ensures
                self.wf(),
                self.toks() == toks,
                i0 <= self.pos(),
                spec_program_rest(toks, i0) == Parsed::Good(
                    Expr::model_seq(statements@),
                    self.pos(),
                ),
            decreases toks.len() - self.pos(),
        {
            if self.is_at_end() {
                proof {
                    assert(Expr::model_seq(statements@) + Seq::<ExprModel>::empty()
                        =~= Expr::model_seq(statements@));
                }
                break ;
            }
            let ghost p = self.pos();
            let stmt = match self.statement() {
                Ok(e) => e,
                Err(e) => {
                    return Err(e);
                },
            };
            proof {
                assert(step_index(toks.len() as int, p, self.pos()) == self.pos());
                crate::expr::lemma_model_seq_push(statements@, stmt);
                if let Parsed::Good(rest2, j2) = spec_program_rest(toks, self.pos()) {
                    assert(Expr::model_seq(statements@) + (seq![stmt@] + rest2) =~= Expr::model_seq(
                        statements@.push(stmt),
                    ) + rest2);
                }
            }
            statements.push(stmt);
        }
        Ok(statements)
    }

    /// One statement: an expression, then a semicolon is consumed if
    /// present.
    #[verifier::rlimit(60)]
    fn statement(&mut self) -> (r: Result<Expr, ParserError>)
        requires
            old(self).wf(),
        ensures
            final(self).wf(),
            final(self).toks() == old(self).toks(),
            old(self).pos() <= final(self).pos(),
            match spec_statement(old(self).toks(), old(self).pos()) {
                Parsed::Good(m, j) => r matches Ok(e) && e@ == m && final(self).pos() == j && old(self).pos() < j,
                Parsed::Fail(err) => r matches Err(pe) && pe@ == err,
            },
        decreases self.toks().len() - self.pos(), 12int,
    {
        let expr = match self.expression() {
            Ok(e) => e,
            Err(e) => {
                return Err(e);
            },
        };
        self.match_token(&Token::Semicolon);
        Ok(expr)
    }

    /// An expression: dispatch on `if` and `print`, else assignment.
    #[verifier::rlimit(60)]
    fn expression(&mut self) -> (r: Result<Expr, ParserError>)
        requires
            old(self).wf(),
        ensures
            final(self).wf(),
            final(self).toks() == old(self).toks(),
            old(self).pos() <= final(self).pos(),
            match spec_expression(old(self).toks(), old(self).pos()) {
                Parsed::Good(m, j) => r matches Ok(e) && e@ == m && final(self).pos() == j && old(self).pos() < j,
                Parsed::Fail(err) => r matches Err(pe) && pe@ == err,
            },
        decreases self.toks().len() - self.pos(), 11int,
    {
        proof {
            lemma_expression_dispatch(self.toks(), self.pos());
        }
        let starts_if = match self.peek() {
            Some(Token::KeywordIf) => true,
            _ => false,
        };
        if starts_if {
            return self.if_else();
        }
        let starts_print = match self.peek() {
            Some(Token::KeywordPrint) => true,
            _ => false,
        };
        if starts_print {
            return self.print();
        }
        self.assignment()
    }

    /// A primary form: a literal leaf, a parenthesized expression, or a
    /// block.
    #[verifier::spinoff_prover]
    #[verifier::rlimit(100)]
    fn primary(&mut self) -> (r: Result<Expr, ParserError>)
        requires
            old(self).wf(),
        ensures
            final(self).wf(),
            final(self).toks() == old(self).toks(),
            old(self).pos() <= final(self).pos(),
            match spec_primary(old(self).toks(), old(self).pos()) {
                Parsed::Good(m, j) => r matches Ok(e) && e@ == m && final(self).pos() == j && old(self).pos() < j,
                Parsed::Fail(err) => r matches Err(pe) && pe@ == err,
            },
        decreases self.toks().len() - self.pos(), 2int,
    {
        proof {
            reveal_with_fuel(spec_primary, 1);
        }
        if self.is_at_end() {
            return Err(ParserError::UnexpectedEndOfInput);
        }
        let t = &self.tokens[self.current];
        match t {
            Token::Integer(v) => {
                let value = *v;
                self.advance();
                Ok(Expr::Literal(Nodes::Integer(value)))
            },
            Token::Float(s) => {
                let text = s.clone();
                self.advance();
                Ok(Expr::Literal(Nodes::Float(text)))
            },
            Token::String(s) => {
                let text = s.clone();
                self.advance();
                Ok(Expr::Literal(Nodes::String(text)))
            },
            Token::Boolean(b) => {
                let value = *b;
                self.advance();
                Ok(Expr::Literal(Nodes::Boolean(value)))
            },
            Token::Identifier(s) => {
                let name = s.clone();
                self.advance();
                Ok(Expr::Literal(Nodes::Identifier(name)))
            },
            Token::LeftParen => {
                self.advance();
                let inner = match self.expression() {
                    Ok(e) => e,
                    Err(e) => {
                        return Err(e);
                    },
                };
                if !self.match_token(&Token::RightParen) {
                    return Err(
                        ParserError::ExpectedAfter(")".to_owned(), "expression".to_owned()),
                    );
                }
                Ok(inner)
            },
            Token::LeftBrace => {
                self.advance();
                let statements = match self.brace_statements() {
                    Ok(s) => s,
                    Err(e) => {
                        return Err(e);
                    },
                };
                let closed = match self.previous() {
                    Some(Token::RightBrace) => true,
                    _ => false,
                };
                if !closed {
                    return Err(ParserError::ExpectedAfter("}".to_owned(), "block".to_owned()));
                }
                Ok(Expr::Block(statements))
            },
            _ => Err(ParserError::UnexpectedToken(t.display_text())),
        }
    }

    /// The statements of a brace-delimited block, consumed up to and
    /// including the closing brace — or up to the end of input, which the
    /// caller detects by looking at the token last consumed.
    #[verifier::rlimit(100)]
    fn brace_statements(&mut self) -> (r: Result<Vec<Expr>, ParserError>)
        requires
            old(self).wf(),
        ensures
            final(self).wf(),
            final(self).toks() == old(self).toks(),
            old(self).pos() <= final(self).pos(),
            match spec_block_rest(old(self).toks(), old(self).pos()) {
                Parsed::Good(ms, j) => r matches Ok(es) && Expr::model_seq(es@) == ms && final(self).pos() == j,
                Parsed::Fail(err) => r matches Err(pe) && pe@ == err,
            },
        decreases self.toks().len() - self.pos(), 13int,
    {
        let ghost toks = self.toks();
        let ghost i0 = self.pos();
        let mut statements: Vec<Expr> = Vec::new();
        loop
            invariant_except_break
                match spec_block_rest(toks, self.pos()) {
                    Parsed::Good(rest, j) => spec_block_rest(toks, i0) == Parsed::Good(
                        Expr::model_seq(statements@) + rest,
                        j,
                    ),
                    Parsed::Fail(e) => spec_block_rest(toks, i0) == Parsed::Fail::<
                        Seq<ExprModel>,
                    >(e),
                },
            invariant
                self.wf(),
                self.toks() == toks,
                toks == old(self).toks(),
                i0 == old(self).pos(),
                0 <= i0 <= self.pos(),
            ensures
                self.wf(),
                self.toks() == toks,
                i0 <= self.pos(),
                spec_block_rest(toks, i0) == Parsed::Good(
                    Expr::model_seq(statements@),
                    self.pos(),
                ),
            decreases toks.len() - self.pos(),
        {
            if self.match_token(&Token::RightBrace) {
                proof {
                    assert(Expr::model_seq(statements@) + Seq::<ExprModel>::empty()
                        =~= Expr::model_seq(statements@));
                }
                break ;
            }
            if self.is_at_end() {
                proof {
                    assert(Expr::model_seq(statements@) + Seq::<ExprModel>::empty()
                        =~= Expr::model_seq(statements@));
                }
                break ;
            }
            let ghost p = self.pos();
            let stmt = match self.statement() {
                Ok(e) => e,
                Err(e) => {
                    return Err(e);
                },
            };
            proof {
                assert(step_index(toks.len() as int, p, self.pos()) == self.pos());
                crate::expr::lemma_model_seq_push(statements@, stmt);
                if let Parsed::Good(rest2, j2) = spec_block_rest(toks, self.pos()) {
                    assert(Expr::model_seq(statements@) + (seq![stmt@] + rest2) =~= Expr::model_seq(
                        statements@.push(stmt),
                    ) + rest2);
                }
            }
            statements.push(stmt);
        }
        Ok(statements)
    }

    /// A unary chain: prefix operators, then a primary.
    #[verifier::rlimit(60)]
    fn unary(&mut self) -> (r: Result<Expr, ParserError>)
        requires
            old(self).wf(),
        ensures
            final(self).wf(),
            final(self).toks() == old(self).toks(),
            old(self).pos() <= final(self).pos(),
            match spec_unary(old(self).toks(), old(self).pos()) {
                Parsed::Good(m, j) => r matches Ok(e) && e@ == m && final(self).pos() == j && old(self).pos() < j,
                Parsed::Fail(err) => r matches Err(pe) && pe@ == err,
            },
        decreases self.toks().len() - self.pos(), 3int,
    {
        proof {
            reveal_with_fuel(spec_primary, 1);
        }
        let opt = self.match_unary_op();
        match opt {
            Some(op) => {
                let operand = match self.unary() {
                    Ok(e) => e,
                    Err(e) => {
                        return Err(e);
                    },
                };
                Ok(Expr::Unary { operator: op, operand: Box::new(operand) })
            },
            None => self.primary(),
        }
    }

    /// The multiplicative level: unary, folding `* / %` to the left.
    #[verifier::rlimit(100)]
    fn factor(&mut self) -> (r: Result<Expr, ParserError>)
        requires
            old(self).wf(),
        ensures
            final(self).wf(),
            final(self).toks() == old(self).toks(),
            old(self).pos() <= final(self).pos(),
            match spec_factor(old(self).toks(), old(self).pos()) {
                Parsed::Good(m, j) => r matches Ok(e) && e@ == m && final(self).pos() == j && old(self).pos() < j,
                Parsed::Fail(err) => r matches Err(pe) && pe@ == err,
            },
        decreases self.toks().len() - self.pos(), 4int,
    {
        let ghost toks = self.toks();
        let ghost i0 = self.pos();
        let mut expr = match self.unary() {
            Ok(e) => e,
            Err(e) => {
                return Err(e);
            },
        };
        proof {
            assert(rest_index(toks.len() as int, i0, self.pos()) == self.pos());
        }
        loop
            invariant
                self.wf(),
                self.toks() == toks,
                toks == old(self).toks(),
                i0 == old(self).pos(),
                0 <= i0 < self.pos(),
                spec_factor_rest(toks, self.pos(), expr@) == spec_factor(toks, i0),
            ensures
                self.wf(),
                self.toks() == toks,
                i0 < self.pos(),
                spec_factor(toks, i0) == Parsed::Good(expr@, self.pos()),
            decreases toks.len() - self.pos(),
        {
            let ghost p = self.pos();
            let opt = self.match_factor_op();
            if opt.is_none() {
                break ;
            }
            let op = opt.unwrap();
            let right = match self.unary() {
                Ok(e) => e,
                Err(e) => {
                    return Err(e);
                },
            };
            expr = Expr::Binary { left: Box::new(expr), operator: op, right: Box::new(right) };
            proof {
                assert(step_index(toks.len() as int, p, self.pos()) == self.pos());
            }
        }
        Ok(expr)
    }

    /// The additive level: factor, folding `+ -` to the left.
    #[verifier::rlimit(100)]
    fn term(&mut self) -> (r: Result<Expr, ParserError>)
        requires
            old(self).wf(),
        ensures
            final(self).wf(),
            final(self).toks() == old(self).toks(),
            old(self).pos() <= final(self).pos(),
            match spec_term(old(self).toks(), old(self).pos()) {
                Parsed::Good(m, j) => r matches Ok(e) && e@ == m && final(self).pos() == j && old(self).pos() < j,
                Parsed::Fail(err) => r matches Err(pe) && pe@ == err,
            },
        decreases self.toks().len() - self.pos(), 5int,
    {
        let ghost toks = self.toks();
        let ghost i0 = self.pos();
        let mut expr = match self.factor() {
            Ok(e) => e,
            Err(e) => {
                return Err(e);
            },
        };
        proof {
            assert(rest_index(toks.len() as int, i0, self.pos()) == self.pos());
        }
        loop
            invariant
                self.wf(),
                self.toks() == toks,
                toks == old(self).toks(),
                i0 == old(self).pos(),
                0 <= i0 < self.pos(),
                spec_term_rest(toks, self.pos(), expr@) == spec_term(toks, i0),
            ensures
                self.wf(),
                self.toks() == toks,
                i0 < self.pos(),
                spec_term(toks, i0) == Parsed::Good(expr@, self.pos()),
            decreases toks.len() - self.pos(),
        {
            let ghost p = self.pos();
            let opt = self.match_term_op();
            if opt.is_none() {
                break ;
            }
            let op = opt.unwrap();
            let right = match self.factor() {
                Ok(e) => e,
                Err(e) => {
                    return Err(e);
                },
            };
            expr = Expr::Binary { left: Box::new(expr), operator: op, right: Box::new(right) };
            proof {
                assert(step_index(toks.len() as int, p, self.pos()) == self.pos());
            }
        }
        Ok(expr)
    }

    /// The relational level: term, folding `> >= < <=` to the left.
    #[verifier::rlimit(100)]
    fn comparison(&mut self) -> (r: Result<Expr, ParserError>)
        requires
            old(self).wf(),
        ensures
            final(self).wf(),
            final(self).toks() == old(self).toks(),
            old(self).pos() <= final(self).pos(),
            match spec_comparison(old(self).toks(), old(self).pos()) {
                Parsed::Good(m, j) => r matches Ok(e) && e@ == m && final(self).pos() == j && old(self).pos() < j,
                Parsed::Fail(err) => r matches Err(pe) && pe@ == err,
            },
        decreases self.toks().len() - self.pos(), 6int,
    {
        let ghost toks = self.toks();
        let ghost i0 = self.pos();
        let mut expr = match self.term() {
            Ok(e) => e,
            Err(e) => {
                return Err(e);
            },
        };
        proof {
            assert(rest_index(toks.len() as int, i0, self.pos()) == self.pos());
        }
        loop
            invariant
                self.wf(),
                self.toks() == toks,
                toks == old(self).toks(),
                i0 == old(self).pos(),
                0 <= i0 < self.pos(),
                spec_comparison_rest(toks, self.pos(), expr@) == spec_comparison(toks, i0),
            ensures
                self.wf(),
                self.toks() == toks,
                i0 < self.pos(),
                spec_comparison(toks, i0) == Parsed::Good(expr@, self.pos()),
            decreases toks.len() - self.pos(),
        {
            let ghost p = self.pos();
            let opt = self.match_comparison_op();
            if opt.is_none() {
                break ;
            }
            let op = opt.unwrap();
            let right = match self.term() {
                Ok(e) => e,
                Err(e) => {
                    return Err(e);
                },
            };
            expr = Expr::Binary { left: Box::new(expr), operator: op, right: Box::new(right) };
            proof {
                assert(step_index(toks.len() as int, p, self.pos()) == self.pos());
            }
        }
        Ok(expr)
    }

    /// The equality level: comparison, folding `== !=` to the left.
    #[verifier::rlimit(100)]
    fn equality(&mut self) -> (r: Result<Expr, ParserError>)
        requires
            old(self).wf(),
        ensures
            final(self).wf(),
            final(self).toks() == old(self).toks(),
            old(self).pos() <= final(self).pos(),
            match spec_equality(old(self).toks(), old(self).pos()) {
                Parsed::Good(m, j) => r matches Ok(e) && e@ == m && final(self).pos() == j && old(self).pos() < j,
                Parsed::Fail(err) => r matches Err(pe) && pe@ == err,
            },
        decreases self.toks().len() - self.pos(), 7int,
    {
        let ghost toks = self.toks();
        let ghost i0 = self.pos();
        let mut expr = match self.comparison() {
            Ok(e) => e,
            Err(e) => {
                return Err(e);
            },
        };
        proof {
            assert(rest_index(toks.len() as int, i0, self.pos()) == self.pos());
        }
        loop
            invariant
                self.wf(),
                self.toks() == toks,
                toks == old(self).toks(),
                i0 == old(self).pos(),
                0 <= i0 < self.pos(),
                spec_equality_rest(toks, self.pos(), expr@) == spec_equality(toks, i0),
            ensures
                self.wf(),
                self.toks() == toks,
                i0 < self.pos(),
                spec_equality(toks, i0) == Parsed::Good(expr@, self.pos()),
            decreases toks.len() - self.pos(),
        {
            let ghost p = self.pos();
            let opt = self.match_equality_op();
            if opt.is_none() {
                break ;
            }
            let op = opt.unwrap();
            let right = match self.comparison() {
                Ok(e) => e,
                Err(e) => {
                    return Err(e);
                },
            };
            expr = Expr::Binary { left: Box::new(expr), operator: op, right: Box::new(right) };
            proof {
                assert(step_index(toks.len() as int, p, self.pos()) == self.pos());
            }
        }
        Ok(expr)
    }

    /// The logical-and level.
    #[verifier::rlimit(100)]
    fn and(&mut self) -> (r: Result<Expr, ParserError>)
        requires
            old(self).wf(),
        ensures
            final(self).wf(),
            final(self).toks() == old(self).toks(),
            old(self).pos() <= final(self).pos(),
            match spec_and(old(self).toks(), old(self).pos()) {
                Parsed::Good(m, j) => r matches Ok(e) && e@ == m && final(self).pos() == j && old(self).pos() < j,
                Parsed::Fail(err) => r matches Err(pe) && pe@ == err,
            },
        decreases self.toks().len() - self.pos(), 8int,
    {
        let ghost toks = self.toks();
        let ghost i0 = self.pos();
        let mut expr = match self.equality() {
            Ok(e) => e,
            Err(e) => {
                return Err(e);
            },
        };
        proof {
            assert(rest_index(toks.len() as int, i0, self.pos()) == self.pos());
        }
        loop
            invariant
                self.wf(),
                self.toks() == toks,
                toks == old(self).toks(),
                i0 == old(self).pos(),
                0 <= i0 < self.pos(),
                spec_and_rest(toks, self.pos(), expr@) == spec_and(toks, i0),
            ensures
                self.wf(),
                self.toks() == toks,
                i0 < self.pos(),
                spec_and(toks, i0) == Parsed::Good(expr@, self.pos()),
            decreases toks.len() - self.pos(),
        {
            let ghost p = self.pos();
            if !self.match_token(&Token::And) {
                break ;
            }
            let right = match self.equality() {
                Ok(e) => e,
                Err(e) => {
                    return Err(e);
                },
            };
            expr = Expr::Binary {
                left: Box::new(expr),
                operator: BinaryOp::And,
                right: Box::new(right),
            };
            proof {
                assert(step_index(toks.len() as int, p, self.pos()) == self.pos());
            }
        }
        Ok(expr)
    }

    /// The logical-or level: the loosest value expression.
    #[verifier::spinoff_prover]
    #[verifier::rlimit(100)]
    fn or(&mut self) -> (r: Result<Expr, ParserError>)
        requires
            old(self).wf(),
        ensures
            final(self).wf(),
            final(self).toks() == old(self).toks(),
            old(self).pos() <= final(self).pos(),
            match spec_or(old(self).toks(), old(self).pos()) {
                Parsed::Good(m, j) => r matches Ok(e) && e@ == m && final(self).pos() == j && old(self).pos() < j,
                Parsed::Fail(err) => r matches Err(pe) && pe@ == err,
            },
        decreases self.toks().len() - self.pos(), 9int,
    {
        let ghost toks = self.toks();
        let ghost i0 = self.pos();
        let mut expr = match self.and() {
            Ok(e) => e,
            Err(e) => {
                return Err(e);
            },
        };
        proof {
            assert(rest_index(toks.len() as int, i0, self.pos()) == self.pos());
        }
        loop
            invariant
                self.wf(),
                self.toks() == toks,
                toks == old(self).toks(),
                i0 == old(self).pos(),
                0 <= i0 < self.pos(),
                spec_or_rest(toks, self.pos(), expr@) == spec_or(toks, i0),
            ensures
                self.wf(),
                self.toks() == toks,
                i0 < self.pos(),
                spec_or(toks, i0) == Parsed::Good(expr@, self.pos()),
            decreases toks.len() - self.pos(),
        {
            let ghost p = self.pos();
            if !self.match_token(&Token::Or) {
                break ;
            }
            let right = match self.and() {
                Ok(e) => e,
                Err(e) => {
                    return Err(e);
                },
            };
            expr = Expr::Binary {
                left: Box::new(expr),
                operator: BinaryOp::Or,
                right: Box::new(right),
            };
            proof {
                assert(step_index(toks.len() as int, p, self.pos()) == self.pos());
            }
        }
        Ok(expr)
    }

    /// A declared-type annotation after a colon.
    fn parse_type(&mut self) -> (r: Result<Types, ParserError>)
        requires
            old(self).wf(),
        ensures
            final(self).wf(),
            final(self).toks() == old(self).toks(),
            old(self).pos() <= final(self).pos(),
            match spec_parse_type(old(self).toks(), old(self).pos()) {
                Parsed::Good(ty, j) => r matches Ok(t) && t == ty && final(self).pos() == j && old(self).pos() < j,
                Parsed::Fail(err) => r matches Err(pe) && pe@ == err,
            },
    {
        let name_opt: Option<String> = match self.peek() {
            Some(Token::Identifier(n)) => Some(n.clone()),
            _ => None,
        };
        if let Some(name) = name_opt {
            self.advance();
            if name == "i32".to_owned() {
                Ok(Types::I32)
            } else if name == "i64".to_owned() {
                Ok(Types::I64)
            } else if name == "bool".to_owned() {
                Ok(Types::Bool)
            } else if name == "f32".to_owned() {
                Ok(Types::F32)
            } else if name == "f64".to_owned() {
                Ok(Types::F64)
            } else if name == "String".to_owned() {
                Ok(Types::String)
            } else {
                let mut msg = "unknown type: ".to_owned();
                msg.append(name.as_str());
                Err(ParserError::UnexpectedToken(msg))
            }
        } else {
            let ty = match self.peek() {
                Some(Token::TypeI32) => Some(Types::I32),
                Some(Token::TypeI64) => Some(Types::I64),
                Some(Token::TypeBool) => Some(Types::Bool),
                Some(Token::TypeF32) => Some(Types::F32),
                Some(Token::TypeF64) => Some(Types::F64),
                Some(Token::TypeString) => Some(Types::String),
                _ => None,
            };
            match ty {
                Some(t) => {
                    self.advance();
                    Ok(t)
                },
                None => Err(ParserError::ExpectedToken("type".to_owned())),
            }
        }
    }

    /// Assignment and declaration; see [`spec_assignment`] for the rule.
    #[verifier::spinoff_prover]
    #[verifier::rlimit(100)]
    fn assignment(&mut self) -> (r: Result<Expr, ParserError>)
        requires
            old(self).wf(),
        ensures
            final(self).wf(),
            final(self).toks() == old(self).toks(),
            old(self).pos() <= final(self).pos(),
            match spec_assignment(old(self).toks(), old(self).pos()) {
                Parsed::Good(m, j) => r matches Ok(e) && e@ == m && final(self).pos() == j && old(self).pos() < j,
                Parsed::Fail(err) => r matches Err(pe) && pe@ == err,
            },
        decreases self.toks().len() - self.pos(), 10int,
    {
        let ghost toks = self.toks();
        let ghost i0 = self.pos();
        proof {
            reveal_with_fuel(spec_assignment, 1);
            if i0 == toks.len() {
                lemma_value_expr_at_end(toks, i0);
            }
        }
        if self.match_token(&Token::KeywordLet) {
            let name_opt: Option<String> = match self.peek() {
                Some(Token::Identifier(n)) => Some(n.clone()),
                _ => None,
            };
            let name = match name_opt {
                Some(n) => n,
                None => {
                    return Err(
                        ParserError::ExpectedAfter("identifier".to_owned(), "let".to_owned()),
                    );
                },
            };
            self.advance();
            let var_type: Option<Types> = if self.match_token(&Token::Colon) {
                match self.parse_type() {
                    Ok(t) => Some(t),
                    Err(e) => {
                        return Err(e);
                    },
                }
            } else {
                None
            };
            if !self.match_token(&Token::Equals) {
                return Err(
                    ParserError::ExpectedAfterCustom(
                        "=".to_owned(),
                        "".to_owned(),
                        "identifier".to_owned(),
                    ),
                );
            }
            proof {
                assert(step_index(toks.len() as int, i0, self.pos()) == self.pos());
            }
            let value = match self.assignment() {
                Ok(v) => v,
                Err(e) => {
                    return Err(e);
                },
            };
            Ok(Expr::LetDeclaration { identifier: name, var_type, value: Box::new(value) })
        } else {
            let expr = match self.or() {
                Ok(e) => e,
                Err(e) => {
                    return Err(e);
                },
            };
            if self.match_token(&Token::Equals) {
                proof {
                    assert(step_index(toks.len() as int, i0, self.pos()) == self.pos());
                }
                match expr {
                    Expr::Literal(Nodes::Identifier(name)) => {
                        let value = match self.assignment() {
                            Ok(v) => v,
                            Err(e) => {
                                return Err(e);
                            },
                        };
                        Ok(Expr::Assignment { identifier: name, value: Box::new(value) })
                    },
                    _ => Err(
                        ParserError::InvalidAssignment("target must be an identifier".to_owned()),
                    ),
                }
            } else {
                Ok(expr)
            }
        }
    }

    /// A conditional with a then block and an optional else block.
    #[verifier::spinoff_prover]
    #[verifier::rlimit(100)]
    fn if_else(&mut self) -> (r: Result<Expr, ParserError>)
        requires
            old(self).wf(),
        ensures
            final(self).wf(),
            final(self).toks() == old(self).toks(),
            old(self).pos() <= final(self).pos(),
            match spec_if_else(old(self).toks(), old(self).pos()) {
                Parsed::Good(m, j) => r matches Ok(e) && e@ == m && final(self).pos() == j && old(self).pos() < j,
                Parsed::Fail(err) => r matches Err(pe) && pe@ == err,
            },
        decreases self.toks().len() - self.pos(), 10int,
    {
        proof {
            reveal_with_fuel(spec_if_else, 1);
            reveal_with_fuel(Expr::model, 2);
        }
        let ghost toks = self.toks();
        let ghost i0 = self.pos();
        if !self.match_token(&Token::KeywordIf) {
            return Err(ParserError::ExpectedToken("if".to_owned()));
        }
        let condition = match self.expression() {
            Ok(e) => e,
            Err(e) => {
                return Err(e);
            },
        };
        if !self.match_token(&Token::LeftBrace) {
            return Err(ParserError::ExpectedAfter("{".to_owned(), "if condition".to_owned()));
        }
        proof {
            assert(step_index(toks.len() as int, i0, self.pos()) == self.pos());
        }
        let then_statements = match self.brace_statements() {
            Ok(s) => s,
            Err(e) => {
                return Err(e);
            },
        };
        let then_closed = match self.previous() {
            Some(Token::RightBrace) => true,
            _ => false,
        };
        if !then_closed {
            return Err(ParserError::ExpectedAfter("}".to_owned(), "if-block".to_owned()));
        }
        let then_branch = Expr::Block(then_statements);
        let else_branch: Option<Box<Expr>> = if self.match_token(&Token::KeywordElse) {
            if !self.match_token(&Token::LeftBrace) {
                return Err(ParserError::ExpectedAfter("{".to_owned(), "else".to_owned()));
            }
            proof {
                assert(step_index(toks.len() as int, i0, self.pos()) == self.pos());
            }
            let else_statements = match self.brace_statements() {
                Ok(s) => s,
                Err(e) => {
                    return Err(e);
                },
            };
            let else_closed = match self.previous() {
                Some(Token::RightBrace) => true,
                _ => false,
            };
            if !else_closed {
                return Err(ParserError::ExpectedAfter("}".to_owned(), "else-block".to_owned()));
            }
            Some(Box::new(Expr::Block(else_statements)))
        } else {
            None
        };
        Ok(
            Expr::IfElse {
                condition: Box::new(condition),
                then_branch: Box::new(then_branch),
                else_branch,
            },
        )
    }

    /// A print statement: `print ( <expr> )`.
    #[verifier::spinoff_prover]
    #[verifier::rlimit(100)]
    fn print(&mut self) -> (r: Result<Expr, ParserError>)
        requires
            old(self).wf(),
        ensures
            final(self).wf(),
            final(self).toks() == old(self).toks(),
            old(self).pos() <= final(self).pos(),
            match spec_print(old(self).toks(), old(self).pos()) {
                Parsed::Good(m, j) => r matches Ok(e) && e@ == m && final(self).pos() == j && old(self).pos() < j,
                Parsed::Fail(err) => r matches Err(pe) && pe@ == err,
            },
        decreases self.toks().len() - self.pos(), 10int,
    {
        proof {
            reveal_with_fuel(spec_print, 1);
        }
        if self.match_token(&Token::KeywordPrint) {
            let opens = match self.peek() {
                Some(Token::LeftParen) => true,
                _ => false,
            };
            if opens {
                self.advance();
                let inner = match self.or() {
                    Ok(e) => e,
                    Err(e) => {
                        return Err(e);
                    },
                };
                let closes = match self.peek() {
                    Some(Token::RightParen) => true,
                    _ => false,
                };
                if closes {
                    self.advance();
                    Ok(Expr::Print(Box::new(inner)))
                } else {
                    Err(
                        ParserError::ExpectedAfterCustom(
                            ")".to_owned(),
                            "print".to_owned(),
                            "expression".to_owned(),
                        ),
                    )
                }
            } else {
                Err(ParserError::ExpectedAfter("(".to_owned(), "print".to_owned()))
            }
        } else {
            Err(ParserError::ExpectedAfter("print".to_owned(), "statement".to_owned()))
        }
    }
}

} // verus!
