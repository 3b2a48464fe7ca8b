//! The recursive syntax-tree type.
//!
//! An [`Expr`] is one node of the program representation the parser builds:
//! leaves hold literal or identifier payloads, interior nodes hold operators,
//! declarations, control flow, or blocks. A parent owns its children
//! exclusively — the tree is a strict tree, with no sharing and no cycles —
//! and nodes are immutable once built.

use vstd::prelude::*;
use crate::nodes::{NodeModel, Nodes};
use crate::ops::{BinaryOp, UnaryOp};
use crate::types::Types;

verus! {

/// One node of the syntax tree.
#[derive(Debug, PartialEq)]
pub enum Expr {
    /// A literal leaf (integer, float, string, boolean, or identifier).
    Literal(Nodes),
    /// A binary operation over two subtrees.
    Binary { left: Box<Expr>, operator: BinaryOp, right: Box<Expr> },
    /// A prefix operation over one subtree.
    Unary { operator: UnaryOp, operand: Box<Expr> },
    /// An assignment to an existing name.
    Assignment { identifier: String, value: Box<Expr> },
    /// A `let` declaration introducing a name, with an optional declared type.
    LetDeclaration { identifier: String, var_type: Option<Types>, value: Box<Expr> },
    /// A conditional; the absent else branch is `None`, never an empty block.
    IfElse { condition: Box<Expr>, then_branch: Box<Expr>, else_branch: Option<Box<Expr>> },
    /// A brace-delimited sequence of statements.
    Block(Vec<Expr>),
    /// A print statement.
    Print(Box<Expr>),
}

/// The mathematical image of an [`Expr`]: names become character sequences,
/// child vectors become sequences of images.
pub enum ExprModel {
    Literal(NodeModel),
    Binary { left: Box<ExprModel>, operator: BinaryOp, right: Box<ExprModel> },
    Unary { operator: UnaryOp, operand: Box<ExprModel> },
    Assignment { identifier: Seq<char>, value: Box<ExprModel> },
    LetDeclaration { identifier: Seq<char>, var_type: Option<Types>, value: Box<ExprModel> },
    IfElse {
        condition: Box<ExprModel>,
        then_branch: Box<ExprModel>,
        else_branch: Option<Box<ExprModel>>,
    },
    Block(Seq<ExprModel>),
    Print(Box<ExprModel>),
}

impl Expr {
    /// The image of this node.
    pub open spec fn model(self) -> ExprModel
        decreases self,
    {
        match self {
            Expr::Literal(n) => ExprModel::Literal(n@),
            Expr::Binary { left, operator, right } => ExprModel::Binary {
                left: Box::new(left.model()),
                operator,
                right: Box::new(right.model()),
            },
            Expr::Unary { operator, operand } => ExprModel::Unary {
                operator,
                operand: Box::new(operand.model()),
            },
            Expr::Assignment { identifier, value } => ExprModel::Assignment {
                identifier: identifier@,
                value: Box::new(value.model()),
            },
            Expr::LetDeclaration { identifier, var_type, value } => ExprModel::LetDeclaration {
                identifier: identifier@,
                var_type,
                value: Box::new(value.model()),
            },
            Expr::IfElse { condition, then_branch, else_branch } => ExprModel::IfElse {
                condition: Box::new(condition.model()),
                then_branch: Box::new(then_branch.model()),
                else_branch: match else_branch {
                    Some(e) => Some(Box::new(e.model())),
                    None => None,
                },
            },
            Expr::Block(stmts) => ExprModel::Block(Expr::model_seq(stmts@)),
            Expr::Print(e) => ExprModel::Print(Box::new(e.model())),
        }
    }

    /// The images of a sequence of nodes, in order.
    pub open spec fn model_seq(es: Seq<Expr>) -> Seq<ExprModel>
        decreases es,
    {
        if es.len() == 0 {
            Seq::empty()
        } else {
            seq![es[0].model()] + Expr::model_seq(es.drop_first())
        }
    }
}

impl View for Expr {
    type V = ExprModel;

    open spec fn view(&self) -> ExprModel {
        self.model()
    }
}

/// `model_seq` maps the sequence pointwise.
pub broadcast proof fn lemma_model_seq(es: Seq<Expr>)
    ensures
        (#[trigger] Expr::model_seq(es)).len() == es.len(),
        forall|i: int| 0 <= i < es.len() ==> Expr::model_seq(es)[i] == es[i].model(),
    decreases es,
{
    if es.len() > 0 {
        lemma_model_seq(es.drop_first());
    }
}

/// Appending one node on the right appends its image on the right.
pub proof fn lemma_model_seq_push(s: Seq<Expr>, e: Expr)
    ensures
        Expr::model_seq(s.push(e)) == Expr::model_seq(s).push(e.model()),
{
    lemma_model_seq(s.push(e));
    lemma_model_seq(s);
    assert(Expr::model_seq(s.push(e)) =~= Expr::model_seq(s).push(e.model()));
}

} // verus!
