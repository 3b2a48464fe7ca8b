//! The display form of syntax trees.
//!
//! Each node renders to a short text: leaves with their payload kind and
//! value, binary operations fully parenthesized, blocks with their
//! statements joined by semicolons. The form is meant for inspection and
//! diagnostics: it preserves structure by parentheses, not the original
//! spelling, so re-rendering a parsed tree need not reproduce the source
//! text byte for byte.

use vstd::prelude::*;
use vstd::string::StringExecFns;
use crate::expr::{Expr, ExprModel};
use crate::nodes::{NodeModel, Nodes};
use crate::ops::{BinaryOp, UnaryOp};
use crate::strings::{escaped_text, int_digits, push_escaped, push_i64_decimal};
use crate::types::Types;

verus! {

/// The display form of a literal leaf payload.
pub open spec fn node_text(n: NodeModel) -> Seq<char> {
    match n {
        NodeModel::Integer(v) => "Integer("@ + int_digits(v) + ")"@,
        NodeModel::Float(s) => "Float("@ + s + ")"@,
        NodeModel::String(s) => "String(\""@ + escaped_text(s) + "\")"@,
        NodeModel::Boolean(b) => if b {
            "Boolean(true)"@
        } else {
            "Boolean(false)"@
        },
        NodeModel::Identifier(s) => "Identifier(\""@ + s + "\")"@,
    }
}

/// The display form of a binary operator.
pub open spec fn binary_op_text(op: BinaryOp) -> Seq<char> {
    match op {
        BinaryOp::Add => "Add"@,
        BinaryOp::Subtract => "Subtract"@,
        BinaryOp::Multiply => "Multiply"@,
        BinaryOp::Divide => "Divide"@,
        BinaryOp::Modulo => "Modulo"@,
        BinaryOp::Equal => "Equal"@,
        BinaryOp::NotEqual => "NotEqual"@,
        BinaryOp::Greater => "Greater"@,
        BinaryOp::Less => "Less"@,
        BinaryOp::GreaterEqual => "GreaterEqual"@,
        BinaryOp::LessEqual => "LessEqual"@,
        BinaryOp::And => "And"@,
        BinaryOp::Or => "Or"@,
    }
}

/// The display form of a unary operator.
pub open spec fn unary_op_text(op: UnaryOp) -> Seq<char> {
    match op {
        UnaryOp::Minus => "Minus"@,
        UnaryOp::Not => "Not"@,
    }
}

/// The display form of a declared type.
pub open spec fn types_text(t: Types) -> Seq<char> {
    match t {
        Types::I32 => "I32"@,
        Types::I64 => "I64"@,
        Types::Bool => "Bool"@,
        Types::F32 => "F32"@,
        Types::F64 => "F64"@,
        Types::String => "String"@,
    }
}

/// The display form of an optional type annotation.
pub open spec fn opt_types_text(t: Option<Types>) -> Seq<char> {
    match t {
        None => "None"@,
        Some(ty) => "Some("@ + types_text(ty) + ")"@,
    }
}

/// The display form of a tree.
pub open spec fn expr_text(e: ExprModel) -> Seq<char>
    decreases e, 0int,
{
    match e {
        ExprModel::Literal(n) => node_text(n),
        ExprModel::Binary { left, operator, right } => "("@ + expr_text(*left) + " "@
            + binary_op_text(operator) + " "@ + expr_text(*right) + ")"@,
        ExprModel::Unary { operator, operand } => unary_op_text(operator) + expr_text(*operand),
        ExprModel::Assignment { identifier, value } => identifier + " = "@ + expr_text(*value),
        ExprModel::LetDeclaration { identifier, var_type, value } => "let "@ + identifier + ": "@
            + opt_types_text(var_type) + " = "@ + expr_text(*value),
        ExprModel::IfElse { condition, then_branch, else_branch } => "if "@ + expr_text(*condition)
            + " { "@ + expr_text(*then_branch) + " } else { "@ + (match else_branch {
            Some(e2) => expr_text(*e2),
            None => Seq::empty(),
        }) + " }"@,
        ExprModel::Block(items) => "{ "@ + items_text(items, 0) + " }"@,
        ExprModel::Print(inner) => "print "@ + expr_text(*inner),
    }
}

/// The display forms of the items from `i` on, joined by `; `.
pub open spec fn items_text(items: Seq<ExprModel>, i: int) -> Seq<char>
    decreases items, items.len() - i,
{
    if i < 0 || i >= items.len() {
        Seq::empty()
    } else if i == items.len() - 1 {
        expr_text(items[i])
    } else {
        expr_text(items[i]) + "; "@ + items_text(items, i + 1)
    }
}

/// The display form of a literal leaf payload.
pub fn node_string(n: &Nodes) -> (r: String)
    ensures
        r@ == node_text(n@),
{
    match n {
        Nodes::Integer(v) => {
            let mut s = "Integer(".to_owned();
            push_i64_decimal(&mut s, *v);
            s.append(")");
            proof {
                assert(s@ =~= node_text(n@));
            }
            s
        },
        Nodes::Float(text) => {
            let mut s = "Float(".to_owned();
            s.append(text.as_str());
            s.append(")");
            proof {
                assert(s@ =~= node_text(n@));
            }
            s
        },
        Nodes::String(text) => {
            let mut s = "String(\"".to_owned();
            push_escaped(&mut s, text.as_str());
            s.append("\")");
            proof {
                assert(s@ =~= node_text(n@));
            }
            s
        },
        Nodes::Boolean(b) => if *b {
            "Boolean(true)".to_owned()
        } else {
            "Boolean(false)".to_owned()
        },
        Nodes::Identifier(text) => {
            let mut s = "Identifier(\"".to_owned();
            s.append(text.as_str());
            s.append("\")");
            proof {
                assert(s@ =~= node_text(n@));
            }
            s
        },
    }
}

/// The display form of a binary operator.
pub fn binary_op_string(op: &BinaryOp) -> (r: String)
    ensures
        r@ == binary_op_text(*op),
{
    match op {
        BinaryOp::Add => "Add".to_owned(),
        BinaryOp::Subtract => "Subtract".to_owned(),
        BinaryOp::Multiply => "Multiply".to_owned(),
        BinaryOp::Divide => "Divide".to_owned(),
        BinaryOp::Modulo => "Modulo".to_owned(),
        BinaryOp::Equal => "Equal".to_owned(),
        BinaryOp::NotEqual => "NotEqual".to_owned(),
        BinaryOp::Greater => "Greater".to_owned(),
        BinaryOp::Less => "Less".to_owned(),
        BinaryOp::GreaterEqual => "GreaterEqual".to_owned(),
        BinaryOp::LessEqual => "LessEqual".to_owned(),
        BinaryOp::And => "And".to_owned(),
        BinaryOp::Or => "Or".to_owned(),
    }
}

/// The display form of a unary operator.
pub fn unary_op_string(op: &UnaryOp) -> (r: String)
    ensures
        r@ == unary_op_text(*op),
{
    match op {
        UnaryOp::Minus => "Minus".to_owned(),
        UnaryOp::Not => "Not".to_owned(),
    }
}

/// The display form of an optional type annotation.
pub fn opt_types_string(t: &Option<Types>) -> (r: String)
    ensures
        r@ == opt_types_text(*t),
{
    match t {
        None => "None".to_owned(),
        Some(ty) => {
            let mut s = "Some(".to_owned();
            let name = match ty {
                Types::I32 => "I32",
                Types::I64 => "I64",
                Types::Bool => "Bool",
                Types::F32 => "F32",
                Types::F64 => "F64",
                Types::String => "String",
            };
            s.append(name);
            s.append(")");
            proof {
                assert(s@ =~= opt_types_text(*t));
            }
            s
        },
    }
}

impl Expr {
    /// The display form of this tree: structure is kept by parentheses and
    /// braces, not by the original spelling.
    pub fn display_string(&self) -> (r: String)
        ensures
            r@ == expr_text(self@),
        decreases self, 0int,
    {
        match self {
            Expr::Literal(n) => node_string(n),
            Expr::Binary { left, operator, right } => {
                let mut s = "(".to_owned();
                s.append(left.display_string().as_str());
                s.append(" ");
                s.append(binary_op_string(operator).as_str());
                s.append(" ");
                s.append(right.display_string().as_str());
                s.append(")");
                proof {
                    assert(s@ =~= expr_text(self@));
                }
                s
            },
            Expr::Unary { operator, operand } => {
                let mut s = unary_op_string(operator);
                s.append(operand.display_string().as_str());
                proof {
                    assert(s@ =~= expr_text(self@));
                }
                s
            },
            Expr::Assignment { identifier, value } => {
                let mut s = identifier.clone();
                s.append(" = ");
                s.append(value.display_string().as_str());
                proof {
                    assert(s@ =~= expr_text(self@));
                }
                s
            },
            Expr::LetDeclaration { identifier, var_type, value } => {
                let mut s = "let ".to_owned();
                s.append(identifier.as_str());
                s.append(": ");
                s.append(opt_types_string(var_type).as_str());
                s.append(" = ");
                s.append(value.display_string().as_str());
                proof {
                    assert(s@ =~= expr_text(self@));
                }
                s
            },
            Expr::IfElse { condition, then_branch, else_branch } => {
                let mut s = "if ".to_owned();
                s.append(condition.display_string().as_str());
                s.append(" { ");
                s.append(then_branch.display_string().as_str());
                s.append(" } else { ");
                match else_branch {
                    Some(e2) => {
                        s.append(e2.display_string().as_str());
                    },
                    None => {},
                }
                s.append(" }");
                proof {
                    assert(s@ =~= expr_text(self@));
                }
                s
            },
            Expr::Block(items) => {
                let mut s = "{ ".to_owned();
                s.append(block_items_string(items, 0).as_str());
                s.append(" }");
                proof {
                    assert(s@ =~= expr_text(self@));
                }
                s
            },
            Expr::Print(inner) => {
                let mut s = "print ".to_owned();
                s.append(inner.display_string().as_str());
                proof {
                    assert(s@ =~= expr_text(self@));
                }
                s
            },
        }
    }
}

/// The display forms of the items from `i` on, joined by `; `.
fn block_items_string(items: &Vec<Expr>, i: usize) -> (r: String)
    requires
        i <= items.len(),
    ensures
        r@ == items_text(Expr::model_seq(items@), i as int),
    decreases items@, items.len() - i,
{
    proof {
        crate::expr::lemma_model_seq(items@);
    }
    if i >= items.len() {
        String::new()
    } else if i == items.len() - 1 {
        items[i].display_string()
    } else {
        let mut s = items[i].display_string();
        s.append("; ");
        s.append(block_items_string(items, i + 1).as_str());
        proof {
            assert(s@ =~= items_text(Expr::model_seq(items@), i as int));
        }
        s
    }
}

} // verus!
