//! Leaf payloads of the syntax tree.
//!
//! A [`Nodes`] value is the payload of a literal leaf: an integer, a float
//! (kept as its source digits — this crate never computes with the value), an
//! owned string, a boolean, or an identifier name. The parser, not this type,
//! enforces where an identifier payload is syntactically legal.

use vstd::prelude::*;

verus! {

/// The payload of a literal leaf of the syntax tree.
#[derive(Debug, Clone, PartialEq)]
pub enum Nodes {
    Integer(i64),
    /// A float literal, kept as its source digits (`[0-9]+.[0-9]+`).
    Float(String),
    String(String),
    Boolean(bool),
    Identifier(String),
}

/// The mathematical image of a [`Nodes`] value.
pub enum NodeModel {
    Integer(int),
    Float(Seq<char>),
    String(Seq<char>),
    Boolean(bool),
    Identifier(Seq<char>),
}

impl View for Nodes {
    type V = NodeModel;

    open spec fn view(&self) -> NodeModel {
        match self {
            Nodes::Integer(v) => NodeModel::Integer(*v as int),
            Nodes::Float(s) => NodeModel::Float(s@),
            Nodes::String(s) => NodeModel::String(s@),
            Nodes::Boolean(b) => NodeModel::Boolean(*b),
            Nodes::Identifier(s) => NodeModel::Identifier(s@),
        }
    }
}

impl Nodes {
    #[inline]
    pub fn new_integer(value: i64) -> (r: Self)
        ensures
            r@ == NodeModel::Integer(value as int),
    {
        Nodes::Integer(value)
    }

    #[inline]
    pub fn new_float(value: String) -> (r: Self)
        ensures
            r@ == NodeModel::Float(value@),
    {
        Nodes::Float(value)
    }

    #[inline]
    pub fn new_string(value: String) -> (r: Self)
        ensures
            r@ == NodeModel::String(value@),
    {
        Nodes::String(value)
    }

    #[inline]
    pub fn new_boolean(value: bool) -> (r: Self)
        ensures
            r@ == NodeModel::Boolean(value),
    {
        Nodes::Boolean(value)
    }

    #[inline]
    pub fn new_identifier(value: String) -> (r: Self)
        ensures
            r@ == NodeModel::Identifier(value@),
    {
        Nodes::Identifier(value)
    }
}

} // verus!
