//! The syntax tree the resolver and the evaluator walk.
//!
//! Nodes are immutable.  Every variable, `this` and `super` reference carries
//! a stable identity (`id`), assigned by whoever builds the tree; the resolver
//! keys its distance table on that identity, never on the rendered name, so
//! two unrelated references can never share an entry.  Function parameter
//! lists and bodies sit behind `Rc` so a closure can capture them without
//! copying the tree.

use vstd::prelude::*;
use std::rc::Rc;
use crate::token::Literal;

verus! {

/// A unary operator.
#[derive(Debug, Clone, Copy, PartialEq, Eq, Structural)]
pub enum UnOp {
    /// Numeric negation, `-`.
    Neg,
    /// Logical negation via truthiness, `!`.
    Not,
}

/// A binary (non-short-circuiting) operator.
#[derive(Debug, Clone, Copy, PartialEq, Eq, Structural)]
pub enum BinOp {
    Add,
    Sub,
    Mul,
    Div,
    Gt,
    Ge,
    Lt,
    Le,
    Eq,
    Ne,
}

/// A short-circuiting logical operator.
#[derive(Debug, Clone, Copy, PartialEq, Eq, Structural)]
pub enum LogOp {
    And,
    Or,
}

/// An expression node.
#[derive(Debug)]
pub enum Expr {
    Literal { value: Literal },
    Grouping { expression: Box<Expr> },
    Unary { operator: UnOp, right: Box<Expr> },
    Binary { left: Box<Expr>, operator: BinOp, right: Box<Expr> },
    Logical { left: Box<Expr>, operator: LogOp, right: Box<Expr> },
    Variable { name: String, id: u64 },
    Assign { name: String, id: u64, value: Box<Expr> },
    Call { callee: Box<Expr>, arguments: Vec<Expr> },
    Get { object: Box<Expr>, name: String },
    SetProp { object: Box<Expr>, name: String, value: Box<Expr> },
    This { id: u64 },
    Super { id: u64, method: String },
    Lambda { params: Rc<Vec<String>>, body: Rc<Vec<Stmt>> },
    Comma { left: Box<Expr>, right: Box<Expr> },
}

/// A statement node.
#[derive(Debug)]
pub enum Stmt {
    Expression { expression: Expr },
    Print { expression: Expr },
    Var { name: String, initializer: Option<Expr> },
    Function { name: String, params: Rc<Vec<String>>, body: Rc<Vec<Stmt>> },
    Return { value: Option<Expr> },
    Block { statements: Vec<Stmt> },
    If { condition: Expr, then_branch: Box<Stmt>, else_branch: Option<Box<Stmt>> },
    While { condition: Expr, body: Box<Stmt> },
    Break,
    Class { name: String, superclass: Option<Box<Expr>>, methods: Vec<Stmt> },
}

} // verus!
