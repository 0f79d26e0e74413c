//! The typed syntax tree, as far as the rule reads it.
//!
//! A node keeps its kind, its span and its identity. The rule reads
//! expressions only: of a pattern or a type only the expressions that
//! stand in it are kept, and items are left out. Every kind lists its
//! sub-expressions in the order in which a walk of the tree reaches them.
//! A name is a leaf.

use crate::span::Span;
use vstd::prelude::*;

verus! {

/// The identity of a node, by which the type checker's tables are keyed.
#[derive(Clone, Copy, Debug, PartialEq, Eq, Hash)]
pub struct HirId(pub u32);

#[derive(Clone, Copy, Debug, PartialEq, Eq)]
pub enum Mutability {
    Mut,
    Not,
}

/// How an address-of expression borrows.
#[derive(Clone, Copy, Debug, PartialEq, Eq)]
pub enum BorrowKind {
    /// `&expr` or `&mut expr`.
    Ref,
    /// `&raw const expr` or `&raw mut expr`.
    Raw,
}

#[derive(Clone, Copy, Debug, PartialEq, Eq)]
pub enum UnOp {
    /// `*expr`
    UnDeref,
    /// `!expr`
    UnNot,
    /// `-expr`
    UnNeg,
}

/// Where a `match` node comes from.
#[derive(Clone, Copy, Debug, PartialEq, Eq)]
pub enum MatchSource {
    /// A `match` in the source.
    Normal,
    /// An `if`, with or without `else`.
    IfDesugar { contains_else_clause: bool },
    /// An `if let`, with or without `else`.
    IfLetDesugar { contains_else_clause: bool },
    /// The condition of a `while`.
    WhileDesugar,
    /// The condition of a `while let`.
    WhileLetDesugar,
    /// The header of a `for`.
    ForLoopDesugar,
    /// A `?`.
    TryDesugar,
    /// An `.await`.
    AwaitDesugar,
}

/// An expression.
#[derive(Debug, PartialEq, Eq)]
pub struct Expr {
    pub hir_id: HirId,
    pub kind: ExprKind,
    pub span: Span,
}

#[derive(Debug, PartialEq, Eq)]
pub enum ExprKind {
    /// `{ ... }`
    Block(Block),
    /// `match scrutinee { arms }`, also where an `if`, a loop header, `?`
    /// or `.await` was lowered to it.
    Match(Box<Expr>, Vec<Arm>, MatchSource),
    /// An expression after which the temporaries it made are dropped.
    DropTemps(Box<Expr>),
    /// `!expr`, `-expr` or `*expr`
    Unary(UnOp, Box<Expr>),
    /// `(a, b, ...)`
    Tup(Vec<Expr>),
    /// `&expr`, `&mut expr`, `&raw const expr` or `&raw mut expr`
    AddrOf(BorrowKind, Mutability, Box<Expr>),
    /// A name or a path. It has no sub-expressions.
    Path,
    /// `callee(args)`
    Call(Box<Expr>, Vec<Expr>),
    /// `receiver.method(args)`; the receiver is the first argument.
    MethodCall(Vec<Expr>),
    /// A literal.
    Lit,
    /// Any other expression, with its sub-expressions. The body of a
    /// closure is the sub-expression of the closure.
    Other(Vec<Expr>),
}

/// A block: statements, then perhaps an expression that gives its value.
#[derive(Debug, PartialEq, Eq)]
pub struct Block {
    pub stmts: Vec<Stmt>,
    pub expr: Option<Box<Expr>>,
}

/// A statement.
#[derive(Debug, PartialEq, Eq)]
pub struct Stmt {
    pub kind: StmtKind,
    pub span: Span,
}

#[derive(Debug, PartialEq, Eq)]
pub enum StmtKind {
    /// `let pattern: ty = init;`, with the expressions that stand in it in
    /// the order of the walk: the initializer, if there is one, then those
    /// in the pattern, then those in the type, such as the length of an
    /// array.
    Local(Vec<Expr>),
    /// An item declared among the statements. A walk does not enter it.
    Item,
    /// An expression without a semicolon behind it.
    Expr(Expr),
    /// An expression with a semicolon behind it.
    Semi(Expr),
}

/// One arm of a `match`.
#[derive(Debug, PartialEq, Eq)]
pub struct Arm {
    /// The expressions that stand in the pattern: literals and the bounds
    /// of ranges.
    pub pat: Vec<Expr>,
    pub guard: Option<Expr>,
    pub body: Expr,
}

} // verus!
