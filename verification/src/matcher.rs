//! The shapes that the three assertion macros expand to.
//!
//! `debug_assert!(cond)` becomes
//!
//! ```text
//! { match DropTemps(!cond) { .. }; }
//! ```
//!
//! and `debug_assert_eq!(left, right)`, like `debug_assert_ne!`, becomes
//!
//! ```text
//! { { match (&left, &right) { .. } }; }
//! ```
//!
//! Each step below peels one layer and gives up where the layer is not
//! there. A tree that misses a shape is not an assertion to this rule.

use crate::context::LateContext;
use crate::hir::{BorrowKind, Expr, ExprKind, StmtKind, UnOp};
use crate::span::Span;
use crate::answer_laws::lemma_search_answers;
use crate::visitor::MutArgVisitor;
use crate::walk::mutable_use;
use vstd::prelude::*;

verus! {

/// The expression `m` of a block whose only statement is `m;`. Whether a
/// value stands behind the statement does not matter.
pub open spec fn spec_sole_semi_stmt(e: Expr) -> Option<Expr> {
    match e.kind {
        ExprKind::Block(block) => if block.stmts@.len() == 1 {
            match block.stmts@[0].kind {
                StmtKind::Semi(matchexpr) => Some(matchexpr),
                _ => None,
            }
        } else {
            None
        },
        _ => None,
    }
}

/// The condition `cond` of `match DropTemps(!cond) { .. }`.
pub open spec fn spec_negated_condition(matchexpr: Expr) -> Option<Expr> {
    match matchexpr.kind {
        ExprKind::Match(ifclause, _, _) => match ifclause.kind {
            ExprKind::DropTemps(droptmp) => match droptmp.kind {
                ExprKind::Unary(UnOp::UnNot, condition) => Some(*condition),
                _ => None,
            },
            _ => None,
        },
        _ => None,
    }
}

/// The two elements of the tuple in `{ match (a, b) { .. } }`.
pub open spec fn spec_compared_pair(matchexpr: Expr) -> Option<(Expr, Expr)> {
    match matchexpr.kind {
        ExprKind::Block(matchblock) => match matchblock.expr {
            Some(matchheader) => match matchheader.kind {
                ExprKind::Match(headerexpr, _, _) => match headerexpr.kind {
                    ExprKind::Tup(conditions) => if conditions@.len() == 2 {
                        Some((conditions@[0], conditions@[1]))
                    } else {
                        None
                    },
                    _ => None,
                },
                _ => None,
            },
            None => None,
        },
        _ => None,
    }
}

/// The operand `x` of a tuple element `&x` or `&mut x`.
pub open spec fn spec_borrowed_operand(condition: Expr) -> Option<Expr> {
    match condition.kind {
        ExprKind::AddrOf(BorrowKind::Ref, _, operand) => Some(*operand),
        _ => None,
    }
}

/// What the search reports for one side of a comparison. A side that is
/// not a borrow is not searched.
pub open spec fn side_mutable_use(cx: LateContext, condition: Expr) -> Option<Span> {
    match spec_borrowed_operand(condition) {
        Some(operand) => mutable_use(cx, operand),
        None => None,
    }
}

/// The span to report for the expansion `e`: for the boolean form what the
/// search finds in the condition; for a comparison what it finds in the
/// left operand, and only if that is nothing, what it finds in the right
/// one; nothing for any other tree.
pub open spec fn spec_extract_call(cx: LateContext, e: Expr) -> Option<Span> {
    match spec_sole_semi_stmt(e) {
        Some(matchexpr) => match spec_negated_condition(matchexpr) {
            Some(condition) => mutable_use(cx, condition),
            None => match spec_compared_pair(matchexpr) {
                Some((left, right)) => match side_mutable_use(cx, left) {
                    Some(span) => Some(span),
                    None => side_mutable_use(cx, right),
                },
                None => None,
            },
        },
        None => None,
    }
}

/// Peels `{ m; }`.
pub fn sole_semi_stmt(e: &Expr) -> (matchexpr: Option<&Expr>)
    ensures
        matchexpr == match spec_sole_semi_stmt(*e) {
            Some(m) => Some(&m),
            None => None,
        },
{
    match &e.kind {
        ExprKind::Block(block) => {
            if block.stmts.len() == 1 {
                match &block.stmts[0].kind {
                    StmtKind::Semi(matchexpr) => Some(matchexpr),
                    _ => None,
                }
            } else {
                None
            }
        },
        _ => None,
    }
}

/// Peels `match DropTemps(!cond) { .. }`.
pub fn negated_condition(matchexpr: &Expr) -> (condition: Option<&Expr>)
    ensures
        condition == match spec_negated_condition(*matchexpr) {
            Some(c) => Some(&c),
            None => None,
        },
{
    match &matchexpr.kind {
        ExprKind::Match(ifclause, _, _) => match &ifclause.kind {
            ExprKind::DropTemps(droptmp) => match &droptmp.kind {
                ExprKind::Unary(UnOp::UnNot, condition) => Some(&**condition),
                _ => None,
            },
            _ => None,
        },
        _ => None,
    }
}

/// Peels `{ match (a, b) { .. } }`.
pub fn compared_pair(matchexpr: &Expr) -> (conditions: Option<(&Expr, &Expr)>)
    ensures
        conditions == match spec_compared_pair(*matchexpr) {
            Some((a, b)) => Some((&a, &b)),
            None => None,
        },
{
    match &matchexpr.kind {
        ExprKind::Block(matchblock) => match &matchblock.expr {
            Some(matchheader) => match &matchheader.kind {
                ExprKind::Match(headerexpr, _, _) => match &headerexpr.kind {
                    ExprKind::Tup(conditions) => {
                        if conditions.len() == 2 {
                            Some((&conditions[0], &conditions[1]))
                        } else {
                            None
                        }
                    },
                    _ => None,
                },
                _ => None,
            },
            None => None,
        },
        _ => None,
    }
}

/// Peels `&x`.
pub fn borrowed_operand(condition: &Expr) -> (operand: Option<&Expr>)
    ensures
        operand == match spec_borrowed_operand(*condition) {
            Some(x) => Some(&x),
            None => None,
        },
{
    match &condition.kind {
        ExprKind::AddrOf(BorrowKind::Ref, _, operand) => Some(&**operand),
        _ => None,
    }
}

/// Searches one side of a comparison, with a search of its own.
fn search_side(cx: &LateContext, condition: &Expr) -> (span: Option<Span>)
    ensures
        span == side_mutable_use(*cx, *condition),
{
    match borrowed_operand(condition) {
        Some(operand) => {
            let mut visitor = MutArgVisitor::new(cx);
            visitor.visit_expr(operand);
            proof {
                lemma_search_answers(*cx, *operand);
            }
            visitor.expr_span()
        },
        None => None,
    }
}

/// Recognises the expansion of an assertion in `e` and searches what the
/// user wrote in it. Returns the span to report, or nothing where `e` is
/// no such expansion or its operands hold no mutable use.
pub fn extract_call(cx: &LateContext, e: &Expr) -> (span: Option<Span>)
    ensures
        span == spec_extract_call(*cx, *e),
{
    match sole_semi_stmt(e) {
        Some(matchexpr) => {
            // debug_assert
            match negated_condition(matchexpr) {
                Some(condition) => {
                    let mut visitor = MutArgVisitor::new(cx);
                    visitor.visit_expr(condition);
                    proof {
                        lemma_search_answers(*cx, *condition);
                    }
                    return visitor.expr_span();
                },
                None => {},
            }
            // debug_assert_{eq,ne}
            match compared_pair(matchexpr) {
                Some((left, right)) => {
                    match search_side(cx, left) {
                        Some(span) => Some(span),
                        None => search_side(cx, right),
                    }
                },
                None => None,
            }
        },
        None => None,
    }
}

} // verus!
