//! The search for a mutable use in one operand, step by step.
//!
//! The search walks the operand depth first and carries two things along:
//! whether it has met a mutable use, and the span of the innermost node
//! that it has entered and not left again. A node that borrows mutably, or
//! a name that is coerced to a mutable reference, ends it. A node that it
//! leaves without having met one gives the span back to what it was.

use crate::context::LateContext;
use crate::hir::{Arm, BorrowKind, Expr, ExprKind, MatchSource, Mutability, Stmt, StmtKind};
use crate::span::Span;
use crate::walk::{
    is_await_desugar, is_entered, is_mut_borrow, is_mut_coerced_path, walk_order,
    walk_order_beneath, walk_order_of_arms, walk_order_of_exprs, walk_order_of_stmts, VisitState,
};
use vstd::prelude::*;

verus! {

/// The search as it unfolds over the tree.
impl VisitState {
    /// The state after the search has visited `e`: a mutable use ends
    /// the search; a name that is not coerced, what an `.await` was lowered
    /// to, and any node once the search is over change nothing; any other
    /// node is entered with its own span, and left with the span that the
    /// search came with unless a mutable use was met beneath it.
    pub open spec fn visit_expr(self, cx: LateContext, e: Expr) -> VisitState
        decreases e, 1nat,
    {
        if is_mut_borrow(e) {
            VisitState { found: true, expr_span: self.expr_span }
        } else if e.kind is Path {
            if is_mut_coerced_path(cx, e) {
                VisitState { found: true, expr_span: self.expr_span }
            } else {
                self
            }
        } else if is_await_desugar(e) {
            self
        } else if self.found {
            self
        } else {
            let after = VisitState { found: false, expr_span: Some(e.span) }.walk_expr(cx, e);
            if after.found {
                after
            } else {
                self
            }
        }
    }

    /// The state after the search has visited the sub-expressions of `e`.
    pub open spec fn walk_expr(self, cx: LateContext, e: Expr) -> VisitState
        decreases e, 0nat,
    {
        match e.kind {
            ExprKind::Block(block) => {
                let after = self.walk_stmts(cx, block.stmts@, block.stmts@.len());
                match block.expr {
                    Some(value) => after.visit_expr(cx, *value),
                    None => after,
                }
            },
            ExprKind::Match(scrutinee, arms, _) => self.visit_expr(cx, *scrutinee).walk_arms(
                cx,
                arms@,
                arms@.len(),
            ),
            ExprKind::DropTemps(inner) => self.visit_expr(cx, *inner),
            ExprKind::Unary(_, inner) => self.visit_expr(cx, *inner),
            ExprKind::AddrOf(_, _, inner) => self.visit_expr(cx, *inner),
            ExprKind::Tup(exprs) => self.walk_exprs(cx, exprs@, exprs@.len()),
            ExprKind::Call(callee, args) => self.visit_expr(cx, *callee).walk_exprs(
                cx,
                args@,
                args@.len(),
            ),
            ExprKind::MethodCall(args) => self.walk_exprs(cx, args@, args@.len()),
            ExprKind::Other(exprs) => self.walk_exprs(cx, exprs@, exprs@.len()),
            ExprKind::Path => self,
            ExprKind::Lit => self,
        }
    }

    /// The state after the search has visited the first `n` of `exprs`,
    /// one after the other.
    pub open spec fn walk_exprs(self, cx: LateContext, exprs: Seq<Expr>, n: nat) -> VisitState
        decreases exprs, n,
    {
        if n == 0 || n > exprs.len() {
            self
        } else {
            self.walk_exprs(cx, exprs, (n - 1) as nat).visit_expr(cx, exprs[n - 1])
        }
    }

    /// The state after the search has visited the first `n` of `stmts`.
    pub open spec fn walk_stmts(self, cx: LateContext, stmts: Seq<Stmt>, n: nat) -> VisitState
        decreases stmts, n,
    {
        if n == 0 || n > stmts.len() {
            self
        } else {
            let before = self.walk_stmts(cx, stmts, (n - 1) as nat);
            match stmts[n - 1].kind {
                StmtKind::Local(exprs) => before.walk_exprs(cx, exprs@, exprs@.len()),
                StmtKind::Item => before,
                StmtKind::Expr(e) => before.visit_expr(cx, e),
                StmtKind::Semi(e) => before.visit_expr(cx, e),
            }
        }
    }

    /// The state after the search has visited the first `n` of `arms`:
    /// of each what stands in its pattern, its guard, if it has one, then
    /// its body.
    pub open spec fn walk_arms(self, cx: LateContext, arms: Seq<Arm>, n: nat) -> VisitState
        decreases arms, n,
    {
        if n == 0 || n > arms.len() {
            self
        } else {
            let before = self.walk_arms(cx, arms, (n - 1) as nat).walk_exprs(
                cx,
                arms[n - 1].pat@,
                arms[n - 1].pat@.len(),
            );
            let guarded = match arms[n - 1].guard {
                Some(guard) => before.visit_expr(cx, guard),
                None => before,
            };
            guarded.visit_expr(cx, arms[n - 1].body)
        }
    }
}

/// What a search reports that starts afresh and visits the operand `e`.
pub open spec fn search_result(cx: LateContext, e: Expr) -> Option<Span> {
    VisitState::fresh().visit_expr(cx, e).result()
}

/// One search, from its start to its answer.
pub struct MutArgVisitor<'a> {
    cx: &'a LateContext,
    expr_span: Option<Span>,
    found: bool,
    visits: Ghost<nat>,
}

impl<'a> View for MutArgVisitor<'a> {
    type V = VisitState;

    closed spec fn view(&self) -> VisitState {
        VisitState { found: self.found, expr_span: self.expr_span }
    }
}

impl<'a> MutArgVisitor<'a> {
    /// The context that the search consults.
    pub closed spec fn cx(&self) -> LateContext {
        *self.cx
    }

    /// How many times the search has visited a node so far.
    pub closed spec fn visits(&self) -> nat {
        self.visits@
    }

    /// Starts a search: nothing found, no node entered.
    pub fn new(cx: &'a LateContext) -> (visitor: Self)
        ensures
            visitor@ == VisitState::fresh(),
            visitor.cx() == *cx,
            visitor.visits() == 0,
    {
        Self { cx, expr_span: None, found: false, visits: Ghost(0) }
    }

    /// The answer of the search: the span it holds if a mutable use was
    /// met, else nothing, whatever span it holds.
    pub fn expr_span(&self) -> (span: Option<Span>)
        ensures
            span == self@.result(),
    {
        if self.found {
            self.expr_span
        } else {
            None
        }
    }

    /// Visits `expr` and, unless the search ends there or is over already,
    /// what lies beneath it. No node is visited twice, and none that the
    /// order of the walk leaves out: the visits are no more than that order
    /// has nodes, and one alone where the search does not enter `expr`.
    pub fn visit_expr(&mut self, expr: &Expr)
        ensures
            final(self)@ == old(self)@.visit_expr(old(self).cx(), *expr),
            final(self).cx() == old(self).cx(),
            old(self).visits() < final(self).visits() <= old(self).visits() + walk_order(
                *expr,
            ).len(),
            !is_entered(*expr) || old(self)@.found ==> final(self).visits() == old(self).visits()
                + 1,
        decreases expr, 1nat,
    {
        proof {
            self.visits@ = self.visits@ + 1;
        }
        match &expr.kind {
            ExprKind::AddrOf(BorrowKind::Ref, Mutability::Mut, _) => {
                self.found = true;
            },
            // A name has nothing beneath it, and is not entered.
            ExprKind::Path => {
                if self.cx.tables.coerces_to_mut_ref(expr.hir_id) {
                    self.found = true;
                }
            },
            // What an `.await` was lowered to is not looked into.
            ExprKind::Match(_, _, MatchSource::AwaitDesugar) => {},
            _ => {
                if !self.found {
                    let outer = self.expr_span;
                    self.expr_span = Some(expr.span);
                    walk_expr(self, expr);
                    if !self.found {
                        self.expr_span = outer;
                    }
                }
            },
        }
    }
}

/// Visits the sub-expressions of `expr`, in order.
pub fn walk_expr(visitor: &mut MutArgVisitor<'_>, expr: &Expr)
    ensures
        final(visitor)@ == old(visitor)@.walk_expr(old(visitor).cx(), *expr),
        final(visitor).cx() == old(visitor).cx(),
        old(visitor).visits() <= final(visitor).visits() <= old(visitor).visits()
            + walk_order_beneath(*expr).len(),
    decreases expr, 0nat,
{
    match &expr.kind {
        ExprKind::Block(block) => {
            walk_stmts(visitor, &block.stmts);
            match &block.expr {
                Some(value) => visitor.visit_expr(value),
                None => {},
            }
        },
        ExprKind::Match(scrutinee, arms, _) => {
            visitor.visit_expr(scrutinee);
            walk_arms(visitor, arms);
        },
        ExprKind::DropTemps(inner) => visitor.visit_expr(inner),
        ExprKind::Unary(_, inner) => visitor.visit_expr(inner),
        ExprKind::AddrOf(_, _, inner) => visitor.visit_expr(inner),
        ExprKind::Tup(exprs) => walk_exprs(visitor, exprs),
        ExprKind::Call(callee, args) => {
            visitor.visit_expr(callee);
            walk_exprs(visitor, args);
        },
        ExprKind::MethodCall(args) => walk_exprs(visitor, args),
        ExprKind::Other(exprs) => walk_exprs(visitor, exprs),
        ExprKind::Path => {},
        ExprKind::Lit => {},
    }
}

/// Visits `exprs`, one after the other.
pub fn walk_exprs(visitor: &mut MutArgVisitor<'_>, exprs: &Vec<Expr>)
    ensures
        final(visitor)@ == old(visitor)@.walk_exprs(old(visitor).cx(), exprs@, exprs@.len()),
        final(visitor).cx() == old(visitor).cx(),
        old(visitor).visits() <= final(visitor).visits() <= old(visitor).visits()
            + walk_order_of_exprs(exprs@, exprs@.len()).len(),
    decreases exprs, 0nat,
{
    let mut i: usize = 0;
    while i < exprs.len()
        invariant
            i <= exprs.len(),
            visitor@ == old(visitor)@.walk_exprs(old(visitor).cx(), exprs@, i as nat),
            visitor.cx() == old(visitor).cx(),
            old(visitor).visits() <= visitor.visits() <= old(visitor).visits()
                + walk_order_of_exprs(exprs@, i as nat).len(),
        decreases exprs.len() - i,
    {
        visitor.visit_expr(&exprs[i]);
        i += 1;
    }
}

/// Visits the expressions of `stmts`, statement by statement.
pub fn walk_stmts(visitor: &mut MutArgVisitor<'_>, stmts: &Vec<Stmt>)
    ensures
        final(visitor)@ == old(visitor)@.walk_stmts(old(visitor).cx(), stmts@, stmts@.len()),
        final(visitor).cx() == old(visitor).cx(),
        old(visitor).visits() <= final(visitor).visits() <= old(visitor).visits()
            + walk_order_of_stmts(stmts@, stmts@.len()).len(),
    decreases stmts, 0nat,
{
    let mut i: usize = 0;
    while i < stmts.len()
        invariant
            i <= stmts.len(),
            visitor@ == old(visitor)@.walk_stmts(old(visitor).cx(), stmts@, i as nat),
            visitor.cx() == old(visitor).cx(),
            old(visitor).visits() <= visitor.visits() <= old(visitor).visits()
                + walk_order_of_stmts(stmts@, i as nat).len(),
        decreases stmts.len() - i,
    {
        match &stmts[i].kind {
            StmtKind::Local(exprs) => walk_exprs(visitor, exprs),
            StmtKind::Item => {},
            StmtKind::Expr(e) => visitor.visit_expr(e),
            StmtKind::Semi(e) => visitor.visit_expr(e),
        }
        i += 1;
    }
}

/// Visits the expressions of `arms`: of each arm what stands in its
/// pattern, its guard, if it has one, then its body.
pub fn walk_arms(visitor: &mut MutArgVisitor<'_>, arms: &Vec<Arm>)
    ensures
        final(visitor)@ == old(visitor)@.walk_arms(old(visitor).cx(), arms@, arms@.len()),
        final(visitor).cx() == old(visitor).cx(),
        old(visitor).visits() <= final(visitor).visits() <= old(visitor).visits()
            + walk_order_of_arms(arms@, arms@.len()).len(),
    decreases arms, 0nat,
{
    let mut i: usize = 0;
    while i < arms.len()
        invariant
            i <= arms.len(),
            visitor@ == old(visitor)@.walk_arms(old(visitor).cx(), arms@, i as nat),
            visitor.cx() == old(visitor).cx(),
            old(visitor).visits() <= visitor.visits() <= old(visitor).visits()
                + walk_order_of_arms(arms@, i as nat).len(),
        decreases arms.len() - i,
    {
        walk_exprs(visitor, &arms[i].pat);
        match &arms[i].guard {
            Some(guard) => visitor.visit_expr(guard),
            None => {},
        }
        visitor.visit_expr(&arms[i].body);
        i += 1;
    }
}

} // verus!
