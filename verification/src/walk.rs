//! What a search of an operand answers.
//!
//! A search follows the walk of the operand through the nodes that it
//! enters and stops at the first mutable use. Its answer is the span of the
//! innermost node that it has entered and not left again by then: the
//! innermost expression around the mutable use that is not itself a name.
//! In `f(&mut x)` and in `f(g(y), &mut x)` that is the call of `f`.

use crate::context::LateContext;
use crate::hir::{Arm, BorrowKind, Expr, ExprKind, MatchSource, Mutability, Stmt, StmtKind};
use crate::span::Span;
use vstd::prelude::*;

verus! {

/// The expression borrows mutably: `&mut expr`.
pub open spec fn is_mut_borrow(e: Expr) -> bool {
    e.kind matches ExprKind::AddrOf(BorrowKind::Ref, Mutability::Mut, _)
}

/// The expression is a name that is coerced to a mutable reference.
pub open spec fn is_mut_coerced_path(cx: LateContext, e: Expr) -> bool {
    e.kind is Path && cx.tables.spec_coerces_to_mut_ref(e.hir_id)
}

/// The expression is what an `.await` was lowered to.
pub open spec fn is_await_desugar(e: Expr) -> bool {
    e.kind matches ExprKind::Match(_, _, MatchSource::AwaitDesugar)
}

/// The node is a mutable use: it borrows mutably, or it is a name that is
/// coerced to a mutable reference.
pub open spec fn is_mut_use(cx: LateContext, e: Expr) -> bool {
    is_mut_borrow(e) || is_mut_coerced_path(cx, e)
}

/// A search enters the node: it takes up its span and goes on beneath
/// it. The node is no mutable borrow, no name, and not what an `.await`
/// was lowered to.
pub open spec fn is_entered(e: Expr) -> bool {
    !is_mut_borrow(e) && !(e.kind is Path) && !is_await_desugar(e)
}

/// A mutable use lies in `e`: `e` is one, or one lies beneath it. With
/// `past_await` unset, what an `.await` was lowered to counts as empty.
pub open spec fn mut_use_within(cx: LateContext, e: Expr, past_await: bool) -> bool
    decreases e, 1nat,
{
    if is_mut_use(cx, e) {
        true
    } else if is_await_desugar(e) && !past_await {
        false
    } else {
        mut_use_beneath(cx, e, past_await)
    }
}

/// A mutable use lies in a sub-expression of `e`.
pub open spec fn mut_use_beneath(cx: LateContext, e: Expr, past_await: bool) -> bool
    decreases e, 0nat,
{
    match e.kind {
        ExprKind::Block(block) => {
            ||| (exists|i: int|
                #![trigger block.stmts@[i]]
                0 <= i < block.stmts@.len() && mut_use_in_stmt(cx, block.stmts@[i], past_await))
            ||| match block.expr {
                Some(value) => mut_use_within(cx, *value, past_await),
                None => false,
            }
        },
        ExprKind::Match(scrutinee, arms, _) => {
            ||| mut_use_within(cx, *scrutinee, past_await)
            ||| (exists|i: int|
                #![trigger arms@[i]]
                0 <= i < arms@.len() && mut_use_in_arm(cx, arms@[i], past_await))
        },
        ExprKind::DropTemps(inner) => mut_use_within(cx, *inner, past_await),
        ExprKind::Unary(_, inner) => mut_use_within(cx, *inner, past_await),
        ExprKind::AddrOf(_, _, inner) => mut_use_within(cx, *inner, past_await),
        ExprKind::Tup(exprs) => exists|i: int|
            #![trigger exprs@[i]]
            0 <= i < exprs@.len() && mut_use_within(cx, exprs@[i], past_await),
        ExprKind::Call(callee, args) => {
            ||| mut_use_within(cx, *callee, past_await)
            ||| (exists|i: int|
                #![trigger args@[i]]
                0 <= i < args@.len() && mut_use_within(cx, args@[i], past_await))
        },
        ExprKind::MethodCall(args) => exists|i: int|
            #![trigger args@[i]]
            0 <= i < args@.len() && mut_use_within(cx, args@[i], past_await),
        ExprKind::Other(exprs) => exists|i: int|
            #![trigger exprs@[i]]
            0 <= i < exprs@.len() && mut_use_within(cx, exprs@[i], past_await),
        ExprKind::Path => false,
        ExprKind::Lit => false,
    }
}

/// A mutable use lies in an expression of the statement.
pub open spec fn mut_use_in_stmt(cx: LateContext, stmt: Stmt, past_await: bool) -> bool
    decreases stmt, 0nat,
{
    match stmt.kind {
        StmtKind::Local(exprs) => exists|i: int|
            #![trigger exprs@[i]]
            0 <= i < exprs@.len() && mut_use_within(cx, exprs@[i], past_await),
        StmtKind::Item => false,
        StmtKind::Expr(e) => mut_use_within(cx, e, past_await),
        StmtKind::Semi(e) => mut_use_within(cx, e, past_await),
    }
}

/// A mutable use lies in the pattern, in the guard or in the body of the
/// arm.
pub open spec fn mut_use_in_arm(cx: LateContext, arm: Arm, past_await: bool) -> bool
    decreases arm, 0nat,
{
    ||| (exists|i: int|
        #![trigger arm.pat@[i]]
        0 <= i < arm.pat@.len() && mut_use_within(cx, arm.pat@[i], past_await))
    ||| match arm.guard {
        Some(guard) => mut_use_within(cx, guard, past_await),
        None => false,
    }
    ||| mut_use_within(cx, arm.body, past_await)
}

/// The nodes of `e` in the order in which a walk visits them: `e` itself
/// and, if a search enters it, what lies beneath it.
pub open spec fn walk_order(e: Expr) -> Seq<Expr>
    decreases e, 1nat,
{
    if is_entered(e) {
        seq![e] + walk_order_beneath(e)
    } else {
        seq![e]
    }
}

/// The nodes beneath `e` in the order in which a walk visits them.
pub open spec fn walk_order_beneath(e: Expr) -> Seq<Expr>
    decreases e, 0nat,
{
    match e.kind {
        ExprKind::Block(block) => {
            let value = match block.expr {
                Some(value) => walk_order(*value),
                None => Seq::empty(),
            };
            walk_order_of_stmts(block.stmts@, block.stmts@.len()) + value
        },
        ExprKind::Match(scrutinee, arms, _) => {
            walk_order(*scrutinee) + walk_order_of_arms(arms@, arms@.len())
        },
        ExprKind::DropTemps(inner) => walk_order(*inner),
        ExprKind::Unary(_, inner) => walk_order(*inner),
        ExprKind::AddrOf(_, _, inner) => walk_order(*inner),
        ExprKind::Tup(exprs) => walk_order_of_exprs(exprs@, exprs@.len()),
        ExprKind::Call(callee, args) => {
            walk_order(*callee) + walk_order_of_exprs(args@, args@.len())
        },
        ExprKind::MethodCall(args) => walk_order_of_exprs(args@, args@.len()),
        ExprKind::Other(exprs) => walk_order_of_exprs(exprs@, exprs@.len()),
        ExprKind::Path => Seq::empty(),
        ExprKind::Lit => Seq::empty(),
    }
}

/// The nodes of the first `n` of `exprs` in the order of the walk.
pub open spec fn walk_order_of_exprs(exprs: Seq<Expr>, n: nat) -> Seq<Expr>
    decreases exprs, n,
{
    if n == 0 || n > exprs.len() {
        Seq::empty()
    } else {
        walk_order_of_exprs(exprs, (n - 1) as nat) + walk_order(exprs[n - 1])
    }
}

/// The nodes of the first `n` of `stmts` in the order of the walk.
pub open spec fn walk_order_of_stmts(stmts: Seq<Stmt>, n: nat) -> Seq<Expr>
    decreases stmts, n,
{
    if n == 0 || n > stmts.len() {
        Seq::empty()
    } else {
        let last = match stmts[n - 1].kind {
            StmtKind::Local(exprs) => walk_order_of_exprs(exprs@, exprs@.len()),
            StmtKind::Item => Seq::empty(),
            StmtKind::Expr(e) => walk_order(e),
            StmtKind::Semi(e) => walk_order(e),
        };
        walk_order_of_stmts(stmts, (n - 1) as nat) + last
    }
}

/// The nodes of the first `n` of `arms` in the order of the walk.
pub open spec fn walk_order_of_arms(arms: Seq<Arm>, n: nat) -> Seq<Expr>
    decreases arms, n,
{
    if n == 0 || n > arms.len() {
        Seq::empty()
    } else {
        let guard = match arms[n - 1].guard {
            Some(guard) => walk_order(guard),
            None => Seq::empty(),
        };
        let pat = walk_order_of_exprs(arms[n - 1].pat@, arms[n - 1].pat@.len());
        walk_order_of_arms(arms, (n - 1) as nat) + pat + guard + walk_order(arms[n - 1].body)
    }
}

/// What a search knows at some point of its walk.
pub struct VisitState {
    /// A mutable use has been met.
    pub found: bool,
    /// The span of the innermost node that the search has entered and not
    /// left again.
    pub expr_span: Option<Span>,
}

impl VisitState {
    /// The state in which every search starts.
    pub open spec fn fresh() -> VisitState {
        VisitState { found: false, expr_span: None }
    }

    /// What the search reports: the span it holds, if a mutable use was
    /// met.
    pub open spec fn result(self) -> Option<Span> {
        if self.found {
            self.expr_span
        } else {
            None
        }
    }
}

/// `exprs[i]` is the first of `exprs` in which a mutable use lies.
pub open spec fn is_first_holder(cx: LateContext, exprs: Seq<Expr>, i: int) -> bool {
    &&& 0 <= i < exprs.len()
    &&& mut_use_within(cx, exprs[i], false)
    &&& forall|j: int| 0 <= j < i ==> !mut_use_within(cx, #[trigger] exprs[j], false)
}

/// `stmts[i]` is the first of `stmts` in whose expression a mutable use
/// lies.
pub open spec fn is_first_holding_stmt(cx: LateContext, stmts: Seq<Stmt>, i: int) -> bool {
    &&& 0 <= i < stmts.len()
    &&& mut_use_in_stmt(cx, stmts[i], false)
    &&& forall|j: int| 0 <= j < i ==> !mut_use_in_stmt(cx, #[trigger] stmts[j], false)
}

/// `arms[i]` is the first of `arms` in which a mutable use lies.
pub open spec fn is_first_holding_arm(cx: LateContext, arms: Seq<Arm>, i: int) -> bool {
    &&& 0 <= i < arms.len()
    &&& mut_use_in_arm(cx, arms[i], false)
    &&& forall|j: int| 0 <= j < i ==> !mut_use_in_arm(cx, #[trigger] arms[j], false)
}

/// What a search of the operand `e` answers: the span of the innermost
/// node that a search enters and beneath which the first mutable use of
/// `e` lies. That is `e` itself where the first of its sub-expressions in
/// which a mutable use lies is that use, and else what a search of that
/// sub-expression answers. There is no answer where a search does not
/// enter `e`, as where `e` is itself the mutable use, or where no mutable
/// use lies beneath `e` outside of what an `.await` was lowered to.
pub open spec fn mutable_use(cx: LateContext, e: Expr) -> Option<Span>
    decreases e, 1nat,
{
    if is_entered(e) && mut_use_beneath(cx, e, false) {
        match mutable_use_beneath(cx, e) {
            Some(span) => Some(span),
            None => Some(e.span),
        }
    } else {
        None
    }
}

/// What a search answers for the first sub-expression of `e` in which a
/// mutable use lies; nothing where that sub-expression is itself the use,
/// or where there is none.
pub open spec fn mutable_use_beneath(cx: LateContext, e: Expr) -> Option<Span>
    decreases e, 0nat,
{
    match e.kind {
        ExprKind::Block(block) => {
            if exists|i: int| is_first_holding_stmt(cx, block.stmts@, i) {
                let i = choose|i: int| is_first_holding_stmt(cx, block.stmts@, i);
                mutable_use_in_stmt(cx, block.stmts@[i])
            } else {
                match block.expr {
                    Some(value) => mutable_use(cx, *value),
                    None => None,
                }
            }
        },
        ExprKind::Match(scrutinee, arms, _) => {
            if mut_use_within(cx, *scrutinee, false) {
                mutable_use(cx, *scrutinee)
            } else if exists|i: int| is_first_holding_arm(cx, arms@, i) {
                let i = choose|i: int| is_first_holding_arm(cx, arms@, i);
                mutable_use_in_arm(cx, arms@[i])
            } else {
                None
            }
        },
        ExprKind::DropTemps(inner) => mutable_use(cx, *inner),
        ExprKind::Unary(_, inner) => mutable_use(cx, *inner),
        ExprKind::AddrOf(_, _, inner) => mutable_use(cx, *inner),
        ExprKind::Tup(exprs) => mutable_use_among(cx, exprs@),
        ExprKind::Call(callee, args) => {
            if mut_use_within(cx, *callee, false) {
                mutable_use(cx, *callee)
            } else {
                mutable_use_among(cx, args@)
            }
        },
        ExprKind::MethodCall(args) => mutable_use_among(cx, args@),
        ExprKind::Other(exprs) => mutable_use_among(cx, exprs@),
        ExprKind::Path => None,
        ExprKind::Lit => None,
    }
}

/// What a search answers for the first of `exprs` in which a mutable use
/// lies.
pub open spec fn mutable_use_among(cx: LateContext, exprs: Seq<Expr>) -> Option<Span>
    decreases exprs, 0nat,
{
    if exists|i: int| is_first_holder(cx, exprs, i) {
        let i = choose|i: int| is_first_holder(cx, exprs, i);
        mutable_use(cx, exprs[i])
    } else {
        None
    }
}

/// What a search answers for the first expression of the statement in
/// which a mutable use lies.
pub open spec fn mutable_use_in_stmt(cx: LateContext, stmt: Stmt) -> Option<Span>
    decreases stmt, 0nat,
{
    match stmt.kind {
        StmtKind::Local(exprs) => mutable_use_among(cx, exprs@),
        StmtKind::Item => None,
        StmtKind::Expr(e) => mutable_use(cx, e),
        StmtKind::Semi(e) => mutable_use(cx, e),
    }
}

/// What a search answers for the first of the pattern, the guard and
/// the body of the arm in which a mutable use lies.
pub open spec fn mutable_use_in_arm(cx: LateContext, arm: Arm) -> Option<Span>
    decreases arm, 0nat,
{
    if exists|i: int|
        #![trigger arm.pat@[i]]
        0 <= i < arm.pat@.len() && mut_use_within(cx, arm.pat@[i], false) {
        mutable_use_among(cx, arm.pat@)
    } else {
        match arm.guard {
            Some(guard) => if mut_use_within(cx, guard, false) {
                mutable_use(cx, guard)
            } else {
                mutable_use(cx, arm.body)
            },
            None => mutable_use(cx, arm.body),
        }
    }
}

} // verus!
