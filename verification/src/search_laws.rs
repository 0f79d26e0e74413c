//! What holds of every search.

use crate::answer_laws::{lemma_first_holder, lemma_visit_answers};
use crate::context::LateContext;
use crate::hir::{Arm, Expr, ExprKind, Stmt, StmtKind};
use crate::walk::{
    is_await_desugar, is_entered, is_first_holder, is_mut_use, mut_use_beneath, mut_use_in_arm,
    mut_use_in_stmt, mut_use_within, mutable_use, mutable_use_among, mutable_use_beneath,
    VisitState,
};
use vstd::prelude::*;

verus! {

/// A mutable use ends the search: the flag is set, and the span stays as
/// it is.
pub proof fn lemma_mut_use_ends_search(st: VisitState, cx: LateContext, e: Expr)
    requires
        is_mut_use(cx, e),
    ensures
        st.visit_expr(cx, e) == (VisitState { found: true, expr_span: st.expr_span }),
        mutable_use(cx, e) is None,
{
}

/// A search that meets no mutable use in `e` leaves `e` as it came: a node
/// that it has entered gives the span back.
pub proof fn lemma_span_is_given_back(st: VisitState, cx: LateContext, e: Expr)
    requires
        !mut_use_within(cx, e, false),
    ensures
        st.visit_expr(cx, e) == st,
{
    if !st.found {
        lemma_visit_answers(st, cx, e);
    }
}

/// What an `.await` was lowered to is passed over, whatever it holds: the
/// search leaves it as it came.
pub proof fn lemma_await_is_passed_over(st: VisitState, cx: LateContext, e: Expr)
    requires
        is_await_desugar(e),
    ensures
        st.visit_expr(cx, e) == st,
        mutable_use(cx, e) is None,
{
}

/// What an `.await` was lowered to can only hide a mutable use: one that
/// lies in `e` outside of it lies in `e`.
pub proof fn lemma_await_only_hides(cx: LateContext, e: Expr)
    requires
        mut_use_within(cx, e, false),
    ensures
        mut_use_within(cx, e, true),
    decreases e, 1nat,
{
    if !is_mut_use(cx, e) {
        lemma_await_only_hides_beneath(cx, e);
    }
}

proof fn lemma_await_only_hides_beneath(cx: LateContext, e: Expr)
    requires
        mut_use_beneath(cx, e, false),
    ensures
        mut_use_beneath(cx, e, true),
    decreases e, 0nat,
{
    match e.kind {
        ExprKind::Block(block) => {
            if exists|i: int|
                #![trigger block.stmts@[i]]
                0 <= i < block.stmts@.len() && mut_use_in_stmt(cx, block.stmts@[i], false) {
                let i = choose|i: int|
                    #![trigger block.stmts@[i]]
                    0 <= i < block.stmts@.len() && mut_use_in_stmt(cx, block.stmts@[i], false);
                lemma_await_only_hides_in_stmt(cx, block.stmts@[i]);
            } else {
                match block.expr {
                    Some(value) => lemma_await_only_hides(cx, *value),
                    None => {},
                }
            }
        },
        ExprKind::Match(scrutinee, arms, _) => {
            if mut_use_within(cx, *scrutinee, false) {
                lemma_await_only_hides(cx, *scrutinee);
            } else {
                let i = choose|i: int|
                    #![trigger arms@[i]]
                    0 <= i < arms@.len() && mut_use_in_arm(cx, arms@[i], false);
                lemma_await_only_hides_in_arm(cx, arms@[i]);
            }
        },
        ExprKind::DropTemps(inner) => lemma_await_only_hides(cx, *inner),
        ExprKind::Unary(_, inner) => lemma_await_only_hides(cx, *inner),
        ExprKind::AddrOf(_, _, inner) => lemma_await_only_hides(cx, *inner),
        ExprKind::Tup(exprs) => lemma_await_only_hides_in_exprs(cx, exprs@),
        ExprKind::Call(callee, args) => {
            if mut_use_within(cx, *callee, false) {
                lemma_await_only_hides(cx, *callee);
            } else {
                lemma_await_only_hides_in_exprs(cx, args@);
            }
        },
        ExprKind::MethodCall(args) => lemma_await_only_hides_in_exprs(cx, args@),
        ExprKind::Other(exprs) => lemma_await_only_hides_in_exprs(cx, exprs@),
        ExprKind::Path => {},
        ExprKind::Lit => {},
    }
}

proof fn lemma_await_only_hides_in_exprs(cx: LateContext, exprs: Seq<Expr>)
    requires
        exists|i: int|
            #![trigger exprs[i]]
            0 <= i < exprs.len() && mut_use_within(cx, exprs[i], false),
    ensures
        exists|i: int|
            #![trigger exprs[i]]
            0 <= i < exprs.len() && mut_use_within(cx, exprs[i], true),
    decreases exprs, 0nat,
{
    let i = choose|i: int|
        #![trigger exprs[i]]
        0 <= i < exprs.len() && mut_use_within(cx, exprs[i], false);
    lemma_await_only_hides(cx, exprs[i]);
}

proof fn lemma_await_only_hides_in_stmt(cx: LateContext, stmt: Stmt)
    requires
        mut_use_in_stmt(cx, stmt, false),
    ensures
        mut_use_in_stmt(cx, stmt, true),
    decreases stmt, 0nat,
{
    match stmt.kind {
        StmtKind::Local(exprs) => lemma_await_only_hides_in_exprs(cx, exprs@),
        StmtKind::Item => {},
        StmtKind::Expr(e) => lemma_await_only_hides(cx, e),
        StmtKind::Semi(e) => lemma_await_only_hides(cx, e),
    }
}

proof fn lemma_await_only_hides_in_arm(cx: LateContext, arm: Arm)
    requires
        mut_use_in_arm(cx, arm, false),
    ensures
        mut_use_in_arm(cx, arm, true),
    decreases arm, 0nat,
{
    if exists|i: int|
        #![trigger arm.pat@[i]]
        0 <= i < arm.pat@.len() && mut_use_within(cx, arm.pat@[i], false) {
        lemma_await_only_hides_in_exprs(cx, arm.pat@);
    } else {
        match arm.guard {
            Some(guard) => {
                if mut_use_within(cx, guard, false) {
                    lemma_await_only_hides(cx, guard);
                } else {
                    lemma_await_only_hides(cx, arm.body);
                }
            },
            None => lemma_await_only_hides(cx, arm.body),
        }
    }
}

/// An operand in which no mutable use lies has no answer.
pub proof fn lemma_clean_operand_has_no_answer(cx: LateContext, e: Expr)
    requires
        !mut_use_within(cx, e, true),
    ensures
        mutable_use(cx, e) is None,
{
    if mut_use_within(cx, e, false) {
        lemma_await_only_hides(cx, e);
    }
}

/// An operand whose mutable uses all lie in what an `.await` was lowered
/// to has no answer.
pub proof fn lemma_uses_behind_await_have_no_answer(cx: LateContext, e: Expr)
    requires
        !mut_use_within(cx, e, false),
    ensures
        mutable_use(cx, e) is None,
{
}

/// A search has an answer exactly if it enters the operand and a mutable
/// use lies beneath it outside of what an `.await` was lowered to. A
/// mutable borrow or a coerced name that is itself the operand has none.
pub proof fn lemma_answer_exists_iff(cx: LateContext, e: Expr)
    ensures
        mutable_use(cx, e).is_some() == (is_entered(e) && mut_use_beneath(cx, e, false)),
{
}

/// A call is the answer for itself if the first thing in it in which a
/// mutable use lies is that use: the callee, or an argument before which
/// no mutable use lies in the callee or in an earlier argument. So it is
/// in `f(&mut x)`, in `f(1, &mut x)` and in `f(g(y), &mut x)`.
pub proof fn lemma_call_with_mutable_argument(cx: LateContext, e: Expr, k: int)
    requires
        e.kind matches ExprKind::Call(callee, args) && (is_mut_use(cx, *callee) || (!mut_use_within(
            cx,
            *callee,
            false,
        ) && is_first_holder(cx, args@, k) && is_mut_use(cx, args@[k]))),
    ensures
        mutable_use(cx, e) == Some(e.span),
{
    match e.kind {
        ExprKind::Call(callee, args) => {
            if is_mut_use(cx, *callee) {
                assert(mutable_use(cx, *callee) is None);
                assert(mutable_use_beneath(cx, e) is None);
            } else {
                let i = lemma_first_holder(cx, args@, k);
                assert(mut_use_within(cx, args@[k], false));
                assert(mutable_use(cx, args@[k]) is None);
                assert(mutable_use_among(cx, args@) is None);
                assert(mutable_use_beneath(cx, e) is None);
            }
            assert(mut_use_beneath(cx, e, false));
        },
        _ => {},
    }
}

/// A method call is the answer for itself if the first of the receiver
/// and the arguments in which a mutable use lies is that use: `v.pop()`
/// where `v` is coerced to `&mut Vec<_>`.
pub proof fn lemma_method_call_with_mutable_argument(cx: LateContext, e: Expr, k: int)
    requires
        e.kind matches ExprKind::MethodCall(args) && is_first_holder(cx, args@, k) && is_mut_use(
            cx,
            args@[k],
        ),
    ensures
        mutable_use(cx, e) == Some(e.span),
{
    match e.kind {
        ExprKind::MethodCall(args) => {
            let i = lemma_first_holder(cx, args@, k);
            assert(mut_use_within(cx, args@[k], false));
            assert(mutable_use(cx, args@[k]) is None);
            assert(mutable_use_among(cx, args@) is None);
            assert(mutable_use_beneath(cx, e) is None);
            assert(mut_use_beneath(cx, e, false));
        },
        _ => {},
    }
}

/// Where the first thing beneath an entered node in which a mutable use
/// lies is not itself that use, the answer is the one for that thing: the
/// innermost node around the mutable use, not one further out.
pub proof fn lemma_answer_is_innermost(cx: LateContext, e: Expr, k: int)
    requires
        e.kind matches ExprKind::Call(callee, args) && !mut_use_within(cx, *callee, false)
            && is_first_holder(cx, args@, k) && !is_mut_use(cx, args@[k]),
    ensures
        mutable_use(cx, e) == mutable_use(cx, e.kind->Call_1@[k]),
        mutable_use(cx, e) is Some,
{
    match e.kind {
        ExprKind::Call(callee, args) => {
            let i = lemma_first_holder(cx, args@, k);
            assert(mut_use_within(cx, args@[k], false));
            assert(mutable_use(cx, args@[k]) is Some);
            assert(mutable_use_among(cx, args@) == mutable_use(cx, args@[k]));
            assert(mutable_use_beneath(cx, e) == mutable_use_among(cx, args@));
            assert(mut_use_beneath(cx, e, false));
        },
        _ => {},
    }
}

} // verus!
