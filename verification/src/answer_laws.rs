//! The search, step by step, answers what a search of an operand is to
//! answer.

use crate::context::LateContext;
use crate::hir::{Arm, Expr, ExprKind, Stmt, StmtKind};
use crate::span::Span;
use crate::visitor::search_result;
use crate::walk::{
    is_entered, is_first_holder, is_first_holding_arm, is_first_holding_stmt, mut_use_beneath,
    mut_use_in_arm, mut_use_in_stmt, mut_use_within, mutable_use, mutable_use_among,
    mutable_use_beneath, mutable_use_in_arm, mutable_use_in_stmt, VisitState,
};
use vstd::prelude::*;

verus! {

/// The state of a search that has met a mutable use in a part of the tree
/// for which `answer` is the answer: it holds that span, or the one it
/// came with where the part was itself the mutable use.
pub open spec fn found_with(st: VisitState, answer: Option<Span>) -> VisitState {
    VisitState {
        found: true,
        expr_span: match answer {
            Some(span) => Some(span),
            None => st.expr_span,
        },
    }
}

/// Once a search has met a mutable use, visiting more changes nothing:
/// neither the flag nor the span.
pub proof fn lemma_found_is_final(st: VisitState, cx: LateContext, e: Expr)
    requires
        st.found,
    ensures
        st.visit_expr(cx, e) == st,
{
}

/// The same of a list of expressions, visited one after the other.
pub proof fn lemma_found_is_final_exprs(st: VisitState, cx: LateContext, exprs: Seq<Expr>, n: nat)
    requires
        st.found,
    ensures
        st.walk_exprs(cx, exprs, n) == st,
    decreases n,
{
    if n > 0 && n <= exprs.len() {
        lemma_found_is_final_exprs(st, cx, exprs, (n - 1) as nat);
        lemma_found_is_final(st, cx, exprs[n - 1]);
    }
}

proof fn lemma_found_is_final_stmts(st: VisitState, cx: LateContext, stmts: Seq<Stmt>, n: nat)
    requires
        st.found,
    ensures
        st.walk_stmts(cx, stmts, n) == st,
    decreases n,
{
    if n > 0 && n <= stmts.len() {
        lemma_found_is_final_stmts(st, cx, stmts, (n - 1) as nat);
        match stmts[n - 1].kind {
            StmtKind::Local(exprs) => lemma_found_is_final_exprs(st, cx, exprs@, exprs@.len()),
            StmtKind::Item => {},
            StmtKind::Expr(e) => lemma_found_is_final(st, cx, e),
            StmtKind::Semi(e) => lemma_found_is_final(st, cx, e),
        }
    }
}

proof fn lemma_found_is_final_arms(st: VisitState, cx: LateContext, arms: Seq<Arm>, n: nat)
    requires
        st.found,
    ensures
        st.walk_arms(cx, arms, n) == st,
    decreases n,
{
    if n > 0 && n <= arms.len() {
        lemma_found_is_final_arms(st, cx, arms, (n - 1) as nat);
        lemma_found_is_final_exprs(st, cx, arms[n - 1].pat@, arms[n - 1].pat@.len());
        match arms[n - 1].guard {
            Some(guard) => lemma_found_is_final(st, cx, guard),
            None => {},
        }
        lemma_found_is_final(st, cx, arms[n - 1].body);
    }
}

/// Where a mutable use lies in one of `exprs`, one of them is the first
/// in which one lies, and it is the only first.
pub proof fn lemma_first_holder(cx: LateContext, exprs: Seq<Expr>, at: int) -> (i: int)
    requires
        0 <= at < exprs.len(),
        mut_use_within(cx, exprs[at], false),
    ensures
        i <= at,
        is_first_holder(cx, exprs, i),
        forall|k: int| is_first_holder(cx, exprs, k) ==> k == i,
    decreases at,
{
    let i = if exists|j: int| 0 <= j < at && mut_use_within(cx, #[trigger] exprs[j], false) {
        let j = choose|j: int| 0 <= j < at && mut_use_within(cx, #[trigger] exprs[j], false);
        lemma_first_holder(cx, exprs, j)
    } else {
        at
    };
    assert forall|k: int| is_first_holder(cx, exprs, k) implies k == i by {
        if k < i {
            assert(!mut_use_within(cx, exprs[k], false));
        }
        if i < k {
            assert(!mut_use_within(cx, exprs[i], false));
        }
    }
    i
}

proof fn lemma_first_holding_stmt(cx: LateContext, stmts: Seq<Stmt>, at: int) -> (i: int)
    requires
        0 <= at < stmts.len(),
        mut_use_in_stmt(cx, stmts[at], false),
    ensures
        i <= at,
        is_first_holding_stmt(cx, stmts, i),
        forall|k: int| is_first_holding_stmt(cx, stmts, k) ==> k == i,
    decreases at,
{
    let i = if exists|j: int| 0 <= j < at && mut_use_in_stmt(cx, #[trigger] stmts[j], false) {
        let j = choose|j: int| 0 <= j < at && mut_use_in_stmt(cx, #[trigger] stmts[j], false);
        lemma_first_holding_stmt(cx, stmts, j)
    } else {
        at
    };
    assert forall|k: int| is_first_holding_stmt(cx, stmts, k) implies k == i by {
        if k < i {
            assert(!mut_use_in_stmt(cx, stmts[k], false));
        }
        if i < k {
            assert(!mut_use_in_stmt(cx, stmts[i], false));
        }
    }
    i
}

proof fn lemma_first_holding_arm(cx: LateContext, arms: Seq<Arm>, at: int) -> (i: int)
    requires
        0 <= at < arms.len(),
        mut_use_in_arm(cx, arms[at], false),
    ensures
        i <= at,
        is_first_holding_arm(cx, arms, i),
        forall|k: int| is_first_holding_arm(cx, arms, k) ==> k == i,
    decreases at,
{
    let i = if exists|j: int| 0 <= j < at && mut_use_in_arm(cx, #[trigger] arms[j], false) {
        let j = choose|j: int| 0 <= j < at && mut_use_in_arm(cx, #[trigger] arms[j], false);
        lemma_first_holding_arm(cx, arms, j)
    } else {
        at
    };
    assert forall|k: int| is_first_holding_arm(cx, arms, k) implies k == i by {
        if k < i {
            assert(!mut_use_in_arm(cx, arms[k], false));
        }
        if i < k {
            assert(!mut_use_in_arm(cx, arms[i], false));
        }
    }
    i
}

/// A search that has met no mutable use yet meets one in `e` exactly if
/// one lies in `e` outside of what an `.await` was lowered to. It then
/// holds the answer for `e`, or the span it came with where `e` is itself
/// the mutable use. Else it leaves `e` as it came.
pub proof fn lemma_visit_answers(st: VisitState, cx: LateContext, e: Expr)
    requires
        !st.found,
    ensures
        st.visit_expr(cx, e) == if mut_use_within(cx, e, false) {
            found_with(st, mutable_use(cx, e))
        } else {
            st
        },
    decreases e, 1nat,
{
    if is_entered(e) {
        lemma_walk_answers(VisitState { found: false, expr_span: Some(e.span) }, cx, e);
    }
}

/// The same of what lies beneath `e`.
pub proof fn lemma_walk_answers(st: VisitState, cx: LateContext, e: Expr)
    requires
        !st.found,
    ensures
        st.walk_expr(cx, e) == if mut_use_beneath(cx, e, false) {
            found_with(st, mutable_use_beneath(cx, e))
        } else {
            st
        },
    decreases e, 0nat,
{
    match e.kind {
        ExprKind::Block(block) => {
            let after = st.walk_stmts(cx, block.stmts@, block.stmts@.len());
            lemma_walk_stmts_answers(st, cx, block.stmts@, block.stmts@.len());
            if exists|i: int|
                #![trigger block.stmts@[i]]
                0 <= i < block.stmts@.len() && mut_use_in_stmt(cx, block.stmts@[i], false) {
                let at = choose|i: int|
                    #![trigger block.stmts@[i]]
                    0 <= i < block.stmts@.len() && mut_use_in_stmt(cx, block.stmts@[i], false);
                let i = lemma_first_holding_stmt(cx, block.stmts@, at);
                match block.expr {
                    Some(value) => lemma_found_is_final(after, cx, *value),
                    None => {},
                }
            } else {
                assert forall|i: int| !is_first_holding_stmt(cx, block.stmts@, i) by {
                    if is_first_holding_stmt(cx, block.stmts@, i) {
                        assert(mut_use_in_stmt(cx, block.stmts@[i], false));
                    }
                }
                match block.expr {
                    Some(value) => lemma_visit_answers(st, cx, *value),
                    None => {},
                }
            }
        },
        ExprKind::Match(scrutinee, arms, _) => {
            lemma_visit_answers(st, cx, *scrutinee);
            let after = st.visit_expr(cx, *scrutinee);
            if after.found {
                lemma_found_is_final_arms(after, cx, arms@, arms@.len());
            } else {
                lemma_walk_arms_answers(st, cx, arms@, arms@.len());
                if exists|i: int|
                    #![trigger arms@[i]]
                    0 <= i < arms@.len() && mut_use_in_arm(cx, arms@[i], false) {
                    let at = choose|i: int|
                        #![trigger arms@[i]]
                        0 <= i < arms@.len() && mut_use_in_arm(cx, arms@[i], false);
                    let i = lemma_first_holding_arm(cx, arms@, at);
                } else {
                    assert forall|i: int| !is_first_holding_arm(cx, arms@, i) by {
                        if is_first_holding_arm(cx, arms@, i) {
                            assert(mut_use_in_arm(cx, arms@[i], false));
                        }
                    }
                }
            }
        },
        ExprKind::DropTemps(inner) => lemma_visit_answers(st, cx, *inner),
        ExprKind::Unary(_, inner) => lemma_visit_answers(st, cx, *inner),
        ExprKind::AddrOf(_, _, inner) => lemma_visit_answers(st, cx, *inner),
        ExprKind::Tup(exprs) => lemma_walk_all_exprs_answers(st, cx, exprs@),
        ExprKind::Call(callee, args) => {
            lemma_visit_answers(st, cx, *callee);
            let after = st.visit_expr(cx, *callee);
            if after.found {
                lemma_found_is_final_exprs(after, cx, args@, args@.len());
            } else {
                lemma_walk_all_exprs_answers(st, cx, args@);
            }
        },
        ExprKind::MethodCall(args) => lemma_walk_all_exprs_answers(st, cx, args@),
        ExprKind::Other(exprs) => lemma_walk_all_exprs_answers(st, cx, exprs@),
        ExprKind::Path => {},
        ExprKind::Lit => {},
    }
}

/// The same of a list of expressions, visited one after the other.
pub proof fn lemma_walk_all_exprs_answers(st: VisitState, cx: LateContext, exprs: Seq<Expr>)
    requires
        !st.found,
    ensures
        st.walk_exprs(cx, exprs, exprs.len()) == if exists|i: int|
            #![trigger exprs[i]]
            0 <= i < exprs.len() && mut_use_within(cx, exprs[i], false) {
            found_with(st, mutable_use_among(cx, exprs))
        } else {
            st
        },
    decreases exprs, exprs.len() + 1,
{
    lemma_walk_exprs_answers(st, cx, exprs, exprs.len());
    if exists|i: int|
        #![trigger exprs[i]]
        0 <= i < exprs.len() && mut_use_within(cx, exprs[i], false) {
        let at = choose|i: int|
            #![trigger exprs[i]]
            0 <= i < exprs.len() && mut_use_within(cx, exprs[i], false);
        let i = lemma_first_holder(cx, exprs, at);
    }
}

proof fn lemma_walk_exprs_answers(st: VisitState, cx: LateContext, exprs: Seq<Expr>, n: nat)
    requires
        !st.found,
        n <= exprs.len(),
    ensures
        (forall|j: int| 0 <= j < n ==> !mut_use_within(cx, #[trigger] exprs[j], false))
            ==> st.walk_exprs(cx, exprs, n) == st,
        forall|i: int|
            0 <= i < n && #[trigger] is_first_holder(cx, exprs, i) ==> st.walk_exprs(cx, exprs, n)
                == found_with(st, mutable_use(cx, exprs[i])),
    decreases exprs, n,
{
    if n > 0 {
        let before = st.walk_exprs(cx, exprs, (n - 1) as nat);
        lemma_walk_exprs_answers(st, cx, exprs, (n - 1) as nat);
        if forall|j: int| 0 <= j < n - 1 ==> !mut_use_within(cx, #[trigger] exprs[j], false) {
            lemma_visit_answers(st, cx, exprs[n - 1]);
        }
        assert forall|i: int| 0 <= i < n && #[trigger] is_first_holder(cx, exprs, i) implies
            st.walk_exprs(cx, exprs, n) == found_with(st, mutable_use(cx, exprs[i])) by {
            if i < n - 1 {
                lemma_found_is_final(before, cx, exprs[n - 1]);
            }
        }
    }
}

proof fn lemma_walk_stmts_answers(st: VisitState, cx: LateContext, stmts: Seq<Stmt>, n: nat)
    requires
        !st.found,
        n <= stmts.len(),
    ensures
        (forall|j: int| 0 <= j < n ==> !mut_use_in_stmt(cx, #[trigger] stmts[j], false))
            ==> st.walk_stmts(cx, stmts, n) == st,
        forall|i: int|
            0 <= i < n && #[trigger] is_first_holding_stmt(cx, stmts, i) ==> st.walk_stmts(
                cx,
                stmts,
                n,
            ) == found_with(st, mutable_use_in_stmt(cx, stmts[i])),
    decreases stmts, n,
{
    if n > 0 {
        let before = st.walk_stmts(cx, stmts, (n - 1) as nat);
        lemma_walk_stmts_answers(st, cx, stmts, (n - 1) as nat);
        match stmts[n - 1].kind {
            StmtKind::Local(exprs) => {
                lemma_walk_all_exprs_answers(st, cx, exprs@);
                if before.found {
                    lemma_found_is_final_exprs(before, cx, exprs@, exprs@.len());
                }
            },
            StmtKind::Item => {},
            StmtKind::Expr(e) => {
                lemma_visit_answers(st, cx, e);
                if before.found {
                    lemma_found_is_final(before, cx, e);
                }
            },
            StmtKind::Semi(e) => {
                lemma_visit_answers(st, cx, e);
                if before.found {
                    lemma_found_is_final(before, cx, e);
                }
            },
        }
    }
}

proof fn lemma_walk_arms_answers(st: VisitState, cx: LateContext, arms: Seq<Arm>, n: nat)
    requires
        !st.found,
        n <= arms.len(),
    ensures
        (forall|j: int| 0 <= j < n ==> !mut_use_in_arm(cx, #[trigger] arms[j], false))
            ==> st.walk_arms(cx, arms, n) == st,
        forall|i: int|
            0 <= i < n && #[trigger] is_first_holding_arm(cx, arms, i) ==> st.walk_arms(
                cx,
                arms,
                n,
            ) == found_with(st, mutable_use_in_arm(cx, arms[i])),
    decreases arms, n,
{
    if n > 0 {
        let before = st.walk_arms(cx, arms, (n - 1) as nat);
        let pat = arms[n - 1].pat@;
        let body = arms[n - 1].body;
        lemma_walk_arms_answers(st, cx, arms, (n - 1) as nat);
        if before.found {
            lemma_found_is_final_exprs(before, cx, pat, pat.len());
            match arms[n - 1].guard {
                Some(guard) => lemma_found_is_final(before, cx, guard),
                None => {},
            }
            lemma_found_is_final(before, cx, body);
        } else if exists|i: int| #![trigger pat[i]] 0 <= i < pat.len() && mut_use_within(
            cx,
            pat[i],
            false,
        ) {
            lemma_walk_all_exprs_answers(st, cx, pat);
            let patterned = st.walk_exprs(cx, pat, pat.len());
            match arms[n - 1].guard {
                Some(guard) => lemma_found_is_final(patterned, cx, guard),
                None => {},
            }
            lemma_found_is_final(patterned, cx, body);
        } else {
            lemma_walk_all_exprs_answers(st, cx, pat);
            match arms[n - 1].guard {
                Some(guard) => {
                    lemma_visit_answers(st, cx, guard);
                    let guarded = st.visit_expr(cx, guard);
                    if guarded.found {
                        lemma_found_is_final(guarded, cx, body);
                    } else {
                        lemma_visit_answers(st, cx, body);
                    }
                },
                None => lemma_visit_answers(st, cx, body),
            }
        }
    }
}

/// A search that starts afresh and visits an operand reports the span of
/// the innermost node that it enters and beneath which the first mutable
/// use of the operand lies.
pub proof fn lemma_search_answers(cx: LateContext, e: Expr)
    ensures
        search_result(cx, e) == mutable_use(cx, e),
{
    lemma_visit_answers(VisitState::fresh(), cx, e);
}

} // verus!
