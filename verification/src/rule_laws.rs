//! What holds of the rule as a whole.

use crate::context::LateContext;
use crate::hir::{Expr, ExprKind};
use crate::lint::{finding_for, findings_for, message_inside, views, DebugMacro, Finding, FindingView};
use crate::matcher::{
    spec_borrowed_operand, spec_compared_pair, spec_extract_call, spec_negated_condition,
    spec_sole_semi_stmt,
};
use crate::search_laws::{
    lemma_answer_exists_iff, lemma_call_with_mutable_argument, lemma_clean_operand_has_no_answer,
    lemma_uses_behind_await_have_no_answer,
};
use crate::walk::{
    is_entered, is_first_holder, is_mut_use, mut_use_beneath, mut_use_within, mutable_use,
};
use vstd::prelude::*;

verus! {

/// `e` is `{ match DropTemps(!condition) { .. }; }`, what `debug_assert!`
/// expands to.
pub open spec fn is_boolean_form(e: Expr, condition: Expr) -> bool {
    spec_sole_semi_stmt(e) matches Some(matchexpr) && spec_negated_condition(matchexpr) == Some(
        condition,
    )
}

/// `e` is `{ { match (&left, &right) { .. } }; }`, what `debug_assert_eq!`
/// and `debug_assert_ne!` expand to.
pub open spec fn is_comparison_form(e: Expr, left: Expr, right: Expr) -> bool {
    spec_sole_semi_stmt(e) matches Some(matchexpr) && spec_compared_pair(matchexpr) matches Some(
        (a, b),
    ) && spec_borrowed_operand(a) == Some(left) && spec_borrowed_operand(b) == Some(right)
}

/// No two of the three macros share a name.
pub proof fn lemma_names_differ(a: DebugMacro, b: DebugMacro)
    requires
        a != b,
    ensures
        a.spec_name() != b.spec_name(),
{
    reveal_strlit("debug_assert");
    reveal_strlit("debug_assert_eq");
    reveal_strlit("debug_assert_ne");
    assert("debug_assert"@.len() == 12);
    assert("debug_assert_eq"@.len() == 15);
    assert("debug_assert_eq"@[13] == 'e');
    assert("debug_assert_ne"@[13] == 'n');
}

/// A node that is a direct expansion of one of the three macros is
/// reported on account of that macro alone: once, at the span that the
/// matcher returns and with the message that names the macro, or not at
/// all if the matcher returns none.
pub proof fn lemma_expansion_is_reported_once(cx: LateContext, e: Expr, mac: DebugMacro)
    requires
        cx.hygiene.direct_expansion_of(e.span, mac.spec_name()) is Some,
    ensures
        findings_for(cx, e) == match spec_extract_call(cx, e) {
            Some(span) => seq![FindingView { span, message: message_inside(mac.spec_name()) }],
            None => Seq::empty(),
        },
{
    if mac != DebugMacro::Assert {
        lemma_names_differ(mac, DebugMacro::Assert);
    }
    if mac != DebugMacro::AssertEq {
        lemma_names_differ(mac, DebugMacro::AssertEq);
    }
    if mac != DebugMacro::AssertNe {
        lemma_names_differ(mac, DebugMacro::AssertNe);
    }
    assert(findings_for(cx, e) =~= finding_for(cx, e, mac));
}

/// No node is reported more than once.
pub proof fn lemma_at_most_one_finding(cx: LateContext, e: Expr)
    ensures
        findings_for(cx, e).len() <= 1,
{
    if cx.hygiene.direct_expansion_of(e.span, DebugMacro::Assert.spec_name()) is Some {
        lemma_expansion_is_reported_once(cx, e, DebugMacro::Assert);
    } else if cx.hygiene.direct_expansion_of(e.span, DebugMacro::AssertEq.spec_name()) is Some {
        lemma_expansion_is_reported_once(cx, e, DebugMacro::AssertEq);
    } else if cx.hygiene.direct_expansion_of(e.span, DebugMacro::AssertNe.spec_name()) is Some {
        lemma_expansion_is_reported_once(cx, e, DebugMacro::AssertNe);
    }
}

/// A node that is not a direct expansion of one of the three macros is
/// not reported, whatever its shape and whatever lies in it.
pub proof fn lemma_other_nodes_are_not_reported(cx: LateContext, e: Expr)
    requires
        forall|mac: DebugMacro|
            (#[trigger] cx.hygiene.direct_expansion_of(e.span, mac.spec_name())) is None,
    ensures
        findings_for(cx, e) == Seq::<FindingView>::empty(),
{
    assert(cx.hygiene.direct_expansion_of(e.span, DebugMacro::Assert.spec_name()) is None);
    assert(cx.hygiene.direct_expansion_of(e.span, DebugMacro::AssertEq.spec_name()) is None);
    assert(cx.hygiene.direct_expansion_of(e.span, DebugMacro::AssertNe.spec_name()) is None);
    assert(findings_for(cx, e) =~= Seq::<FindingView>::empty());
}

/// In the boolean form the span to report is the answer of the search of
/// the condition.
pub proof fn lemma_boolean_form_searches_condition(cx: LateContext, e: Expr, condition: Expr)
    requires
        is_boolean_form(e, condition),
    ensures
        spec_extract_call(cx, e) == mutable_use(cx, condition),
{
}

/// In a comparison the left operand is searched first, and the right one
/// counts only where the left one has no answer. Each side has a search
/// of its own: what the right one answers does not depend on the left.
pub proof fn lemma_left_operand_comes_first(cx: LateContext, e: Expr, left: Expr, right: Expr)
    requires
        is_comparison_form(e, left, right),
    ensures
        spec_extract_call(cx, e) == match mutable_use(cx, left) {
            Some(span) => Some(span),
            None => mutable_use(cx, right),
        },
{
}

/// `e` is `callee(args)` with `args[k]` a mutable use, and no mutable use
/// lies in the callee or in an argument before it: `f(&mut x)`,
/// `f(1, &mut x)`, `f(g(y), &mut x)`.
pub open spec fn is_call_with_mutable_argument(cx: LateContext, e: Expr, k: int) -> bool {
    e.kind matches ExprKind::Call(callee, args) && !mut_use_within(cx, *callee, false)
        && is_first_holder(cx, args@, k) && is_mut_use(cx, args@[k])
}

/// An assertion of any of the three macros whose condition, or whose left
/// operand, is a call with a mutable argument is reported once, at the
/// call and with the message that names the macro.
pub proof fn lemma_mutable_call_is_reported_at_the_call(
    cx: LateContext,
    e: Expr,
    mac: DebugMacro,
    call: Expr,
    right: Expr,
    k: int,
)
    requires
        cx.hygiene.direct_expansion_of(e.span, mac.spec_name()) is Some,
        is_boolean_form(e, call) || is_comparison_form(e, call, right),
        is_call_with_mutable_argument(cx, call, k),
    ensures
        findings_for(cx, e) == seq![
            FindingView { span: call.span, message: message_inside(mac.spec_name()) },
        ],
{
    lemma_call_with_mutable_argument(cx, call, k);
    lemma_expansion_is_reported_once(cx, e, mac);
}

/// A comparison whose left operand has no answer is reported for its
/// right operand.
pub proof fn lemma_right_operand_is_reported_after_clean_left(
    cx: LateContext,
    e: Expr,
    mac: DebugMacro,
    left: Expr,
    right: Expr,
)
    requires
        cx.hygiene.direct_expansion_of(e.span, mac.spec_name()) is Some,
        is_comparison_form(e, left, right),
        mutable_use(cx, left) is None,
    ensures
        findings_for(cx, e) == match mutable_use(cx, right) {
            Some(span) => seq![FindingView { span, message: message_inside(mac.spec_name()) }],
            None => Seq::empty(),
        },
{
    lemma_expansion_is_reported_once(cx, e, mac);
}

/// A comparison whose left operand has an answer is reported for it alone,
/// whatever the right operand holds.
pub proof fn lemma_left_operand_alone_is_reported(
    cx: LateContext,
    e: Expr,
    mac: DebugMacro,
    left: Expr,
    right: Expr,
)
    requires
        cx.hygiene.direct_expansion_of(e.span, mac.spec_name()) is Some,
        is_comparison_form(e, left, right),
        mutable_use(cx, left) is Some,
    ensures
        findings_for(cx, e) == seq![
            FindingView {
                span: mutable_use(cx, left).unwrap(),
                message: message_inside(mac.spec_name()),
            },
        ],
{
    lemma_expansion_is_reported_once(cx, e, mac);
}

/// A boolean assertion is reported exactly if a search enters its
/// condition and a mutable use lies beneath it, outside of what an `.await`
/// was lowered to. A name that is coerced to a mutable reference is such a
/// use, with no borrow in sight.
pub proof fn lemma_boolean_assertion_is_reported_iff(
    cx: LateContext,
    e: Expr,
    mac: DebugMacro,
    condition: Expr,
)
    requires
        cx.hygiene.direct_expansion_of(e.span, mac.spec_name()) is Some,
        is_boolean_form(e, condition),
    ensures
        findings_for(cx, e).len() == if is_entered(condition) && mut_use_beneath(
            cx,
            condition,
            false,
        ) {
            1nat
        } else {
            0nat
        },
{
    lemma_answer_exists_iff(cx, condition);
    lemma_expansion_is_reported_once(cx, e, mac);
}

/// A boolean assertion whose condition holds no mutable borrow and no
/// name coerced to a mutable reference is not reported.
pub proof fn lemma_clean_condition_is_not_reported(cx: LateContext, e: Expr, condition: Expr)
    requires
        is_boolean_form(e, condition),
        !mut_use_within(cx, condition, true),
    ensures
        findings_for(cx, e) == Seq::<FindingView>::empty(),
{
    lemma_clean_operand_has_no_answer(cx, condition);
    assert(findings_for(cx, e) =~= Seq::<FindingView>::empty());
}

/// A boolean assertion whose condition holds mutable uses only in what an
/// `.await` was lowered to is not reported.
pub proof fn lemma_awaited_condition_is_not_reported(cx: LateContext, e: Expr, condition: Expr)
    requires
        is_boolean_form(e, condition),
        !mut_use_within(cx, condition, false),
    ensures
        findings_for(cx, e) == Seq::<FindingView>::empty(),
{
    lemma_uses_behind_await_have_no_answer(cx, condition);
    assert(findings_for(cx, e) =~= Seq::<FindingView>::empty());
}

/// Two checks of one node in one context report the same.
pub proof fn lemma_check_is_repeatable(
    cx: LateContext,
    e: Expr,
    first: Seq<Finding>,
    second: Seq<Finding>,
)
    requires
        views(first) == findings_for(cx, e),
        views(second) == findings_for(cx, e),
    ensures
        views(first) == views(second),
        first.len() == second.len(),
        forall|i: int|
            0 <= i < first.len() ==> (#[trigger] first[i]).span == second[i].span && first[i].message@
                == second[i].message@,
{
    assert(views(first).len() == first.len());
    assert(views(second).len() == second.len());
    assert forall|i: int| 0 <= i < first.len() implies (#[trigger] first[i]).span
        == second[i].span && first[i].message@ == second[i].message@ by {
        assert(views(first)[i] == first[i]@);
        assert(views(second)[i] == second[i]@);
    }
}

} // verus!
