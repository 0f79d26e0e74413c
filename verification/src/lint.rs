//! The rule: which nodes it looks at, and what it reports.

use crate::context::LateContext;
use crate::hir::Expr;
use crate::matcher::{extract_call, spec_extract_call};
use crate::rule_laws::lemma_at_most_one_finding;
use crate::span::{is_direct_expn_of, Span};
use vstd::prelude::*;

verus! {

/// The three assertion macros that are compiled only into debug builds.
#[derive(Clone, Copy, Debug, PartialEq, Eq)]
pub enum DebugMacro {
    /// `debug_assert!`
    Assert,
    /// `debug_assert_eq!`
    AssertEq,
    /// `debug_assert_ne!`
    AssertNe,
}

/// The message of a finding inside the macro called `name`.
pub open spec fn message_inside(name: Seq<char>) -> Seq<char> {
    "do not call a function with mutable arguments inside of `"@ + name + "!`"@
}

impl DebugMacro {
    /// The name under which the macro is invoked, without the `!`.
    pub open spec fn spec_name(self) -> Seq<char> {
        match self {
            DebugMacro::Assert => "debug_assert"@,
            DebugMacro::AssertEq => "debug_assert_eq"@,
            DebugMacro::AssertNe => "debug_assert_ne"@,
        }
    }

    /// The name under which the macro is invoked, without the `!`.
    pub fn name(self) -> (name: &'static str)
        ensures
            name@ == self.spec_name(),
    {
        match self {
            DebugMacro::Assert => "debug_assert",
            DebugMacro::AssertEq => "debug_assert_eq",
            DebugMacro::AssertNe => "debug_assert_ne",
        }
    }

    /// The message of a finding inside this macro.
    pub fn message(self) -> (message: String)
        ensures
            message@ == message_inside(self.spec_name()),
    {
        proof {
            reveal_strlit("do not call a function with mutable arguments inside of `");
            reveal_strlit("!`");
        }
        match self {
            DebugMacro::Assert => {
                let message =
                    "do not call a function with mutable arguments inside of `debug_assert!`";
                proof {
                    reveal_strlit("debug_assert");
                    reveal_strlit(
                        "do not call a function with mutable arguments inside of `debug_assert!`",
                    );
                    assert(message@ =~= message_inside("debug_assert"@));
                }
                message.to_owned()
            },
            DebugMacro::AssertEq => {
                let message =
                    "do not call a function with mutable arguments inside of `debug_assert_eq!`";
                proof {
                    reveal_strlit("debug_assert_eq");
                    reveal_strlit(
                        "do not call a function with mutable arguments inside of `debug_assert_eq!`",
                    );
                    assert(message@ =~= message_inside("debug_assert_eq"@));
                }
                message.to_owned()
            },
            DebugMacro::AssertNe => {
                let message =
                    "do not call a function with mutable arguments inside of `debug_assert_ne!`";
                proof {
                    reveal_strlit("debug_assert_ne");
                    reveal_strlit(
                        "do not call a function with mutable arguments inside of `debug_assert_ne!`",
                    );
                    assert(message@ =~= message_inside("debug_assert_ne"@));
                }
                message.to_owned()
            },
        }
    }
}

/// One diagnostic: what to say, and where.
#[derive(Debug, PartialEq, Eq)]
pub struct Finding {
    pub span: Span,
    pub message: String,
}

/// A finding with its message as a sequence of characters.
pub struct FindingView {
    pub span: Span,
    pub message: Seq<char>,
}

impl View for Finding {
    type V = FindingView;

    open spec fn view(&self) -> FindingView {
        FindingView { span: self.span, message: self.message@ }
    }
}

/// The findings of a list, each by its view.
pub open spec fn views(findings: Seq<Finding>) -> Seq<FindingView> {
    findings.map_values(|f: Finding| f@)
}

/// What the rule reports for the node `e` on account of the macro `mac`:
/// nothing unless `e` is a direct expansion of `mac`; then one finding if
/// the matcher returns a span, at that span and with the message that
/// names `mac`.
pub open spec fn finding_for(cx: LateContext, e: Expr, mac: DebugMacro) -> Seq<FindingView> {
    if cx.hygiene.direct_expansion_of(e.span, mac.spec_name()) is Some {
        match spec_extract_call(cx, e) {
            Some(span) => seq![FindingView { span, message: message_inside(mac.spec_name()) }],
            None => Seq::empty(),
        }
    } else {
        Seq::empty()
    }
}

/// What the rule reports for the node `e`: what it reports on account of
/// `debug_assert`, of `debug_assert_eq` and of `debug_assert_ne`, in this
/// order.
pub open spec fn findings_for(cx: LateContext, e: Expr) -> Seq<FindingView> {
    finding_for(cx, e, DebugMacro::Assert) + finding_for(cx, e, DebugMacro::AssertEq)
        + finding_for(cx, e, DebugMacro::AssertNe)
}

/// The lint pass.
pub struct DebugAssertWithMutCall;

impl DebugAssertWithMutCall {
    /// Adds to `findings` what the rule reports for `e` on account of
    /// `mac`.
    fn check_macro(cx: &LateContext, e: &Expr, mac: DebugMacro, findings: &mut Vec<Finding>)
        ensures
            views(final(findings)@) == views(old(findings)@) + finding_for(*cx, *e, mac),
    {
        if is_direct_expn_of(&cx.hygiene, e.span, mac.name()).is_some() {
            if let Some(span) = extract_call(cx, e) {
                findings.push(Finding { span, message: mac.message() });
            }
        }
        assert(views(findings@) =~= views(old(findings)@) + finding_for(*cx, *e, mac));
    }

    /// Checks one node of the tree and returns what there is to report,
    /// in the order in which it is to be reported: nothing, or one
    /// finding.
    pub fn check_expr(&mut self, cx: &LateContext, e: &Expr) -> (findings: Vec<Finding>)
        ensures
            views(findings@) == findings_for(*cx, *e),
            findings@.len() <= 1,
    {
        let mut findings: Vec<Finding> = Vec::new();
        Self::check_macro(cx, e, DebugMacro::Assert, &mut findings);
        Self::check_macro(cx, e, DebugMacro::AssertEq, &mut findings);
        Self::check_macro(cx, e, DebugMacro::AssertNe, &mut findings);
        proof {
            assert(views(findings@) =~= findings_for(*cx, *e));
            assert(views(findings@).len() == findings@.len());
            lemma_at_most_one_finding(*cx, *e);
        }
        findings
    }
}

} // verus!
