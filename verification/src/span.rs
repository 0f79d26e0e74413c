//! Source spans and the expansions that produced them.

use std::collections::HashMap;
use vstd::prelude::*;

verus! {

/// The syntax context of code that was written by hand.
pub const ROOT_CTXT: u32 = 0;

/// A stretch of source text, `lo..hi` in bytes, and the syntax context in
/// which it came to be.
#[derive(Clone, Copy, Debug, PartialEq, Eq, Hash)]
pub struct Span {
    pub lo: u32,
    pub hi: u32,
    pub ctxt: u32,
}

/// What gave rise to an expansion.
#[derive(Debug, PartialEq, Eq)]
pub enum ExpnKind {
    /// No expansion at all.
    Root,
    /// The invocation of the macro of this name.
    Macro(String),
    /// A pass of the compiler that adds code of its own.
    AstPass,
    /// The lowering of a construct such as `for`, `?` or `.await`.
    Desugaring,
}

/// One expansion: its kind and the place that asked for it.
#[derive(Debug, PartialEq, Eq)]
pub struct ExpnData {
    pub kind: ExpnKind,
    pub call_site: Span,
}

/// The outermost expansion of each syntax context.
#[derive(Debug)]
pub struct HygieneData {
    pub expansions: HashMap<u32, ExpnData>,
}

impl Span {
    /// The span came out of some expansion.
    pub open spec fn spec_from_expansion(self) -> bool {
        self.ctxt != ROOT_CTXT
    }

    /// Tells whether the span came out of some expansion.
    #[verifier::when_used_as_spec(spec_from_expansion)]
    pub fn from_expansion(self) -> (r: bool)
        ensures
            r == self.spec_from_expansion(),
    {
        self.ctxt != ROOT_CTXT
    }
}

impl HygieneData {
    /// The expansion recorded for `ctxt`, if there is one.
    pub open spec fn spec_outer_expn_data(self, ctxt: u32) -> Option<ExpnData> {
        if self.expansions@.contains_key(ctxt) {
            Some(self.expansions@[ctxt])
        } else {
            None
        }
    }

    /// Looks up the expansion recorded for `ctxt`.
    pub fn outer_expn_data(&self, ctxt: u32) -> (r: Option<&ExpnData>)
        ensures
            r == match self.spec_outer_expn_data(ctxt) {
                Some(data) => Some(&data),
                None => None,
            },
    {
        broadcast use vstd::std_specs::hash::group_hash_axioms;

        self.expansions.get(&ctxt)
    }

    /// The call site of the invocation of the macro called `name`, if `span`
    /// is a direct expansion of that macro.
    pub open spec fn direct_expansion_of(self, span: Span, name: Seq<char>) -> Option<Span> {
        if !span.spec_from_expansion() {
            None
        } else {
            match self.spec_outer_expn_data(span.ctxt) {
                Some(data) => match data.kind {
                    ExpnKind::Macro(mac_name) => if mac_name@ == name {
                        Some(data.call_site)
                    } else {
                        None
                    },
                    _ => None,
                },
                None => None,
            }
        }
    }
}

/// Compares a macro's recorded name with a name given as a string slice.
fn same_name(mac_name: &String, name: &str) -> (r: bool)
    ensures
        r == (mac_name@ == name@),
{
    let owned = name.to_owned();
    *mac_name == owned
}

/// Returns the call site of the macro called `name` if `span` is a direct
/// expansion of it: the span stems from an expansion, and the outermost one
/// is an invocation of a macro of exactly that name.
pub fn is_direct_expn_of(hygiene: &HygieneData, span: Span, name: &str) -> (r: Option<Span>)
    ensures
        r == hygiene.direct_expansion_of(span, name@),
{
    if span.from_expansion() {
        match hygiene.outer_expn_data(span.ctxt) {
            Some(data) => match &data.kind {
                ExpnKind::Macro(mac_name) => if same_name(mac_name, name) {
                    Some(data.call_site)
                } else {
                    None
                },
                _ => None,
            },
            None => None,
        }
    } else {
        None
    }
}

} // verus!
