//! What the type checker and the expander recorded about a body.

use crate::hir::{HirId, Mutability};
use crate::span::HygieneData;
use std::collections::HashMap;
use vstd::prelude::*;

verus! {

/// The part of a type that the rule tells apart.
#[derive(Clone, Copy, Debug, PartialEq, Eq)]
pub enum TyKind {
    /// A reference, `&T` or `&mut T`.
    Ref(Mutability),
    /// A raw pointer, `*const T` or `*mut T`.
    RawPtr(Mutability),
    /// Any other type.
    Other,
}

/// An implicit coercion that the type checker applied to an expression: the
/// type that the value has afterwards.
#[derive(Clone, Copy, Debug, PartialEq, Eq)]
pub struct Adjustment {
    pub target: TyKind,
}

/// The results of type checking, by node.
#[derive(Debug)]
pub struct TypeckTables {
    /// The coercions applied to each expression, innermost first. A node
    /// without coercions has no entry.
    pub adjustments: HashMap<u32, Vec<Adjustment>>,
}

/// What a lint pass may consult while it walks a body.
#[derive(Debug)]
pub struct LateContext {
    pub tables: TypeckTables,
    pub hygiene: HygieneData,
}

impl Adjustment {
    /// The coercion yields a mutable reference.
    pub open spec fn spec_targets_mut_ref(self) -> bool {
        self.target == TyKind::Ref(Mutability::Mut)
    }

    /// Tells whether the coercion yields a mutable reference.
    #[verifier::when_used_as_spec(spec_targets_mut_ref)]
    pub fn targets_mut_ref(self) -> (r: bool)
        ensures
            r == self.spec_targets_mut_ref(),
    {
        matches!(self.target, TyKind::Ref(Mutability::Mut))
    }
}

impl TypeckTables {
    /// The coercions recorded for the node `id`; none where it has no entry.
    pub open spec fn adjustments_of(self, id: HirId) -> Seq<Adjustment> {
        if self.adjustments@.contains_key(id.0) {
            self.adjustments@[id.0]@
        } else {
            Seq::empty()
        }
    }

    /// Some coercion recorded for the node `id` yields a mutable reference.
    pub open spec fn spec_coerces_to_mut_ref(self, id: HirId) -> bool {
        exists|i: int|
            0 <= i < self.adjustments_of(id).len() && (
            #[trigger] self.adjustments_of(id)[i]).spec_targets_mut_ref()
    }

    /// Tells whether some coercion recorded for the node `id` yields a
    /// mutable reference.
    pub fn coerces_to_mut_ref(&self, id: HirId) -> (r: bool)
        ensures
            r == self.spec_coerces_to_mut_ref(id),
    {
        broadcast use vstd::std_specs::hash::group_hash_axioms;

        match self.adjustments.get(&id.0) {
            Some(adjustments) => {
                let mut i: usize = 0;
                while i < adjustments.len()
                    invariant
                        i <= adjustments.len(),
                        adjustments@ == self.adjustments_of(id),
                        forall|j: int|
                            0 <= j < i ==> !(#[trigger] adjustments@[j]).spec_targets_mut_ref(),
                    decreases adjustments.len() - i,
                {
                    if adjustments[i].targets_mut_ref() {
                        return true;
                    }
                    i += 1;
                }
                false
            },
            None => false,
        }
    }
}

} // verus!
