//! A lint rule for debug-only assertions that mutate.
//!
//! `debug_assert!`, `debug_assert_eq!` and `debug_assert_ne!` vanish from
//! release builds. An operand that hands out a mutable reference therefore
//! makes the debug and the release build behave differently. The rule
//! recognises the expansions of the three macros in a typed syntax tree,
//! looks through their operands for a mutable borrow or a coercion to a
//! mutable reference, and reports the expression that holds it.
//!
//! The tree and what the compiler knows about it are plain data
//! ([`hir`], [`span`], [`context`]). [`walk`] says what a search of an
//! operand answers, [`visitor`] searches, [`matcher`] finds the operands
//! and [`lint`] reports. [`answer_laws`], [`search_laws`] and
//! [`rule_laws`] state what holds of all this in general.

pub mod answer_laws;
pub mod context;
pub mod hir;
pub mod lint;
pub mod matcher;
pub mod rule_laws;
pub mod search_laws;
pub mod span;
pub mod visitor;
pub mod walk;
