//! Errors surfaced by contract compilation.
//!
//! Compilation aborts atomically on the first terminal error; no partial
//! artifact is ever returned.
use vstd::prelude::*;

verus! {

/// The ways a compilation can fail.
#[derive(Debug)]
pub enum CompilationError {
    /// A sibling path segment was derived twice under the same parent.
    DuplicatePathSegment,
    /// A conditional-compile predicate rejected the transition with the
    /// collected diagnostic messages, and the branch turned out non-empty.
    ConditionalCompilationFailed(Vec<String>),
    /// A required transition produced zero transaction templates.
    MissingTemplates,
    /// A template's outputs commit more than the amount type can hold.
    TemplateAmountOverflow,
    /// A transition produced templates although its guard can never be
    /// satisfied; such a branch should have been excluded through its
    /// conditional-compile predicate instead.
    UnsatisfiableGuardWithTemplates,
    /// A non-commitment-gated template would need guards beyond what was
    /// first recorded for its hash.
    AdditionalGuardsNotAllowedHere,
    /// A guard function requested its own cache entry while it was being
    /// computed.
    RecursiveGuardInvocation,
    /// The policy expression could not be lowered to a script fragment.
    PolicyCompilationFailed(String),
    /// A commitment-gated template declared a minimum fee rate that the
    /// available fees cannot satisfy at the estimated transaction size.
    MinFeerateError,
    /// The commitment-condition oracle failed to answer.
    EmulatorFailure(String),
}

} // verus!
