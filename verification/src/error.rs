//! Errors surfaced while a plan is being constructed.

use vstd::prelude::*;

verus! {

/// Spec-level image of a [`PlanError`]: the same variants over `Seq<char>`.
pub enum ErrorV {
    /// A referenced column is not present in the schema at hand.
    NotFound(Seq<char>),
    /// A caller handed an expression of the wrong shape.
    InvalidArgument(Seq<char>),
    /// An expression has no well-defined result in the place it stands.
    InvalidOperation(Seq<char>),
}

/// A construction or derivation error.  Plan construction never retries and
/// never recovers locally: the plan is either well-formed at build time or
/// rejected with one of these.
#[derive(Debug)]
pub enum PlanError {
    /// A referenced column is not present in the schema at hand.
    NotFound(String),
    /// A caller handed an expression of the wrong shape.
    InvalidArgument(String),
    /// An expression has no well-defined result in the place it stands.
    InvalidOperation(String),
}

impl View for PlanError {
    type V = ErrorV;

    open spec fn view(&self) -> ErrorV {
        match self {
            PlanError::NotFound(s) => ErrorV::NotFound(s@),
            PlanError::InvalidArgument(s) => ErrorV::InvalidArgument(s@),
            PlanError::InvalidOperation(s) => ErrorV::InvalidOperation(s@),
        }
    }
}

impl PlanError {
    /// The message carried by the error.
    pub fn message(&self) -> (r: &String)
        ensures
            r@ == self.spec_message(),
    {
        match self {
            PlanError::NotFound(s) => s,
            PlanError::InvalidArgument(s) => s,
            PlanError::InvalidOperation(s) => s,
        }
    }

    /// The message carried by the error, at the spec level.
    pub open spec fn spec_message(&self) -> Seq<char> {
        match self@ {
            ErrorV::NotFound(s) => s,
            ErrorV::InvalidArgument(s) => s,
            ErrorV::InvalidOperation(s) => s,
        }
    }
}

} // verus!
