//! Errors and target checks of the software equalizer chain.
//!
//! The equalizer's filter design works in floating point and is not part of
//! this library; what it holds of the equalizer chain is its error type and
//! the check of the PipeWire node the chain targets.

use vstd::prelude::*;

use crate::effects_chain::{bad_target_text, is_valid_target_node, EffectsChainError};

verus! {

/// A failed or refused software EQ operation.
#[derive(Clone, Debug, Eq, PartialEq)]
pub enum EqChainError {
    /// A file operation failed; the text is its message.
    Io(String),
    Invalid(String),
}

/// The text a user sees for a software EQ error.
pub open spec fn eq_error_text(e: EqChainError) -> Seq<char> {
    match e {
        EqChainError::Io(m) => m@,
        EqChainError::Invalid(m) => m@,
    }
}

impl EqChainError {
    /// The text a user sees for this error.
    pub fn message(&self) -> (r: String)
        ensures
            r@ == eq_error_text(*self),
    {
        match self {
            EqChainError::Io(m) => m.clone(),
            EqChainError::Invalid(m) => m.clone(),
        }
    }
}

/// Refuses a PipeWire target node name that is empty or holds anything but
/// ASCII letters, digits, `.`, `_` and `-`, so it cannot inject
/// configuration into the generated graph.
pub fn validate_target_node(target_node: &str) -> (r: Result<(), EqChainError>)
    ensures
        r is Ok <==> is_valid_target_node(target_node@),
        r matches Err(e) ==> e == EqChainError::Invalid(e->Invalid_0) && e->Invalid_0@
            == bad_target_text(target_node@),
{
    match crate::effects_chain::validate_target_node(target_node) {
        Ok(()) => Ok(()),
        Err(EffectsChainError::Invalid(m)) => Err(EqChainError::Invalid(m)),
        Err(EffectsChainError::Io(m)) => Err(EqChainError::Invalid(m)),
    }
}

} // verus!
