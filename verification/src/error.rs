//! Error classification for driver operations.
//!
//! The driver never retries and never rolls back: the first failing interface
//! action aborts the whole operation.  Initialization distinguishes failures
//! of the reset line from failures of the command channel, so that callers
//! can tell a wiring problem from a bus problem; after initialization only
//! channel failures can occur.

use vstd::prelude::*;

use crate::dcs::{Action, ActionView};

verus! {

/// Runtime error of an initialized display: the command channel failed.
#[derive(Clone, Copy, PartialEq, Eq, Structural, Debug)]
pub enum Error {
    /// The command channel reported a transport failure.
    DisplayError,
}

/// Error during initialization.
#[derive(Clone, Copy, PartialEq, Eq, Structural, Debug)]
pub enum InitError {
    /// The command channel reported a transport failure.
    DisplayError,
    /// The reset line could not be driven.
    Pin,
}

/// The initialization error that classifies a failure of `action`: a failed
/// reset-line edge is a pin error, anything else a transport failure.
pub open spec fn spec_init_error_for(action: ActionView) -> InitError {
    match action {
        ActionView::ResetLow => InitError::Pin,
        ActionView::ResetHigh => InitError::Pin,
        _ => InitError::DisplayError,
    }
}

/// Executable form of `spec_init_error_for`.
pub fn init_error_for(action: &Action) -> (r: InitError)
    ensures
        r == spec_init_error_for(action@),
{
    match action {
        Action::ResetLow => InitError::Pin,
        Action::ResetHigh => InitError::Pin,
        _ => InitError::DisplayError,
    }
}

} // verus!
