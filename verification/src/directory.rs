//! The player directory's outcome classification. Looking a player up by
//! its identity has three outcomes: the player is there, the player is not
//! running — a normal, expected result, not an error — or the control
//! surface transport itself is unreachable, which is fatal.

use vstd::prelude::*;

use crate::errors::FatalError;

verus! {

/// What a lookup of a player identity reported.
#[derive(Clone, Copy, Debug, PartialEq, Eq, Structural)]
pub enum FindOutcome {
    /// A live player with that identity was found.
    Found,
    /// No player with that identity is currently running.
    NotFound,
    /// The control surface transport could not be contacted at all.
    TransportFailure,
}

/// Classify a lookup outcome: `Ok(true)` for a found player, `Ok(false)`
/// for an absent one — absence is a normal outcome the caller keeps polling
/// through — and a fatal error exactly when the transport itself was
/// unreachable, which must terminate the process rather than be mistaken
/// for absence.
pub fn resolve_lookup(outcome: FindOutcome) -> (r: Result<bool, FatalError>)
    ensures
        r == Ok::<bool, FatalError>(true) <==> outcome == FindOutcome::Found,
        r == Ok::<bool, FatalError>(false) <==> outcome == FindOutcome::NotFound,
        r is Err <==> outcome == FindOutcome::TransportFailure,
        r is Err ==> r == Err::<bool, FatalError>(FatalError::TransportUnreachable),
{
    match outcome {
        FindOutcome::Found => Ok(true),
        FindOutcome::NotFound => Ok(false),
        FindOutcome::TransportFailure => Err(FatalError::TransportUnreachable),
    }
}

} // verus!
