use vstd::prelude::*;

verus! {

/// Why an element-level action was refused or failed.
#[derive(Clone, Copy, PartialEq, Eq, Structural, Debug)]
pub enum InteractionFault {
    /// The handle was minted against an earlier page generation, or its
    /// owning session is closed: the remote node reference is not trusted
    /// and no remote call is attempted.
    StaleReference,
    /// The endpoint rejected the action (element not interactable,
    /// obscured, or detached on the remote side).
    ActionFailed,
}

/// The error taxonomy of the library.
///
/// Every fallible operation says in its contract exactly which of these it
/// returns, and on which inputs.
#[derive(Clone, Copy, PartialEq, Eq, Structural, Debug)]
pub enum Error {
    /// The endpoint was unreachable or rejected the connection, or an
    /// operation was attempted against a released connection.
    Connection,
    /// A page load (including the initial one during session creation)
    /// failed.
    Navigation,
    /// A locator matched no element at the instant of the query.
    NotFound,
    /// An action against a resolved element failed.
    Interaction(InteractionFault),
    /// A poll-based wait exhausted its budget; carries the duration that
    /// makes the expiry diagnosable (the configured timeout for an
    /// element-local wait, the accumulated elapsed time for the general
    /// poll primitive).
    Timeout(u64),
    /// The endpoint's scripting capability failed.
    Script,
}

} // verus!
