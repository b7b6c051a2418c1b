use vstd::prelude::*;

use crate::errors::Error;
use crate::errors::InteractionFault;
use crate::session::BrowserSession;

verus! {

/// A reference to one resolved DOM node.
///
/// The remote node reference itself lives in the unverified shell; this type
/// carries what the validity rule needs: the page generation of the owning
/// session at the moment the handle was minted. A handle is valid only while
/// that session is open and still on the same generation — remote node
/// references do not survive a page replacement. Every operation checks
/// validity first and fails with a stale-reference error before any remote
/// call would be attempted; an operation on a valid handle can still fail on
/// the remote side, which the `remote` arguments report.
#[derive(Clone, Copy, PartialEq, Eq, Structural, Debug)]
pub struct WebElement {
    generation: u64,
}

/// The two independently computed notions of element visibility that the
/// endpoint offers. They can disagree; callers pick one explicitly rather
/// than treating them as interchangeable.
#[derive(Clone, Copy, PartialEq, Eq, Structural, Debug)]
pub enum VisibilityStrategy {
    /// The endpoint's own "displayed" capability.
    NativeFlag,
    /// A remote-script test that the rendered bounding box is non-empty.
    BoundingBoxHeuristic,
}

impl WebElement {
    /// The page generation of the owning session when this handle was
    /// minted.
    pub closed spec fn page_generation(self) -> u64 {
        self.generation
    }

    /// A handle is valid exactly while its owning session is open and has
    /// not navigated since the handle was minted.
    pub open spec fn valid_for(self, session: BrowserSession) -> bool {
        session.is_open() && self.page_generation() == session.page_generation()
    }

    /// Mints a handle tagged with the given page generation; only session
    /// resolution uses this.
    pub(crate) fn minted_for(generation: u64) -> (h: WebElement)
        ensures
            h.page_generation() == generation,
    {
        WebElement { generation }
    }

    /// Executable mirror of `valid_for`, for callers outside verified code.
    pub fn check_valid(&self, session: &BrowserSession) -> (b: bool)
        ensures
            b == self.valid_for(*session),
    {
        session.currently_open() && self.generation == session.generation_now()
    }

    /// Dispatches a click at the element's remote position. `remote_ok`
    /// reports whether the endpoint performed it; a stale handle fails
    /// before the remote side is consulted.
    pub fn click(&self, session: &BrowserSession, remote_ok: bool) -> (r: Result<(), Error>)
        ensures
            !self.valid_for(*session) ==> r == Err::<(), Error>(
                Error::Interaction(InteractionFault::StaleReference),
            ),
            self.valid_for(*session) && remote_ok ==> r == Ok::<(), Error>(()),
            self.valid_for(*session) && !remote_ok ==> r == Err::<(), Error>(
                Error::Interaction(InteractionFault::ActionFailed),
            ),
    {
        if !self.check_valid(session) {
            Err(Error::Interaction(InteractionFault::StaleReference))
        } else if remote_ok {
            Ok(())
        } else {
            Err(Error::Interaction(InteractionFault::ActionFailed))
        }
    }

    /// Sends `text` as a literal key sequence, without clearing existing
    /// content first.
    pub fn type_text(&self, session: &BrowserSession, text: &str, remote_ok: bool) -> (r: Result<
        (),
        Error,
    >)
        ensures
            !self.valid_for(*session) ==> r == Err::<(), Error>(
                Error::Interaction(InteractionFault::StaleReference),
            ),
            self.valid_for(*session) && remote_ok ==> r == Ok::<(), Error>(()),
            self.valid_for(*session) && !remote_ok ==> r == Err::<(), Error>(
                Error::Interaction(InteractionFault::ActionFailed),
            ),
    {
        let _ = text;
        if !self.check_valid(session) {
            Err(Error::Interaction(InteractionFault::StaleReference))
        } else if remote_ok {
            Ok(())
        } else {
            Err(Error::Interaction(InteractionFault::ActionFailed))
        }
    }

    /// Low-level key dispatch for raw key sequences; same contract shape as
    /// `type_text`.
    pub fn send_keys(&self, session: &BrowserSession, keys: &str, remote_ok: bool) -> (r: Result<
        (),
        Error,
    >)
        ensures
            !self.valid_for(*session) ==> r == Err::<(), Error>(
                Error::Interaction(InteractionFault::StaleReference),
            ),
            self.valid_for(*session) && remote_ok ==> r == Ok::<(), Error>(()),
            self.valid_for(*session) && !remote_ok ==> r == Err::<(), Error>(
                Error::Interaction(InteractionFault::ActionFailed),
            ),
    {
        let _ = keys;
        if !self.check_valid(session) {
            Err(Error::Interaction(InteractionFault::StaleReference))
        } else if remote_ok {
            Ok(())
        } else {
            Err(Error::Interaction(InteractionFault::ActionFailed))
        }
    }

    /// Clears the input's existing value.
    pub fn clear(&self, session: &BrowserSession, remote_ok: bool) -> (r: Result<(), Error>)
        ensures
            !self.valid_for(*session) ==> r == Err::<(), Error>(
                Error::Interaction(InteractionFault::StaleReference),
            ),
            self.valid_for(*session) && remote_ok ==> r == Ok::<(), Error>(()),
            self.valid_for(*session) && !remote_ok ==> r == Err::<(), Error>(
                Error::Interaction(InteractionFault::ActionFailed),
            ),
    {
        if !self.check_valid(session) {
            Err(Error::Interaction(InteractionFault::StaleReference))
        } else if remote_ok {
            Ok(())
        } else {
            Err(Error::Interaction(InteractionFault::ActionFailed))
        }
    }

    /// Returns the rendered text content exactly as the endpoint reported
    /// it; a node without text yields the empty string on the remote side,
    /// and that empty string is passed through verbatim. `remote_text` is
    /// `None` when the remote call itself failed.
    pub fn get_text(&self, session: &BrowserSession, remote_text: Option<String>) -> (r: Result<
        String,
        Error,
    >)
        ensures
            !self.valid_for(*session) ==> r == Err::<String, Error>(
                Error::Interaction(InteractionFault::StaleReference),
            ),
            self.valid_for(*session) ==> r == (match remote_text {
                Some(t) => Ok::<String, Error>(t),
                None => Err::<String, Error>(Error::Interaction(InteractionFault::ActionFailed)),
            }),
    {
        if !self.check_valid(session) {
            Err(Error::Interaction(InteractionFault::StaleReference))
        } else {
            match remote_text {
                Some(t) => Ok(t),
                None => Err(Error::Interaction(InteractionFault::ActionFailed)),
            }
        }
    }

    /// Returns the attribute value exactly as the endpoint reported it:
    /// `None` for an absent attribute, which stays distinguishable from an
    /// attribute present with an empty-string value. `fetch_ok` reports
    /// whether the remote call itself succeeded; `value` is its answer and
    /// is meaningful only then.
    pub fn get_attribute(
        &self,
        session: &BrowserSession,
        name: &str,
        fetch_ok: bool,
        value: Option<String>,
    ) -> (r: Result<Option<String>, Error>)
        ensures
            !self.valid_for(*session) ==> r == Err::<Option<String>, Error>(
                Error::Interaction(InteractionFault::StaleReference),
            ),
            self.valid_for(*session) && fetch_ok ==> r == Ok::<Option<String>, Error>(value),
            self.valid_for(*session) && !fetch_ok ==> r == Err::<Option<String>, Error>(
                Error::Interaction(InteractionFault::ActionFailed),
            ),
    {
        let _ = name;
        if !self.check_valid(session) {
            Err(Error::Interaction(InteractionFault::StaleReference))
        } else if fetch_ok {
            Ok(value)
        } else {
            Err(Error::Interaction(InteractionFault::ActionFailed))
        }
    }

    /// Best-effort visibility via the endpoint's native "displayed"
    /// capability. Never fails the caller: a stale handle, a failed remote
    /// call (`remote` of `None`) or a negative answer all come back as "not
    /// visible".
    pub fn is_visible(&self, session: &BrowserSession, remote: Option<bool>) -> (b: bool)
        ensures
            b == (self.valid_for(*session) && remote == Some(true)),
    {
        let ok = self.check_valid(session);
        match remote {
            Some(v) => ok && v,
            None => false,
        }
    }

    /// Best-effort enabled/disabled check; same fail-soft policy as
    /// `is_visible`.
    pub fn is_enabled(&self, session: &BrowserSession, remote: Option<bool>) -> (b: bool)
        ensures
            b == (self.valid_for(*session) && remote == Some(true)),
    {
        let ok = self.check_valid(session);
        match remote {
            Some(v) => ok && v,
            None => false,
        }
    }

    /// Advisory viewport-centering via the remote scripting capability.
    /// Unlike the visibility checks, a failure is reported, not swallowed.
    pub fn scroll_into_view(&self, session: &BrowserSession, remote_ok: bool) -> (r: Result<
        (),
        Error,
    >)
        ensures
            !self.valid_for(*session) ==> r == Err::<(), Error>(
                Error::Interaction(InteractionFault::StaleReference),
            ),
            self.valid_for(*session) && remote_ok ==> r == Ok::<(), Error>(()),
            self.valid_for(*session) && !remote_ok ==> r == Err::<(), Error>(Error::Script),
    {
        if !self.check_valid(session) {
            Err(Error::Interaction(InteractionFault::StaleReference))
        } else if remote_ok {
            Ok(())
        } else {
            Err(Error::Script)
        }
    }

    /// Visibility via the remote-script bounding-box test. `script_ok`
    /// reports whether the script ran; `script_bool` is its result read as a
    /// boolean, and anything that is not a proper `true` counts as not
    /// visible. A script failure is propagated, not swallowed.
    pub fn is_displayed(
        &self,
        session: &BrowserSession,
        script_ok: bool,
        script_bool: Option<bool>,
    ) -> (r: Result<bool, Error>)
        ensures
            !self.valid_for(*session) ==> r == Err::<bool, Error>(
                Error::Interaction(InteractionFault::StaleReference),
            ),
            self.valid_for(*session) && script_ok ==> r == Ok::<bool, Error>(
                script_bool == Some(true),
            ),
            self.valid_for(*session) && !script_ok ==> r == Err::<bool, Error>(Error::Script),
    {
        if !self.check_valid(session) {
            Err(Error::Interaction(InteractionFault::StaleReference))
        } else if script_ok {
            match script_bool {
                Some(v) => Ok(v),
                None => Ok(false),
            }
        } else {
            Err(Error::Script)
        }
    }

    /// One configurable visibility answer instead of two interchangeable
    /// ones: the caller names which of the two computed checks is
    /// authoritative for this call, and the chosen check's fail-soft answer
    /// is returned.
    pub fn visible_by(
        &self,
        session: &BrowserSession,
        strategy: VisibilityStrategy,
        native: Option<bool>,
        bounding_box: Option<bool>,
    ) -> (b: bool)
        ensures
            strategy is NativeFlag ==> b == (self.valid_for(*session) && native == Some(true)),
            strategy is BoundingBoxHeuristic ==> b == (self.valid_for(*session) && bounding_box
                == Some(true)),
    {
        match strategy {
            VisibilityStrategy::NativeFlag => self.is_visible(session, native),
            VisibilityStrategy::BoundingBoxHeuristic => self.is_visible(session, bounding_box),
        }
    }

    /// Polls one cheap property — the presence of the element's identifying
    /// attribute — once per second until it holds or `timeout` seconds have
    /// elapsed. `probes[k]` reports whether the attribute was present on the
    /// k-th remote check. On expiry the error names the configured timeout.
    /// A stale handle fails before any probe.
    pub fn wait_for(&self, session: &BrowserSession, timeout: u64, probes: &Vec<bool>) -> (r:
        Result<(), Error>)
        requires
            probes@.len() >= timeout,
        ensures
            !self.valid_for(*session) ==> r == Err::<(), Error>(
                Error::Interaction(InteractionFault::StaleReference),
            ),
            self.valid_for(*session) && (exists|k: int| 0 <= k < timeout && probes@[k]) ==> r
                == Ok::<(), Error>(()),
            self.valid_for(*session) && (forall|k: int| 0 <= k < timeout ==> !probes@[k]) ==> r
                == Err::<(), Error>(Error::Timeout(timeout)),
    {
        if !self.check_valid(session) {
            return Err(Error::Interaction(InteractionFault::StaleReference));
        }
        let n: usize = probes.len();
        let mut elapsed: usize = 0;
        while (elapsed as u64) < timeout
            invariant
                elapsed <= timeout,
                n == probes@.len(),
                probes@.len() >= timeout,
                self.valid_for(*session),
                forall|j: int| 0 <= j < elapsed ==> !probes@[j],
            decreases timeout - elapsed,
        {
            if probes[elapsed] {
                return Ok(());
            }
            elapsed = elapsed + 1;
        }
        Err(Error::Timeout(timeout))
    }
}

/// After a successful navigation the page generation has advanced, so every
/// handle minted before the navigation is invalid for the session as it now
/// stands: its operations fail with a stale-reference error instead of
/// silently acting on the wrong page.
pub proof fn lemma_navigation_invalidates_handles(
    pre: BrowserSession,
    post: BrowserSession,
    handle: WebElement,
)
    requires
        handle.valid_for(pre),
        post.is_open() == pre.is_open(),
        post.page_generation() == pre.page_generation() + 1,
    ensures
        !handle.valid_for(post),
{
}

/// No handle is valid for a closed session, whatever generation it carries:
/// once the session is closed, every handle operation fails
/// deterministically with a stale-reference error.
pub proof fn lemma_closed_session_invalidates_handles(
    session: BrowserSession,
    handle: WebElement,
)
    requires
        !session.is_open(),
    ensures
        !handle.valid_for(session),
{
}

} // verus!
