use vstd::prelude::*;

use crate::elements::WebElement;
use crate::errors::Error;

verus! {

/// The library's view of one browser tab and the connection that drives it.
///
/// The remote connection itself is asynchronous network I/O and lives in the
/// unverified shell; this type carries the logical lifecycle state that the
/// shell must consult before and after every remote call: whether the
/// connection is still open, which page generation the tab is on, and the
/// current navigation target. Each successful navigation advances the page
/// generation, which is what makes element handles minted against an earlier
/// page detectably stale.
///
/// A session is not safe for concurrent use from several tasks; callers that
/// share one must synchronize externally.
#[derive(Debug)]
pub struct BrowserSession {
    alive: bool,
    generation: u64,
    url: String,
}

impl BrowserSession {
    /// Whether the session still owns its remote connection.
    pub closed spec fn is_open(self) -> bool {
        self.alive
    }

    /// The page generation: how many successful navigations the tab has seen
    /// after the initial page load.
    pub closed spec fn page_generation(self) -> u64 {
        self.generation
    }

    /// The current logical navigation target.
    pub closed spec fn current_url(self) -> Seq<char> {
        self.url@
    }

    /// Executable mirror of `is_open`, for callers outside verified code.
    pub fn currently_open(&self) -> (b: bool)
        ensures
            b == self.is_open(),
    {
        self.alive
    }

    /// Executable mirror of `page_generation`, for callers outside verified
    /// code.
    pub fn generation_now(&self) -> (g: u64)
        ensures
            g == self.page_generation(),
    {
        self.generation
    }

    /// Executable mirror of `current_url`, for callers outside verified
    /// code.
    pub fn current_url_now(&self) -> (u: String)
        ensures
            u@ == self.current_url(),
    {
        self.url.clone()
    }

    /// Connect-then-navigate as one atomic setup step. `connect_ok` reports
    /// whether the endpoint accepted the connection and capabilities;
    /// `nav_ok` whether the initial load of `website_url` succeeded. Either
    /// failure leaves no session observable to the caller.
    pub fn new(website_url: &str, connect_ok: bool, nav_ok: bool) -> (r: Result<BrowserSession, Error>)
        ensures
            !connect_ok ==> r == Err::<BrowserSession, Error>(Error::Connection),
            connect_ok && !nav_ok ==> r == Err::<BrowserSession, Error>(Error::Navigation),
            connect_ok && nav_ok ==> (r matches Ok(s)
                && s.is_open()
                && s.page_generation() == 0
                && s.current_url() == website_url@),
    {
        if !connect_ok {
            Err(Error::Connection)
        } else if !nav_ok {
            Err(Error::Navigation)
        } else {
            Ok(BrowserSession { alive: true, generation: 0, url: website_url.to_string() })
        }
    }

    /// Directs the tab to a new URL. On success the page generation
    /// advances, which invalidates every element handle minted before the
    /// call; on failure the session is unchanged. On a closed session the
    /// call fails without touching the remote side.
    pub fn navigate(&mut self, url: &str, remote_ok: bool) -> (r: Result<(), Error>)
        requires
            old(self).page_generation() < u64::MAX,
        ensures
            !old(self).is_open() ==> r == Err::<(), Error>(Error::Connection) && *final(self) == *old(self),
            old(self).is_open() && remote_ok ==> r == Ok::<(), Error>(())
                && final(self).is_open()
                && final(self).page_generation() == old(self).page_generation() + 1
                && final(self).current_url() == url@,
            old(self).is_open() && !remote_ok ==> r == Err::<(), Error>(Error::Navigation)
                && *final(self) == *old(self),
    {
        if !self.alive {
            Err(Error::Connection)
        } else if remote_ok {
            self.generation = self.generation + 1;
            self.url = url.to_string();
            Ok(())
        } else {
            Err(Error::Navigation)
        }
    }

    /// Resizes the viewport. Purely advisory: no session state changes, no
    /// retry semantics; a refusal by the endpoint surfaces as a connection
    /// error.
    pub fn set_window_size(&self, width: u32, height: u32, remote_ok: bool) -> (r: Result<(), Error>)
        ensures
            !self.is_open() ==> r == Err::<(), Error>(Error::Connection),
            self.is_open() && remote_ok ==> r == Ok::<(), Error>(()),
            self.is_open() && !remote_ok ==> r == Err::<(), Error>(Error::Connection),
    {
        let _ = width;
        let _ = height;
        if !self.alive {
            Err(Error::Connection)
        } else if remote_ok {
            Ok(())
        } else {
            Err(Error::Connection)
        }
    }

    /// Resolves one element against the current DOM snapshot. `found`
    /// reports whether the locator matched at call time; there is no
    /// implicit waiting, so a zero-match query fails immediately and waiting
    /// is the caller's business via the poll primitives. A returned handle
    /// is tagged with the session's current page generation.
    pub fn find_element(&self, selector: &str, found: bool) -> (r: Result<WebElement, Error>)
        ensures
            !self.is_open() ==> r == Err::<WebElement, Error>(Error::Connection),
            self.is_open() && !found ==> r == Err::<WebElement, Error>(Error::NotFound),
            self.is_open() && found ==> (r matches Ok(h)
                && h.page_generation() == self.page_generation()),
    {
        let _ = selector;
        if !self.alive {
            Err(Error::Connection)
        } else if !found {
            Err(Error::NotFound)
        } else {
            Ok(WebElement::minted_for(self.generation))
        }
    }

    /// Releases the remote connection. The session is closed afterwards
    /// whatever the endpoint answered; calling it on an already-closed
    /// session is a caller error, which the precondition excludes.
    pub fn close(&mut self, remote_ok: bool) -> (r: Result<(), Error>)
        requires
            old(self).is_open(),
        ensures
            !final(self).is_open(),
            final(self).page_generation() == old(self).page_generation(),
            remote_ok ==> r == Ok::<(), Error>(()),
            !remote_ok ==> r == Err::<(), Error>(Error::Connection),
    {
        self.alive = false;
        if remote_ok {
            Ok(())
        } else {
            Err(Error::Connection)
        }
    }
}

} // verus!
