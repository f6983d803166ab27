use vstd::prelude::*;
use vstd::string::*;
use crate::cookie::{get_phpsessid_cookie_from_set_cookie, session_of, strings_view, SessionCookie, SESSION_COOKIE_NAME};
use crate::http::Response;

verus! {

/// The most redirects that the login flow follows.
pub const MAX_REDIRECT_HOPS: usize = 20;

/// The redirects after the login form was sent: where to go next and with which
/// session, and how many hops were made.
#[derive(Clone, Debug)]
pub struct RedirectChain {
    pub next_location: Option<String>,
    pub carried_cookie: Option<SessionCookie>,
    pub hops: usize,
}

/// What to do next in a chain of redirects.
#[derive(Clone, Debug)]
pub enum RedirectStep {
    /// Send a GET to `location` with the `cookie` header.
    Fetch { location: String, cookie: String },
    /// The chain ended: a location or a session is missing.
    Finished,
    /// Both are present, but the hop bound is reached.
    TooManyHops,
}

/// The view of an optional string.
pub open spec fn opt_view(o: Option<String>) -> Option<Seq<char>> {
    match o {
        Some(s) => Some(s@),
        None => None,
    }
}

/// The session value that an optional cookie carries.
pub open spec fn cookie_view(o: Option<SessionCookie>) -> Option<Seq<char>> {
    match o {
        Some(c) => Some(c.value@),
        None => None,
    }
}

impl RedirectChain {
    /// The chain goes on only while both a location and a session are present.
    pub open spec fn continues(&self) -> bool {
        self.next_location is Some && self.carried_cookie is Some
    }

    /// A carried cookie is always the session cookie.
    pub open spec fn wf(&self) -> bool {
        self.carried_cookie matches Some(c) ==> c.name@ == SESSION_COOKIE_NAME@
    }

    /// The chain that a response starts: its location and the session it sets.
    pub fn start(response: &Response) -> (r: RedirectChain)
        ensures
            r.wf(),
            r.hops == 0,
            opt_view(r.next_location) == opt_view(response.location),
            cookie_view(r.carried_cookie) == session_of(strings_view(response.set_cookie@)),
    {
        let location = match &response.location {
            Some(l) => Some(l.clone()),
            None => None,
        };
        RedirectChain {
            next_location: location,
            carried_cookie: get_phpsessid_cookie_from_set_cookie(&response.set_cookie),
            hops: 0,
        }
    }

    /// What to do next: fetch while both a location and a session are present and
    /// the bound is not reached.
    pub fn next(&self) -> (r: RedirectStep)
        requires
            self.wf(),
        ensures
            !self.continues() ==> r is Finished,
            self.continues() && self.hops >= MAX_REDIRECT_HOPS ==> r is TooManyHops,
            self.continues() && self.hops < MAX_REDIRECT_HOPS ==> (r matches RedirectStep::Fetch { location, cookie }
                && Some(location@) == opt_view(self.next_location)
                && cookie@ == SESSION_COOKIE_NAME@ + "="@ + self.carried_cookie.unwrap().value@),
    {
        match (&self.next_location, &self.carried_cookie) {
            (Some(location), Some(cookie)) => {
                if self.hops >= MAX_REDIRECT_HOPS {
                    RedirectStep::TooManyHops
                } else {
                    RedirectStep::Fetch { location: location.clone(), cookie: cookie.header_value() }
                }
            },
            _ => RedirectStep::Finished,
        }
    }

    /// The chain after one more hop, from the response to that hop.
    pub fn after_hop(&self, response: &Response) -> (r: RedirectChain)
        requires
            self.hops < MAX_REDIRECT_HOPS,
        ensures
            r.wf(),
            r.hops == self.hops + 1,
            opt_view(r.next_location) == opt_view(response.location),
            cookie_view(r.carried_cookie) == session_of(strings_view(response.set_cookie@)),
    {
        let mut r = RedirectChain::start(response);
        r.hops = self.hops + 1;
        r
    }
}

} // verus!
