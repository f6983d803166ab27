use vstd::prelude::*;
use vstd::string::*;
use crate::client::{spec_authorize_url, Csfd, ACCESS_TOKEN_URL, REQUEST_TOKEN_URL};
use crate::signing::{can_sign, is_oauth1_header, sign, string_pairs};
use crate::cookie::{get_phpsessid_cookie_from_set_cookie, session_of, strings_view, SessionCookie, SESSION_COOKIE_NAME};
use crate::form::{extract_login_action, html_attr_by_id, spec_login_action, LOGIN_FORM_ID};
use crate::http::{Method, Request, Response};
use crate::redirect::{cookie_view, opt_view, RedirectChain, RedirectStep, MAX_REDIRECT_HOPS};
use crate::token::{form_decoded, parse_token_response, spec_token_from_pairs, token_view, ApiError, Token};

verus! {

/// The state of an OAuth1 authorization, named by the request that it waits on.
#[derive(Clone, Debug)]
pub enum HandshakeState {
    /// Fetch a request token.
    RequestToken,
    /// Fetch the login page for the request token.
    AuthorizePage { request_token: Token },
    /// Send the user's credentials to the login form's action, with the session.
    Login { request_token: Token, action: String, session: SessionCookie },
    /// Follow the redirects that the login answered with.
    Redirects { request_token: Token, chain: RedirectChain },
    /// Trade the granted request token for an access token.
    AccessToken { request_token: Token },
    /// The handshake succeeded with this access token.
    Authorized { access_token: Token },
    /// The handshake failed.
    Failed { error: ApiError },
}

/// What to do next in a handshake.
#[derive(Clone, Debug)]
pub enum HandshakeAction {
    /// Send this request and hand the response to `on_response`.
    Send(Request),
    /// The handshake succeeded.
    Done,
    /// The handshake failed with this error.
    Fail(ApiError),
}

/// The fields of the login form: user name and password.
pub open spec fn login_form(username: Seq<char>, password: Seq<char>) -> Seq<(Seq<char>, Seq<char>)> {
    seq![("username"@, username), ("password"@, password)]
}

impl HandshakeState {
    /// A chain of redirects is only ever held while it goes on and is within bounds,
    /// and a session is always the session cookie.
    pub open spec fn wf(&self) -> bool {
        match self {
            HandshakeState::Login { session, .. } => session.name@ == SESSION_COOKIE_NAME@,
            HandshakeState::Redirects { chain, .. } => chain.wf() && chain.continues() && chain.hops
                < MAX_REDIRECT_HOPS,
            _ => true,
        }
    }

    /// The handshake ended, well or badly.
    pub open spec fn is_terminal(&self) -> bool {
        self is Authorized || self is Failed
    }

    /// The state in which a handshake starts.
    pub fn new() -> (r: HandshakeState)
        ensures
            r is RequestToken,
            r.wf(),
    {
        HandshakeState::RequestToken
    }

    /// Whether the handshake ended.
    pub fn finished(&self) -> (r: bool)
        ensures
            r == self.is_terminal(),
    {
        match self {
            HandshakeState::Authorized { .. } | HandshakeState::Failed { .. } => true,
            _ => false,
        }
    }

    /// The request to send next, or the handshake's end.
    pub fn next_action(&self, client: &Csfd, username: &str, password: &str) -> (r: HandshakeAction)
        requires
            self.wf(),
        ensures
            match self {
                HandshakeState::RequestToken => if can_sign(client.spec_consumer()) {
                    r matches HandshakeAction::Send(req) && req.method == Method::Get && req.url@
                        == REQUEST_TOKEN_URL@ && req.cookie is None && req.form@.len() == 0
                        && req.query@.len() == 0
                        && (req.authorization matches Some(h) && is_oauth1_header(h@, "GET"@,
                            REQUEST_TOKEN_URL@, token_view(client.spec_consumer()), None, Seq::empty()))
                } else {
                    r == HandshakeAction::Fail(ApiError::SigningError)
                },
                HandshakeState::AuthorizePage { request_token } => r matches HandshakeAction::Send(req)
                    && req.method == Method::Get && req.url@ == spec_authorize_url(request_token.key@)
                    && req.authorization is None && req.cookie is None && req.form@.len() == 0
                    && req.query@.len() == 0,
                HandshakeState::Login { action, session, .. } => r matches HandshakeAction::Send(req)
                    && req.method == Method::Post && req.url@ == action@ && req.authorization is None
                    && opt_view(req.cookie) == Some(session.header_value_spec())
                    && string_pairs(req.form@) == login_form(username@, password@)
                    && req.query@.len() == 0,
                HandshakeState::Redirects { chain, .. } => r matches HandshakeAction::Send(req)
                    && req.method == Method::Get && Some(req.url@) == opt_view(chain.next_location)
                    && req.authorization is None && req.form@.len() == 0 && req.query@.len() == 0
                    && (req.cookie matches Some(c) && c@ == SESSION_COOKIE_NAME@ + "="@
                        + chain.carried_cookie.unwrap().value@),
                HandshakeState::AccessToken { request_token } => if can_sign(client.spec_consumer()) {
                    r matches HandshakeAction::Send(req) && req.method == Method::Post && req.url@
                        == ACCESS_TOKEN_URL@ && req.cookie is None && req.form@.len() == 0
                        && req.query@.len() == 0
                        && (req.authorization matches Some(h) && is_oauth1_header(h@, "POST"@,
                            ACCESS_TOKEN_URL@, token_view(client.spec_consumer()),
                            Some(token_view(*request_token)), Seq::empty()))
                } else {
                    r == HandshakeAction::Fail(ApiError::SigningError)
                },
                HandshakeState::Authorized { .. } => r is Done,
                HandshakeState::Failed { error } => r == HandshakeAction::Fail(*error),
            },
    {
        match self {
            HandshakeState::RequestToken => {
                let url = String::from_str(REQUEST_TOKEN_URL);
                let query: Vec<(String, String)> = Vec::new();
                proof {
                    assert(string_pairs(query@) =~= Seq::empty());
                }
                match sign("GET", url.as_str(), client.consumer_token(), None, &query) {
                    Err(e) => HandshakeAction::Fail(e),
                    Ok(h) => HandshakeAction::Send(Request {
                        method: Method::Get,
                        url,
                        query,
                        form: Vec::new(),
                        authorization: Some(h),
                        cookie: None,
                    }),
                }
            },
            HandshakeState::AuthorizePage { request_token } => HandshakeAction::Send(Request {
                method: Method::Get,
                url: Csfd::get_authorize_url(request_token.key.as_str()),
                query: Vec::new(),
                form: Vec::new(),
                authorization: None,
                cookie: None,
            }),
            HandshakeState::Login { action, session, .. } => {
                let mut form: Vec<(String, String)> = Vec::new();
                form.push((String::from_str("username"), String::from_str(username)));
                form.push((String::from_str("password"), String::from_str(password)));
                assert(string_pairs(form@) =~= login_form(username@, password@));
                HandshakeAction::Send(Request {
                    method: Method::Post,
                    url: action.clone(),
                    query: Vec::new(),
                    form,
                    authorization: None,
                    cookie: Some(session.header_value()),
                })
            },
            HandshakeState::Redirects { chain, .. } => match chain.next() {
                RedirectStep::Fetch { location, cookie } => HandshakeAction::Send(Request {
                    method: Method::Get,
                    url: location,
                    query: Vec::new(),
                    form: Vec::new(),
                    authorization: None,
                    cookie: Some(cookie),
                }),
                // A held chain always goes on and is within bounds (`wf`), so these
                // two arms are never taken.
                RedirectStep::Finished => HandshakeAction::Fail(ApiError::RedirectLoopError),
                RedirectStep::TooManyHops => HandshakeAction::Fail(ApiError::RedirectLoopError),
            },
            HandshakeState::AccessToken { request_token } => {
                let url = String::from_str(ACCESS_TOKEN_URL);
                let query: Vec<(String, String)> = Vec::new();
                proof {
                    assert(string_pairs(query@) =~= Seq::empty());
                }
                match sign("POST", url.as_str(), client.consumer_token(), Some(request_token), &query) {
                    Err(e) => HandshakeAction::Fail(e),
                    Ok(h) => HandshakeAction::Send(Request {
                        method: Method::Post,
                        url,
                        query,
                        form: Vec::new(),
                        authorization: Some(h),
                        cookie: None,
                    }),
                }
            },
            HandshakeState::Authorized { .. } => HandshakeAction::Done,
            HandshakeState::Failed { error } => HandshakeAction::Fail(*error),
        }
    }

    /// The state after the response to the request that `next_action` gave.
    pub fn on_response(self, response: &Response) -> (r: HandshakeState)
        requires
            self.wf(),
        ensures
            r.wf(),
            match self {
                HandshakeState::RequestToken => match spec_token_from_pairs(form_decoded(response.body@)) {
                    Some(t) => r matches HandshakeState::AuthorizePage { request_token } && token_view(request_token) == t,
                    None => r == HandshakeState::Failed { error: ApiError::NoOauthToken },
                },
                HandshakeState::AuthorizePage { request_token } => match spec_login_action(
                    html_attr_by_id(response.body@, LOGIN_FORM_ID@, "action"@),
                ) {
                    Err(e) => r == HandshakeState::Failed { error: e },
                    Ok(a) => match session_of(strings_view(response.set_cookie@)) {
                        None => r == HandshakeState::Failed { error: ApiError::MissingSessionCookie },
                        Some(v) => r matches HandshakeState::Login { request_token: t, action, session }
                            && token_view(t) == token_view(request_token) && action@ == a
                            && session.value@ == v,
                    },
                },
                HandshakeState::Login { request_token, .. } => if response.location is Some && session_of(
                    strings_view(response.set_cookie@),
                ) is Some {
                    r matches HandshakeState::Redirects { request_token: t, chain }
                        && token_view(t) == token_view(request_token) && chain.hops == 0
                        && opt_view(chain.next_location) == opt_view(response.location)
                        && cookie_view(chain.carried_cookie) == session_of(strings_view(response.set_cookie@))
                } else {
                    r matches HandshakeState::AccessToken { request_token: t } && token_view(t) == token_view(request_token)
                },
                HandshakeState::Redirects { request_token, chain } => if !(response.location is Some
                    && session_of(strings_view(response.set_cookie@)) is Some) {
                    r matches HandshakeState::AccessToken { request_token: t } && token_view(t) == token_view(request_token)
                } else if chain.hops + 1 >= MAX_REDIRECT_HOPS {
                    r == HandshakeState::Failed { error: ApiError::RedirectLoopError }
                } else {
                    r matches HandshakeState::Redirects { request_token: t, chain: next }
                        && token_view(t) == token_view(request_token) && next.hops == chain.hops + 1
                        && opt_view(next.next_location) == opt_view(response.location)
                        && cookie_view(next.carried_cookie) == session_of(strings_view(response.set_cookie@))
                },
                HandshakeState::AccessToken { .. } => match spec_token_from_pairs(form_decoded(response.body@)) {
                    Some(t) => r matches HandshakeState::Authorized { access_token } && token_view(access_token) == t,
                    None => r == HandshakeState::Failed { error: ApiError::NoOauthToken },
                },
                HandshakeState::Authorized { access_token } => r matches HandshakeState::Authorized { access_token: t }
                    && token_view(t) == token_view(access_token),
                HandshakeState::Failed { error } => r == HandshakeState::Failed { error },
            },
    {
        match self {
            HandshakeState::RequestToken => match parse_token_response(response.body.as_str()) {
                Ok(request_token) => HandshakeState::AuthorizePage { request_token },
                Err(error) => HandshakeState::Failed { error },
            },
            HandshakeState::AuthorizePage { request_token } => {
                match extract_login_action(response.body.as_str()) {
                    Err(error) => HandshakeState::Failed { error },
                    Ok(action) => match get_phpsessid_cookie_from_set_cookie(&response.set_cookie) {
                        None => HandshakeState::Failed { error: ApiError::MissingSessionCookie },
                        Some(session) => HandshakeState::Login { request_token, action, session },
                    },
                }
            },
            HandshakeState::Login { request_token, .. } => {
                let chain = RedirectChain::start(response);
                if chain.next_location.is_some() && chain.carried_cookie.is_some() {
                    HandshakeState::Redirects { request_token, chain }
                } else {
                    HandshakeState::AccessToken { request_token }
                }
            },
            HandshakeState::Redirects { request_token, chain } => {
                let next = chain.after_hop(response);
                match next.next() {
                    RedirectStep::Finished => HandshakeState::AccessToken { request_token },
                    RedirectStep::TooManyHops => HandshakeState::Failed { error: ApiError::RedirectLoopError },
                    RedirectStep::Fetch { .. } => HandshakeState::Redirects { request_token, chain: next },
                }
            },
            HandshakeState::AccessToken { .. } => match parse_token_response(response.body.as_str()) {
                Ok(access_token) => HandshakeState::Authorized { access_token },
                Err(error) => HandshakeState::Failed { error },
            },
            HandshakeState::Authorized { access_token } => HandshakeState::Authorized { access_token },
            HandshakeState::Failed { error } => HandshakeState::Failed { error },
        }
    }
}

impl Csfd {
    /// Ends a handshake: installs the access token if it succeeded, and otherwise
    /// returns its error and leaves the current token as it was.
    pub fn complete_authorization(&mut self, state: HandshakeState) -> (r: Result<(), ApiError>)
        requires
            state.is_terminal(),
        ensures
            final(self).spec_consumer() == old(self).spec_consumer(),
            state matches HandshakeState::Authorized { access_token } ==> (r is Ok
                && final(self).spec_token() == Some(access_token)),
            state matches HandshakeState::Failed { error } ==> (r == Err::<(), ApiError>(error)
                && final(self).spec_token() == old(self).spec_token()),
    {
        match state {
            HandshakeState::Authorized { access_token } => {
                self.set_access_token(access_token);
                Ok(())
            },
            HandshakeState::Failed { error } => Err(error),
            // Ruled out by `requires`: only a finished handshake is completed.
            _ => Err(ApiError::NoOauthToken),
        }
    }
}

} // verus!
