use csfd::client::{Csfd, ACCESS_TOKEN_URL, REQUEST_TOKEN_URL};
use csfd::cookie::{get_phpsessid_cookie_from_set_cookie, session_cookie_from_header};
use csfd::form::{extract_login_action, login_action_from_lookup};
use csfd::handshake::{HandshakeAction, HandshakeState};
use csfd::http::{Method, Request, Response};
use csfd::redirect::{RedirectChain, RedirectStep, MAX_REDIRECT_HOPS};
use csfd::token::{parse_token_response, token_from_pairs, ApiError, Token};

fn response(location: Option<&str>, set_cookie: &[&str], body: &str) -> Response {
    Response {
        location: location.map(String::from),
        set_cookie: set_cookie.iter().map(|s| s.to_string()).collect(),
        body: body.to_string(),
    }
}

fn send(state: &HandshakeState, client: &Csfd) -> Request {
    match state.next_action(client, "user", "pass") {
        HandshakeAction::Send(req) => req,
        other => panic!("expected a request, got {:?}", other),
    }
}

#[test]
fn it_works() {
    assert_eq!(2 + 2, 4);
}

#[test]
fn request_token_parsed_from_body() {
    let t = parse_token_response("oauth_token=AAA&oauth_token_secret=BBB").unwrap();
    assert_eq!(t.key, "AAA");
    assert_eq!(t.secret, "BBB");
}

#[test]
fn request_token_missing_secret_fails() {
    let r = parse_token_response("oauth_token=AAA");
    assert_eq!(r.unwrap_err(), ApiError::NoOauthToken);
}

#[test]
fn token_body_is_percent_decoded() {
    let t = parse_token_response("oauth_token=A%20B&oauth_token_secret=C+D").unwrap();
    assert_eq!(t.key, "A B");
    assert_eq!(t.secret, "C D");
}

#[test]
fn later_token_pair_overrides_earlier() {
    let pairs = vec![
        ("oauth_token".to_string(), "one".to_string()),
        ("oauth_token_secret".to_string(), "s".to_string()),
        ("oauth_token".to_string(), "two".to_string()),
    ];
    let t = token_from_pairs(&pairs).unwrap();
    assert_eq!(t.key, "two");
    assert_eq!(t.secret, "s");
}

#[test]
fn session_cookie_extracted() {
    let c = get_phpsessid_cookie_from_set_cookie(&vec!["PHPSESSID=xyz123; Path=/".to_string()]).unwrap();
    assert_eq!(c.name, "PHPSESSID");
    assert_eq!(c.value, "xyz123");
    assert_eq!(c.header_value(), "PHPSESSID=xyz123");
}

#[test]
fn deleted_session_cookie_is_none() {
    assert!(get_phpsessid_cookie_from_set_cookie(&vec!["PHPSESSID=deleted; Path=/".to_string()]).is_none());
}

#[test]
fn no_set_cookie_is_none() {
    assert!(get_phpsessid_cookie_from_set_cookie(&vec![]).is_none());
}

#[test]
fn only_first_set_cookie_counts() {
    let headers = vec!["other=1; Path=/".to_string(), "PHPSESSID=abc; Path=/".to_string()];
    assert!(get_phpsessid_cookie_from_set_cookie(&headers).is_none());
}

#[test]
fn cookie_without_equals_is_none() {
    assert!(session_cookie_from_header("PHPSESSID").is_none());
    assert_eq!(session_cookie_from_header("PHPSESSID=v").unwrap().value, "v");
}

fn drive_chain(mut chain: RedirectChain, hops: &[Response]) -> Result<usize, ApiError> {
    let mut requests = 0;
    loop {
        match chain.next() {
            RedirectStep::Finished => return Ok(requests),
            RedirectStep::TooManyHops => return Err(ApiError::RedirectLoopError),
            RedirectStep::Fetch { cookie, .. } => {
                assert!(cookie.starts_with("PHPSESSID="));
                let resp = &hops[requests];
                requests += 1;
                chain = chain.after_hop(resp);
            }
        }
    }
}

#[test]
fn redirect_two_hops_then_stop() {
    let start = RedirectChain::start(&response(Some("https://x/A"), &["PHPSESSID=S1"], ""));
    let hops = [
        response(Some("https://x/B"), &["PHPSESSID=S2"], ""),
        response(None, &["PHPSESSID=S3"], ""),
    ];
    assert_eq!(drive_chain(start, &hops), Ok(2));
}

#[test]
fn redirect_without_cookie_stops_after_one() {
    let start = RedirectChain::start(&response(Some("https://x/A"), &["PHPSESSID=S1"], ""));
    let hops = [response(Some("https://x/B"), &[], "")];
    assert_eq!(drive_chain(start, &hops), Ok(1));
}

#[test]
fn redirect_without_location_never_starts() {
    let start = RedirectChain::start(&response(None, &["PHPSESSID=S1"], ""));
    assert_eq!(drive_chain(start, &[]), Ok(0));
}

#[test]
fn redirect_loop_is_bounded() {
    let start = RedirectChain::start(&response(Some("https://x/A"), &["PHPSESSID=S"], ""));
    let hops: Vec<Response> = (0..MAX_REDIRECT_HOPS + 5)
        .map(|_| response(Some("https://x/A"), &["PHPSESSID=S"], ""))
        .collect();
    assert_eq!(drive_chain(start, &hops), Err(ApiError::RedirectLoopError));
}

const LOGIN_PAGE: &str = "<html><body><form id=\"frm-authorizeForm\" action=\"/submit\"><input name=\"username\"></form></body></html>";

/// Drives a handshake with scripted responses; returns the final state and the
/// requests made.
fn run_handshake(client: &Csfd, responses: Vec<Response>) -> (HandshakeState, Vec<Request>) {
    let mut state = HandshakeState::new();
    let mut sent = Vec::new();
    let mut responses = responses.into_iter();
    while !state.finished() {
        let req = send(&state, client);
        sent.push(req);
        state = state.on_response(&responses.next().expect("script ran out"));
    }
    (state, sent)
}

#[test]
fn full_handshake_installs_access_token() {
    let mut client = Csfd::new("ckey", "csecret");
    let responses = vec![
        response(None, &[], "oauth_token=REQ&oauth_token_secret=REQSECRET"),
        response(None, &["PHPSESSID=sess1; Path=/"], LOGIN_PAGE),
        response(Some("https://x/r1"), &["PHPSESSID=sess2; Path=/"], ""),
        response(Some("https://x/r2"), &["PHPSESSID=sess3; Path=/"], ""),
        response(None, &[], ""),
        response(None, &[], "oauth_token=ACC&oauth_token_secret=ACCSECRET"),
    ];
    let (state, sent) = run_handshake(&client, responses);
    assert_eq!(sent.len(), 6);
    assert_eq!(sent[0].method, Method::Get);
    assert_eq!(sent[0].url, REQUEST_TOKEN_URL);
    assert!(sent[0].authorization.as_ref().unwrap().starts_with("OAuth "));
    assert!(sent[1].url.contains("oauth_token=REQ"));
    assert_eq!(sent[2].method, Method::Post);
    assert_eq!(sent[2].url, "/submit");
    assert_eq!(sent[2].cookie.as_deref(), Some("PHPSESSID=sess1"));
    assert_eq!(sent[2].form, vec![("username".to_string(), "user".to_string()), ("password".to_string(), "pass".to_string())]);
    assert_eq!(sent[3].url, "https://x/r1");
    assert_eq!(sent[3].cookie.as_deref(), Some("PHPSESSID=sess2"));
    assert_eq!(sent[4].url, "https://x/r2");
    assert_eq!(sent[5].method, Method::Post);
    assert_eq!(sent[5].url, ACCESS_TOKEN_URL);
    assert!(sent[5].authorization.as_ref().unwrap().contains("oauth_token=\"REQ\""));
    assert!(client.complete_authorization(state).is_ok());
    let t = client.oauth_token().unwrap();
    assert_eq!(t.key, "ACC");
    assert_eq!(t.secret, "ACCSECRET");
}

#[test]
fn missing_form_fails_and_keeps_token() {
    let mut client = Csfd::new("ckey", "csecret");
    client.set_access_token(Token::new("OLD", "OLDSECRET"));
    let responses = vec![
        response(None, &[], "oauth_token=REQ&oauth_token_secret=REQSECRET"),
        response(None, &["PHPSESSID=sess1; Path=/"], "<html><form id=\"other\" action=\"/x\"></form></html>"),
    ];
    let (state, sent) = run_handshake(&client, responses);
    assert_eq!(sent.len(), 2);
    assert_eq!(client.complete_authorization(state), Err(ApiError::FormNotFound));
    assert_eq!(client.oauth_token().unwrap().key, "OLD");
}

#[test]
fn missing_form_without_prior_token_leaves_none() {
    let mut client = Csfd::new("ckey", "csecret");
    let responses = vec![
        response(None, &[], "oauth_token=REQ&oauth_token_secret=REQSECRET"),
        response(None, &["PHPSESSID=sess1"], "<p>no form</p>"),
    ];
    let (state, _) = run_handshake(&client, responses);
    assert_eq!(client.complete_authorization(state), Err(ApiError::FormNotFound));
    assert!(client.oauth_token().is_none());
}

#[test]
fn form_without_action_fails() {
    assert_eq!(extract_login_action("<form id=\"frm-authorizeForm\"></form>"), Err(ApiError::ActionMissing));
    assert_eq!(extract_login_action(LOGIN_PAGE), Ok("/submit".to_string()));
    assert_eq!(login_action_from_lookup(None), Err(ApiError::FormNotFound));
    assert_eq!(login_action_from_lookup(Some(None)), Err(ApiError::ActionMissing));
    assert_eq!(login_action_from_lookup(Some(Some("/a".to_string()))), Ok("/a".to_string()));
}

#[test]
fn login_page_without_session_fails() {
    let client = Csfd::new("ckey", "csecret");
    let responses = vec![
        response(None, &[], "oauth_token=REQ&oauth_token_secret=REQSECRET"),
        response(None, &[], LOGIN_PAGE),
    ];
    let (state, _) = run_handshake(&client, responses);
    assert!(matches!(state, HandshakeState::Failed { error: ApiError::MissingSessionCookie }));
}

#[test]
fn request_token_failure_stops_handshake() {
    let client = Csfd::new("ckey", "csecret");
    let (state, sent) = run_handshake(&client, vec![response(None, &[], "nothing=here")]);
    assert_eq!(sent.len(), 1);
    assert!(matches!(state, HandshakeState::Failed { error: ApiError::NoOauthToken }));
}

#[test]
fn access_token_failure_keeps_token_absent() {
    let mut client = Csfd::new("ckey", "csecret");
    let responses = vec![
        response(None, &[], "oauth_token=REQ&oauth_token_secret=REQSECRET"),
        response(None, &["PHPSESSID=sess1"], LOGIN_PAGE),
        response(None, &[], ""),
        response(None, &[], "oauth_token=ACC"),
    ];
    let (state, sent) = run_handshake(&client, responses);
    assert_eq!(sent.len(), 4);
    assert_eq!(client.complete_authorization(state), Err(ApiError::NoOauthToken));
    assert!(client.oauth_token().is_none());
}

#[test]
fn empty_consumer_cannot_sign() {
    let client = Csfd::new("", "csecret");
    let state = HandshakeState::new();
    assert!(matches!(state.next_action(&client, "u", "p"), HandshakeAction::Fail(ApiError::SigningError)));
    assert_eq!(client.film(1).unwrap_err(), ApiError::SigningError);
}
