use vstd::prelude::*;
use vstd::string::*;
use crate::text::str_eq;

verus! {

/// A key and its secret: the consumer's pair, or a request or access token.
#[derive(Clone, Debug)]
pub struct Token {
    pub key: String,
    pub secret: String,
}

impl Token {
    pub fn new(key: &str, secret: &str) -> (r: Token)
        ensures
            r.key@ == key@,
            r.secret@ == secret@,
    {
        Token { key: String::from_str(key), secret: String::from_str(secret) }
    }

    /// A copy of the pair.
    pub fn duplicate(&self) -> (r: Token)
        ensures
            r.key@ == self.key@,
            r.secret@ == self.secret@,
    {
        Token { key: String::from_str(self.key.as_str()), secret: String::from_str(self.secret.as_str()) }
    }
}

/// The key and secret of a pair.
pub open spec fn token_view(t: Token) -> (Seq<char>, Seq<char>) {
    (t.key@, t.secret@)
}

/// The key and secret of an optional pair.
pub open spec fn opt_token_view(t: Option<Token>) -> Option<(Seq<char>, Seq<char>)> {
    match t {
        Some(t) => Some((t.key@, t.secret@)),
        None => None,
    }
}

/// Why authorization or the signing of a request failed.
#[derive(Clone, Copy, Debug, PartialEq, Eq, Structural)]
pub enum ApiError {
    /// A token endpoint answered without `oauth_token` or `oauth_token_secret`.
    NoOauthToken,
    /// The login page holds no element with the login form's id.
    FormNotFound,
    /// The login form has no `action` attribute.
    ActionMissing,
    /// The login page set no session cookie.
    MissingSessionCookie,
    /// The login redirects went on past the hop bound.
    RedirectLoopError,
    /// The consumer's key or secret is empty.
    SigningError,
}

impl ApiError {
    /// A sentence that describes the error.
    pub fn to_string(&self) -> (r: String) {
        match self {
            ApiError::NoOauthToken => String::from_str("Response did not contain oauth token."),
            ApiError::FormNotFound => String::from_str("Could not find login form in response from server."),
            ApiError::ActionMissing => String::from_str("Authorization form does not contain action attribute."),
            ApiError::MissingSessionCookie => String::from_str("Could not get session cookie from response."),
            ApiError::RedirectLoopError => String::from_str("Too many redirects after login."),
            ApiError::SigningError => String::from_str("Consumer key or secret is empty."),
        }
    }
}

/// The pairs of a form-encoded body, as url's parser decodes them.
pub uninterp spec fn form_decoded(body: Seq<char>) -> Seq<(Seq<char>, Seq<char>)>;

/// The view of a list of string pairs.
pub open spec fn pairs_view(v: Seq<(String, String)>) -> Seq<(Seq<char>, Seq<char>)> {
    v.map_values(|p: (String, String)| (p.0@, p.1@))
}

/// Relies on url::form_urlencoded::parse: decodes a form-encoded body into its
/// name/value pairs, in order.
#[verifier::external_body]
fn decode_form(body: &str) -> (r: Vec<(String, String)>)
    ensures
        pairs_view(r@) == form_decoded(body@),
{
    url::form_urlencoded::parse(body.as_bytes()).into_owned().collect()
}

/// The value of the last pair named `name`: a later pair overrides an earlier one.
pub open spec fn last_value(pairs: Seq<(Seq<char>, Seq<char>)>, name: Seq<char>) -> Option<Seq<char>>
    decreases pairs.len(),
{
    if pairs.len() == 0 {
        None
    } else if pairs.last().0 == name {
        Some(pairs.last().1)
    } else {
        last_value(pairs.drop_last(), name)
    }
}

/// The token that a list of decoded pairs holds, if it has both fields.
pub open spec fn spec_token_from_pairs(pairs: Seq<(Seq<char>, Seq<char>)>) -> Option<(Seq<char>, Seq<char>)> {
    match (last_value(pairs, "oauth_token"@), last_value(pairs, "oauth_token_secret"@)) {
        (Some(k), Some(s)) => Some((k, s)),
        _ => None,
    }
}

fn find_last(pairs: &Vec<(String, String)>, name: &str) -> (r: Option<String>)
    ensures
        r matches Some(v) ==> last_value(pairs_view(pairs@), name@) == Some(v@),
        r is None ==> last_value(pairs_view(pairs@), name@) is None,
{
    let mut i: usize = pairs.len();
    assert(pairs@.subrange(0, i as int) =~= pairs@);
    while i > 0
        invariant
            i <= pairs@.len(),
            last_value(pairs_view(pairs@), name@) == last_value(pairs_view(pairs@.subrange(0, i as int)), name@),
        decreases i,
    {
        let ghost pre = pairs_view(pairs@.subrange(0, i as int));
        assert(pre.drop_last() =~= pairs_view(pairs@.subrange(0, i - 1)));
        if str_eq(pairs[i - 1].0.as_str(), name) {
            return Some(pairs[i - 1].1.clone());
        }
        i = i - 1;
    }
    assert(pairs_view(pairs@.subrange(0, 0)) =~= Seq::<(Seq<char>, Seq<char>)>::empty());
    None
}

/// The token that decoded pairs give: both `oauth_token` and `oauth_token_secret`
/// must be present, else `NoOauthToken`.
pub fn token_from_pairs(pairs: &Vec<(String, String)>) -> (r: Result<Token, ApiError>)
    ensures
        spec_token_from_pairs(pairs_view(pairs@)) matches Some(t) ==> (r matches Ok(tok)
            && tok.key@ == t.0 && tok.secret@ == t.1),
        spec_token_from_pairs(pairs_view(pairs@)) is None ==> r == Err::<Token, ApiError>(ApiError::NoOauthToken),
{
    let key = find_last(pairs, "oauth_token");
    let secret = find_last(pairs, "oauth_token_secret");
    match (key, secret) {
        (Some(key), Some(secret)) => Ok(Token { key, secret }),
        _ => Err(ApiError::NoOauthToken),
    }
}

/// The token that a token endpoint's form-encoded body holds.
pub fn parse_token_response(body: &str) -> (r: Result<Token, ApiError>)
    ensures
        spec_token_from_pairs(form_decoded(body@)) matches Some(t) ==> (r matches Ok(tok)
            && tok.key@ == t.0 && tok.secret@ == t.1),
        spec_token_from_pairs(form_decoded(body@)) is None ==> r == Err::<Token, ApiError>(ApiError::NoOauthToken),
{
    let pairs = decode_form(body);
    token_from_pairs(&pairs)
}

} // verus!
