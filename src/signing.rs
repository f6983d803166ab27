use vstd::prelude::*;
use vstd::string::*;
use vstd::utf8::encode_utf8;
use crate::token::{opt_token_view, token_view, ApiError, Token};

verus! {

/// An upper-case hexadecimal digit.
pub open spec fn hex_upper(n: u8) -> char {
    "0123456789ABCDEF"@[n as int]
}

/// A byte written as `%XX`.
pub open spec fn pct_escape(b: u8) -> Seq<char> {
    seq!['%', hex_upper(b / 16), hex_upper(b % 16)]
}

/// The bytes that OAuth1 leaves as they are: ASCII letters and digits, `-`, `.`,
/// `_` and `~`.
pub open spec fn oauth_unreserved(b: u8) -> bool {
    (48 <= b <= 57) || (65 <= b <= 90) || (97 <= b <= 122) || b == 45 || b == 46 || b == 95
        || b == 126
}

/// Bytes percent-encoded by the OAuth1 rule.
pub open spec fn oauth_pct_bytes(b: Seq<u8>) -> Seq<char>
    decreases b.len(),
{
    if b.len() == 0 {
        Seq::empty()
    } else {
        (if oauth_unreserved(b[0]) {
            seq![b[0] as char]
        } else {
            pct_escape(b[0])
        }) + oauth_pct_bytes(b.drop_first())
    }
}

/// A string percent-encoded by the OAuth1 rule, over its UTF-8 bytes.
pub open spec fn oauth_pct(s: Seq<char>) -> Seq<char> {
    oauth_pct_bytes(encode_utf8(s))
}

/// The bytes that form encoding leaves as they are: ASCII letters and digits,
/// `*`, `-`, `.` and `_`.
pub open spec fn form_unchanged(b: u8) -> bool {
    (48 <= b <= 57) || (65 <= b <= 90) || (97 <= b <= 122) || b == 42 || b == 45 || b == 46
        || b == 95
}

/// Bytes written in form encoding: a space becomes `+`, other bytes not left as
/// they are become `%XX`.
pub open spec fn form_escaped_bytes(b: Seq<u8>) -> Seq<char>
    decreases b.len(),
{
    if b.len() == 0 {
        Seq::empty()
    } else {
        (if form_unchanged(b[0]) {
            seq![b[0] as char]
        } else if b[0] == 32 {
            seq!['+']
        } else {
            pct_escape(b[0])
        }) + form_escaped_bytes(b.drop_first())
    }
}

/// A string in form encoding, over its UTF-8 bytes.
pub open spec fn form_escaped(s: Seq<char>) -> Seq<char> {
    form_escaped_bytes(encode_utf8(s))
}

/// Relies on url::form_urlencoded::byte_serialize: the form encoding of a value.
#[verifier::external_body]
pub(crate) fn form_escape(s: &str) -> (r: String)
    ensures
        r@ == form_escaped(s@),
{
    url::form_urlencoded::byte_serialize(s.as_bytes()).collect()
}

/// `a` comes before `b`, or equals it, comparing characters in turn; on UTF-8
/// strings this is the order of their bytes.
pub open spec fn chars_le(a: Seq<char>, b: Seq<char>) -> bool
    decreases a.len(),
{
    if a.len() == 0 {
        true
    } else if b.len() == 0 {
        false
    } else if a[0] != b[0] {
        (a[0] as u32) < (b[0] as u32)
    } else {
        chars_le(a.drop_first(), b.drop_first())
    }
}

/// The strings of `s` in order, with `sep` between them.
pub open spec fn join_with(sep: Seq<char>, s: Seq<Seq<char>>) -> Seq<char>
    decreases s.len(),
{
    if s.len() == 0 {
        Seq::empty()
    } else if s.len() == 1 {
        s[0]
    } else {
        join_with(sep, s.drop_last()) + sep + s.last()
    }
}

/// The protocol parameters of an OAuth1 request, before the signature.
pub open spec fn protocol_params(
    consumer_key: Seq<char>,
    nonce: Seq<char>,
    timestamp: Seq<char>,
    token_key: Option<Seq<char>>,
) -> Seq<(Seq<char>, Seq<char>)> {
    let common = seq![
        ("oauth_consumer_key"@, consumer_key),
        ("oauth_nonce"@, nonce),
        ("oauth_signature_method"@, "HMAC-SHA1"@),
        ("oauth_timestamp"@, timestamp),
        ("oauth_version"@, "1.0"@),
    ];
    match token_key {
        Some(k) => common.push(("oauth_token"@, k)),
        None => common,
    }
}

/// The normalized parameter string: each pair encoded as `name=value`, sorted,
/// joined by `&`.
pub open spec fn normalized_params(params: Seq<(Seq<char>, Seq<char>)>) -> Seq<char> {
    join_with(
        "&"@,
        params.map_values(|p: (Seq<char>, Seq<char>)| oauth_pct(p.0) + "="@ + oauth_pct(p.1)).sort_by(
            |a: Seq<char>, b: Seq<char>| chars_le(a, b),
        ),
    )
}

/// The signature base string: method, URL and parameters, each encoded, joined by `&`.
pub open spec fn base_string(method: Seq<char>, url: Seq<char>, params: Seq<(Seq<char>, Seq<char>)>) -> Seq<char> {
    oauth_pct(method) + "&"@ + oauth_pct(url) + "&"@ + oauth_pct(normalized_params(params))
}

/// The signing key: the consumer secret and the token secret, encoded, joined by `&`.
pub open spec fn signing_key(consumer_secret: Seq<char>, token_secret: Option<Seq<char>>) -> Seq<char> {
    oauth_pct(consumer_secret) + "&"@ + oauth_pct(
        match token_secret {
            Some(s) => s,
            None => Seq::empty(),
        },
    )
}

/// The base64 text of the HMAC-SHA1 of `data` under `key`, as oauth1 computes it.
pub uninterp spec fn hmac_sha1_base64(key: Seq<char>, data: Seq<char>) -> Seq<char>;

/// The key part of an optional pair.
pub open spec fn opt_key(token: Option<(Seq<char>, Seq<char>)>) -> Option<Seq<char>> {
    match token {
        Some(t) => Some(t.0),
        None => None,
    }
}

/// The secret part of an optional pair.
pub open spec fn opt_secret(token: Option<(Seq<char>, Seq<char>)>) -> Option<Seq<char>> {
    match token {
        Some(t) => Some(t.1),
        None => None,
    }
}

/// The text of a header: the protocol parameters and the signature, each as
/// `name="value"` with the value encoded, sorted, joined by `, `, after `OAuth `.
pub open spec fn header_text(protocol: Seq<(Seq<char>, Seq<char>)>, signature: Seq<char>) -> Seq<char> {
    "OAuth "@ + join_with(
        ", "@,
        protocol.push(("oauth_signature"@, signature)).map_values(
            |e: (Seq<char>, Seq<char>)| e.0 + "=\""@ + oauth_pct(e.1) + "\""@,
        ).sort_by(|a: Seq<char>, b: Seq<char>| chars_le(a, b)),
    )
}

/// The header that signs a request with the given nonce and timestamp; its
/// signature is the HMAC-SHA1 of the base string, over the query and the protocol
/// parameters, under the signing key.
pub open spec fn oauth1_header(
    method: Seq<char>,
    url: Seq<char>,
    consumer: (Seq<char>, Seq<char>),
    token: Option<(Seq<char>, Seq<char>)>,
    query: Seq<(Seq<char>, Seq<char>)>,
    nonce: Seq<char>,
    timestamp: Seq<char>,
) -> Seq<char> {
    let protocol = protocol_params(consumer.0, nonce, timestamp, opt_key(token));
    header_text(
        protocol,
        hmac_sha1_base64(signing_key(consumer.1, opt_secret(token)), base_string(method, url, query + protocol)),
    )
}

/// `h` signs the request with some nonce and timestamp: those two are drawn anew
/// for each header, and all the rest follows from the request and the secrets.
pub open spec fn is_oauth1_header(
    h: Seq<char>,
    method: Seq<char>,
    url: Seq<char>,
    consumer: (Seq<char>, Seq<char>),
    token: Option<(Seq<char>, Seq<char>)>,
    query: Seq<(Seq<char>, Seq<char>)>,
) -> bool {
    exists|nonce: Seq<char>, timestamp: Seq<char>|
        h == #[trigger] oauth1_header(method, url, consumer, token, query, nonce, timestamp)
}

/// A name that starts with `oauth_`.
pub open spec fn has_oauth_prefix(name: Seq<char>) -> bool {
    name.len() >= 6 && name.subrange(0, 6) == "oauth_"@
}

/// Query parameters that can be signed as they are: no name twice, and none
/// that would clash with a protocol parameter.
pub open spec fn signable_query(query: Seq<(Seq<char>, Seq<char>)>) -> bool {
    &&& forall|i: int, j: int| 0 <= i < j < query.len() ==> #[trigger] query[i].0 != #[trigger] query[j].0
    &&& forall|i: int| 0 <= i < query.len() ==> !has_oauth_prefix(#[trigger] query[i].0)
}

/// The view of a list of string pairs.
pub open spec fn string_pairs(v: Seq<(String, String)>) -> Seq<(Seq<char>, Seq<char>)> {
    v.map_values(|p: (String, String)| (p.0@, p.1@))
}

/// The key and secret of an optional borrowed pair.
pub open spec fn opt_pair(token: Option<&Token>) -> Option<(Seq<char>, Seq<char>)> {
    match token {
        Some(t) => Some(token_view(*t)),
        None => None,
    }
}

/// Relies on oauth1::authorize: the HMAC-SHA1 signed OAuth1 header of a request,
/// with a nonce and a timestamp that it draws itself (lib.rs, `authorize`,
/// `to_query`, `gen_signature`).
#[verifier::external_body]
fn oauth_authorize(
    method: &str,
    url: &str,
    consumer: &Token,
    token: Option<&Token>,
    query: &Vec<(String, String)>,
) -> (r: String)
    requires
        signable_query(string_pairs(query@)),
    ensures
        exists|nonce: Seq<char>, timestamp: Seq<char>|
            r@ == #[trigger] header_text(
                protocol_params(consumer.key@, nonce, timestamp, opt_key(opt_pair(token))),
                hmac_sha1_base64(
                    signing_key(consumer.secret@, opt_secret(opt_pair(token))),
                    base_string(
                        method@,
                        url@,
                        string_pairs(query@) + protocol_params(consumer.key@, nonce, timestamp, opt_key(opt_pair(token))),
                    ),
                ),
            ),
{
    let consumer = oauth1::Token::new(consumer.key.as_str(), consumer.secret.as_str());
    let token = match token {
        Some(t) => Some(oauth1::Token::new(t.key.as_str(), t.secret.as_str())),
        None => None,
    };
    let params: std::collections::HashMap<&str, std::borrow::Cow<str>> =
        query.iter().map(|(k, v)| (k.as_str(), std::borrow::Cow::from(v.as_str()))).collect();
    oauth1::authorize(method, url, &consumer, token.as_ref(), Some(params))
}

/// Whether a consumer pair can sign: neither its key nor its secret is empty.
pub open spec fn can_sign(consumer: Token) -> bool {
    consumer.key@.len() > 0 && consumer.secret@.len() > 0
}

/// Signs a request with the consumer pair and, if given, a token. Fails with
/// `SigningError` exactly when the consumer key or secret is empty; otherwise the
/// header is the request's OAuth1 header for a fresh nonce and timestamp.
pub fn sign(
    method: &str,
    url: &str,
    consumer: &Token,
    token: Option<&Token>,
    query: &Vec<(String, String)>,
) -> (r: Result<String, ApiError>)
    requires
        signable_query(string_pairs(query@)),
    ensures
        !can_sign(*consumer) ==> r == Err::<String, ApiError>(ApiError::SigningError),
        can_sign(*consumer) ==> (r matches Ok(h) && is_oauth1_header(
            h@,
            method@,
            url@,
            token_view(*consumer),
            opt_pair(token),
            string_pairs(query@),
        )),
{
    if consumer.key.as_str().unicode_len() == 0 || consumer.secret.as_str().unicode_len() == 0 {
        return Err(ApiError::SigningError);
    }
    let h = oauth_authorize(method, url, consumer, token, query);
    proof {
        let (nonce, timestamp) = choose|nonce: Seq<char>, timestamp: Seq<char>|
            h@ == #[trigger] header_text(
                protocol_params(consumer.key@, nonce, timestamp, opt_key(opt_pair(token))),
                hmac_sha1_base64(
                    signing_key(consumer.secret@, opt_secret(opt_pair(token))),
                    base_string(
                        method@,
                        url@,
                        string_pairs(query@) + protocol_params(consumer.key@, nonce, timestamp, opt_key(opt_pair(token))),
                    ),
                ),
            );
        assert(h@ == oauth1_header(method@, url@, token_view(*consumer), opt_pair(token), string_pairs(query@), nonce, timestamp));
    }
    Ok(h)
}

} // verus!
