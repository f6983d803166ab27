use vstd::prelude::*;
use vstd::string::*;
use crate::http::{Method, Request};
use crate::text::{decimal, decimal_string, join2, join3};
use crate::signing::{has_oauth_prefix, can_sign, form_escape, form_escaped, is_oauth1_header, sign, signable_query, string_pairs};
use crate::token::{opt_token_view, token_view, ApiError, Token};
use crate::types::{ParamKey, Params};

verus! {

pub const REQUEST_TOKEN_URL: &'static str = "https://android-api.csfd.cz/oauth/request-token";
pub const ACCESS_TOKEN_URL: &'static str = "https://android-api.csfd.cz/oauth/access-token";
pub const AUTHORIZE_URL: &'static str = "https://android-api.csfd.cz/oauth/authorize";
pub const BASE_URL: &'static str = "https://android-api.csfd.cz";
pub const AUTHORIZE_CALLBACK: &'static str = "csfdroid://oauth-callback";

/// The page on which a user grants a request token.
pub open spec fn spec_authorize_url(token: Seq<char>) -> Seq<char> {
    AUTHORIZE_URL@ + "?oauth_token="@ + form_escaped(token) + "&oauth_callback="@
        + form_escaped(AUTHORIZE_CALLBACK@)
}

/// The full URL of an endpoint of the service.
pub open spec fn endpoint_url(endpoint: Seq<char>) -> Seq<char> {
    BASE_URL@ + "/"@ + endpoint
}

/// The query pairs of a list of parameters.
pub open spec fn query_view(entries: Seq<(ParamKey, Seq<char>)>) -> Seq<(Seq<char>, Seq<char>)> {
    entries.map_values(|e: (ParamKey, Seq<char>)| (e.0.spec_name(), e.1))
}

proof fn lemma_query_signable(p: Params)
    requires
        p.wf(),
    ensures
        signable_query(query_view(p@)),
{
    crate::types::lemma_param_names();
    let q = query_view(p@);
    assert forall|i: int, j: int| 0 <= i < j < q.len() implies #[trigger] q[i].0 != #[trigger] q[j].0 by {
        assert(p@[i].0 != p@[j].0);
    }
    assert forall|i: int| 0 <= i < q.len() implies !has_oauth_prefix(#[trigger] q[i].0) by {
        assert(q[i].0 == p@[i].0.spec_name());
    }
}

fn query_pairs(params: &Params) -> (r: Vec<(String, String)>)
    ensures
        string_pairs(r@) == query_view(params@),
{
    let mut r: Vec<(String, String)> = Vec::new();
    let n = params.len();
    let mut i: usize = 0;
    while i < n
        invariant
            n == params@.len(),
            i <= n,
            string_pairs(r@) == query_view(params@.subrange(0, i as int)),
        decreases n - i,
    {
        let (k, v) = params.entry(i);
        let ghost before = r@;
        let ks = String::from_str(k);
        let ghost pair = (ks@, v@);
        r.push((ks, v));
        proof {
            assert(string_pairs(r@) =~= string_pairs(before).push(pair));
            assert(params@.subrange(0, i + 1) =~= params@.subrange(0, i as int).push(params@[i as int]));
            assert(string_pairs(r@) =~= query_view(params@.subrange(0, i + 1)));
        }
        i = i + 1;
    }
    assert(params@.subrange(0, n as int) =~= params@);
    r
}

/// `r` is a GET of `endpoint` with the query `query`, signed with the consumer pair
/// and the token if there is one, or the signing error when the consumer pair
/// cannot sign.
pub open spec fn is_signed_get(
    consumer: Token,
    token: Option<Token>,
    r: Result<Request, ApiError>,
    endpoint: Seq<char>,
    query: Seq<(Seq<char>, Seq<char>)>,
) -> bool {
    if can_sign(consumer) {
        r matches Ok(req) && req.method == Method::Get && req.url@ == endpoint_url(endpoint)
            && string_pairs(req.query@) == query && req.form@.len() == 0 && req.cookie is None
            && (req.authorization matches Some(h) && is_oauth1_header(
                h@, "GET"@, endpoint_url(endpoint), token_view(consumer), opt_token_view(token), query))
    } else {
        r == Err::<Request, ApiError>(ApiError::SigningError)
    }
}

/// The query of an optional set of parameters.
pub open spec fn opt_query(params: Option<Params>) -> Seq<(Seq<char>, Seq<char>)> {
    match params {
        Some(p) => query_view(p@),
        None => Seq::empty(),
    }
}

/// The paging query `offset`, `limit`.
pub open spec fn paging_query(offset: u32, limit: u32) -> Seq<(Seq<char>, Seq<char>)> {
    seq![("offset"@, decimal(offset as nat)), ("limit"@, decimal(limit as nat))]
}

/// The paging query `offset`, `limit`, `width`.
pub open spec fn media_query(offset: u32, limit: u32, width: u32) -> Seq<(Seq<char>, Seq<char>)> {
    paging_query(offset, limit).push(("width"@, decimal(width as nat)))
}

fn paging_params(offset: u32, limit: u32) -> (r: Params)
    ensures
        r.wf(),
        query_view(r@) == paging_query(offset, limit),
        r.spec_get(ParamKey::Width) is None,
{
    let mut p = Params::new();
    p.insert(ParamKey::Offset, decimal_string(offset));
    p.insert(ParamKey::Limit, decimal_string(limit));
    assert(query_view(p@) =~= paging_query(offset, limit));
    p
}

/// The path of an item under `kind`: `kind/id`.
pub open spec fn item_path(kind: Seq<char>, id: u32) -> Seq<char> {
    kind + "/"@ + decimal(id as nat)
}

/// The path of a list under an item: `kind/id/list`.
pub open spec fn list_path(kind: Seq<char>, id: u32, list: Seq<char>) -> Seq<char> {
    item_path(kind, id) + "/"@ + list
}

fn item_endpoint(kind: &str, id: u32) -> (r: String)
    ensures
        r@ == item_path(kind@, id),
{
    join3(kind, "/", decimal_string(id).as_str())
}

fn list_endpoint(kind: &str, id: u32, list: &str) -> (r: String)
    ensures
        r@ == list_path(kind@, id, list@),
{
    let mut s = item_endpoint(kind, id);
    s.append("/");
    s.append(list);
    s
}

/// A client of the service: the consumer pair, fixed for its lifetime, and the
/// current access token, if any.
#[derive(Clone, Debug)]
pub struct Csfd {
    consumer_token: Token,
    oauth_token: Option<Token>,
}

impl Csfd {
    pub closed spec fn spec_consumer(&self) -> Token {
        self.consumer_token
    }

    pub closed spec fn spec_token(&self) -> Option<Token> {
        self.oauth_token
    }

    /// A client with the given consumer pair and no access token.
    pub fn new(consumer_key: &str, consumer_secret: &str) -> (r: Csfd)
        ensures
            r.spec_consumer().key@ == consumer_key@,
            r.spec_consumer().secret@ == consumer_secret@,
            r.spec_token() is None,
    {
        Csfd { consumer_token: Token::new(consumer_key, consumer_secret), oauth_token: None }
    }

    /// A second client with the same pair and token.
    pub fn clone_client(&self) -> (r: Csfd)
        ensures
            r.spec_consumer().key@ == self.spec_consumer().key@,
            r.spec_consumer().secret@ == self.spec_consumer().secret@,
            opt_token_view(r.spec_token()) == opt_token_view(self.spec_token()),
    {
        let oauth_token = match &self.oauth_token {
            Some(t) => Some(t.duplicate()),
            None => None,
        };
        Csfd { consumer_token: self.consumer_token.duplicate(), oauth_token }
    }

    /// The consumer pair.
    pub fn consumer_token(&self) -> (r: &Token)
        ensures
            *r == self.spec_consumer(),
    {
        &self.consumer_token
    }

    /// The current access token.
    pub fn oauth_token(&self) -> (r: Option<&Token>)
        ensures
            r matches Some(t) ==> self.spec_token() == Some(*t),
            r is None ==> self.spec_token() is None,
    {
        match &self.oauth_token {
            Some(t) => Some(t),
            None => None,
        }
    }

    /// Installs an access token obtained earlier, in place of the current one.
    pub fn set_access_token(&mut self, token: Token)
        ensures
            final(self).spec_token() == Some(token),
            final(self).spec_consumer() == old(self).spec_consumer(),
    {
        self.oauth_token = Some(token);
    }

    /// The page on which a user grants the request token `token`.
    pub fn get_authorize_url(token: &str) -> (r: String)
        ensures
            r@ == spec_authorize_url(token@),
    {
        let mut s = join2(AUTHORIZE_URL, "?oauth_token=");
        s.append(form_escape(token).as_str());
        s.append("&oauth_callback=");
        s.append(form_escape(AUTHORIZE_CALLBACK).as_str());
        s
    }

    /// A signed GET of an endpoint, with the current token if there is one.
    pub fn get(&self, endpoint: &str, params: Option<Params>) -> (r: Result<Request, ApiError>)
        requires
            params matches Some(p) ==> p.wf(),
        ensures
            is_signed_get(self.spec_consumer(), self.spec_token(), r, endpoint@, opt_query(params)),
    {
        let url = join3(BASE_URL, "/", endpoint);
        let query = match &params {
            Some(p) => query_pairs(p),
            None => Vec::new(),
        };
        let token = match &self.oauth_token {
            Some(t) => Some(t),
            None => None,
        };
        proof {
            match params {
                Some(p) => lemma_query_signable(p),
                None => {},
            }
        }
        match sign("GET", url.as_str(), &self.consumer_token, token, &query) {
            Err(e) => Err(e),
            Ok(h) => {
                assert(string_pairs(Seq::<(String, String)>::empty()) =~= Seq::empty());
                Ok(Request {
                    method: Method::Get,
                    url,
                    query,
                    form: Vec::new(),
                    authorization: Some(h),
                    cookie: None,
                })
            },
        }
    }
}

impl Csfd {
    /// The signed-in user.
    pub fn identity(&self) -> (r: Result<Request, ApiError>)
        ensures
            is_signed_get(self.spec_consumer(), self.spec_token(), r, "identity"@, Seq::empty()),
    {
        self.get("identity", None)
    }

    /// The home feed, with the sections `data` and the given limits.
    pub fn home(&self, data: Option<&str>, limit: Option<u32>, creator_profile_visits_limit: Option<u32>) -> (r: Result<Request, ApiError>)
        ensures
            exists|p: Params| #[trigger] is_signed_get(self.spec_consumer(), self.spec_token(), r, "home"@, query_view(p@))
                && p.wf()
                && p.spec_get(ParamKey::Data) == (match data { Some(d) => Some(d@), None => None::<Seq<char>> })
                && p.spec_get(ParamKey::Limit) == (match limit { Some(l) => Some(decimal(l as nat)), None => None::<Seq<char>> })
                && p.spec_get(ParamKey::CreatorProfileVisitsLimit) == (match creator_profile_visits_limit {
                    Some(l) => Some(decimal(l as nat)),
                    None => None::<Seq<char>>,
                })
                && p.spec_get(ParamKey::Query) is None && p.spec_get(ParamKey::Offset) is None
                && p.spec_get(ParamKey::Width) is None,
    {
        let mut params = Params::new();
        if let Some(data) = data {
            params.insert(ParamKey::Data, String::from_str(data));
        }
        if let Some(limit) = limit {
            params.insert(ParamKey::Limit, decimal_string(limit));
        }
        if let Some(l) = creator_profile_visits_limit {
            params.insert(ParamKey::CreatorProfileVisitsLimit, decimal_string(l));
        }
        let ghost p = params;
        let r = self.get("home", Some(params));
        assert(is_signed_get(self.spec_consumer(), self.spec_token(), r, "home"@, query_view(p@)));
        r
    }

    fn search_at(&self, endpoint: &str, q: &str, limit: Option<u32>) -> (r: Result<Request, ApiError>)
        ensures
            is_signed_get(self.spec_consumer(), self.spec_token(), r, endpoint@, match limit {
                Some(l) => seq![("q"@, q@), ("limit"@, decimal(l as nat))],
                None => seq![("q"@, q@)],
            }),
    {
        let mut params = Params::new();
        params.insert(ParamKey::Query, String::from_str(q));
        if let Some(limit) = limit {
            params.insert(ParamKey::Limit, decimal_string(limit));
        }
        assert(query_view(params@) =~= match limit {
            Some(l) => seq![("q"@, q@), ("limit"@, decimal(l as nat))],
            None => seq![("q"@, q@)],
        });
        self.get(endpoint, Some(params))
    }

    /// Searches the catalog for `q`.
    pub fn search(&self, q: &str, limit: Option<u32>) -> (r: Result<Request, ApiError>)
        ensures
            is_signed_get(self.spec_consumer(), self.spec_token(), r, "search"@, match limit {
                Some(l) => seq![("q"@, q@), ("limit"@, decimal(l as nat))],
                None => seq![("q"@, q@)],
            }),
    {
        self.search_at("search", q, limit)
    }

    /// Searches the users for `q`.
    pub fn search_users(&self, q: &str, limit: Option<u32>) -> (r: Result<Request, ApiError>)
        ensures
            is_signed_get(self.spec_consumer(), self.spec_token(), r, "search/users"@, match limit {
                Some(l) => seq![("q"@, q@), ("limit"@, decimal(l as nat))],
                None => seq![("q"@, q@)],
            }),
    {
        self.search_at("search/users", q, limit)
    }

    /// A creator's profile.
    pub fn creator(&self, creator_id: u32) -> (r: Result<Request, ApiError>)
        ensures
            is_signed_get(self.spec_consumer(), self.spec_token(), r, item_path("creator"@, creator_id), Seq::empty()),
    {
        self.get(item_endpoint("creator", creator_id).as_str(), None)
    }

    /// A creator's films. Whether this list pages is not known, so it takes no
    /// paging parameters.
    pub fn creator_films(&self, creator_id: u32) -> (r: Result<Request, ApiError>)
        ensures
            is_signed_get(self.spec_consumer(), self.spec_token(), r, list_path("creator"@, creator_id, "films"@), Seq::empty()),
    {
        self.get(list_endpoint("creator", creator_id, "films").as_str(), None)
    }

    /// A page of a creator's videos.
    pub fn creator_videos(&self, creator_id: u32, offset: u32, limit: u32) -> (r: Result<Request, ApiError>)
        ensures
            is_signed_get(self.spec_consumer(), self.spec_token(), r, list_path("creator"@, creator_id, "videos"@), paging_query(offset, limit)),
    {
        self.get(list_endpoint("creator", creator_id, "videos").as_str(), Some(paging_params(offset, limit)))
    }

    /// A page of a creator's photos.
    pub fn creator_photos(&self, creator_id: u32, offset: u32, limit: u32) -> (r: Result<Request, ApiError>)
        ensures
            is_signed_get(self.spec_consumer(), self.spec_token(), r, list_path("creator"@, creator_id, "photos"@), paging_query(offset, limit)),
    {
        self.get(list_endpoint("creator", creator_id, "photos").as_str(), Some(paging_params(offset, limit)))
    }

    /// A film's profile.
    pub fn film(&self, film_id: u32) -> (r: Result<Request, ApiError>)
        ensures
            is_signed_get(self.spec_consumer(), self.spec_token(), r, item_path("film"@, film_id), Seq::empty()),
    {
        self.get(item_endpoint("film", film_id).as_str(), None)
    }

    fn film_media(&self, film_id: u32, list: &str, offset: u32, limit: u32, width: u32) -> (r: Result<Request, ApiError>)
        ensures
            is_signed_get(self.spec_consumer(), self.spec_token(), r, list_path("film"@, film_id, list@), media_query(offset, limit, width)),
    {
        let mut params = paging_params(offset, limit);
        let ghost before = params@;
        let w = decimal_string(width);
        let ghost wv = w@;
        params.insert(ParamKey::Width, w);
        assert(query_view(before.push((ParamKey::Width, wv))) =~= query_view(before).push(("width"@, wv)));
        assert(query_view(params@) =~= media_query(offset, limit, width));
        self.get(list_endpoint("film", film_id, list).as_str(), Some(params))
    }

    /// A page of a film's photos, at the given width.
    pub fn film_photos(&self, film_id: u32, offset: u32, limit: u32, width: u32) -> (r: Result<Request, ApiError>)
        ensures
            is_signed_get(self.spec_consumer(), self.spec_token(), r, list_path("film"@, film_id, "photos"@), media_query(offset, limit, width)),
    {
        self.film_media(film_id, "photos", offset, limit, width)
    }

    /// A page of a film's videos, at the given width.
    pub fn film_videos(&self, film_id: u32, offset: u32, limit: u32, width: u32) -> (r: Result<Request, ApiError>)
        ensures
            is_signed_get(self.spec_consumer(), self.spec_token(), r, list_path("film"@, film_id, "videos"@), media_query(offset, limit, width)),
    {
        self.film_media(film_id, "videos", offset, limit, width)
    }

    /// A page of a film's comments.
    pub fn film_comments(&self, film_id: u32, offset: u32, limit: u32) -> (r: Result<Request, ApiError>)
        ensures
            is_signed_get(self.spec_consumer(), self.spec_token(), r, list_path("film"@, film_id, "comments"@), paging_query(offset, limit)),
    {
        self.get(list_endpoint("film", film_id, "comments").as_str(), Some(paging_params(offset, limit)))
    }

    /// A page of a film's trivia.
    pub fn film_trivia(&self, film_id: u32, offset: u32, limit: u32) -> (r: Result<Request, ApiError>)
        ensures
            is_signed_get(self.spec_consumer(), self.spec_token(), r, list_path("film"@, film_id, "trivia"@), paging_query(offset, limit)),
    {
        self.get(list_endpoint("film", film_id, "trivia").as_str(), Some(paging_params(offset, limit)))
    }

    /// The creators of a film.
    pub fn film_creators(&self, film_id: u32) -> (r: Result<Request, ApiError>)
        ensures
            is_signed_get(self.spec_consumer(), self.spec_token(), r, list_path("film"@, film_id, "creators"@), Seq::empty()),
    {
        self.get(list_endpoint("film", film_id, "creators").as_str(), None)
    }

    /// The signed-in user's rating of a film.
    pub fn film_my_rating(&self, film_id: u32) -> (r: Result<Request, ApiError>)
        ensures
            is_signed_get(self.spec_consumer(), self.spec_token(), r, list_path("film"@, film_id, "my-rating"@), Seq::empty()),
    {
        self.get(list_endpoint("film", film_id, "my-rating").as_str(), None)
    }

    /// The signed-in user's comment on a film.
    pub fn film_my_comment(&self, film_id: u32) -> (r: Result<Request, ApiError>)
        ensures
            is_signed_get(self.spec_consumer(), self.spec_token(), r, list_path("film"@, film_id, "my-comment"@), Seq::empty()),
    {
        self.get(list_endpoint("film", film_id, "my-comment").as_str(), None)
    }
}

} // verus!
