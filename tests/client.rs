use csfd::client::Csfd;
use csfd::http::Method;
use csfd::requests::{HomeRequest, IdentityRequest};
use csfd::text::decimal_string;
use csfd::token::{ApiError, Token};
use csfd::types::{
    AutocompleteParams, CreatorParams, HomeData, HomeDataItem, HomeParams, NoParams, ParamKey, Params,
    Search, SearchParams,
};

fn pairs(p: &Params) -> Vec<(String, String)> {
    (0..p.len()).map(|i| { let (k, v) = p.entry(i); (k.to_string(), v) }).collect()
}

fn kv(k: &str, v: &str) -> (String, String) {
    (k.to_string(), v.to_string())
}

#[test]
fn decimal_of_numbers() {
    assert_eq!(decimal_string(0), "0");
    assert_eq!(decimal_string(7), "7");
    assert_eq!(decimal_string(1508), "1508");
    assert_eq!(decimal_string(u32::MAX), "4294967295");
}

#[test]
fn authorize_url_escapes_values() {
    assert_eq!(
        Csfd::get_authorize_url("ab c/d"),
        "https://android-api.csfd.cz/oauth/authorize?oauth_token=ab+c%2Fd&oauth_callback=csfdroid%3A%2F%2Foauth-callback"
    );
}

#[test]
fn get_builds_signed_request() {
    let mut client = Csfd::new("ckey", "csecret");
    client.set_access_token(Token::new("tok", "toksecret"));
    let req = client.film_photos(42, 10, 20, 300).unwrap();
    assert_eq!(req.method, Method::Get);
    assert_eq!(req.url, "https://android-api.csfd.cz/film/42/photos");
    assert_eq!(req.query, vec![kv("offset", "10"), kv("limit", "20"), kv("width", "300")]);
    let h = req.authorization.unwrap();
    assert!(h.starts_with("OAuth "));
    assert!(h.contains("oauth_token=\"tok\""));
    assert!(h.contains("oauth_consumer_key=\"ckey\""));
}

#[test]
fn unsigned_token_omitted_before_authorization() {
    let client = Csfd::new("ckey", "csecret");
    let h = client.identity().unwrap().authorization.unwrap();
    assert!(!h.contains("oauth_token="));
}

#[test]
fn two_signatures_differ_in_nonce() {
    let client = Csfd::new("ckey", "csecret");
    let a = client.film(1).unwrap().authorization.unwrap();
    let b = client.film(1).unwrap().authorization.unwrap();
    assert_ne!(a, b);
}

#[test]
fn endpoint_paths() {
    let c = Csfd::new("k", "s");
    assert_eq!(c.creator(5).unwrap().url, "https://android-api.csfd.cz/creator/5");
    assert_eq!(c.creator_films(5).unwrap().url, "https://android-api.csfd.cz/creator/5/films");
    assert_eq!(c.creator_videos(5, 0, 3).unwrap().query, vec![kv("offset", "0"), kv("limit", "3")]);
    assert_eq!(c.creator_photos(5, 1, 2).unwrap().url, "https://android-api.csfd.cz/creator/5/photos");
    assert_eq!(c.film_videos(9, 0, 1, 2).unwrap().url, "https://android-api.csfd.cz/film/9/videos");
    assert_eq!(c.film_comments(9, 0, 1).unwrap().url, "https://android-api.csfd.cz/film/9/comments");
    assert_eq!(c.film_trivia(9, 0, 1).unwrap().url, "https://android-api.csfd.cz/film/9/trivia");
    assert_eq!(c.film_creators(9).unwrap().url, "https://android-api.csfd.cz/film/9/creators");
    assert_eq!(c.film_my_rating(9).unwrap().url, "https://android-api.csfd.cz/film/9/my-rating");
    assert_eq!(c.film_my_comment(9).unwrap().url, "https://android-api.csfd.cz/film/9/my-comment");
    assert_eq!(c.identity().unwrap().url, "https://android-api.csfd.cz/identity");
}

#[test]
fn search_queries() {
    let c = Csfd::new("k", "s");
    let r = c.search("matrix", Some(5)).unwrap();
    assert_eq!(r.url, "https://android-api.csfd.cz/search");
    assert_eq!(r.query, vec![kv("q", "matrix"), kv("limit", "5")]);
    let r = c.search_users("neo", None).unwrap();
    assert_eq!(r.url, "https://android-api.csfd.cz/search/users");
    assert_eq!(r.query, vec![kv("q", "neo")]);
}

#[test]
fn home_query() {
    let c = Csfd::new("k", "s");
    let r = c.home(Some("tv_tips"), Some(3), None).unwrap();
    assert_eq!(r.url, "https://android-api.csfd.cz/home");
    assert_eq!(r.query, vec![kv("data", "tv_tips"), kv("limit", "3")]);
}

#[test]
fn params_insert_replaces() {
    let mut p = Params::new();
    p.insert(ParamKey::Limit, "1".to_string());
    p.insert(ParamKey::Offset, "2".to_string());
    p.insert(ParamKey::Limit, "3".to_string());
    assert_eq!(pairs(&p), vec![kv("limit", "3"), kv("offset", "2")]);
}

#[test]
fn builders_fill_params() {
    let p = CreatorParams::new().limit(10).offset(20).into_params();
    assert_eq!(pairs(&p), vec![kv("limit", "10"), kv("offset", "20")]);
    let p = SearchParams::new().query("x y").limit(255).into_params();
    assert_eq!(pairs(&p), vec![kv("q", "x y"), kv("limit", "255")]);
    let p = AutocompleteParams::new().query("ab").query("cd").into_params();
    assert_eq!(pairs(&p), vec![kv("q", "cd")]);
    assert_eq!(NoParams::new().into_params().len(), 0);
    let p = HomeParams::new().limit(4).creator_profile_visits_limit(2).data(HomeData::new().tv_tips().adverts()).into_params();
    assert_eq!(pairs(&p), vec![kv("limit", "4"), kv("creator_profile_visits_limit", "2"), kv("data", "tv_tips,adverts")]);
}

#[test]
fn home_data_all_in_order_without_duplicates() {
    let d = HomeData::new().dvd_releases().all();
    assert_eq!(
        d.to_string(),
        "dvd_releases,new_videos,tv_tips,cinema_releases,bluray_releases,film_profile_visits,creator_profile_visits,adverts"
    );
    assert_eq!(HomeData::new().to_string(), "");
    assert_eq!(HomeData::new().adverts().adverts().to_string(), "adverts");
    assert_eq!(HomeDataItem::CreatorProfileVisits.to_string(), "creator_profile_visits");
}

#[test]
fn search_names() {
    assert_eq!(Search::Films.to_string(), "films");
    assert_eq!(Search::Creators.to_string(), "creators");
    assert_eq!(Search::Users.to_string(), "users");
}

#[test]
fn error_messages() {
    assert_eq!(ApiError::NoOauthToken.to_string(), "Response did not contain oauth token.");
    assert_eq!(ApiError::RedirectLoopError, ApiError::RedirectLoopError);
}

#[test]
fn home_request_builder() {
    let mut c = Csfd::new("k", "s");
    c.set_access_token(Token::new("t", "ts"));
    let r = HomeRequest::new(&c).limit(7).data(HomeData::new().new_videos()).request().unwrap();
    assert_eq!(r.url, "https://android-api.csfd.cz/home");
    assert_eq!(r.query, vec![kv("limit", "7"), kv("data", "new_videos")]);
    assert!(r.authorization.unwrap().contains("oauth_token=\"t\""));
    let r = IdentityRequest::new(&c).request().unwrap();
    assert_eq!(r.url, "https://android-api.csfd.cz/identity");
    assert!(r.query.is_empty());
}

fn header_entries(h: &str) -> Vec<String> {
    assert!(h.starts_with("OAuth "));
    h["OAuth ".len()..].split(", ").map(String::from).collect()
}

#[test]
fn header_carries_protocol_parameters_sorted() {
    let mut c = Csfd::new("my key", "csecret");
    let e = header_entries(&c.film(1).unwrap().authorization.unwrap());
    assert_eq!(e.len(), 6);
    let mut sorted = e.clone();
    sorted.sort();
    assert_eq!(e, sorted);
    assert_eq!(e[0], "oauth_consumer_key=\"my%20key\"");
    assert!(e.contains(&"oauth_signature_method=\"HMAC-SHA1\"".to_string()));
    assert!(e.contains(&"oauth_version=\"1.0\"".to_string()));
    assert!(!e.iter().any(|x| x.starts_with("oauth_token=")));
    c.set_access_token(Token::new("t~k", "s"));
    let e = header_entries(&c.film(1).unwrap().authorization.unwrap());
    assert_eq!(e.len(), 7);
    assert!(e.contains(&"oauth_token=\"t~k\"".to_string()));
}
