use vstd::prelude::*;
use vstd::string::*;
use crate::text::{join3, str_eq};

verus! {

/// The name of the session cookie that the login pages set.
pub const SESSION_COOKIE_NAME: &'static str = "PHPSESSID";

/// The value with which the server clears the session cookie.
pub const DELETED_VALUE: &'static str = "deleted";

/// The characters of `s` before the first `c`; all of `s` if it holds none.
pub open spec fn until_char(s: Seq<char>, c: char) -> Seq<char>
    decreases s.len(),
{
    if s.len() == 0 {
        s
    } else if s[0] == c {
        Seq::empty()
    } else {
        seq![s[0]] + until_char(s.drop_first(), c)
    }
}

/// The characters of `s` after the first `c`, if it holds one.
pub open spec fn after_char(s: Seq<char>, c: char) -> Option<Seq<char>>
    decreases s.len(),
{
    if s.len() == 0 {
        None
    } else if s[0] == c {
        Some(s.drop_first())
    } else {
        after_char(s.drop_first(), c)
    }
}

/// The session id that one cookie-setting header carries: the header is read as
/// `name=value; attributes`; the name must be the session cookie's, and the
/// clearing value counts as no session.
pub open spec fn session_value(header: Seq<char>) -> Option<Seq<char>> {
    let first = until_char(header, ';');
    match after_char(first, '=') {
        None => None,
        Some(rest) => {
            let name = until_char(first, '=');
            let value = until_char(rest, '=');
            if name == SESSION_COOKIE_NAME@ && value != DELETED_VALUE@ {
                Some(value)
            } else {
                None
            }
        },
    }
}

/// The session id that a response's cookie-setting headers carry: only the first
/// header is read.
pub open spec fn session_of(headers: Seq<Seq<char>>) -> Option<Seq<char>> {
    if headers.len() == 0 {
        None
    } else {
        session_value(headers[0])
    }
}

proof fn lemma_split_at(s: Seq<char>, c: char, i: int)
    requires
        0 <= i <= s.len(),
        forall|j: int| 0 <= j < i ==> s[j] != c,
        i == s.len() || s[i] == c,
    ensures
        until_char(s, c) == s.subrange(0, i),
        after_char(s, c) == (if i == s.len() { None } else { Some(s.subrange(i + 1, s.len() as int)) }),
    decreases i,
{
    if i > 0 {
        let t = s.drop_first();
        assert forall|j: int| 0 <= j < i - 1 implies t[j] != c by {
            assert(t[j] == s[j + 1]);
        }
        lemma_split_at(t, c, i - 1);
        assert(t.subrange(0, i - 1) =~= s.subrange(1, i));
        assert(s.subrange(0, i) =~= seq![s[0]] + s.subrange(1, i));
        if i < s.len() {
            assert(t.subrange(i, t.len() as int) =~= s.subrange(i + 1, s.len() as int));
        }
    } else {
        assert(s.subrange(0, 0) =~= Seq::<char>::empty());
        if s.len() > 0 {
            assert(s.drop_first() =~= s.subrange(1, s.len() as int));
        }
    }
}

/// Splits `s` at its first `c`: what stands before it, and what stands after it
/// if there is one.
fn split_first<'a>(s: &'a str, c: char) -> (r: (&'a str, Option<&'a str>))
    ensures
        r.0@ == until_char(s@, c),
        r.1 matches Some(rest) ==> after_char(s@, c) == Some(rest@),
        r.1 is None ==> after_char(s@, c) is None,
{
    let n = s.unicode_len();
    let mut i: usize = 0;
    while i < n
        invariant
            n == s@.len(),
            i <= n,
            forall|j: int| 0 <= j < i ==> s@[j] != c,
        decreases n - i,
    {
        if s.get_char(i) == c {
            proof {
                lemma_split_at(s@, c, i as int);
            }
            return (s.substring_char(0, i), Some(s.substring_char(i + 1, n)));
        }
        i = i + 1;
    }
    proof {
        lemma_split_at(s@, c, n as int);
        assert(s@.subrange(0, n as int) =~= s@);
    }
    (s, None)
}

/// A session cookie: its name and value.
#[derive(Clone, Debug)]
pub struct SessionCookie {
    pub name: String,
    pub value: String,
}

impl SessionCookie {
    /// The cookie as a request header's value, `name=value`.
    pub open spec fn header_value_spec(&self) -> Seq<char> {
        self.name@ + "="@ + self.value@
    }

    /// The cookie as a request header's value, `name=value`.
    pub fn header_value(&self) -> (r: String)
        ensures
            r@ == self.name@ + "="@ + self.value@,
    {
        join3(self.name.as_str(), "=", self.value.as_str())
    }
}

/// Reads the session cookie from one cookie-setting header.
pub fn session_cookie_from_header(header: &str) -> (r: Option<SessionCookie>)
    ensures
        session_value(header@) matches Some(v) ==> (r matches Some(c) && c.name@
            == SESSION_COOKIE_NAME@ && c.value@ == v),
        session_value(header@) is None ==> r is None,
{
    let (first, _attributes) = split_first(header, ';');
    match split_first(first, '=') {
        (_, None) => None,
        (name, Some(rest)) => {
            let (value, _) = split_first(rest, '=');
            if str_eq(name, SESSION_COOKIE_NAME) && !str_eq(value, DELETED_VALUE) {
                Some(
                    SessionCookie {
                        name: String::from_str(SESSION_COOKIE_NAME),
                        value: String::from_str(value),
                    },
                )
            } else {
                None
            }
        },
    }
}

/// The view of a list of strings.
pub open spec fn strings_view(v: Seq<String>) -> Seq<Seq<char>> {
    v.map_values(|s: String| s@)
}

/// Reads the session cookie from a response's cookie-setting headers. Only the
/// first header counts; none, a different cookie, or the clearing value give no
/// session.
pub fn get_phpsessid_cookie_from_set_cookie(set_cookie: &Vec<String>) -> (r: Option<SessionCookie>)
    ensures
        session_of(strings_view(set_cookie@)) matches Some(v) ==> (r matches Some(c)
            && c.name@ == SESSION_COOKIE_NAME@ && c.value@ == v),
        session_of(strings_view(set_cookie@)) is None ==> r is None,
{
    if set_cookie.len() == 0 {
        None
    } else {
        session_cookie_from_header(set_cookie[0].as_str())
    }
}

} // verus!
