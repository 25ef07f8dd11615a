//! The immutable view of one incoming HTTP request: method, parsed URL,
//! case-insensitive headers, optional body bytes, and helpers for header,
//! cookie, query, and JSON-body access. Cookie parsing splits the header on
//! `;`, trims whitespace around each pair, and returns the value of the
//! first `name=value` pair that matches exactly.
use vstd::prelude::*;

use vstd::string::{StrSliceExecFns, StringExecFns};
use crate::error::Error;
use crate::headers::{header_lookup, Headers};
use crate::json::{json_from_slice, json_value_of};
use crate::method::Method;
use crate::strutil::{is_space, is_space_char, starts_with};

verus! {

#[verifier::external_type_specification]
#[verifier::external_body]
pub struct ExUrl(url::Url);

/// The decoded query key/value pairs of a parsed URL, in order, as
/// url::Url::query_pairs yields them.
pub uninterp spec fn url_pairs_of(u: url::Url) -> Seq<(Seq<char>, Seq<char>)>;

/// The string form of a parsed URL, as url::Url::as_str returns it.
pub uninterp spec fn url_str_of(u: url::Url) -> Seq<char>;

/// Relies on url::Url::query_pairs: the request's query parameters as
/// decoded key/value pairs, in order, a function of the URL alone.
#[verifier::external_body]
pub(crate) fn url_query_pairs(u: &url::Url) -> (r: Vec<(String, String)>)
    ensures
        crate::headers::pairs_view(r@) == url_pairs_of(*u),
{
    u.query_pairs().map(|(k, v)| (k.into_owned(), v.into_owned())).collect()
}

/// Relies on url::Url::as_str: the URL as a string, a function of the URL
/// alone.
#[verifier::external_body]
pub(crate) fn url_str(u: &url::Url) -> (r: String)
    ensures
        r@ == url_str_of(*u),
{
    u.as_str().to_string()
}

/// If `part` is of the form `name=value`, the `value`; otherwise nothing.
pub open spec fn cookie_value_spec(part: Seq<char>, name: Seq<char>) -> Option<Seq<char>> {
    if part.len() > name.len() && part.subrange(0, name.len() as int) == name && part[name.len() as int]
        == '=' {
        Some(part.skip(name.len() + 1 as int))
    } else {
        None
    }
}

/// The part of `s` after its leading whitespace.
pub open spec fn trim_start_spec(s: Seq<char>) -> Seq<char>
    decreases s.len(),
{
    if s.len() > 0 && is_space(s[0]) {
        trim_start_spec(s.skip(1))
    } else {
        s
    }
}

/// The part of `s` before its trailing whitespace.
pub open spec fn trim_end_spec(s: Seq<char>) -> Seq<char>
    decreases s.len(),
{
    if s.len() > 0 && is_space(s[s.len() - 1]) {
        trim_end_spec(s.take(s.len() - 1))
    } else {
        s
    }
}

/// `s` without surrounding whitespace.
pub open spec fn trim_spec(s: Seq<char>) -> Seq<char> {
    trim_end_spec(trim_start_spec(s))
}

/// The index of the first `;` in `s`, or the length of `s` if there is
/// none.
pub open spec fn first_semi(s: Seq<char>) -> int
    decreases s.len(),
{
    if s.len() == 0 {
        0
    } else if s[0] == ';' {
        0
    } else {
        1 + first_semi(s.skip(1))
    }
}

/// The value of the first `;`-separated pair of `s` that, after trimming
/// surrounding whitespace, is of the form `name=value`.
pub open spec fn cookie_lookup(s: Seq<char>, name: Seq<char>) -> Option<Seq<char>>
    decreases s.len(),
{
    let k = first_semi(s);
    if k < 0 || k >= s.len() {
        cookie_value_spec(trim_spec(s), name)
    } else {
        match cookie_value_spec(trim_spec(s.take(k)), name) {
            Some(v) => Some(v),
            None => cookie_lookup(s.skip(k + 1), name),
        }
    }
}

/// A scan that finds no `;` before `k`, and one at `k` unless `k` is the
/// length, has found `first_semi`.
proof fn lemma_first_semi_from_scan(s: Seq<char>, k: int)
    requires
        0 <= k <= s.len(),
        forall|j: int| 0 <= j < k ==> s[j] != ';',
        k < s.len() ==> s[k] == ';',
    ensures
        first_semi(s) == k,
    decreases k,
{
    if k == 0 {
    } else {
        assert(s[0] != ';');
        lemma_first_semi_from_scan(s.skip(1), k - 1);
    }
}

/// A scan over leading whitespace that stops at the first non-whitespace
/// character has found `trim_start_spec`.
proof fn lemma_trim_start_from_scan(s: Seq<char>, a: int)
    requires
        0 <= a <= s.len(),
        forall|j: int| 0 <= j < a ==> is_space(s[j]),
        a < s.len() ==> !is_space(s[a]),
    ensures
        trim_start_spec(s) == s.skip(a),
    decreases a,
{
    if a == 0 {
        assert(trim_start_spec(s) =~= s.skip(0));
    } else {
        assert(is_space(s[0]));
        lemma_trim_start_from_scan(s.skip(1), a - 1);
        assert(s.skip(1).skip(a - 1) =~= s.skip(a));
    }
}

/// A scan over trailing whitespace that stops at the last non-whitespace
/// character has found `trim_end_spec`.
proof fn lemma_trim_end_from_scan(s: Seq<char>, b: int)
    requires
        0 <= b <= s.len(),
        forall|j: int| b <= j < s.len() ==> is_space(s[j]),
        b > 0 ==> !is_space(s[b - 1]),
    ensures
        trim_end_spec(s) == s.take(b),
    decreases s.len() - b,
{
    if b == s.len() {
        assert(trim_end_spec(s) =~= s.take(b));
    } else {
        assert(is_space(s[s.len() - 1]));
        lemma_trim_end_from_scan(s.take(s.len() - 1), b);
        assert(s.take(s.len() - 1).take(b) =~= s.take(b));
    }
}

/// If 'part' is of the form 'name=value', returns the value.
pub fn cookie_value<'a>(part: &'a str, name: &str) -> (r: Option<&'a str>)
    ensures
        match r {
            Some(v) => cookie_value_spec(part@, name@) == Some(v@),
            None => cookie_value_spec(part@, name@) is None,
        },
{
    let pl = part.unicode_len();
    let nl = name.unicode_len();
    if pl > nl && starts_with(part, name) {
        if part.get_char(nl) == '=' {
            let v = part.substring_char(nl + 1, pl);
            proof {
                assert(v@ =~= part@.skip(nl + 1 as int));
            }
            Some(v)
        } else {
            None
        }
    } else {
        None
    }
}

/// The mathematical value of a `Request`.
pub struct RequestView {
    /// the HTTP method
    pub method: Method,
    /// the parsed URL
    pub url: url::Url,
    /// the header set
    pub headers: Seq<(Seq<char>, Seq<char>)>,
    /// the body bytes, if a body was sent
    pub body: Option<Seq<u8>>,
}

/// Incoming HTTP request.
#[derive(Debug)]
pub struct Request {
    method: Method,
    url: url::Url,
    headers: Headers,
    body: Option<Vec<u8>>,
}

impl View for Request {
    type V = RequestView;

    closed spec fn view(&self) -> RequestView {
        RequestView {
            method: self.method,
            url: self.url,
            headers: self.headers@,
            body: match self.body {
                Some(b) => Some(b@),
                None => None,
            },
        }
    }
}

impl Request {
    /// Creates a request from its parts.
    pub fn new(method: Method, url: url::Url, headers: Headers, body: Option<Vec<u8>>) -> (r:
        Request)
        ensures
            r@.method == method,
            r@.url == url,
            r@.headers == headers@,
            match body {
                Some(b) => r@.body == Some(b@),
                None => r@.body is None,
            },
    {
        Request { method, url, headers, body }
    }

    /// The HTTP method.
    pub fn method(&self) -> (r: Method)
        ensures
            r == self@.method,
    {
        self.method
    }

    /// The parsed URL.
    pub fn url(&self) -> (r: &url::Url)
        ensures
            *r == self@.url,
    {
        &self.url
    }

    /// The request headers.
    pub fn headers(&self) -> (r: &Headers)
        ensures
            r@ == self@.headers,
    {
        &self.headers
    }

    /// The value of the named header, matched without regard to ASCII
    /// case, or `None` if it is absent.
    pub fn get_header(&self, name: &str) -> (r: Option<String>)
        ensures
            match r {
                Some(v) => header_lookup(self@.headers, name@) == Some(v@),
                None => header_lookup(self@.headers, name@) is None,
            },
    {
        self.headers.get(name)
    }

    /// True if the named header is present, matched without regard to
    /// ASCII case.
    pub fn has_header(&self, name: &str) -> (r: bool)
        ensures
            r == (header_lookup(self@.headers, name@) is Some),
    {
        self.headers.has(name)
    }

    /// The request body, or `None` if no body was sent.
    pub fn body(&self) -> (r: Option<&Vec<u8>>)
        ensures
            match r {
                Some(b) => self@.body == Some(b@),
                None => self@.body is None,
            },
    {
        self.body.as_ref()
    }

    /// Interprets the body as a JSON value. An absent body is rejected
    /// outright; a present body yields exactly the value its bytes parse
    /// to, and fails only when they are not valid JSON.
    pub fn json(&self) -> (r: Result<serde_json::Value, Error>)
        ensures
            self@.body is None ==> (r matches Err(e) && (e matches Error::Other(m) && m@
                == "body is empty"@)),
            self@.body matches Some(b) ==> match json_value_of(b) {
                Some(v) => r == Ok::<serde_json::Value, Error>(v),
                None => r matches Err(e) && e matches Error::Json(_),
            },
    {
        match &self.body {
            Some(bytes) => match json_from_slice(bytes.as_slice()) {
                Ok(v) => Ok(v),
                Err(m) => Err(Error::Json(m)),
            },
            None => Err(Error::Other("body is empty".to_owned())),
        }
    }

    /// The value of the named cookie in the `Cookie` header: pairs are
    /// separated by `;`, whitespace around each pair is trimmed, and the
    /// first exact name match wins. An empty value yields `Some("")`.
    pub fn get_cookie_value(&self, cookie_name: &str) -> (r: Option<String>)
        ensures
            match header_lookup(self@.headers, "cookie"@) {
                None => r is None,
                Some(h) => match cookie_lookup(h, cookie_name@) {
                    Some(v) => r matches Some(s) && s@ == v,
                    None => r is None,
                },
            },
    {
        let c: String = match self.get_header("cookie") {
            Some(v) => v,
            None => {
                return None;
            },
        };
        let s: &str = c.as_str();
        let n = s.unicode_len();
        let mut start: usize = 0;
        proof {
            assert(s@.skip(0) =~= s@);
        }
        loop
            invariant
                n == s@.len(),
                start <= n,
                header_lookup(self@.headers, "cookie"@) == Some(s@),
                cookie_lookup(s@, cookie_name@) == cookie_lookup(
                    s@.skip(start as int),
                    cookie_name@,
                ),
            decreases n - start,
        {
            let ghost rest = s@.skip(start as int);
            // find the next `;`
            let mut k: usize = start;
            while k < n && s.get_char(k) != ';'
                invariant
                    n == s@.len(),
                    start <= k <= n,
                    forall|j: int| start <= j < k ==> s@[j] != ';',
                decreases n - k,
            {
                k = k + 1;
            }
            proof {
                assert forall|j: int| 0 <= j < k - start implies rest[j] != ';' by {
                    assert(rest[j] == s@[start + j]);
                }
                if k < n {
                    assert(rest[k - start] == s@[k as int]);
                }
                lemma_first_semi_from_scan(rest, k - start);
            }
            // trim whitespace around the segment [start, k)
            let mut a: usize = start;
            while a < k && is_space_char(s.get_char(a))
                invariant
                    n == s@.len(),
                    k <= n,
                    start <= a <= k,
                    forall|j: int| start <= j < a ==> is_space(s@[j]),
                decreases k - a,
            {
                a = a + 1;
            }
            let mut b: usize = k;
            while b > a && is_space_char(s.get_char(b - 1))
                invariant
                    n == s@.len(),
                    k <= n,
                    a <= b <= k,
                    forall|j: int| b <= j < k ==> is_space(s@[j]),
                decreases b - a,
            {
                b = b - 1;
            }
            let ghost seg = s@.subrange(start as int, k as int);
            proof {
                assert forall|j: int| 0 <= j < a - start implies is_space(seg[j]) by {
                    assert(seg[j] == s@[start + j]);
                }
                if a < k {
                    assert(seg[a - start] == s@[a as int]);
                }
                lemma_trim_start_from_scan(seg, a - start);
                let seg2 = seg.skip(a - start);
                assert forall|j: int| b - a <= j < seg2.len() implies is_space(seg2[j]) by {
                    assert(seg2[j] == s@[a + j]);
                }
                if b > a {
                    assert(seg2[b - a - 1] == s@[b - 1]);
                }
                lemma_trim_end_from_scan(seg2, b - a);
                assert(trim_spec(seg) =~= s@.subrange(a as int, b as int));
            }
            let part = s.substring_char(a, b);
            proof {
                assert(part@ =~= trim_spec(seg));
                if k == n {
                    assert(rest =~= seg);
                } else {
                    assert(rest.take(k - start) =~= seg);
                }
            }
            let found = cookie_value(part, cookie_name);
            if let Some(v) = found {
                proof {
                    assert(cookie_lookup(rest, cookie_name@) == Some(v@));
                }
                return Some(v.to_owned());
            }
            if k == n {
                proof {
                    assert(cookie_lookup(rest, cookie_name@) is None);
                }
                return None;
            }
            proof {
                assert(rest.skip(k - start + 1) =~= s@.skip(k + 1 as int));
                assert(cookie_lookup(rest, cookie_name@) == cookie_lookup(
                    s@.skip(k + 1 as int),
                    cookie_name@,
                ));
            }
            start = k + 1;
        }
    }

    /// The value of the first query parameter with the given key: the
    /// first of the URL's decoded key/value pairs whose key matches
    /// exactly, or `None` if no pair matches.
    pub fn get_query_value(&self, key: &str) -> (r: Option<String>)
        ensures
            match r {
                Some(v) => query_lookup(url_pairs_of(self@.url), key@) == Some(v@),
                None => query_lookup(url_pairs_of(self@.url), key@) is None,
            },
    {
        let pairs = url_query_pairs(&self.url);
        query_value(&pairs, key)
    }
}

/// The value of the first pair whose key equals `key`, if any.
pub open spec fn query_lookup(pairs: Seq<(Seq<char>, Seq<char>)>, key: Seq<char>) -> Option<
    Seq<char>,
>
    decreases pairs.len(),
{
    if pairs.len() == 0 {
        None
    } else if pairs[0].0 == key {
        Some(pairs[0].1)
    } else {
        query_lookup(pairs.skip(1), key)
    }
}

/// Returns the value of the first pair whose key equals `key` exactly, or
/// `None` if no pair matches.
pub fn query_value(pairs: &Vec<(String, String)>, key: &str) -> (r: Option<String>)
    ensures
        match r {
            Some(v) => query_lookup(crate::headers::pairs_view(pairs@), key@) == Some(v@),
            None => query_lookup(crate::headers::pairs_view(pairs@), key@) is None,
        },
{
    let ghost pv = crate::headers::pairs_view(pairs@);
    proof {
        assert(pv.skip(0) =~~= pv);
    }
    let n = pairs.len();
    let mut i: usize = 0;
    while i < n
        invariant
            n == pairs@.len(),
            i <= n,
            pv == crate::headers::pairs_view(pairs@),
            pv.len() == n,
            query_lookup(pv, key@) == query_lookup(pv.skip(i as int), key@),
        decreases n - i,
    {
        proof {
            assert(pv.skip(i as int)[0] == pv[i as int]);
            assert(pv.skip(i as int).skip(1) =~~= pv.skip(i + 1));
        }
        if crate::strutil::str_eq(pairs[i].0.as_str(), key) {
            return Some(pairs[i].1.clone());
        }
        i = i + 1;
    }
    proof {
        assert(pv.skip(n as int) =~~= Seq::<(Seq<char>, Seq<char>)>::empty());
    }
    None
}


} // verus!
