//! HTTP method enumeration with case-sensitive parsing of the uppercase
//! verbs and of their all-lowercase forms.
use vstd::prelude::*;

use crate::error::Error;
use crate::strutil::{lower, str_eq};

verus! {

/// HTTP method.
#[derive(Clone, Copy, PartialEq, Eq, Structural, Debug)]
pub enum Method {
    /// HTTP GET method
    GET,
    /// HTTP POST method
    POST,
    /// HTTP PUT method
    PUT,
    /// HTTP DELETE method
    DELETE,
    /// HTTP HEAD method
    HEAD,
    /// HTTP OPTIONS method
    OPTIONS,
}

/// The canonical (uppercase) name of a method.
pub open spec fn method_name(m: Method) -> Seq<char> {
    match m {
        Method::GET => "GET"@,
        Method::POST => "POST"@,
        Method::PUT => "PUT"@,
        Method::DELETE => "DELETE"@,
        Method::HEAD => "HEAD"@,
        Method::OPTIONS => "OPTIONS"@,
    }
}

/// The method a string denotes: the uppercase form and the all-lowercase
/// form are accepted, every other string is rejected.
pub open spec fn parse_method(s: Seq<char>) -> Option<Method> {
    if s == "GET"@ || s == "get"@ {
        Some(Method::GET)
    } else if s == "POST"@ || s == "post"@ {
        Some(Method::POST)
    } else if s == "PUT"@ || s == "put"@ {
        Some(Method::PUT)
    } else if s == "DELETE"@ || s == "delete"@ {
        Some(Method::DELETE)
    } else if s == "HEAD"@ || s == "head"@ {
        Some(Method::HEAD)
    } else if s == "OPTIONS"@ || s == "options"@ {
        Some(Method::OPTIONS)
    } else {
        None
    }
}

impl Method {
    /// Converts a string to a `Method`.
    pub fn from(s: &str) -> (r: Result<Method, Error>)
        ensures
            match r {
                Ok(m) => parse_method(s@) == Some(m),
                Err(e) => parse_method(s@) is None && (e matches Error::Other(msg)
                    && msg@ == "Unsupported http method"@),
            },
    {
        if str_eq(s, "GET") || str_eq(s, "get") {
            Ok(Method::GET)
        } else if str_eq(s, "POST") || str_eq(s, "post") {
            Ok(Method::POST)
        } else if str_eq(s, "PUT") || str_eq(s, "put") {
            Ok(Method::PUT)
        } else if str_eq(s, "DELETE") || str_eq(s, "delete") {
            Ok(Method::DELETE)
        } else if str_eq(s, "HEAD") || str_eq(s, "head") {
            Ok(Method::HEAD)
        } else if str_eq(s, "OPTIONS") || str_eq(s, "options") {
            Ok(Method::OPTIONS)
        } else {
            Err(Error::Other("Unsupported http method".to_owned()))
        }
    }

    /// The canonical (uppercase) name of this method.
    pub fn name(&self) -> (r: &'static str)
        ensures
            r@ == method_name(*self),
    {
        match self {
            Method::GET => "GET",
            Method::POST => "POST",
            Method::PUT => "PUT",
            Method::DELETE => "DELETE",
            Method::HEAD => "HEAD",
            Method::OPTIONS => "OPTIONS",
        }
    }
}

/// Every supported verb parses back to itself, both in its canonical
/// uppercase form and in its all-lowercase form.
pub proof fn lemma_method_parse_roundtrip(m: Method)
    ensures
        parse_method(method_name(m)) == Some(m),
        parse_method(lower(method_name(m))) == Some(m),
{
    reveal_strlit("GET");
    reveal_strlit("get");
    reveal_strlit("POST");
    reveal_strlit("post");
    reveal_strlit("PUT");
    reveal_strlit("put");
    reveal_strlit("DELETE");
    reveal_strlit("delete");
    reveal_strlit("HEAD");
    reveal_strlit("head");
    reveal_strlit("OPTIONS");
    reveal_strlit("options");
    match m {
        Method::GET => {
            assert(lower("GET"@) =~= "get"@);
            assert(parse_method(method_name(m)) == Some(m));
            assert(parse_method(lower(method_name(m))) == Some(m));
        },
        Method::POST => {
            assert(lower("POST"@) =~= "post"@);
            assert(parse_method(method_name(m)) == Some(m));
            assert(parse_method(lower(method_name(m))) == Some(m));
        },
        Method::PUT => {
            assert(lower("PUT"@) =~= "put"@);
            assert("PUT"@[0] != "GET"@[0] && "PUT"@[0] != "get"@[0]);
            assert("PUT"@ != "GET"@ && "PUT"@ != "get"@);
            assert("put"@[0] != "GET"@[0] && "put"@[0] != "get"@[0]);
            assert("put"@ != "GET"@ && "put"@ != "get"@);
            assert(parse_method(method_name(m)) == Some(m));
            assert(parse_method(lower(method_name(m))) == Some(m));
        },
        Method::DELETE => {
            assert(lower("DELETE"@) =~= "delete"@);
            assert(parse_method(method_name(m)) == Some(m));
            assert(parse_method(lower(method_name(m))) == Some(m));
        },
        Method::HEAD => {
            assert(lower("HEAD"@) =~= "head"@);
            assert("HEAD"@[0] != "POST"@[0] && "HEAD"@[0] != "post"@[0]);
            assert("HEAD"@ != "POST"@ && "HEAD"@ != "post"@);
            assert("head"@[0] != "POST"@[0] && "head"@[0] != "post"@[0]);
            assert("head"@ != "POST"@ && "head"@ != "post"@);
            assert(parse_method(method_name(m)) == Some(m));
            assert(parse_method(lower(method_name(m))) == Some(m));
        },
        Method::OPTIONS => {
            assert(lower("OPTIONS"@) =~= "options"@);
            assert(parse_method(method_name(m)) == Some(m));
            assert(parse_method(lower(method_name(m))) == Some(m));
        },
    }
}

} // verus!
