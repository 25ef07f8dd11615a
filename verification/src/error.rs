//! The library's failure taxonomy, and readable messages for each variant.
use vstd::prelude::*;

use vstd::string::StringExecFns;
use crate::strutil::{decimal_string, spec_decimal};

verus! {

/// Errors generated by this crate.
#[derive(Debug)]
pub enum Error {
    /// Error serializing or deserializing a request, response, or log message
    Json(String),
    /// Error converting parameters to or from host values
    Js(String),
    /// Error in an external http sub-request
    Http(String),
    /// Error deserializing an asset index
    DeserializeAssets(String),
    /// Invalid header value (contains non-ascii characters)
    InvalidHeaderValue(String),
    /// No static asset is available at this path
    NoStaticAsset(String),
    /// KV asset not found
    KVKeyNotFound(String, u16),
    /// Error received from the storage API while performing a KV request
    KVApi(String),
    /// Catch-all
    Other(String),
}

/// The readable message of an error: the variant's payload behind a short
/// prefix naming the failure kind; the catch-all message is its payload
/// alone.
pub open spec fn spec_message(e: Error) -> Seq<char> {
    match e {
        Error::Json(m) => "json error: "@ + m@,
        Error::Js(m) => "javascript error: "@ + m@,
        Error::Http(m) => "http error: "@ + m@,
        Error::DeserializeAssets(m) => "asset index error: "@ + m@,
        Error::InvalidHeaderValue(v) => "invalid header value: "@ + v@,
        Error::NoStaticAsset(p) => "no static asset: "@ + p@,
        Error::KVKeyNotFound(p, s) => "kv key not found: "@ + p@ + " status "@ + spec_decimal(
            s as int,
        ),
        Error::KVApi(m) => "kv api error: "@ + m@,
        Error::Other(m) => m@,
    }
}

impl Error {
    /// A readable message for this error.
    pub fn message(&self) -> (r: String)
        ensures
            r@ == spec_message(*self),
    {
        match self {
            Error::Json(m) => "json error: ".to_owned().concat(m.as_str()),
            Error::Js(m) => "javascript error: ".to_owned().concat(m.as_str()),
            Error::Http(m) => "http error: ".to_owned().concat(m.as_str()),
            Error::DeserializeAssets(m) => "asset index error: ".to_owned().concat(m.as_str()),
            Error::InvalidHeaderValue(v) => "invalid header value: ".to_owned().concat(v.as_str()),
            Error::NoStaticAsset(p) => "no static asset: ".to_owned().concat(p.as_str()),
            Error::KVKeyNotFound(p, s) => "kv key not found: ".to_owned().concat(p.as_str())
                .concat(" status ").concat(decimal_string(*s).as_str()),
            Error::KVApi(m) => "kv api error: ".to_owned().concat(m.as_str()),
            Error::Other(m) => m.clone(),
        }
    }
}

impl From<String> for Error {
    fn from(msg: String) -> (r: Error)
        ensures
            r == Error::Other(msg),
    {
        Error::Other(msg)
    }
}

impl vstd::std_specs::convert::FromSpecImpl<String> for Error {
    open spec fn obeys_from_spec() -> bool {
        true
    }

    open spec fn from_spec(msg: String) -> Error {
        Error::Other(msg)
    }
}

} // verus!
