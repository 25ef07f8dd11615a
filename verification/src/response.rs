//! The outgoing-response builder: status, optional headers, buffered body,
//! and an explicit "unset" flag that distinguishes "no handler answered"
//! from "a handler answered with an empty body". Payload operations
//! (status, body, text, json) clear the flag; header operations never do.
use vstd::prelude::*;

use vstd::string::StrSliceExecFns;
use vstd::utf8::encode_utf8;
use crate::error::Error;
use crate::headers::{header_set, Headers};
use crate::json::{json_bytes_of, json_to_vec};
use crate::strutil::lower;

verus! {

/// The mathematical value of a `Response`.
#[verifier::ext_equal]
pub struct ResponseView {
    /// HTTP status code
    pub status: u16,
    /// the header set, absent until the first header operation
    pub headers: Option<Seq<(Seq<char>, Seq<char>)>>,
    /// body bytes
    pub body: Seq<u8>,
    /// true until a payload operation is applied
    pub unset: bool,
}

/// A fresh response: status 200, no headers, empty body, unset.
pub open spec fn init_response() -> ResponseView {
    ResponseView { status: 200, headers: None, body: Seq::empty(), unset: true }
}

/// One builder operation on a response.
pub enum ResponseOp {
    /// set the status code
    Status(u16),
    /// set the body to bytes
    Body(Seq<u8>),
    /// set the body to the UTF-8 bytes of a string
    Text(Seq<char>),
    /// set the body to serialized JSON bytes and the content type
    Json(Seq<u8>),
    /// set one header
    Header(Seq<char>, Seq<char>),
}

/// Whether an operation touches the payload (and so claims the response).
pub open spec fn op_sets_payload(op: ResponseOp) -> bool {
    !(op is Header)
}

/// The header set after setting one name/value pair, creating the set on
/// first use.
pub open spec fn headers_after_set(
    h: Option<Seq<(Seq<char>, Seq<char>)>>,
    name: Seq<char>,
    value: Seq<char>,
) -> Option<Seq<(Seq<char>, Seq<char>)>> {
    match h {
        Some(hs) => Some(header_set(hs, name, value)),
        None => Some(header_set(Seq::empty(), name, value)),
    }
}

/// The response after one builder operation.
pub open spec fn apply_op(v: ResponseView, op: ResponseOp) -> ResponseView {
    match op {
        ResponseOp::Status(s) => ResponseView {
            status: s,
            headers: v.headers,
            body: v.body,
            unset: false,
        },
        ResponseOp::Body(b) => ResponseView {
            status: v.status,
            headers: v.headers,
            body: b,
            unset: false,
        },
        ResponseOp::Text(t) => ResponseView {
            status: v.status,
            headers: v.headers,
            body: encode_utf8(t),
            unset: false,
        },
        ResponseOp::Json(b) => ResponseView {
            status: v.status,
            headers: headers_after_set(v.headers, "Content-Type"@, "application/json"@),
            body: b,
            unset: false,
        },
        ResponseOp::Header(name, value) => ResponseView {
            status: v.status,
            headers: headers_after_set(v.headers, name, value),
            body: v.body,
            unset: v.unset,
        },
    }
}

/// The response after a sequence of builder operations, applied in order.
pub open spec fn apply_ops(v: ResponseView, ops: Seq<ResponseOp>) -> ResponseView
    decreases ops.len(),
{
    if ops.len() == 0 {
        v
    } else {
        apply_ops(apply_op(v, ops[0]), ops.skip(1))
    }
}

/// A sequence of header-only operations never clears the unset flag.
pub proof fn lemma_unset_monotonic(v: ResponseView, ops: Seq<ResponseOp>)
    requires
        v.unset,
        forall|i: int| 0 <= i < ops.len() ==> !op_sets_payload(#[trigger] ops[i]),
    ensures
        apply_ops(v, ops).unset,
    decreases ops.len(),
{
    if ops.len() > 0 {
        lemma_unset_monotonic(apply_op(v, ops[0]), ops.skip(1));
    }
}

/// Once the unset flag is cleared, no later operation restores it.
pub proof fn lemma_unset_never_restored(v: ResponseView, ops: Seq<ResponseOp>)
    requires
        !v.unset,
    ensures
        !apply_ops(v, ops).unset,
    decreases ops.len(),
{
    if ops.len() > 0 {
        lemma_unset_never_restored(apply_op(v, ops[0]), ops.skip(1));
    }
}

/// A sequence containing at least one payload operation leaves the unset
/// flag cleared, wherever that operation stands.
pub proof fn lemma_payload_clears_unset(v: ResponseView, ops: Seq<ResponseOp>)
    requires
        exists|i: int| 0 <= i < ops.len() && op_sets_payload(#[trigger] ops[i]),
    ensures
        !apply_ops(v, ops).unset,
    decreases ops.len(),
{
    let i = choose|i: int| 0 <= i < ops.len() && op_sets_payload(#[trigger] ops[i]);
    if i == 0 {
        lemma_unset_never_restored(apply_op(v, ops[0]), ops.skip(1));
    } else {
        assert(0 <= i - 1 < ops.skip(1).len() && op_sets_payload(ops.skip(1)[i - 1]));
        lemma_payload_clears_unset(apply_op(v, ops[0]), ops.skip(1));
    }
}

/// The body of a `Response`: a buffer of bytes.
#[derive(Debug)]
pub struct Body {
    inner: Vec<u8>,
}

impl View for Body {
    type V = Seq<u8>;

    closed spec fn view(&self) -> Seq<u8> {
        self.inner@
    }
}

impl Body {
    /// An empty body.
    pub fn empty() -> (r: Body)
        ensures
            r@ == Seq::<u8>::empty(),
    {
        let r = Body { inner: Vec::new() };
        proof {
            assert(r@ =~= Seq::<u8>::empty());
        }
        r
    }

    /// A body holding the given bytes.
    pub fn from_vec(v: Vec<u8>) -> (r: Body)
        ensures
            r@ == v@,
    {
        Body { inner: v }
    }

    /// A body holding the UTF-8 bytes of the given string.
    pub fn from_text(s: &str) -> (r: Body)
        ensures
            r@ == encode_utf8(s@),
    {
        Body { inner: s.as_bytes_vec() }
    }

    /// True if the body is empty.
    pub fn is_empty(&self) -> (r: bool)
        ensures
            r == (self@.len() == 0),
    {
        self.inner.len() == 0
    }

    /// The body's bytes.
    pub fn as_slice(&self) -> (r: &[u8])
        ensures
            r@ == self@,
    {
        self.inner.as_slice()
    }
}

/// Worker response for HTTP requests, created and accessed through the
/// context and built through a chaining builder api.
#[derive(Debug)]
pub struct Response {
    status: u16,
    headers: Option<Headers>,
    body: Body,
    unset: bool,
}

impl View for Response {
    type V = ResponseView;

    closed spec fn view(&self) -> ResponseView {
        ResponseView {
            status: self.status,
            headers: match self.headers {
                Some(h) => Some(h@),
                None => None,
            },
            body: self.body@,
            unset: self.unset,
        }
    }
}

impl Default for Response {
    /// A fresh, unset response.
    fn default() -> (r: Response)
        ensures
            r@ == init_response(),
    {
        let r = Response { status: 200, headers: None, body: Body::empty(), unset: true };
        proof {
            assert(r@ =~~= init_response());
        }
        r
    }
}

impl Response {
    /// Sets the response status and claims the response.
    pub fn status(&mut self, status: u16) -> (r: &mut Response)
        ensures
            r@ == apply_op(old(self)@, ResponseOp::Status(status)),
            *final(self) == *final(r),
    {
        self.status = status;
        self.unset = false;
        proof {
            assert(self@ =~~= apply_op(old(self)@, ResponseOp::Status(status)));
        }
        self
    }

    /// Sets the response body to the given binary data and claims the
    /// response.
    pub fn body(&mut self, body: Body) -> (r: &mut Response)
        ensures
            r@ == apply_op(old(self)@, ResponseOp::Body(body@)),
            *final(self) == *final(r),
    {
        let ghost b = body@;
        self.body = body;
        self.unset = false;
        proof {
            assert(self@ =~~= apply_op(old(self)@, ResponseOp::Body(b)));
        }
        self
    }

    /// Sets the response body to the UTF-8 bytes of the given text and
    /// claims the response.
    pub fn text(&mut self, text: &str) -> (r: &mut Response)
        ensures
            r@ == apply_op(old(self)@, ResponseOp::Text(text@)),
            *final(self) == *final(r),
    {
        self.body = Body::from_text(text);
        self.unset = false;
        proof {
            assert(self@ =~~= apply_op(old(self)@, ResponseOp::Text(text@)));
        }
        self
    }

    /// Sets a header for this response, creating the header set on first
    /// use. A non-ASCII value is rejected and the response is unchanged;
    /// in particular the unset flag never changes.
    pub fn header(&mut self, key: &str, val: &str) -> (r: Result<&mut Response, Error>)
        ensures
            match r {
                Ok(out) => vstd::string::is_ascii(val) && out@ == apply_op(
                    old(self)@,
                    ResponseOp::Header(key@, val@),
                ) && *final(self) == *final(out),
                Err(e) => !vstd::string::is_ascii(val) && *final(self) == *old(self) && (
                e matches Error::InvalidHeaderValue(v) && v@ == val@),
            },
    {
        if !val.is_ascii() {
            return Err(Error::InvalidHeaderValue(val.to_owned()));
        }
        match &mut self.headers {
            Some(h) => {
                h.set(key, val);
            },
            None => {
                let mut h = Headers::new();
                h.set(key, val);
                self.headers = Some(h);
            },
        }
        proof {
            assert(self@ =~~= apply_op(old(self)@, ResponseOp::Header(key@, val@)));
        }
        Ok(self)
    }

    /// Sets the response content type.
    pub fn content_type(&mut self, ctype: &str) -> (r: Result<&mut Response, Error>)
        ensures
            match r {
                Ok(out) => vstd::string::is_ascii(ctype) && out@ == apply_op(
                    old(self)@,
                    ResponseOp::Header("Content-Type"@, ctype@),
                ) && *final(self) == *final(out),
                Err(e) => !vstd::string::is_ascii(ctype) && *final(self) == *old(self) && (
                e matches Error::InvalidHeaderValue(v) && v@ == ctype@),
            },
    {
        self.header("Content-Type", ctype)
    }

    /// Sets the response body to the serialized JSON bytes of the value,
    /// sets the content type to `application/json`, and claims the
    /// response. Fails, leaving the response unchanged, exactly when
    /// serialization fails.
    pub fn json(&mut self, value: &serde_json::Value) -> (r: Result<&mut Response, Error>)
        ensures
            match json_bytes_of(*value) {
                Some(b) => r matches Ok(out) && out@ == apply_op(old(self)@, ResponseOp::Json(b))
                    && *final(self) == *final(out),
                None => r matches Err(e) && *final(self) == *old(self) && e matches Error::Json(
                    _,
                ),
            },
    {
        match json_to_vec(value) {
            Ok(bytes) => {
                let ghost b = bytes@;
                self.body = Body::from_vec(bytes);
                self.unset = false;
                match &mut self.headers {
                    Some(h) => {
                        h.set("Content-Type", "application/json");
                    },
                    None => {
                        let mut h = Headers::new();
                        h.set("Content-Type", "application/json");
                        self.headers = Some(h);
                    },
                }
                proof {
                    assert(self@ =~~= apply_op(old(self)@, ResponseOp::Json(b)));
                }
                Ok(self)
            },
            Err(m) => Err(Error::Json(m)),
        }
    }

    /// Returns the status of this response.
    pub fn get_status(&self) -> (r: u16)
        ensures
            r == self@.status,
    {
        self.status
    }

    /// Returns the body of this response.
    pub fn get_body(&self) -> (r: &[u8])
        ensures
            r@ == self@.body,
    {
        self.body.as_slice()
    }

    /// Returns the headers of this response, or `None` if no header has
    /// been set.
    pub fn get_headers(&self) -> (r: Option<&Headers>)
        ensures
            match r {
                Some(h) => self@.headers == Some(h@),
                None => self@.headers is None,
            },
    {
        self.headers.as_ref()
    }

    /// True if the body is empty.
    pub fn is_empty(&self) -> (r: bool)
        ensures
            r == (self@.body.len() == 0),
    {
        self.body.is_empty()
    }

    /// True if the response has not been filled in: none of the payload
    /// operations (status, body, text, json) has been applied since
    /// construction. Header operations alone leave this true, so a handler
    /// can set preamble headers without claiming the response.
    pub fn is_unset(&self) -> (r: bool)
        ensures
            r == self@.unset,
    {
        self.unset
    }
}

} // verus!
