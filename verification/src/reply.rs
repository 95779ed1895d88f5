//! Error responses: how an error of the protocol, and any error of the
//! runtime, goes out on the wire.

use crate::envelope::{json_headers, HttpResponse, ServiceResponse};
use crate::error::{ProstTwirpError, TwirpError};
use crate::headers::{
    all_visible_ascii, header_entries, headers_insert, headers_new, value_from_static,
    value_from_u64, StandardHeader,
};
use crate::json::{empty_object, error_frame, json_string_text};
use crate::meta::{StatusCode, Version};
use hyper::header::HeaderValue;
use hyper::HeaderMap;
use vstd::prelude::*;

verus! {

/// The headers of an error response with a body of `len` bytes.
fn error_headers(len: usize) -> (headers: HeaderMap<HeaderValue>)
    ensures
        header_entries(headers) == json_headers(len as nat),
{
    proof {
        reveal_strlit("application/json");
        assert(all_visible_ascii("application/json"@));
    }
    let mut headers = headers_new();
    headers_insert(
        &mut headers,
        StandardHeader::ContentType,
        value_from_static("application/json"),
    );
    proof {
        let names = header_entries(headers).dom();
        assert(names =~= Set::<Seq<char>>::empty().insert("content-type"@));
        assert(names.len() == 1);
    }
    headers_insert(&mut headers, StandardHeader::ContentLength, value_from_u64(len as u64));
    headers
}

/// The error that answers a request body that is no message: 400,
/// `protobuf_decode_err`.
pub fn invalid_body_error() -> (e: TwirpError)
    ensures
        e.status.code == 400,
        e.code@ == "protobuf_decode_err"@,
        e.msg@ == "Invalid protobuf body"@,
        e.meta is None,
{
    TwirpError::new(StatusCode::bad_request(), "protobuf_decode_err", "Invalid protobuf body")
}

/// The error that answers any failure without an answer of its own: 500,
/// `internal_err`.
pub fn internal_error() -> (e: TwirpError)
    ensures
        e.status.code == 500,
        e.code@ == "internal_err"@,
        e.msg@ == "Internal Error"@,
        e.meta is None,
{
    TwirpError::new(StatusCode::internal_server_error(), "internal_err", "Internal Error")
}

/// The JSON body of an error without meta that has the given code and message.
pub open spec fn plain_json(code: Seq<char>, msg: Seq<char>) -> Seq<u8> {
    error_frame(json_string_text(code), json_string_text(msg), None)
}

/// The body of an error response for what writing the error's JSON gave: the
/// JSON, or `{}` where it could not be written.
pub fn body_or_empty(json: Result<Vec<u8>, serde_json::Error>) -> (body: Vec<u8>)
    ensures
        body@ == match json {
            Ok(v) => v@,
            Err(_) => empty_object(),
        },
{
    match json {
        Ok(v) => v,
        Err(_) => {
            let fallback: Vec<u8> = vec![123u8, 125];
            assert(fallback@ =~= empty_object());
            fallback
        },
    }
}

/// The error response with the given status and body: HTTP/1.1, the content
/// type `application/json` and the length of the body.
pub fn error_response(status: StatusCode, body: Vec<u8>) -> (r: HttpResponse)
    ensures
        r.status == status,
        r.version == Version::Http11,
        header_entries(r.headers) == json_headers(body@.len()),
        r.body == body,
{
    let headers = error_headers(body.len());
    HttpResponse { status, version: Version::Http11, headers, body }
}

impl TwirpError {
    /// The body that this error sends: its JSON body, or `{}` where the meta
    /// value has no JSON text.
    pub open spec fn sent_body(&self) -> Seq<u8> {
        match self.json_text() {
            Some(body) => body,
            None => empty_object(),
        }
    }

    /// The body that this error sends. Writing it never fails.
    pub fn body_bytes(&self) -> (body: Vec<u8>)
        ensures
            body@ == self.sent_body(),
    {
        body_or_empty(self.to_json_bytes())
    }

    /// The raw response of this error: its status, HTTP/1.1, the content type
    /// `application/json`, the length of the body, and the body.
    pub fn to_resp_raw(&self) -> (r: ServiceResponse<Vec<u8>>)
        ensures
            r.status == self.status,
            r.version == Version::Http11,
            header_entries(r.headers) == json_headers(r.output@.len()),
            r.output@ == self.sent_body(),
    {
        let output = self.body_bytes();
        let headers = error_headers(output.len());
        ServiceResponse { version: Version::Http11, headers, status: self.status, output }
    }

    /// The HTTP response of this error: its status, HTTP/1.1, the content type
    /// `application/json`, the length of the body, and the body.
    pub fn to_hyper_resp(&self) -> (r: HttpResponse)
        ensures
            r.status == self.status,
            r.version == Version::Http11,
            header_entries(r.headers) == json_headers(r.body@.len()),
            r.body@ == self.sent_body(),
    {
        error_response(self.status, self.body_bytes())
    }
}

impl ProstTwirpError {
    /// The status with which this error is answered: 400 where its root is a
    /// decoding failure, the error's own status where its root is an error of
    /// the protocol, 500 for the rest.
    pub open spec fn reply_status(self) -> u16 {
        match self.root() {
            ProstTwirpError::ProstDecodeError(_) => 400,
            ProstTwirpError::TwirpError(e) => e.status.code,
            _ => 500,
        }
    }

    /// The body that answers this error: by its root, the body of
    /// `protobuf_decode_err`, what the protocol error itself sends, or the
    /// body of `internal_err`.
    pub open spec fn reply_body(self) -> Seq<u8> {
        match self.root() {
            ProstTwirpError::ProstDecodeError(_) => plain_json(
                "protobuf_decode_err"@,
                "Invalid protobuf body"@,
            ),
            ProstTwirpError::TwirpError(e) => e.sent_body(),
            _ => plain_json("internal_err"@, "Internal Error"@),
        }
    }

    /// The HTTP response that answers this error. Layers that carry a body
    /// are taken off first, and no body that they carried is sent. A transport
    /// failure is no response: it is handed back as it is.
    pub fn to_hyper_resp(self) -> (r: Result<HttpResponse, hyper::Error>)
        ensures
            match self.root() {
                ProstTwirpError::HyperError(e) => r == Err::<HttpResponse, hyper::Error>(e),
                _ => r matches Ok(resp) && resp.status.code == self.reply_status() && resp.version
                    == Version::Http11 && header_entries(resp.headers) == json_headers(
                    resp.body@.len(),
                ) && resp.body@ == self.reply_body(),
            },
    {
        match self.root_err() {
            ProstTwirpError::ProstDecodeError(_) => Ok(invalid_body_error().to_hyper_resp()),
            ProstTwirpError::TwirpError(err) => Ok(err.to_hyper_resp()),
            ProstTwirpError::HyperError(err) => Err(err),
            _ => Ok(internal_error().to_hyper_resp()),
        }
    }
}

/// What answers an error is decided by its root alone: the layers that carry
/// a body, and what they carry, do not reach the wire.
pub proof fn lemma_layers_do_not_reach_the_wire(a: ProstTwirpError, b: ProstTwirpError)
    requires
        a.root() == b.root(),
    ensures
        a.reply_status() == b.reply_status(),
        a.reply_body() == b.reply_body(),
{
}

} // verus!
