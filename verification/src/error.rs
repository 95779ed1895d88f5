//! The protocol's error body and the runtime's error union.

use crate::headers::header_entries;
use crate::json::{
    error_frame, frame_results, json_as_string, json_document, json_is_null, json_member,
    json_member_of, json_null, json_parse, json_string, json_string_text, json_text_of,
    json_value, json_value_text,
};
use crate::meta::{Method, StatusCode, Version};
use hyper::header::HeaderValue;
use hyper::HeaderMap;
use prost::{DecodeError, EncodeError};
use serde_json::Value;
use vstd::prelude::*;

verus! {

/// The HTTP library's transport failure, opaque to the verifier.
#[verifier::external_type_specification]
#[verifier::external_body]
pub struct ExTransportFault(hyper::Error);

/// An error of the protocol. Its JSON body holds `code`, `msg` and, where
/// present, `meta`; the status travels in the HTTP status line.
#[derive(Debug, PartialEq)]
pub struct TwirpError {
    pub status: StatusCode,
    pub code: String,
    pub msg: String,
    pub meta: Option<Value>,
}

/// Why bytes could not be read as an error body.
#[derive(Debug)]
pub enum JsonError {
    /// The bytes are not JSON.
    Syntax(serde_json::Error),
    /// There is no member `code` that is a string.
    BadCode,
    /// There is no member `msg` that is a string.
    BadMsg,
}

/// The text of the member of a document under a key, where that member is a
/// JSON string.
pub open spec fn member_text(doc: Value, key: Seq<char>) -> Option<Seq<char>> {
    match json_member_of(doc, key) {
        Some(member) => json_text_of(member),
        None => None,
    }
}

/// The member `meta` of a document; nothing where it is absent or JSON null.
pub open spec fn meta_member(doc: Value) -> Option<Value> {
    match json_member_of(doc, "meta"@) {
        Some(member) => if json_null(member) {
            None
        } else {
            Some(member)
        },
        None => None,
    }
}

/// What the members found in a JSON document make: an error with the given
/// status, where both `code` and `msg` were found as strings. A `meta` that
/// is JSON null counts as absent.
pub open spec fn error_of_fields(
    status: StatusCode,
    code: Option<String>,
    msg: Option<String>,
    meta: Option<Value>,
    null_meta: bool,
) -> Result<TwirpError, JsonError> {
    match (code, msg) {
        (None, _) => Err(JsonError::BadCode),
        (Some(_), None) => Err(JsonError::BadMsg),
        (Some(c), Some(m)) => Ok(
            TwirpError {
                status,
                code: c,
                msg: m,
                meta: if null_meta {
                    None
                } else {
                    meta
                },
            },
        ),
    }
}

impl TwirpError {
    /// An error without meta.
    pub fn new(status: StatusCode, code: &str, msg: &str) -> (e: TwirpError)
        ensures
            e.status == status,
            e.code@ == code@,
            e.msg@ == msg@,
            e.meta is None,
    {
        TwirpError::new_meta(status, code, msg, None)
    }

    /// An error with optional meta.
    pub fn new_meta(status: StatusCode, error_type: &str, msg: &str, meta: Option<Value>) -> (e:
        TwirpError)
        ensures
            e.status == status,
            e.code@ == error_type@,
            e.msg@ == msg@,
            e.meta == meta,
    {
        TwirpError { status, code: error_type.to_owned(), msg: msg.to_owned(), meta }
    }

    /// The JSON body of this error: the object of `code` and `msg`, with the
    /// text of the meta value where there is one; nothing where the meta value
    /// has no JSON text.
    pub open spec fn json_text(&self) -> Option<Seq<u8>> {
        match self.meta {
            None => Some(
                error_frame(json_string_text(self.code@), json_string_text(self.msg@), None),
            ),
            Some(m) => match json_value_text(m) {
                Some(text) => Some(
                    error_frame(
                        json_string_text(self.code@),
                        json_string_text(self.msg@),
                        Some(text),
                    ),
                ),
                None => None,
            },
        }
    }

    /// The JSON body of this error. The status is not part of it. Without
    /// meta the body is always written; with meta it is written exactly where
    /// the meta value has a JSON text.
    pub fn to_json_bytes(&self) -> (r: Result<Vec<u8>, serde_json::Error>)
        ensures
            match r {
                Ok(v) => self.json_text() == Some(v@),
                Err(_) => self.json_text() is None,
            },
    {
        let code = json_string(self.code.as_str());
        let msg = json_string(self.msg.as_str());
        let meta = match &self.meta {
            Some(m) => Some(json_value(m)),
            None => None,
        };
        frame_results(code, msg, meta)
    }

    /// The error that the members found in a JSON document make: `code` and
    /// `msg` where they are strings, the `meta` member where there is one,
    /// and whether that member is JSON null.
    pub fn from_json_fields(
        status: StatusCode,
        code: Option<String>,
        msg: Option<String>,
        meta: Option<Value>,
        null_meta: bool,
    ) -> (r: Result<TwirpError, JsonError>)
        ensures
            r == error_of_fields(status, code, msg, meta, null_meta),
    {
        match code {
            None => Err(JsonError::BadCode),
            Some(c) => match msg {
                None => Err(JsonError::BadMsg),
                Some(m) => {
                    let kept = if null_meta {
                        None
                    } else {
                        meta
                    };
                    Ok(TwirpError { status, code: c, msg: m, meta: kept })
                },
            },
        }
    }

    /// Whether `r` is what a JSON document reads as. It is an error with the
    /// given status, the texts of the members `code` and `msg` and the member
    /// `meta`, where both `code` and `msg` are strings. It is `BadCode` where
    /// `code` is no string, and `BadMsg` where `code` is one and `msg` is none.
    /// Other members decide nothing.
    pub open spec fn read_from(
        status: StatusCode,
        doc: Value,
        r: Result<TwirpError, JsonError>,
    ) -> bool {
        match (member_text(doc, "code"@), member_text(doc, "msg"@)) {
            (None, _) => r matches Err(f) && f is BadCode,
            (Some(_), None) => r matches Err(f) && f is BadMsg,
            (Some(code), Some(msg)) => r matches Ok(e) && e.status == status && e.code@ == code
                && e.msg@ == msg && e.meta == meta_member(doc),
        }
    }

    /// Whether `r` is what bytes read as: what their document reads as, or a
    /// failure of syntax where they hold no document.
    pub open spec fn parsed_from(
        status: StatusCode,
        json: Seq<u8>,
        r: Result<TwirpError, JsonError>,
    ) -> bool {
        match json_document(json) {
            Some(doc) => TwirpError::read_from(status, doc, r),
            None => r matches Err(f) && f is Syntax,
        }
    }

    /// Reads an error out of a JSON document. Members other than `code`, `msg`
    /// and `meta` are passed over, and a `meta` of null counts as absent.
    pub fn from_json_value(status: StatusCode, doc: &Value) -> (r: Result<TwirpError, JsonError>)
        ensures
            TwirpError::read_from(status, *doc, r),
    {
        let code = match json_member(doc, "code") {
            Some(c) => json_as_string(&c),
            None => None,
        };
        let msg = match json_member(doc, "msg") {
            Some(m) => json_as_string(&m),
            None => None,
        };
        let meta = json_member(doc, "meta");
        let null_meta = match &meta {
            Some(m) => json_is_null(m),
            None => false,
        };
        TwirpError::from_json_fields(status, code, msg, meta, null_meta)
    }

    /// Reads an error out of a JSON body, giving it the status of the response
    /// that carried the body: a failure of syntax where the bytes are no JSON,
    /// and else what the document reads as.
    pub fn from_json_bytes(status: StatusCode, json: &[u8]) -> (r: Result<TwirpError, JsonError>)
        ensures
            TwirpError::parsed_from(status, json@, r),
    {
        match json_parse(json) {
            Ok(doc) => TwirpError::from_json_value(status, &doc),
            Err(e) => Err(JsonError::Syntax(e)),
        }
    }
}

/// Bytes whose document holds the code, the message and the meta of an error
/// read as that error, with the status of the response in place of its own;
/// a member `status` in the document decides nothing.
pub proof fn lemma_document_of_error_reads_back(
    e: TwirpError,
    status: StatusCode,
    json: Seq<u8>,
    r: Result<TwirpError, JsonError>,
)
    requires
        json_document(json) matches Some(doc) && member_text(doc, "code"@) == Some(e.code@)
            && member_text(doc, "msg"@) == Some(e.msg@) && meta_member(doc) == e.meta,
        TwirpError::parsed_from(status, json, r),
    ensures
        r matches Ok(back) && back.status == status && back.code@ == e.code@ && back.msg@
            == e.msg@ && back.meta == e.meta,
{
}

/// Bytes read as an error only where they hold a document whose members
/// `code` and `msg` are strings; on all other bytes reading fails.
pub proof fn lemma_reading_succeeds_on_string_members(
    status: StatusCode,
    json: Seq<u8>,
    r: Result<TwirpError, JsonError>,
)
    requires
        TwirpError::parsed_from(status, json, r),
    ensures
        r is Ok <==> (json_document(json) matches Some(doc) && member_text(doc, "code"@) is Some
            && member_text(doc, "msg"@) is Some),
{
}

/// Reading back the members of an error gives that error, with the status of
/// the response in place of its own.
pub proof fn lemma_fields_give_error_back(e: TwirpError, status: StatusCode)
    ensures
        error_of_fields(status, Some(e.code), Some(e.msg), e.meta, false) == Ok::<
            TwirpError,
            JsonError,
        >(TwirpError { status, code: e.code, msg: e.msg, meta: e.meta }),
{
}

/// An error of the runtime.
#[derive(Debug)]
pub enum ProstTwirpError {
    /// A well-formed error of the protocol.
    TwirpError(TwirpError),
    /// An error body could not be read.
    JsonDecodeError(JsonError),
    /// A message could not be encoded.
    ProstEncodeError(EncodeError),
    /// A payload could not be decoded.
    ProstDecodeError(DecodeError),
    /// The HTTP transport failed.
    HyperError(hyper::Error),
    /// Another error, with the body and metadata of the message that was in
    /// hand when it occurred. `method` is set for a request, `status` for a
    /// response.
    AfterBodyError {
        body: Vec<u8>,
        method: Option<Method>,
        version: Version,
        headers: HeaderMap<HeaderValue>,
        status: Option<StatusCode>,
        err: Box<ProstTwirpError>,
    },
}

impl From<TwirpError> for ProstTwirpError {
    fn from(v: TwirpError) -> (r: ProstTwirpError) {
        ProstTwirpError::TwirpError(v)
    }
}

impl vstd::std_specs::convert::FromSpecImpl<TwirpError> for ProstTwirpError {
    open spec fn obeys_from_spec() -> bool {
        true
    }

    open spec fn from_spec(v: TwirpError) -> ProstTwirpError {
        ProstTwirpError::TwirpError(v)
    }
}

impl ProstTwirpError {
    /// The error under every layer of `AfterBodyError`.
    pub open spec fn root(self) -> ProstTwirpError
        decreases self,
    {
        match self {
            ProstTwirpError::AfterBodyError { err, .. } => err.root(),
            _ => self,
        }
    }

    /// Whether this is `inner` wrapped once with the given body and metadata.
    pub open spec fn wraps(
        self,
        inner: ProstTwirpError,
        body: Seq<u8>,
        method: Option<Method>,
        version: Version,
        headers: Map<Seq<char>, Seq<Seq<u8>>>,
        status: Option<StatusCode>,
    ) -> bool {
        match self {
            ProstTwirpError::AfterBodyError { body: b, method: m, version: v, headers: h, status: s, err } => {
                b@ == body && m == method && v == version && header_entries(h) == headers && s
                    == status && *err == inner
            },
            _ => false,
        }
    }

    /// This error, or the one under its layers of `AfterBodyError`.
    pub fn root_err(self) -> (r: ProstTwirpError)
        ensures
            r == self.root(),
            !(r is AfterBodyError),
        decreases self,
    {
        match self {
            ProstTwirpError::AfterBodyError { err, .. } => (*err).root_err(),
            other => other,
        }
    }
}

/// The root of an error has no body layer, and is its own root.
pub proof fn lemma_root_is_bare(e: ProstTwirpError)
    ensures
        !(e.root() is AfterBodyError),
        e.root().root() == e.root(),
    decreases e,
{
    match e {
        ProstTwirpError::AfterBodyError { err, .. } => {
            lemma_root_is_bare(*err);
        },
        _ => {},
    }
}

} // verus!
