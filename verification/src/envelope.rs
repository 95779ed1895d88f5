//! Envelopes: HTTP metadata with a payload, as raw bytes or as a message, and
//! the conversions between HTTP messages, raw envelopes and typed envelopes.

use crate::codec::{decode_message, encode_message};
use crate::error::{meta_member, member_text, JsonError, ProstTwirpError, TwirpError};
use crate::json::json_document;
use crate::headers::{
    all_visible_ascii, ascii_bytes, decimal_digits, has_room_for, header_entries, headers_clone,
    headers_get, headers_insert, headers_keys_len, headers_new, no_headers, value_from_static,
    value_from_u64, StandardHeader,
};
use crate::meta::{Method, StatusCode, Version};
use hyper::header::HeaderValue;
use hyper::HeaderMap;
use prost::{DecodeError, EncodeError, Message};
use vstd::prelude::*;

verus! {

/// The type of every service request.
pub type PTReq<I> = ServiceRequest<I>;

/// An HTTP request with its body read in full.
#[derive(Debug)]
pub struct HttpRequest {
    pub method: Method,
    pub uri: String,
    pub version: Version,
    pub headers: HeaderMap<HeaderValue>,
    pub body: Vec<u8>,
}

/// An HTTP response with its body read in full.
#[derive(Debug)]
pub struct HttpResponse {
    pub status: StatusCode,
    pub version: Version,
    pub headers: HeaderMap<HeaderValue>,
    pub body: Vec<u8>,
}

/// A request: HTTP metadata and the input.
#[derive(Debug)]
pub struct ServiceRequest<T> {
    /// The address of the request. A client replaces it with the address of
    /// the method that it calls; a server finds the received address here.
    pub uri: String,
    /// The request method; `Post` in valid traffic.
    pub method: Method,
    /// The HTTP version.
    pub version: Version,
    /// The headers. `Content-Length` is written when the request is turned
    /// into an HTTP request.
    pub headers: HeaderMap<HeaderValue>,
    /// The input.
    pub input: T,
}

/// A response: HTTP metadata and the output.
#[derive(Debug)]
pub struct ServiceResponse<T> {
    /// The HTTP version.
    pub version: Version,
    /// The headers. `Content-Length` is written when the response is turned
    /// into an HTTP response.
    pub headers: HeaderMap<HeaderValue>,
    /// The status code.
    pub status: StatusCode,
    /// The output.
    pub output: T,
}

/// The HTTP metadata of a request.
pub struct RequestMeta {
    pub uri: Seq<char>,
    pub method: Method,
    pub version: Version,
    pub headers: Map<Seq<char>, Seq<Seq<u8>>>,
}

/// The HTTP metadata of a response.
pub struct ResponseMeta {
    pub version: Version,
    pub headers: Map<Seq<char>, Seq<Seq<u8>>>,
    pub status: StatusCode,
}

/// The headers of a new envelope: `Content-Type: application/protobuf`.
pub open spec fn protobuf_headers() -> Map<Seq<char>, Seq<Seq<u8>>> {
    no_headers().insert("content-type"@, seq![ascii_bytes("application/protobuf"@)])
}

/// The headers of an error response with a body of `len` bytes:
/// `Content-Type: application/json` and the length.
pub open spec fn json_headers(len: nat) -> Map<Seq<char>, Seq<Seq<u8>>> {
    no_headers().insert("content-type"@, seq![ascii_bytes("application/json"@)]).insert(
        "content-length"@,
        seq![decimal_digits(len)],
    )
}

/// Headers with `Content-Length` set to `len`, in place of any value it had.
pub open spec fn with_length(headers: Map<Seq<char>, Seq<Seq<u8>>>, len: nat) -> Map<
    Seq<char>,
    Seq<Seq<u8>>,
> {
    headers.insert("content-length"@, seq![decimal_digits(len)])
}

/// The metadata of a new request: the address `/`, `Post`, HTTP/1.1 and the
/// protobuf content type.
pub open spec fn new_request_meta() -> RequestMeta {
    RequestMeta {
        uri: "/"@,
        method: Method::Post,
        version: Version::Http11,
        headers: protobuf_headers(),
    }
}

/// The metadata of a new response: HTTP/1.1, status 200 and the protobuf
/// content type.
pub open spec fn new_response_meta() -> ResponseMeta {
    ResponseMeta {
        version: Version::Http11,
        headers: protobuf_headers(),
        status: StatusCode { code: 200 },
    }
}

proof fn lemma_content_types_visible()
    ensures
        all_visible_ascii("application/protobuf"@),
        all_visible_ascii("application/json"@),
{
    reveal_strlit("application/protobuf");
    reveal_strlit("application/json");
}

/// Whether a header map takes `Content-Length`: it has the header already, or
/// it is below its limit of names.
pub fn takes_length(headers: &HeaderMap<HeaderValue>) -> (b: bool)
    ensures
        b == has_room_for(*headers, StandardHeader::ContentLength),
{
    headers_get(headers, StandardHeader::ContentLength).is_some() || headers_keys_len(headers)
        < 32768
}

impl HttpRequest {
    /// The raw request that this HTTP request is: the same metadata, and the
    /// body as the input.
    pub open spec fn raw(self) -> ServiceRequest<Vec<u8>> {
        ServiceRequest {
            uri: self.uri,
            method: self.method,
            version: self.version,
            headers: self.headers,
            input: self.body,
        }
    }
}

impl HttpResponse {
    /// The raw response that this HTTP response is: the same metadata, and
    /// the body as the output.
    pub open spec fn raw(self) -> ServiceResponse<Vec<u8>> {
        ServiceResponse {
            version: self.version,
            headers: self.headers,
            status: self.status,
            output: self.body,
        }
    }
}

impl<T> ServiceRequest<T> {
    /// The HTTP metadata of this request.
    pub open spec fn meta(&self) -> RequestMeta {
        RequestMeta {
            uri: self.uri@,
            method: self.method,
            version: self.version,
            headers: header_entries(self.headers),
        }
    }

    /// A request with the given input, to the address `/`, with the content
    /// type `application/protobuf`.
    pub fn new(input: T) -> (r: ServiceRequest<T>)
        ensures
            r.input == input,
            r.meta() == new_request_meta(),
    {
        proof {
            lemma_content_types_visible();
        }
        let mut headers = headers_new();
        headers_insert(
            &mut headers,
            StandardHeader::ContentType,
            value_from_static("application/protobuf"),
        );
        ServiceRequest {
            uri: "/".to_owned(),
            method: Method::Post,
            version: Version::Http11,
            headers,
            input,
        }
    }

    /// A copy of this request with another input: the metadata is kept as it is.
    pub fn clone_with_input<U>(&self, input: U) -> (r: ServiceRequest<U>)
        ensures
            r.input == input,
            r.meta() == self.meta(),
    {
        ServiceRequest {
            uri: self.uri.clone(),
            method: self.method.duplicate(),
            version: self.version,
            headers: headers_clone(&self.headers),
            input,
        }
    }

    /// Whether `r` is the raw request for what the encoder returned: the
    /// request with the bytes as its input, or the encoder's failure. The
    /// failure carries no body, since none exists yet.
    pub open spec fn encoded_is(
        &self,
        encoded: Result<Vec<u8>, EncodeError>,
        r: Result<ServiceRequest<Vec<u8>>, ProstTwirpError>,
    ) -> bool {
        match encoded {
            Ok(body) => r matches Ok(raw) && raw.input == body && raw.meta() == self.meta(),
            Err(e) => r matches Err(f) && f == ProstTwirpError::ProstEncodeError(e),
        }
    }

    /// The raw request for what the encoder returned.
    pub fn with_encoded(&self, encoded: Result<Vec<u8>, EncodeError>) -> (r: Result<
        ServiceRequest<Vec<u8>>,
        ProstTwirpError,
    >)
        ensures
            self.encoded_is(encoded, r),
    {
        match encoded {
            Ok(body) => Ok(self.clone_with_input(body)),
            Err(e) => Err(ProstTwirpError::ProstEncodeError(e)),
        }
    }
}

impl ServiceRequest<Vec<u8>> {
    /// The raw request of an HTTP request whose body was read.
    pub fn from_hyper_raw(req: HttpRequest) -> (r: ServiceRequest<Vec<u8>>)
        ensures
            r == req.raw(),
    {
        ServiceRequest {
            uri: req.uri,
            method: req.method,
            version: req.version,
            headers: req.headers,
            input: req.body,
        }
    }

    /// The HTTP request of this raw request. It is a `Post` whatever the
    /// request's own method, it keeps the request's address and version, and
    /// it has the request's headers with `Content-Length` set to the length of
    /// the input.
    pub fn to_hyper_raw(&self) -> (r: HttpRequest)
        requires
            has_room_for(self.headers, StandardHeader::ContentLength),
        ensures
            r.method == Method::Post,
            r.uri@ == self.uri@,
            r.version == self.version,
            header_entries(r.headers) == with_length(
                header_entries(self.headers),
                self.input@.len(),
            ),
            r.body@ == self.input@,
    {
        let mut headers = headers_clone(&self.headers);
        headers_insert(
            &mut headers,
            StandardHeader::ContentLength,
            value_from_u64(self.input.len() as u64),
        );
        HttpRequest {
            method: Method::Post,
            uri: self.uri.clone(),
            version: self.version,
            headers,
            body: self.input.clone(),
        }
    }

    /// The given error, wrapped with this request's input and metadata.
    pub fn body_err(&self, err: ProstTwirpError) -> (r: ProstTwirpError)
        ensures
            r.wraps(
                err,
                self.input@,
                Some(self.method),
                self.version,
                header_entries(self.headers),
                None,
            ),
    {
        ProstTwirpError::AfterBodyError {
            body: self.input.clone(),
            method: Some(self.method.duplicate()),
            version: self.version,
            headers: headers_clone(&self.headers),
            status: None,
            err: Box::new(err),
        }
    }

    /// Whether `r` is the typed request for what the decoder returned: the
    /// request with the message as its input, or the decoder's failure
    /// wrapped with the input bytes and the request's metadata.
    pub open spec fn decoded_is<T>(
        &self,
        decoded: Result<T, DecodeError>,
        r: Result<ServiceRequest<T>, ProstTwirpError>,
    ) -> bool {
        match decoded {
            Ok(v) => r matches Ok(typed) && typed.input == v && typed.meta() == self.meta(),
            Err(e) => r matches Err(f) && f.wraps(
                ProstTwirpError::ProstDecodeError(e),
                self.input@,
                Some(self.method),
                self.version,
                header_entries(self.headers),
                None,
            ),
        }
    }

    /// The typed request for what the decoder returned.
    pub fn with_decoded<T>(&self, decoded: Result<T, DecodeError>) -> (r: Result<
        ServiceRequest<T>,
        ProstTwirpError,
    >)
        ensures
            self.decoded_is(decoded, r),
    {
        match decoded {
            Ok(v) => Ok(self.clone_with_input(v)),
            Err(e) => Err(self.body_err(ProstTwirpError::ProstDecodeError(e))),
        }
    }

    /// Decodes the input as a message of type `T`: the request with the
    /// message that the decoder gave, under this request's metadata, or the
    /// decoder's failure under one layer that carries the input bytes.
    pub fn to_proto<T: Message + Default + 'static>(&self) -> (r: Result<
        ServiceRequest<T>,
        ProstTwirpError,
    >)
        ensures
            exists|decoded: Result<T, DecodeError>| #[trigger] self.decoded_is(decoded, r),
    {
        let decoded = decode_message(&self.input);
        let r = self.with_decoded(decoded);
        assert(self.decoded_is(decoded, r));
        r
    }
}

impl<T: Message + Default + 'static> ServiceRequest<T> {
    /// Encodes the input into a fresh buffer: the request with the bytes that
    /// the encoder gave, under this request's metadata, or the encoder's
    /// failure without a body layer.
    pub fn to_proto_raw(&self) -> (r: Result<ServiceRequest<Vec<u8>>, ProstTwirpError>)
        ensures
            exists|encoded: Result<Vec<u8>, EncodeError>| #[trigger] self.encoded_is(encoded, r),
    {
        let encoded = encode_message(&self.input);
        let r = self.with_encoded(encoded);
        assert(self.encoded_is(encoded, r));
        r
    }

    /// The typed request of an HTTP request whose body was read: the body
    /// decoded, as `to_proto` has it.
    pub fn from_hyper_proto(req: HttpRequest) -> (r: Result<ServiceRequest<T>, ProstTwirpError>)
        ensures
            exists|decoded: Result<T, DecodeError>| #[trigger] req.raw().decoded_is(decoded, r),
    {
        ServiceRequest::from_hyper_raw(req).to_proto()
    }

    /// Whether `r` is the HTTP request for what the encoder returned: a `Post`
    /// to this request's address, in its version, with this request's headers
    /// and the length of the bytes, and the bytes as its body; or the
    /// encoder's failure.
    pub open spec fn sent_is(
        &self,
        encoded: Result<Vec<u8>, EncodeError>,
        r: Result<HttpRequest, ProstTwirpError>,
    ) -> bool {
        match encoded {
            Ok(body) => r matches Ok(http) && http.method == Method::Post && http.uri@
                == self.uri@ && http.version == self.version && header_entries(http.headers)
                == with_length(header_entries(self.headers), body@.len()) && http.body@
                == body@,
            Err(e) => r matches Err(f) && f == ProstTwirpError::ProstEncodeError(e),
        }
    }

    /// The HTTP request of this typed request: its input encoded, then as
    /// `to_hyper_raw` has it.
    pub fn to_hyper_proto(&self) -> (r: Result<HttpRequest, ProstTwirpError>)
        requires
            has_room_for(self.headers, StandardHeader::ContentLength),
        ensures
            exists|encoded: Result<Vec<u8>, EncodeError>| #[trigger] self.sent_is(encoded, r),
    {
        let raw = self.to_proto_raw();
        let ghost encoded = choose|encoded: Result<Vec<u8>, EncodeError>|
            self.encoded_is(encoded, raw);
        let r = match raw {
            Ok(raw) => Ok(raw.to_hyper_raw()),
            Err(e) => Err(e),
        };
        assert(self.sent_is(encoded, r));
        r
    }
}

impl<T> ServiceResponse<T> {
    /// The HTTP metadata of this response.
    pub open spec fn meta(&self) -> ResponseMeta {
        ResponseMeta {
            version: self.version,
            headers: header_entries(self.headers),
            status: self.status,
        }
    }

    /// A response with the given output, with status 200 and the content type
    /// `application/protobuf`.
    pub fn new(output: T) -> (r: ServiceResponse<T>)
        ensures
            r.output == output,
            r.meta() == new_response_meta(),
    {
        proof {
            lemma_content_types_visible();
        }
        let mut headers = headers_new();
        headers_insert(
            &mut headers,
            StandardHeader::ContentType,
            value_from_static("application/protobuf"),
        );
        ServiceResponse { version: Version::Http11, headers, status: StatusCode::ok(), output }
    }

    /// A copy of this response with another output: the metadata is kept as it is.
    pub fn clone_with_output<U>(&self, output: U) -> (r: ServiceResponse<U>)
        ensures
            r.output == output,
            r.meta() == self.meta(),
    {
        ServiceResponse {
            version: self.version,
            headers: headers_clone(&self.headers),
            status: self.status,
            output,
        }
    }

    /// Whether `r` is the raw response for what the encoder returned: the
    /// response with the bytes as its output, or the encoder's failure, which
    /// carries no body.
    pub open spec fn encoded_is(
        &self,
        encoded: Result<Vec<u8>, EncodeError>,
        r: Result<ServiceResponse<Vec<u8>>, ProstTwirpError>,
    ) -> bool {
        match encoded {
            Ok(body) => r matches Ok(raw) && raw.output == body && raw.meta() == self.meta(),
            Err(e) => r matches Err(f) && f == ProstTwirpError::ProstEncodeError(e),
        }
    }

    /// The raw response for what the encoder returned.
    pub fn with_encoded(&self, encoded: Result<Vec<u8>, EncodeError>) -> (r: Result<
        ServiceResponse<Vec<u8>>,
        ProstTwirpError,
    >)
        ensures
            self.encoded_is(encoded, r),
    {
        match encoded {
            Ok(body) => Ok(self.clone_with_output(body)),
            Err(e) => Err(ProstTwirpError::ProstEncodeError(e)),
        }
    }
}

impl ServiceResponse<Vec<u8>> {
    /// The raw response of an HTTP response whose body was read.
    pub fn from_hyper_raw(resp: HttpResponse) -> (r: ServiceResponse<Vec<u8>>)
        ensures
            r == resp.raw(),
    {
        ServiceResponse {
            version: resp.version,
            headers: resp.headers,
            status: resp.status,
            output: resp.body,
        }
    }

    /// The HTTP response of this raw response. It has the response's status
    /// and version, and the response's headers with `Content-Length` set to
    /// the length of the output.
    pub fn to_hyper_raw(&self) -> (r: HttpResponse)
        requires
            has_room_for(self.headers, StandardHeader::ContentLength),
        ensures
            r.status == self.status,
            r.version == self.version,
            header_entries(r.headers) == with_length(
                header_entries(self.headers),
                self.output@.len(),
            ),
            r.body@ == self.output@,
    {
        let mut headers = headers_clone(&self.headers);
        headers_insert(
            &mut headers,
            StandardHeader::ContentLength,
            value_from_u64(self.output.len() as u64),
        );
        HttpResponse {
            status: self.status,
            version: self.version,
            headers,
            body: self.output.clone(),
        }
    }

    /// The given error, wrapped with this response's output and metadata.
    pub fn body_err(&self, err: ProstTwirpError) -> (r: ProstTwirpError)
        ensures
            r.wraps(
                err,
                self.output@,
                None,
                self.version,
                header_entries(self.headers),
                Some(self.status),
            ),
    {
        ProstTwirpError::AfterBodyError {
            body: self.output.clone(),
            method: None,
            version: self.version,
            headers: headers_clone(&self.headers),
            status: Some(self.status),
            err: Box::new(err),
        }
    }

    /// Whether `r` is the typed response for what the decoder returned: the
    /// response with the message as its output, or the decoder's failure
    /// wrapped with the output bytes and the response's metadata.
    pub open spec fn decoded_is<T>(
        &self,
        decoded: Result<T, DecodeError>,
        r: Result<ServiceResponse<T>, ProstTwirpError>,
    ) -> bool {
        match decoded {
            Ok(v) => r matches Ok(typed) && typed.output == v && typed.meta() == self.meta(),
            Err(e) => r matches Err(f) && f.wraps(
                ProstTwirpError::ProstDecodeError(e),
                self.output@,
                None,
                self.version,
                header_entries(self.headers),
                Some(self.status),
            ),
        }
    }

    /// Whether `f` is this response's error for what reading its body as an
    /// error gave: the protocol error, or the failure to read one, wrapped
    /// with the output bytes and the response's metadata.
    pub open spec fn error_body_is(
        &self,
        parsed: Result<TwirpError, JsonError>,
        f: ProstTwirpError,
    ) -> bool {
        f.wraps(
            match parsed {
                Ok(e) => ProstTwirpError::TwirpError(e),
                Err(j) => ProstTwirpError::JsonDecodeError(j),
            },
            self.output@,
            None,
            self.version,
            header_entries(self.headers),
            Some(self.status),
        )
    }

    /// The typed response for what the decoder returned.
    pub fn with_decoded<T>(&self, decoded: Result<T, DecodeError>) -> (r: Result<
        ServiceResponse<T>,
        ProstTwirpError,
    >)
        ensures
            self.decoded_is(decoded, r),
    {
        match decoded {
            Ok(v) => Ok(self.clone_with_output(v)),
            Err(e) => Err(self.body_err(ProstTwirpError::ProstDecodeError(e))),
        }
    }

    /// The error of a response whose status is no success, for what reading
    /// its body as an error gave.
    pub fn with_error_body(&self, parsed: Result<TwirpError, JsonError>) -> (r: ProstTwirpError)
        ensures
            self.error_body_is(parsed, r),
    {
        match parsed {
            Ok(e) => self.body_err(ProstTwirpError::TwirpError(e)),
            Err(f) => self.body_err(ProstTwirpError::JsonDecodeError(f)),
        }
    }

    /// Whether `r` is what reading this response gives. With a success status
    /// it is the typed response for what the decoder returned. With any other
    /// status it is an error: the one for `parsed`, which is what the output
    /// bytes read as under this response's status.
    pub open spec fn read_is<T>(
        &self,
        decoded: Result<T, DecodeError>,
        parsed: Result<TwirpError, JsonError>,
        r: Result<ServiceResponse<T>, ProstTwirpError>,
    ) -> bool {
        if StatusCode::success_class(self.status.code) {
            self.decoded_is(decoded, r)
        } else {
            r matches Err(f) && self.error_body_is(parsed, f) && TwirpError::parsed_from(
                self.status,
                self.output@,
                parsed,
            )
        }
    }

    /// Reads the output by the class of the status. With a success status the
    /// output is decoded as a message of type `T`. With any other status the
    /// result is an error: the output read as a protocol error with this
    /// response's status, or the failure to read one.
    pub fn to_proto<T: Message + Default + 'static>(&self) -> (r: Result<
        ServiceResponse<T>,
        ProstTwirpError,
    >)
        ensures
            exists|decoded: Result<T, DecodeError>, parsed: Result<TwirpError, JsonError>|
                #[trigger] self.read_is(decoded, parsed, r),
    {
        if self.status.is_success() {
            let decoded = decode_message(&self.output);
            let r = self.with_decoded(decoded);
            assert(self.read_is(decoded, Err::<TwirpError, JsonError>(JsonError::BadCode), r));
            r
        } else {
            let parsed = TwirpError::from_json_bytes(self.status, self.output.as_slice());
            let r = Err(self.with_error_body(parsed));
            proof {
                let e = arbitrary::<DecodeError>();
                assert(self.read_is(Err::<T, DecodeError>(e), parsed, r));
            }
            r
        }
    }
}

impl<T: Message + Default + 'static> ServiceResponse<T> {
    /// Encodes the output into a fresh buffer: the response with the bytes
    /// that the encoder gave, under this response's metadata, or the encoder's
    /// failure without a body layer.
    pub fn to_proto_raw(&self) -> (r: Result<ServiceResponse<Vec<u8>>, ProstTwirpError>)
        ensures
            exists|encoded: Result<Vec<u8>, EncodeError>| #[trigger] self.encoded_is(encoded, r),
    {
        let encoded = encode_message(&self.output);
        let r = self.with_encoded(encoded);
        assert(self.encoded_is(encoded, r));
        r
    }

    /// The typed response of an HTTP response whose body was read: the body
    /// read by the class of the status, as `to_proto` has it.
    pub fn from_hyper_proto(resp: HttpResponse) -> (r: Result<ServiceResponse<T>, ProstTwirpError>)
        ensures
            exists|decoded: Result<T, DecodeError>, parsed: Result<TwirpError, JsonError>|
                #[trigger] resp.raw().read_is(decoded, parsed, r),
    {
        ServiceResponse::from_hyper_raw(resp).to_proto()
    }

    /// Whether `r` is the HTTP response for what the encoder returned: this
    /// response's status and version, this response's headers and the length
    /// of the bytes, and the bytes as its body; or the encoder's failure.
    pub open spec fn sent_is(
        &self,
        encoded: Result<Vec<u8>, EncodeError>,
        r: Result<HttpResponse, ProstTwirpError>,
    ) -> bool {
        match encoded {
            Ok(body) => r matches Ok(http) && http.status == self.status && http.version
                == self.version && header_entries(http.headers) == with_length(
                header_entries(self.headers),
                body@.len(),
            ) && http.body@ == body@,
            Err(e) => r matches Err(f) && f == ProstTwirpError::ProstEncodeError(e),
        }
    }

    /// The HTTP response of this typed response: its output encoded, then as
    /// `to_hyper_raw` has it.
    pub fn to_hyper_proto(&self) -> (r: Result<HttpResponse, ProstTwirpError>)
        requires
            has_room_for(self.headers, StandardHeader::ContentLength),
        ensures
            exists|encoded: Result<Vec<u8>, EncodeError>| #[trigger] self.sent_is(encoded, r),
    {
        let raw = self.to_proto_raw();
        let ghost encoded = choose|encoded: Result<Vec<u8>, EncodeError>|
            self.encoded_is(encoded, raw);
        let r = match raw {
            Ok(raw) => Ok(raw.to_hyper_raw()),
            Err(e) => Err(e),
        };
        assert(self.sent_is(encoded, r));
        r
    }
}

impl<T> From<T> for ServiceRequest<T> {
    /// The new request with the value as its input.
    fn from(v: T) -> (r: ServiceRequest<T>)
        ensures
            r.input == v,
            r.meta() == new_request_meta(),
    {
        ServiceRequest::new(v)
    }
}

impl<T> vstd::std_specs::convert::FromSpecImpl<T> for ServiceRequest<T> {
    /// The headers of the result are a map of the HTTP library, which no spec
    /// function can build: what `from` gives is stated by its own `ensures`.
    open spec fn obeys_from_spec() -> bool {
        false
    }

    open spec fn from_spec(v: T) -> ServiceRequest<T> {
        arbitrary()
    }
}

impl<T> From<T> for ServiceResponse<T> {
    /// The new response with the value as its output.
    fn from(v: T) -> (r: ServiceResponse<T>)
        ensures
            r.output == v,
            r.meta() == new_response_meta(),
    {
        ServiceResponse::new(v)
    }
}

impl<T> vstd::std_specs::convert::FromSpecImpl<T> for ServiceResponse<T> {
    /// The headers of the result are a map of the HTTP library, which no spec
    /// function can build: what `from` gives is stated by its own `ensures`.
    open spec fn obeys_from_spec() -> bool {
        false
    }

    open spec fn from_spec(v: T) -> ServiceResponse<T> {
        arbitrary()
    }
}

/// Encoding a request and decoding it again gives the request back: where
/// the decoder returns for the encoder's bytes the message that was encoded,
/// the typed request that comes out has the input and the metadata of the one
/// that went in.
pub proof fn lemma_request_round_trip<T>(
    typed: ServiceRequest<T>,
    bytes: Vec<u8>,
    raw: Result<ServiceRequest<Vec<u8>>, ProstTwirpError>,
    back: Result<ServiceRequest<T>, ProstTwirpError>,
)
    requires
        typed.encoded_is(Ok(bytes), raw),
        raw is Ok ==> raw->Ok_0.decoded_is(Ok(typed.input), back),
    ensures
        raw matches Ok(r) && r.input == bytes,
        back matches Ok(b) && b.input == typed.input && b.meta() == typed.meta(),
{
}

/// Encoding a response and reading it again gives the response back, where
/// its status is a success: where the decoder returns for the encoder's bytes
/// the message that was encoded, the typed response that comes out has the
/// output and the metadata of the one that went in.
pub proof fn lemma_response_round_trip<T>(
    typed: ServiceResponse<T>,
    bytes: Vec<u8>,
    raw: Result<ServiceResponse<Vec<u8>>, ProstTwirpError>,
    parsed: Result<TwirpError, JsonError>,
    back: Result<ServiceResponse<T>, ProstTwirpError>,
)
    requires
        StatusCode::success_class(typed.status.code),
        typed.encoded_is(Ok(bytes), raw),
        raw is Ok ==> raw->Ok_0.read_is(Ok(typed.output), parsed, back),
    ensures
        raw matches Ok(r) && r.output == bytes,
        back matches Ok(b) && b.output == typed.output && b.meta() == typed.meta(),
{
}

/// A response whose status is no success is never read as a message.
pub proof fn lemma_failure_status_is_an_error<T>(
    raw: ServiceResponse<Vec<u8>>,
    decoded: Result<T, DecodeError>,
    parsed: Result<TwirpError, JsonError>,
    r: Result<ServiceResponse<T>, ProstTwirpError>,
)
    requires
        !StatusCode::success_class(raw.status.code),
        raw.read_is(decoded, parsed, r),
    ensures
        r matches Err(f) && match f.root() {
            ProstTwirpError::TwirpError(e) => parsed == Ok::<TwirpError, JsonError>(e) && e.status
                == raw.status,
            ProstTwirpError::JsonDecodeError(j) => parsed == Err::<TwirpError, JsonError>(j),
            _ => false,
        },
{
    reveal_with_fuel(ProstTwirpError::root, 3);
}

/// A response whose status is no success, and whose body is a document with
/// the strings `code` and `msg`, reads as the protocol error with those
/// members, the `meta` of the document, and the status of the response.
pub proof fn lemma_error_body_is_read<T>(
    raw: ServiceResponse<Vec<u8>>,
    decoded: Result<T, DecodeError>,
    parsed: Result<TwirpError, JsonError>,
    r: Result<ServiceResponse<T>, ProstTwirpError>,
    code: Seq<char>,
    msg: Seq<char>,
)
    requires
        !StatusCode::success_class(raw.status.code),
        raw.read_is(decoded, parsed, r),
        json_document(raw.output@) matches Some(doc) && member_text(doc, "code"@) == Some(code)
            && member_text(doc, "msg"@) == Some(msg),
    ensures
        r matches Err(f) && f.root() matches ProstTwirpError::TwirpError(e) && e.status
            == raw.status && e.code@ == code && e.msg@ == msg && e.meta == meta_member(
            json_document(raw.output@)->0,
        ),
{
    reveal_with_fuel(ProstTwirpError::root, 3);
}

/// A response whose status is no success, and whose body is no JSON, reads as
/// a failure of JSON syntax.
pub proof fn lemma_broken_error_body_is_a_json_failure<T>(
    raw: ServiceResponse<Vec<u8>>,
    decoded: Result<T, DecodeError>,
    parsed: Result<TwirpError, JsonError>,
    r: Result<ServiceResponse<T>, ProstTwirpError>,
)
    requires
        !StatusCode::success_class(raw.status.code),
        raw.read_is(decoded, parsed, r),
        json_document(raw.output@) is None,
    ensures
        r matches Err(f) && f.root() matches ProstTwirpError::JsonDecodeError(j) && j is Syntax,
{
    reveal_with_fuel(ProstTwirpError::root, 3);
}

/// The length header of an HTTP message is the number of bytes of its body, in
/// decimal digits, and it is the header's only value; the other headers are
/// those of the envelope.
pub proof fn lemma_length_is_stamped(headers: Map<Seq<char>, Seq<Seq<u8>>>, len: nat)
    ensures
        with_length(headers, len).dom().contains("content-length"@),
        with_length(headers, len)["content-length"@] == seq![decimal_digits(len)],
        forall|name: Seq<char>|
            name != "content-length"@ ==> (with_length(headers, len).dom().contains(name)
                == headers.dom().contains(name)),
        forall|name: Seq<char>|
            name != "content-length"@ && headers.dom().contains(name) ==> with_length(
                headers,
                len,
            )[name] == headers[name],
{
}

/// An error response has two headers: the content type `application/json`
/// and the length of its body in decimal digits.
pub proof fn lemma_json_headers(len: nat)
    ensures
        json_headers(len).dom() =~= set!["content-type"@, "content-length"@],
        json_headers(len)["content-type"@] == seq![ascii_bytes("application/json"@)],
        json_headers(len)["content-length"@] == seq![decimal_digits(len)],
{
    reveal_strlit("content-type");
    reveal_strlit("content-length");
    assert("content-type"@.len() != "content-length"@.len());
}

} // verus!
