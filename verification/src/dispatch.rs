//! The server side: content negotiation, the choice of a handler by method and
//! path, and the answer to a request that reaches none.

use crate::envelope::{json_headers, HttpResponse, ServiceRequest};
use crate::error::{ProstTwirpError, TwirpError};
use crate::headers::{ascii_bytes, header_entries, headers_get, value_bytes, StandardHeader};
use crate::meta::{Method, StatusCode, Version};
use crate::reply::plain_json;
use crate::service_gen::{is_method_table, lemma_path_tells_methods_apart};
use hyper::header::HeaderValue;
use hyper::HeaderMap;
use vstd::prelude::*;
use vstd::string::StringSliceAdditionalSpecFns;

verus! {

/// The path of an address, as the HTTP library reads it; nothing where the
/// text is no address.
pub uninterp spec fn uri_path_text(uri: Seq<char>) -> Option<Seq<char>>;

/// `Uri::path` of the text parsed as a `Uri`: the path part of the address,
/// or nothing where the text does not parse.
#[verifier::external_body]
pub(crate) fn uri_path(uri: &str) -> (r: Option<String>)
    ensures
        match r {
            Some(p) => uri_path_text(uri@) == Some(p@),
            None => uri_path_text(uri@) is None,
        },
{
    uri.parse::<hyper::Uri>().ok().map(|u| u.path().to_string())
}

/// Space and tab, the blanks that may stand around a media type.
pub open spec fn is_blank(b: u8) -> bool {
    b == 32 || b == 9
}

/// Where the parameters of a header value start: the place of its first
/// semicolon, or its length where it has none.
pub open spec fn parameters_start(v: Seq<u8>) -> int
    decreases v.len(),
{
    if v.len() == 0 || v[0] == 59 {
        0
    } else {
        1 + parameters_start(v.subrange(1, v.len() as int))
    }
}

/// Bytes without the blanks at their end.
pub open spec fn trim_blank_end(v: Seq<u8>) -> Seq<u8>
    decreases v.len(),
{
    if v.len() > 0 && is_blank(v.last()) {
        trim_blank_end(v.drop_last())
    } else {
        v
    }
}

/// Bytes without the blanks at their start.
pub open spec fn trim_blank_start(v: Seq<u8>) -> Seq<u8>
    decreases v.len(),
{
    if v.len() > 0 && is_blank(v[0]) {
        trim_blank_start(v.subrange(1, v.len() as int))
    } else {
        v
    }
}

/// An ASCII capital as its small letter, any other byte as it is.
pub open spec fn lower_byte(b: u8) -> u8 {
    if 65 <= b <= 90 {
        (b + 32) as u8
    } else {
        b
    }
}

/// The media type that a `Content-Type` value names: what stands before its
/// parameters, without blanks around it, in lower case.
pub open spec fn media_type(v: Seq<u8>) -> Seq<u8> {
    let named = trim_blank_start(trim_blank_end(v.subrange(0, parameters_start(v))));
    Seq::new(named.len(), |i: int| lower_byte(named[i]))
}

/// Whether headers name a content type that the server takes: the first value
/// of `Content-Type` names the media type `application/protobuf` or
/// `application/json`.
pub open spec fn content_type_accepted(headers: Map<Seq<char>, Seq<Seq<u8>>>) -> bool {
    headers.dom().contains("content-type"@) && headers["content-type"@].len() > 0 && (media_type(
        headers["content-type"@][0],
    ) == ascii_bytes("application/protobuf"@) || media_type(headers["content-type"@][0])
        == ascii_bytes("application/json"@))
}

fn is_blank_byte(b: u8) -> (r: bool)
    ensures
        r == is_blank(b),
{
    b == 32 || b == 9
}

/// The media type that a `Content-Type` value names.
pub fn media_type_of(value: &Vec<u8>) -> (r: Vec<u8>)
    ensures
        r@ == media_type(value@),
{
    let len = value.len();
    let mut end: usize = 0;
    assert(value@.subrange(0, len as int) =~= value@);
    while end < len && value[end] != 59
        invariant
            len == value.len(),
            end <= len,
            parameters_start(value@) == end + parameters_start(value@.subrange(end as int, len as int)),
        decreases len - end,
    {
        assert(value@.subrange(end as int, len as int).subrange(1, len - end) =~= value@.subrange(
            end + 1,
            len as int,
        ));
        end = end + 1;
    }
    assert(parameters_start(value@) == end);
    let mut hi: usize = end;
    while hi > 0 && is_blank_byte(value[hi - 1])
        invariant
            hi <= end <= len,
            len == value.len(),
            trim_blank_end(value@.subrange(0, end as int)) == trim_blank_end(
                value@.subrange(0, hi as int),
            ),
        decreases hi,
    {
        assert(value@.subrange(0, hi as int).drop_last() =~= value@.subrange(0, hi - 1));
        hi = hi - 1;
    }
    let mut lo: usize = 0;
    assert(trim_blank_end(value@.subrange(0, end as int)) == value@.subrange(0, hi as int));
    while lo < hi && is_blank_byte(value[lo])
        invariant
            lo <= hi <= len,
            len == value.len(),
            trim_blank_start(value@.subrange(0, hi as int)) == trim_blank_start(
                value@.subrange(lo as int, hi as int),
            ),
        decreases hi - lo,
    {
        assert(value@.subrange(lo as int, hi as int).subrange(1, hi - lo) =~= value@.subrange(
            lo + 1,
            hi as int,
        ));
        lo = lo + 1;
    }
    let ghost named = value@.subrange(lo as int, hi as int);
    assert(trim_blank_start(value@.subrange(0, hi as int)) == named);
    let mut out: Vec<u8> = Vec::new();
    let mut i: usize = lo;
    while i < hi
        invariant
            lo <= i <= hi <= len,
            len == value.len(),
            named == value@.subrange(lo as int, hi as int),
            out@.len() == i - lo,
            forall|k: int| 0 <= k < out@.len() ==> out@[k] == lower_byte(named[k]),
        decreases hi - i,
    {
        let b = value[i];
        if 65 <= b && b <= 90 {
            out.push(b + 32);
        } else {
            out.push(b);
        }
        i = i + 1;
    }
    assert(out@ =~= media_type(value@));
    out
}

/// Whether two byte strings are the same.
pub fn same_bytes(a: &Vec<u8>, b: &[u8]) -> (r: bool)
    ensures
        r == (a@ == b@),
{
    if a.len() != b.len() {
        return false;
    }
    let mut i: usize = 0;
    while i < a.len()
        invariant
            a.len() == b.len(),
            i <= a.len(),
            forall|k: int| 0 <= k < i ==> a@[k] == b@[k],
        decreases a.len() - i,
    {
        if a[i] != b[i] {
            return false;
        }
        i = i + 1;
    }
    assert(a@ =~= b@);
    true
}

/// Whether `i` is the first entry of the table that is `path`.
pub open spec fn is_first_match(paths: Seq<String>, path: Seq<char>, i: int) -> bool {
    0 <= i < paths.len() && paths[i]@ == path && forall|j: int|
        0 <= j < i ==> (#[trigger] paths[j])@ != path
}

/// Whether no entry of the table is `path`.
pub open spec fn no_match(paths: Seq<String>, path: Seq<char>) -> bool {
    forall|j: int| 0 <= j < paths.len() ==> (#[trigger] paths[j])@ != path
}

/// What the server does with a request.
#[derive(Clone, Copy, Debug, PartialEq, Eq, Structural)]
pub enum Dispatch {
    /// Answer 415: the content type is absent or not one that the server takes.
    BadContentType,
    /// Answer 404: no handler is registered for the method and path.
    NotFound,
    /// Run the handler at this place of the table.
    Handler(usize),
}

/// Whether `d` is the decision on a request with the given content-type
/// verdict, method and path, over the table of registered paths. The content
/// type is looked at first. A handler is found only for `Post` and for an
/// address with a path, and it is the first entry of the table that is the
/// path.
pub open spec fn decides(
    d: Dispatch,
    accepted: bool,
    method: Method,
    path: Option<Seq<char>>,
    paths: Seq<String>,
) -> bool {
    if !accepted {
        d == Dispatch::BadContentType
    } else {
        match d {
            Dispatch::BadContentType => false,
            Dispatch::Handler(i) => method == Method::Post && path is Some && is_first_match(
                paths,
                path->0,
                i as int,
            ),
            Dispatch::NotFound => method != Method::Post || path is None || no_match(
                paths,
                path->0,
            ),
        }
    }
}

/// Whether the headers name a content type that the server takes.
pub fn accepts_content_type(headers: &HeaderMap<HeaderValue>) -> (b: bool)
    ensures
        b == content_type_accepted(header_entries(*headers)),
{
    proof {
        reveal_strlit("application/protobuf");
        reveal_strlit("application/json");
        vstd::string::is_ascii_spec_bytes("application/protobuf");
        vstd::string::is_ascii_spec_bytes("application/json");
        assert("application/protobuf".spec_bytes() =~= ascii_bytes("application/protobuf"@));
        assert("application/json".spec_bytes() =~= ascii_bytes("application/json"@));
    }
    match headers_get(headers, StandardHeader::ContentType) {
        Some(v) => {
            let named = media_type_of(&value_bytes(v));
            same_bytes(&named, "application/protobuf".as_bytes()) || same_bytes(
                &named,
                "application/json".as_bytes(),
            )
        },
        None => false,
    }
}

/// The first entry of the table that is `path`, for a `Post`; nothing for
/// another method or where no entry is the path.
pub fn find_handler(paths: &Vec<String>, method: &Method, path: &String) -> (r: Option<usize>)
    ensures
        match r {
            Some(i) => *method == Method::Post && is_first_match(paths@, path@, i as int),
            None => *method != Method::Post || no_match(paths@, path@),
        },
{
    if !method.is_post() {
        return None;
    }
    let mut i: usize = 0;
    while i < paths.len()
        invariant
            *method == Method::Post,
            i <= paths.len(),
            forall|j: int| 0 <= j < i ==> (#[trigger] paths@[j])@ != path@,
        decreases paths.len() - i,
    {
        if paths[i].eq(path) {
            return Some(i);
        }
        i = i + 1;
    }
    None
}

/// The decision on a request that was read: by its method and the path of its
/// address, for a content type that was accepted or not.
pub fn route(paths: &Vec<String>, accepted: bool, method: &Method, uri: &str) -> (d: Dispatch)
    ensures
        decides(d, accepted, *method, uri_path_text(uri@), paths@),
{
    if !accepted {
        return Dispatch::BadContentType;
    }
    match uri_path(uri) {
        None => Dispatch::NotFound,
        Some(path) => match find_handler(paths, method, &path) {
            Some(i) => Dispatch::Handler(i),
            None => Dispatch::NotFound,
        },
    }
}

/// The decision on a raw request, over the table of registered paths.
pub fn dispatch(paths: &Vec<String>, req: &ServiceRequest<Vec<u8>>) -> (d: Dispatch)
    ensures
        decides(
            d,
            content_type_accepted(header_entries(req.headers)),
            req.method,
            uri_path_text(req.uri@),
            paths@,
        ),
{
    route(paths, accepts_content_type(&req.headers), &req.method, req.uri.as_str())
}

/// The error that answers a content type that the server does not take: 415,
/// `bad_content_type`.
pub fn bad_content_type_error() -> (e: TwirpError)
    ensures
        e.status.code == 415,
        e.code@ == "bad_content_type"@,
        e.msg@ == "Content type must be application/protobuf"@,
        e.meta is None,
{
    TwirpError::new(
        StatusCode::unsupported_media_type(),
        "bad_content_type",
        "Content type must be application/protobuf",
    )
}

/// The error that answers a method and path without a handler: 404,
/// `not_found`.
pub fn not_found_error() -> (e: TwirpError)
    ensures
        e.status.code == 404,
        e.code@ == "not_found"@,
        e.msg@ == "Not found"@,
        e.meta is None,
{
    TwirpError::new(StatusCode::not_found(), "not_found", "Not found")
}

impl Dispatch {
    /// The body that answers a request which reaches no handler.
    pub open spec fn rejection_body(self) -> Seq<u8> {
        match self {
            Dispatch::BadContentType => plain_json(
                "bad_content_type"@,
                "Content type must be application/protobuf"@,
            ),
            Dispatch::NotFound => plain_json("not_found"@, "Not found"@),
            Dispatch::Handler(_) => Seq::empty(),
        }
    }

    /// The response that answers a request which reaches no handler: 415 or
    /// 404 with the JSON body of the error; nothing where a handler was found.
    pub fn rejection_response(&self) -> (r: Option<HttpResponse>)
        ensures
            match *self {
                Dispatch::Handler(_) => r is None,
                Dispatch::BadContentType => r matches Some(resp) && resp.status.code == 415
                    && resp.body@ == self.rejection_body() && header_entries(resp.headers)
                    == json_headers(resp.body@.len()),
                Dispatch::NotFound => r matches Some(resp) && resp.status.code == 404
                    && resp.body@ == self.rejection_body() && header_entries(resp.headers)
                    == json_headers(resp.body@.len()),
            },
    {
        match self.rejection() {
            Some(e) => Some(e.to_hyper_resp()),
            None => None,
        }
    }

    /// The error that answers a request which reaches no handler; nothing
    /// where a handler was found.
    pub fn rejection(&self) -> (r: Option<TwirpError>)
        ensures
            match *self {
                Dispatch::BadContentType => r matches Some(e) && e.status.code == 415 && e.code@
                    == "bad_content_type"@ && e.msg@
                    == "Content type must be application/protobuf"@ && e.meta is None,
                Dispatch::NotFound => r matches Some(e) && e.status.code == 404 && e.code@
                    == "not_found"@ && e.msg@ == "Not found"@ && e.meta is None,
                Dispatch::Handler(_) => r is None,
            },
    {
        match self {
            Dispatch::BadContentType => Some(bad_content_type_error()),
            Dispatch::NotFound => Some(not_found_error()),
            Dispatch::Handler(_) => None,
        }
    }
}

/// What goes out for the outcome of a handler: its response, or the answer to
/// its error. Only a transport failure is no response.
pub fn finish(outcome: Result<HttpResponse, ProstTwirpError>) -> (r: Result<
    HttpResponse,
    hyper::Error,
>)
    ensures
        match outcome {
            Ok(resp) => r == Ok::<HttpResponse, hyper::Error>(resp),
            Err(f) => match f.root() {
                ProstTwirpError::HyperError(e) => r == Err::<HttpResponse, hyper::Error>(e),
                _ => r matches Ok(resp) && resp.status.code == f.reply_status() && resp.version
                    == Version::Http11 && header_entries(resp.headers) == json_headers(
                    resp.body@.len(),
                ) && resp.body@ == f.reply_body(),
            },
        },
{
    match outcome {
        Ok(resp) => Ok(resp),
        Err(f) => f.to_hyper_resp(),
    }
}

/// A request has one decision: the content-type verdict, the method, the path
/// and the table leave no choice.
pub proof fn lemma_decision_is_unique(
    a: Dispatch,
    b: Dispatch,
    accepted: bool,
    method: Method,
    path: Option<Seq<char>>,
    paths: Seq<String>,
)
    requires
        decides(a, accepted, method, path, paths),
        decides(b, accepted, method, path, paths),
    ensures
        a == b,
{
    if accepted {
        match (a, b) {
            (Dispatch::Handler(i), Dispatch::Handler(j)) => {
                if i < j {
                    assert(paths[i as int]@ != path->0);
                } else if j < i {
                    assert(paths[j as int]@ != path->0);
                }
            },
            (Dispatch::Handler(i), Dispatch::NotFound) => {
                assert(paths[i as int]@ != path->0);
            },
            (Dispatch::NotFound, Dispatch::Handler(j)) => {
                assert(paths[j as int]@ != path->0);
            },
            _ => {},
        }
    }
}

/// In the table of a service whose methods have names of their own, every
/// path is found at its own place: the order of the table decides nothing.
pub proof fn lemma_table_finds_each_method(
    table: Seq<String>,
    package: Seq<char>,
    service: Seq<char>,
    methods: Seq<String>,
    i: int,
)
    requires
        is_method_table(table, package, service, methods),
        forall|j: int, k: int|
            0 <= j < k < methods.len() ==> (#[trigger] methods[j])@ != (#[trigger] methods[k])@,
        0 <= i < table.len(),
    ensures
        is_first_match(table, table[i]@, i),
{
    assert forall|j: int| 0 <= j < i implies (#[trigger] table[j])@ != table[i]@ by {
        if table[j]@ == table[i]@ {
            lemma_path_tells_methods_apart(package, service, methods[j]@, methods[i]@);
        }
    }
}

} // verus!
