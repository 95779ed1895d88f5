//! The client side: the address of a method under a root address, and the
//! HTTP request of a call.

use crate::envelope::{with_length, HttpRequest, ServiceRequest};
use crate::error::ProstTwirpError;
use crate::headers::{has_room_for, header_entries, StandardHeader};
use crate::meta::Method;
use crate::service_gen::twirp_path;
use prost::{EncodeError, Message};
use vstd::prelude::*;

verus! {

/// A text without the slashes at its end.
pub open spec fn trim_end_slashes(s: Seq<char>) -> Seq<char>
    decreases s.len(),
{
    if s.len() > 0 && s.last() == '/' {
        trim_end_slashes(s.drop_last())
    } else {
        s
    }
}

/// A text without the slashes at its start.
pub open spec fn trim_start_slashes(s: Seq<char>) -> Seq<char>
    decreases s.len(),
{
    if s.len() > 0 && s[0] == '/' {
        trim_start_slashes(s.subrange(1, s.len() as int))
    } else {
        s
    }
}

/// The address of `path` under `root`: the root without the slashes at its end,
/// one slash, and the path without the slashes at its start.
pub open spec fn target_of(root: Seq<char>, path: Seq<char>) -> Seq<char> {
    trim_end_slashes(root) + seq!['/'] + trim_start_slashes(path)
}

/// The part of `s` before the slashes at its end.
pub fn trim_end(s: &str) -> (r: &str)
    ensures
        r@ == trim_end_slashes(s@),
{
    let mut end: usize = s.unicode_len();
    assert(s@.subrange(0, end as int) =~= s@);
    while end > 0 && s.get_char(end - 1) == '/'
        invariant
            end <= s@.len(),
            trim_end_slashes(s@) == trim_end_slashes(s@.subrange(0, end as int)),
        decreases end,
    {
        assert(s@.subrange(0, end as int).drop_last() =~= s@.subrange(0, end - 1));
        end = end - 1;
    }
    s.substring_char(0, end)
}

/// The part of `s` after the slashes at its start.
pub fn trim_start(s: &str) -> (r: &str)
    ensures
        r@ == trim_start_slashes(s@),
{
    let len: usize = s.unicode_len();
    let mut start: usize = 0;
    assert(s@.subrange(0, len as int) =~= s@);
    while start < len && s.get_char(start) == '/'
        invariant
            start <= len,
            len == s@.len(),
            trim_start_slashes(s@) == trim_start_slashes(s@.subrange(start as int, len as int)),
        decreases len - start,
    {
        assert(s@.subrange(start as int, len as int).subrange(1, len - start) =~= s@.subrange(
            start + 1,
            len as int,
        ));
        start = start + 1;
    }
    s.substring_char(start, len)
}

/// A client of one server: the root address under which its methods lie.
#[derive(Debug)]
pub struct HyperClient {
    /// The root address, without a slash at its end.
    pub root_url: String,
}

impl HyperClient {
    /// A client for the server at `root_url`. Slashes at the end of the root
    /// are dropped.
    pub fn new(root_url: &str) -> (c: HyperClient)
        ensures
            c.root_url@ == trim_end_slashes(root_url@),
    {
        HyperClient { root_url: trim_end(root_url).to_owned() }
    }

    /// The address of the method at `path`: the root, one slash, and the path
    /// without the slashes at its start.
    pub fn target(&self, path: &str) -> (uri: String)
        ensures
            uri@ == self.root_url@ + seq!['/'] + trim_start_slashes(path@),
    {
        proof {
            reveal_strlit("/");
            assert("/"@ =~= seq!['/']);
        }
        let mut uri = self.root_url.clone();
        uri.append("/");
        uri.append(trim_start(path));
        uri
    }

    /// Whether `r` is the HTTP request of a call for what the encoder
    /// returned: a `Post` to the method's address, in the request's version,
    /// with the request's headers and the length of the bytes, and the bytes
    /// as its body; or the encoder's failure.
    pub open spec fn call_is<I>(
        &self,
        path: Seq<char>,
        req: ServiceRequest<I>,
        encoded: Result<Vec<u8>, EncodeError>,
        r: Result<HttpRequest, ProstTwirpError>,
    ) -> bool {
        match encoded {
            Ok(body) => r matches Ok(http) && http.uri@ == self.root_url@ + seq!['/']
                + trim_start_slashes(path) && http.method == Method::Post && http.version
                == req.version && header_entries(http.headers) == with_length(
                header_entries(req.headers),
                body@.len(),
            ) && http.body@ == body@,
            Err(e) => r matches Err(f) && f == ProstTwirpError::ProstEncodeError(e),
        }
    }

    /// The HTTP request of a call of the method at `path`: the request's input
    /// encoded, its version, its headers with the length of the body, and the
    /// method's address in place of the request's own. Where the input cannot
    /// be encoded there is no request to send.
    pub fn request_for<I: Message + Default + 'static>(
        &self,
        path: &str,
        req: &ServiceRequest<I>,
    ) -> (r: Result<HttpRequest, ProstTwirpError>)
        requires
            has_room_for(req.headers, StandardHeader::ContentLength),
        ensures
            exists|encoded: Result<Vec<u8>, EncodeError>| #[trigger]
                self.call_is(path@, *req, encoded, r),
    {
        let sent = req.to_hyper_proto();
        let ghost encoded = choose|encoded: Result<Vec<u8>, EncodeError>|
            req.sent_is(encoded, sent);
        let r = match sent {
            Ok(http) => Ok(
                HttpRequest {
                    method: http.method,
                    uri: self.target(path),
                    version: http.version,
                    headers: http.headers,
                    body: http.body,
                },
            ),
            Err(e) => Err(e),
        };
        assert(self.call_is(path@, *req, encoded, r));
        r
    }
}

/// Trimming leaves no slash at the end, and takes nothing but slashes.
pub proof fn lemma_trim_end(s: Seq<char>)
    ensures
        trim_end_slashes(s).len() == 0 || trim_end_slashes(s).last() != '/',
        trim_end_slashes(s).len() <= s.len(),
        trim_end_slashes(s) == s.subrange(0, trim_end_slashes(s).len() as int),
        forall|i: int| trim_end_slashes(s).len() <= i < s.len() ==> s[i] == '/',
    decreases s.len(),
{
    if s.len() > 0 && s.last() == '/' {
        lemma_trim_end(s.drop_last());
        let t = trim_end_slashes(s);
        assert(t =~= s.subrange(0, t.len() as int));
        assert forall|i: int| t.len() <= i < s.len() implies s[i] == '/' by {
            if i < s.len() - 1 {
                assert(s.drop_last()[i] == s[i]);
            }
        }
    } else {
        assert(s =~= s.subrange(0, s.len() as int));
    }
}

/// Trimming leaves no slash at the start, and takes nothing but slashes.
pub proof fn lemma_trim_start(s: Seq<char>)
    ensures
        trim_start_slashes(s).len() == 0 || trim_start_slashes(s)[0] != '/',
        trim_start_slashes(s).len() <= s.len(),
        trim_start_slashes(s) == s.subrange(
            s.len() - trim_start_slashes(s).len(),
            s.len() as int,
        ),
        forall|i: int| 0 <= i < s.len() - trim_start_slashes(s).len() ==> s[i] == '/',
    decreases s.len(),
{
    if s.len() > 0 && s[0] == '/' {
        let rest = s.subrange(1, s.len() as int);
        lemma_trim_start(rest);
        let t = trim_start_slashes(s);
        assert(t =~= s.subrange(s.len() - t.len(), s.len() as int));
        assert forall|i: int| 0 <= i < s.len() - t.len() implies s[i] == '/' by {
            if i > 0 {
                assert(rest[i - 1] == s[i]);
            }
        }
    } else {
        assert(s =~= s.subrange(0, s.len() as int));
    }
}

/// Between the root and the path of a target stands exactly one slash: the
/// character after the trimmed root is a slash, the one before it and the one
/// after it are none.
pub proof fn lemma_one_slash_between(root: Seq<char>, path: Seq<char>)
    ensures
        ({
            let r = trim_end_slashes(root);
            let p = trim_start_slashes(path);
            let t = target_of(root, path);
            &&& t.len() == r.len() + 1 + p.len()
            &&& t.subrange(0, r.len() as int) == r
            &&& t[r.len() as int] == '/'
            &&& t.subrange(r.len() as int + 1, t.len() as int) == p
            &&& r.len() > 0 ==> t[r.len() - 1] != '/'
            &&& p.len() > 0 ==> t[r.len() as int + 1] != '/'
        }),
{
    lemma_trim_end(root);
    lemma_trim_start(path);
    let r = trim_end_slashes(root);
    let p = trim_start_slashes(path);
    let t = target_of(root, path);
    assert(t.subrange(0, r.len() as int) =~= r);
    assert(t.subrange(r.len() as int + 1, t.len() as int) =~= p);
}

/// Slashes added to the end of the root, or to the start of the path, do not
/// change the target.
pub proof fn lemma_target_ignores_slashes(root: Seq<char>, path: Seq<char>)
    ensures
        target_of(root.push('/'), path) == target_of(root, path),
        target_of(root, seq!['/'] + path) == target_of(root, path),
{
    assert(root.push('/').drop_last() =~= root);
    let q = seq!['/'] + path;
    assert(q.subrange(1, q.len() as int) =~= path);
}

/// The target of a method's wire path under a root is the root, without the
/// slashes at its end, and the path as it is.
pub proof fn lemma_target_of_wire_path(
    root: Seq<char>,
    package: Seq<char>,
    service: Seq<char>,
    method: Seq<char>,
)
    ensures
        target_of(root, twirp_path(package, service, method)) == trim_end_slashes(root)
            + twirp_path(package, service, method),
{
    reveal_strlit("/twirp/");
    let path = twirp_path(package, service, method);
    let rest = path.subrange(1, path.len() as int);
    assert(path[0] == '/');
    assert(rest[0] == 't');
    assert(trim_start_slashes(path) == trim_start_slashes(rest));
    assert(trim_start_slashes(rest) == rest);
    assert(seq!['/'] + rest =~= path);
    assert(trim_end_slashes(root) + seq!['/'] + rest =~= trim_end_slashes(root) + path);
}

} // verus!
