//! The header collection of an envelope. It is the HTTP library's own map;
//! what it holds is spoken of through [`header_entries`].

use hyper::header::HeaderValue;
use hyper::HeaderMap;
use vstd::prelude::*;

verus! {

/// The HTTP library's header map, opaque to the verifier.
#[verifier::external_type_specification]
#[verifier::external_body]
#[verifier::reject_recursive_types(T)]
pub struct ExHeaderMap<T>(HeaderMap<T>);

/// The HTTP library's header value, opaque to the verifier.
#[verifier::external_type_specification]
#[verifier::external_body]
pub struct ExHeaderValue(HeaderValue);

/// What a header map holds: for each name (in lower case) that is present,
/// the list of its values, first value first.
pub uninterp spec fn header_entries(h: HeaderMap<HeaderValue>) -> Map<Seq<char>, Seq<Seq<u8>>>;

/// A map that holds no header.
pub open spec fn no_headers() -> Map<Seq<char>, Seq<Seq<u8>>> {
    Map::empty()
}

/// The bytes that a header value holds.
pub uninterp spec fn header_value_bytes(v: HeaderValue) -> Seq<u8>;

/// The most names that a header map takes.
pub open spec fn max_header_names() -> nat {
    32768
}

/// The two headers that this runtime writes and reads.
#[derive(Clone, Copy, Debug, PartialEq, Eq, Structural)]
pub enum StandardHeader {
    ContentType,
    ContentLength,
}

impl StandardHeader {
    /// The header's name as the map keys it.
    pub open spec fn name(self) -> Seq<char> {
        match self {
            StandardHeader::ContentType => "content-type"@,
            StandardHeader::ContentLength => "content-length"@,
        }
    }
}

/// Characters that a static header value may hold: printable ASCII and tab.
pub open spec fn is_visible_ascii(c: char) -> bool {
    (32 <= c as u32 && (c as u32) < 127) || c as u32 == 9
}

/// Whether every character of a text is printable ASCII or tab.
pub open spec fn all_visible_ascii(text: Seq<char>) -> bool {
    forall|i: int| 0 <= i < text.len() ==> is_visible_ascii(#[trigger] text[i])
}

/// The bytes of a text of ASCII characters, one byte for each character.
pub open spec fn ascii_bytes(text: Seq<char>) -> Seq<u8> {
    Seq::new(text.len(), |i: int| text[i] as u8)
}

/// The decimal digits of a number as ASCII bytes, without leading zeros.
pub open spec fn decimal_digits(n: nat) -> Seq<u8>
    decreases n,
{
    if n < 10 {
        seq![(48 + n) as u8]
    } else {
        decimal_digits(n / 10).push((48 + n % 10) as u8)
    }
}

/// Whether `key` can be inserted: it is present already, or the map is below
/// its limit of names.
pub open spec fn has_room_for(h: HeaderMap<HeaderValue>, key: StandardHeader) -> bool {
    header_entries(h).dom().contains(key.name()) || header_entries(h).dom().len()
        < max_header_names()
}

/// `HeaderMap::new`: the new map holds nothing.
#[verifier::external_body]
pub(crate) fn headers_new() -> (h: HeaderMap<HeaderValue>)
    ensures
        header_entries(h) == no_headers(),
{
    HeaderMap::new()
}

/// `HeaderMap::clone`: the copy holds what the map holds.
#[verifier::external_body]
pub(crate) fn headers_clone(h: &HeaderMap<HeaderValue>) -> (c: HeaderMap<HeaderValue>)
    ensures
        header_entries(c) == header_entries(*h),
{
    h.clone()
}

/// `HeaderMap::keys_len`: the number of names present.
#[verifier::external_body]
pub(crate) fn headers_keys_len(h: &HeaderMap<HeaderValue>) -> (n: usize)
    ensures
        n == header_entries(*h).dom().len(),
{
    h.keys_len()
}

/// `HeaderMap::insert` with one of the library's header name constants: the
/// value becomes the only value of that name, and the other names keep theirs.
/// The map refuses a new name at its limit, so the caller shows there is room.
#[verifier::external_body]
pub(crate) fn headers_insert(h: &mut HeaderMap<HeaderValue>, key: StandardHeader, value: HeaderValue)
    requires
        has_room_for(*old(h), key),
    ensures
        header_entries(*final(h)) == header_entries(*old(h)).insert(
            key.name(),
            seq![header_value_bytes(value)],
        ),
{
    match key {
        StandardHeader::ContentType => h.insert(hyper::header::CONTENT_TYPE, value),
        StandardHeader::ContentLength => h.insert(hyper::header::CONTENT_LENGTH, value),
    };
}

/// `HeaderMap::get` with one of the library's header name constants: the first
/// value of the name, or nothing where the name is absent.
#[verifier::external_body]
pub(crate) fn headers_get<'a>(h: &'a HeaderMap<HeaderValue>, key: StandardHeader) -> (r: Option<
    &'a HeaderValue,
>)
    ensures
        match r {
            Some(v) => header_entries(*h).dom().contains(key.name()) && header_entries(
                *h,
            )[key.name()].len() > 0 && header_entries(*h)[key.name()][0] == header_value_bytes(*v),
            None => !header_entries(*h).dom().contains(key.name()),
        },
{
    match key {
        StandardHeader::ContentType => h.get(hyper::header::CONTENT_TYPE),
        StandardHeader::ContentLength => h.get(hyper::header::CONTENT_LENGTH),
    }
}

/// `HeaderValue::from_static`: the value holds the text's bytes. The call
/// panics on a character that is not printable ASCII or tab.
#[verifier::external_body]
pub(crate) fn value_from_static(text: &'static str) -> (v: HeaderValue)
    requires
        all_visible_ascii(text@),
    ensures
        header_value_bytes(v) == ascii_bytes(text@),
{
    HeaderValue::from_static(text)
}

/// `HeaderValue::from` on a `u64`: the value holds the number's decimal digits.
#[verifier::external_body]
pub(crate) fn value_from_u64(n: u64) -> (v: HeaderValue)
    ensures
        header_value_bytes(v) == decimal_digits(n as nat),
{
    HeaderValue::from(n)
}

/// `HeaderValue::as_bytes`: the bytes that the value holds, copied out.
#[verifier::external_body]
pub(crate) fn value_bytes(v: &HeaderValue) -> (b: Vec<u8>)
    ensures
        b@ == header_value_bytes(*v),
{
    v.as_bytes().to_vec()
}

/// The number that a text of decimal digits writes.
pub open spec fn decimal_value(digits: Seq<u8>) -> nat
    decreases digits.len(),
{
    if digits.len() == 0 {
        0
    } else {
        decimal_value(digits.drop_last()) * 10 + (digits.last() - 48) as nat
    }
}

/// The decimal digits of a number are digits, at least one, without a leading
/// zero but for zero itself, and they write that number.
pub proof fn lemma_decimal_digits(n: nat)
    ensures
        decimal_digits(n).len() >= 1,
        forall|i: int| 0 <= i < decimal_digits(n).len() ==> 48 <= #[trigger] decimal_digits(n)[i] <= 57,
        n > 0 ==> decimal_digits(n)[0] != 48,
        decimal_value(decimal_digits(n)) == n,
    decreases n,
{
    if n < 10 {
        let d = decimal_digits(n);
        assert(d.len() == 1);
        assert(d[0] == (48 + n) as u8);
        assert(d.drop_last().len() == 0);
        assert(decimal_value(d) == decimal_value(d.drop_last()) * 10 + (d.last() - 48) as nat);
    } else {
        let head = decimal_digits(n / 10);
        let d = decimal_digits(n);
        lemma_decimal_digits(n / 10);
        assert(d == head.push((48 + n % 10) as u8));
        assert(d.drop_last() =~= head);
        assert(d.last() == (48 + n % 10) as u8);
        assert(d[0] == head[0]);
        assert forall|i: int| 0 <= i < d.len() implies 48 <= #[trigger] d[i] <= 57 by {
            if i < head.len() {
                assert(d[i] == head[i]);
            }
        }
        assert(decimal_value(d) == decimal_value(d.drop_last()) * 10 + (d.last() - 48) as nat);
    }
}

} // verus!
