//! The JSON side of the error body: calls into the JSON library, and the
//! framing of the error object around what it returns.

use serde_json::Value;
use vstd::prelude::*;

verus! {

/// The JSON library's value, opaque to the verifier.
#[verifier::external_type_specification]
#[verifier::external_body]
pub struct ExJsonValue(Value);

/// The JSON library's error, opaque to the verifier.
#[verifier::external_type_specification]
#[verifier::external_body]
pub struct ExJsonFault(serde_json::Error);

/// The JSON text of a string: the string between quotes, with the escapes that
/// the JSON library writes.
pub uninterp spec fn json_string_text(s: Seq<char>) -> Seq<u8>;

/// `serde_json::to_vec` on a string: the bytes are the string's JSON text. It
/// succeeds on every string, because the serializer fails on a string only
/// where its writer fails, and here it writes into a vector.
#[verifier::external_body]
pub(crate) fn json_string(s: &str) -> (r: Result<Vec<u8>, serde_json::Error>)
    ensures
        match r {
            Ok(v) => v@ == json_string_text(s@),
            Err(_) => false,
        },
{
    serde_json::to_vec(s)
}

/// The JSON text of a value, as the JSON library writes it; nothing where the
/// library cannot write the value.
pub uninterp spec fn json_value_text(v: Value) -> Option<Seq<u8>>;

/// The value that bytes hold as a JSON document; nothing where the bytes are
/// no JSON.
pub uninterp spec fn json_document(json: Seq<u8>) -> Option<Value>;

/// The member of a value under a key; nothing where the value is no object or
/// has no such member.
pub uninterp spec fn json_member_of(v: Value, key: Seq<char>) -> Option<Value>;

/// The text of a value that is a JSON string; nothing for any other value.
pub uninterp spec fn json_text_of(v: Value) -> Option<Seq<char>>;

/// Whether a value is JSON null.
pub uninterp spec fn json_null(v: Value) -> bool;

/// `serde_json::to_vec` on a JSON value: the bytes are the value's JSON text,
/// and it fails exactly where the value has none.
#[verifier::external_body]
pub(crate) fn json_value(v: &Value) -> (r: Result<Vec<u8>, serde_json::Error>)
    ensures
        match r {
            Ok(b) => json_value_text(*v) == Some(b@),
            Err(_) => json_value_text(*v) is None,
        },
{
    serde_json::to_vec(v)
}

/// `serde_json::from_slice` to a JSON value: the document that the bytes
/// hold, and a failure exactly where they hold none.
#[verifier::external_body]
pub(crate) fn json_parse(json: &[u8]) -> (r: Result<Value, serde_json::Error>)
    ensures
        match r {
            Ok(doc) => json_document(json@) == Some(doc),
            Err(_) => json_document(json@) is None,
        },
{
    serde_json::from_slice(json)
}

/// `Value::get` with a key: the member of that name where the value is an
/// object that has it.
#[verifier::external_body]
pub(crate) fn json_member(v: &Value, key: &str) -> (r: Option<Value>)
    ensures
        r == json_member_of(*v, key@),
{
    v.get(key).cloned()
}

/// `Value::as_str`: the text where the value is a JSON string.
#[verifier::external_body]
pub(crate) fn json_as_string(v: &Value) -> (r: Option<String>)
    ensures
        match r {
            Some(text) => json_text_of(*v) == Some(text@),
            None => json_text_of(*v) is None,
        },
{
    v.as_str().map(String::from)
}

/// `Value::is_null`.
#[verifier::external_body]
pub(crate) fn json_is_null(v: &Value) -> (r: bool)
    ensures
        r == json_null(*v),
{
    v.is_null()
}

/// The bytes `{"code":` that open an error object.
pub open spec fn code_key() -> Seq<u8> {
    seq![123u8, 34, 99, 111, 100, 101, 34, 58]
}

/// The bytes `,"msg":`.
pub open spec fn msg_key() -> Seq<u8> {
    seq![44u8, 34, 109, 115, 103, 34, 58]
}

/// The bytes `,"meta":`.
pub open spec fn meta_key() -> Seq<u8> {
    seq![44u8, 34, 109, 101, 116, 97, 34, 58]
}

/// The bytes `{}`, the body of an error that could not be written.
pub open spec fn empty_object() -> Seq<u8> {
    seq![123u8, 125]
}

/// The error object around the JSON texts of its members:
/// `{"code":<code>,"msg":<msg>}`, with `,"meta":<meta>` before the closing
/// brace where there is a meta value.
pub open spec fn error_frame(code: Seq<u8>, msg: Seq<u8>, meta: Option<Seq<u8>>) -> Seq<u8> {
    let head = code_key() + code + msg_key() + msg;
    match meta {
        Some(m) => head + meta_key() + m + seq![125u8],
        None => head + seq![125u8],
    }
}

/// Appends all of `src` to `out`.
pub fn push_all(out: &mut Vec<u8>, src: &Vec<u8>)
    ensures
        final(out)@ == old(out)@ + src@,
{
    let mut i: usize = 0;
    while i < src.len()
        invariant
            i <= src.len(),
            out@ == old(out)@ + src@.subrange(0, i as int),
        decreases src.len() - i,
    {
        out.push(src[i]);
        i = i + 1;
        assert(out@ =~= old(out)@ + src@.subrange(0, i as int));
    }
    assert(src@.subrange(0, i as int) =~= src@);
}

/// Writes the error object around the JSON texts of its members.
pub fn frame_error(code: &Vec<u8>, msg: &Vec<u8>, meta: Option<&Vec<u8>>) -> (out: Vec<u8>)
    ensures
        out@ == error_frame(
            code@,
            msg@,
            match meta {
                Some(m) => Some(m@),
                None => None,
            },
        ),
{
    let mut out: Vec<u8> = vec![123u8, 34, 99, 111, 100, 101, 34, 58];
    assert(out@ =~= code_key());
    push_all(&mut out, code);
    let msg_key_bytes: Vec<u8> = vec![44u8, 34, 109, 115, 103, 34, 58];
    assert(msg_key_bytes@ =~= msg_key());
    push_all(&mut out, &msg_key_bytes);
    push_all(&mut out, msg);
    match meta {
        Some(m) => {
            let meta_key_bytes: Vec<u8> = vec![44u8, 34, 109, 101, 116, 97, 34, 58];
            assert(meta_key_bytes@ =~= meta_key());
            push_all(&mut out, &meta_key_bytes);
            push_all(&mut out, m);
        },
        None => {},
    }
    out.push(125u8);
    out
}

/// The error object from what the JSON library returned for each member: the
/// first failure among code, msg and meta, in that order, or else the frame
/// around the three texts.
pub open spec fn framed_result(
    code: Result<Vec<u8>, serde_json::Error>,
    msg: Result<Vec<u8>, serde_json::Error>,
    meta: Option<Result<Vec<u8>, serde_json::Error>>,
) -> Result<Seq<u8>, serde_json::Error> {
    match (code, msg, meta) {
        (Err(e), _, _) => Err(e),
        (Ok(_), Err(e), _) => Err(e),
        (Ok(_), Ok(_), Some(Err(e))) => Err(e),
        (Ok(c), Ok(m), Some(Ok(t))) => Ok(error_frame(c@, m@, Some(t@))),
        (Ok(c), Ok(m), None) => Ok(error_frame(c@, m@, None)),
    }
}

/// Frames an error object from what the JSON library returned for each member.
pub fn frame_results(
    code: Result<Vec<u8>, serde_json::Error>,
    msg: Result<Vec<u8>, serde_json::Error>,
    meta: Option<Result<Vec<u8>, serde_json::Error>>,
) -> (r: Result<Vec<u8>, serde_json::Error>)
    ensures
        match framed_result(code, msg, meta) {
            Ok(bytes) => r matches Ok(v) && v@ == bytes,
            Err(e) => r == Err::<Vec<u8>, serde_json::Error>(e),
        },
{
    let c = match code {
        Ok(c) => c,
        Err(e) => { return Err(e); },
    };
    let m = match msg {
        Ok(m) => m,
        Err(e) => { return Err(e); },
    };
    match meta {
        None => Ok(frame_error(&c, &m, None)),
        Some(Err(e)) => Err(e),
        Some(Ok(t)) => Ok(frame_error(&c, &m, Some(&t))),
    }
}

} // verus!
