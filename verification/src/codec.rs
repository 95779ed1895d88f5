//! The payload codec: calls into the protobuf library.

use prost::{DecodeError, EncodeError, Message};
use vstd::prelude::*;

verus! {

/// The protobuf library's decoding failure, opaque to the verifier.
#[verifier::external_type_specification]
#[verifier::external_body]
pub struct ExDecodeError(DecodeError);

/// The protobuf library's encoding failure, opaque to the verifier.
#[verifier::external_type_specification]
#[verifier::external_body]
pub struct ExEncodeError(EncodeError);

/// `Message::encode` into a fresh buffer. What comes out is decided by the
/// message type's own implementation, so nothing is claimed of it.
#[verifier::external_body]
pub(crate) fn encode_message<T: Message>(message: &T) -> (r: Result<Vec<u8>, EncodeError>) {
    let mut body = Vec::new();
    message.encode(&mut body).map(|_| body)
}

/// `Message::decode` on the whole of `bytes`. What comes out is decided by the
/// message type's own implementation, so nothing is claimed of it.
#[verifier::external_body]
pub(crate) fn decode_message<T: Message + Default>(bytes: &Vec<u8>) -> (r: Result<T, DecodeError>) {
    T::decode(&bytes[..])
}

} // verus!
