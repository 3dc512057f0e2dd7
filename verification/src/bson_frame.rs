//! Byte-level framing of BSON documents, and the outside decoder behind it.

use vstd::prelude::*;

use crate::error::{DriverError, ErrorKind};

verus! {

#[verifier::external_type_specification]
#[verifier::external_body]
pub struct ExDocument(bson::Document);

#[verifier::external_type_specification]
#[verifier::external_body]
pub struct ExRawBson(bson::RawBson);

/// The unsigned little-endian number in the first four bytes of `b`.
pub open spec fn u32_le(b: Seq<u8>) -> nat {
    (b[0] as nat) + (b[1] as nat) * 256 + (b[2] as nat) * 65536 + (b[3] as nat) * 16777216
}

/// The four little-endian bytes of `x mod 2^32`.
pub open spec fn le_bytes32(x: nat) -> Seq<u8> {
    let v = x % 4294967296;
    seq![
        (v % 256) as u8,
        ((v / 256) % 256) as u8,
        ((v / 65536) % 256) as u8,
        ((v / 16777216) % 256) as u8,
    ]
}

/// What `RawDocument::from_bytes` accepts: at least five bytes, a length
/// prefix equal to the length (both taken as 32-bit numbers), and a final
/// zero byte.
pub open spec fn document_frame_ok(b: Seq<u8>) -> bool {
    &&& b.len() >= 5
    &&& b.len() % 4294967296 == u32_le(b)
    &&& b.last() == 0
}

/// The rendered error `RawDocument::from_bytes` gives for `b`: a malformed
/// value error, with the reason in quotes, for a document shorter than five
/// bytes, one whose length prefix is not its length, and one that does not
/// end with a zero byte, checked in that order.
pub open spec fn frame_error_text(b: Seq<u8>) -> Seq<char> {
    if b.len() < 5 {
        "malformed value: \"document too short\""@
    } else if b.len() % 4294967296 != u32_le(b) {
        "malformed value: \"document length incorrect\""@
    } else {
        "malformed value: \"document not null-terminated\""@
    }
}

/// `bson::RawDocument::from_bytes`: whether `bytes` is framed as a document,
/// with the rendered error when it is not.
#[verifier::external_body]
fn raw_document_from_bytes(bytes: &[u8]) -> (r: Result<(), String>)
    ensures
        r is Ok <==> document_frame_ok(bytes@),
        r matches Err(m) ==> m@ == frame_error_text(bytes@),
{
    match bson::RawDocument::from_bytes(bytes) {
        Ok(_) => Ok(()),
        Err(e) => Err(e.to_string()),
    }
}

/// `bytes` decode as a document: framed, and accepted by the decoder.
pub open spec fn document_decodes(bytes: Seq<u8>) -> bool {
    document_frame_ok(bytes) && decode_error_of(bytes) is None
}

/// `e` is the invalid-response error that refusing `bytes` as a document
/// gives: the framing error, else the decoder's error.
pub open spec fn decode_failure(e: DriverError, bytes: Seq<u8>) -> bool {
    if !document_frame_ok(bytes) {
        invalid_response_with(e, frame_error_text(bytes))
    } else {
        decode_error_of(bytes) matches Some(m) && invalid_response_with(e, m)
    }
}

/// `e` is a fresh invalid-response error whose message is `msg`.
pub open spec fn invalid_response_with(e: DriverError, msg: Seq<char>) -> bool {
    &&& e.kind matches ErrorKind::InvalidResponse { message } && message@ == msg
    &&& e.labels@.len() == 0
    &&& e.server_response is None
}

/// Checks that `bytes` is framed as a BSON document; a malformed frame is an
/// invalid-response error carrying the decoder's message.
pub fn check_document_frame(bytes: &[u8]) -> (r: Result<(), DriverError>)
    ensures
        r is Ok <==> document_frame_ok(bytes@),
        r matches Err(e) ==> invalid_response_with(e, frame_error_text(bytes@)),
{
    match raw_document_from_bytes(bytes) {
        Ok(()) => Ok(()),
        Err(m) => Err(DriverError::new(ErrorKind::InvalidResponse { message: m })),
    }
}

/// Whether `bson::Document::from_reader` refuses `bytes`, with the rendered
/// error when it does.
pub uninterp spec fn decode_error_of(bytes: Seq<u8>) -> Option<Seq<char>>;

/// `bson::Document::from_reader`: decodes a whole document from `bytes`, or
/// gives the rendered error.  Nothing is stated of the decoded value.
#[verifier::external_body]
pub(crate) fn decode_document(bytes: &[u8]) -> (r: Result<bson::Document, String>)
    ensures
        r is Ok <==> decode_error_of(bytes@) is None,
        r matches Err(m) ==> decode_error_of(bytes@) == Some(m@),
{
    match bson::Document::from_reader(bytes) {
        Ok(d) => Ok(d),
        Err(e) => Err(e.to_string()),
    }
}

} // verus!
