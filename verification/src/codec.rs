//! The wire format: a fixed tag that ends in an exclamation mark, the name
//! of the message kind, a colon, and the payload, with nothing after it.
//! A frame carries no length; it ends where the connection is closed.

use vstd::prelude::*;
use vstd::string::*;
use vstd::utf8::encode_utf8;
use crate::kind::{kind_of_token, lemma_kind_of_token, lemma_token_has_no_separator, RequestKind};
use crate::scan::{append_bytes, find_from, lemma_position, lemma_position_found, position};

verus! {

/// The tag that opens every frame: the bytes of `REQUEST!`.
pub open spec fn tag() -> Seq<u8> {
    seq![82u8, 69, 81, 85, 69, 83, 84, 33]
}

/// The frame that carries `payload` under the kind token `kind`.
pub open spec fn frame(kind: Seq<u8>, payload: Seq<u8>) -> Seq<u8> {
    tag() + kind + seq![58u8] + payload
}

/// Why a frame could not be accepted.
#[derive(Clone, Copy, Debug, PartialEq, Eq, Structural)]
pub enum ProtocolError {
    /// A separator is missing: the exclamation mark, or the colon after
    /// it.
    Malformed,
    /// The kind token names no kind of the catalogue.
    UnknownKind,
    /// The frame is of another kind than the request it answers.
    KindMismatch,
}

/// The kind and the payload that `bytes` carry. Everything up to the
/// first exclamation mark is set aside; what follows is split at its
/// first colon into the kind token and the payload, which is taken as it
/// stands.
pub open spec fn decode(bytes: Seq<u8>) -> Result<(RequestKind, Seq<u8>), ProtocolError> {
    let mark = position(bytes, 33);
    if mark >= bytes.len() {
        Err(ProtocolError::Malformed)
    } else {
        let rest = bytes.skip(mark + 1);
        let colon = position(rest, 58);
        if colon >= rest.len() {
            Err(ProtocolError::Malformed)
        } else {
            match kind_of_token(rest.take(colon)) {
                Some(kind) => Ok((kind, rest.skip(colon + 1))),
                None => Err(ProtocolError::UnknownKind),
            }
        }
    }
}

/// The model of what `extract_parts` returns.
pub open spec fn parts_view(parts: Result<(RequestKind, Vec<u8>), ProtocolError>) -> Result<
    (RequestKind, Seq<u8>),
    ProtocolError,
> {
    match parts {
        Ok((kind, payload)) => Ok((kind, payload@)),
        Err(error) => Err(error),
    }
}

/// Decoding the frame of a kind and a payload gives back that kind and
/// that payload unchanged, whatever bytes the payload holds.
pub proof fn lemma_round_trip(kind: RequestKind, payload: Seq<u8>)
    ensures
        decode(frame(kind.token(), payload)) == Ok::<(RequestKind, Seq<u8>), ProtocolError>(
            (kind, payload),
        ),
{
    let token = kind.token();
    let bytes = frame(token, payload);
    lemma_token_has_no_separator(kind);
    lemma_kind_of_token(kind);
    lemma_position(bytes, 33, 7);
    let rest = bytes.skip(8);
    lemma_position(rest, 58, token.len() as int);
    assert(rest.take(token.len() as int) =~= token);
    assert(rest.skip(token.len() as int + 1) =~= payload);
}

/// Only the first exclamation mark and the first colon after it
/// separate: a payload may hold either, and comes back whole.
pub proof fn lemma_payload_may_hold_separators(kind: RequestKind, payload: Seq<u8>)
    ensures
        decode(frame(kind.token(), seq![33u8, 58u8] + payload)) == Ok::<
            (RequestKind, Seq<u8>),
            ProtocolError,
        >((kind, seq![33u8, 58u8] + payload)),
{
    lemma_round_trip(kind, seq![33u8, 58u8] + payload);
}

/// Whatever decodes is a frame behind some preamble: the bytes are a
/// preamble without exclamation mark, the mark, the token of the decoded
/// kind, a colon, and the decoded payload.
pub proof fn lemma_decoded_is_framed(bytes: Seq<u8>)
    ensures
        decode(bytes) matches Ok((kind, payload)) ==> {
            let preamble = bytes.take(position(bytes, 33));
            &&& bytes == preamble + seq![33u8] + kind.token() + seq![58u8] + payload
            &&& forall|i: int| 0 <= i < preamble.len() ==> preamble[i] != 33
        },
{
    if let Ok((kind, _)) = decode(bytes) {
        lemma_position_found(bytes, 33);
        lemma_position_found(bytes.skip(position(bytes, 33) + 1), 58);
        lemma_kind_of_token(kind);
    }
}

/// Bytes without an exclamation mark are no frame.
pub proof fn lemma_missing_mark_is_malformed(bytes: Seq<u8>)
    requires
        forall|i: int| 0 <= i < bytes.len() ==> bytes[i] != 33,
    ensures
        decode(bytes) == Err::<(RequestKind, Seq<u8>), ProtocolError>(ProtocolError::Malformed),
{
    lemma_position(bytes, 33, bytes.len() as int);
}

/// Frames `payload` under the kind token `kind`.
pub fn fetch_format(kind: String, payload: String) -> (bytes: Vec<u8>)
    ensures
        bytes@ == frame(encode_utf8(kind@), encode_utf8(payload@)),
{
    let mut bytes: Vec<u8> = Vec::new();
    bytes.push(82);
    bytes.push(69);
    bytes.push(81);
    bytes.push(85);
    bytes.push(69);
    bytes.push(83);
    bytes.push(84);
    bytes.push(33);
    append_bytes(&mut bytes, kind.as_str().as_bytes());
    bytes.push(58);
    append_bytes(&mut bytes, payload.as_str().as_bytes());
    bytes
}

/// Reads the kind and the payload out of the bytes of a frame.
pub fn extract_parts(response: &[u8]) -> (parts: Result<(RequestKind, Vec<u8>), ProtocolError>)
    ensures
        parts_view(parts) == decode(response@),
{
    let mark = find_from(response, 0, 33);
    assert(response@.skip(0) =~= response@);
    if mark >= response.len() {
        return Err(ProtocolError::Malformed);
    }
    let ghost rest = response@.skip(mark + 1);
    let colon = find_from(response, mark + 1, 58);
    if colon >= response.len() {
        return Err(ProtocolError::Malformed);
    }
    assert(rest.take(colon - mark - 1) =~= response@.subrange(mark + 1, colon as int));
    let kind = match RequestKind::from_token(response, mark + 1, colon) {
        Some(kind) => kind,
        None => return Err(ProtocolError::UnknownKind),
    };
    let mut payload: Vec<u8> = Vec::new();
    let mut i: usize = colon + 1;
    while i < response.len()
        invariant
            colon < i <= response.len(),
            payload@ == response@.subrange(colon + 1, i as int),
        decreases response.len() - i,
    {
        payload.push(response[i]);
        i += 1;
    }
    assert(rest.skip(colon - mark) =~= response@.subrange(colon + 1, response.len() as int));
    Ok((kind, payload))
}

} // verus!
