//! The request client: one exchange with the remote authority, from the
//! bytes that go out to the payload that is accepted in answer.
//!
//! The connection itself is made outside the library. The client frames
//! the request, and is handed what the transport got back: the bytes read
//! until the authority closed the connection, or why there are none.

use vstd::prelude::*;
use vstd::string::*;
use vstd::utf8::encode_utf8;
use crate::codec::{decode, extract_parts, fetch_format, frame, lemma_round_trip, ProtocolError};
use crate::kind::RequestKind;
use crate::scan::range_equals;

verus! {

/// Why the transport has no answer; each with the reason as text.
#[derive(Clone, Debug, PartialEq, Eq)]
pub enum IoError {
    /// The address could not be reached.
    ConnectFailed(String),
    /// Writing the request failed.
    WriteFailed(String),
    /// Reading the answer failed.
    ReadFailed(String),
}

/// The model of an [`IoError`].
pub enum IoErrorModel {
    ConnectFailed(Seq<char>),
    WriteFailed(Seq<char>),
    ReadFailed(Seq<char>),
}

impl IoErrorModel {
    /// The message of the error: its reason, as it stands.
    pub open spec fn message(self) -> Seq<char> {
        match self {
            IoErrorModel::ConnectFailed(reason) => reason,
            IoErrorModel::WriteFailed(reason) => reason,
            IoErrorModel::ReadFailed(reason) => reason,
        }
    }
}

impl DeepView for IoError {
    type V = IoErrorModel;

    open spec fn deep_view(&self) -> IoErrorModel {
        match self {
            IoError::ConnectFailed(reason) => IoErrorModel::ConnectFailed(reason@),
            IoError::WriteFailed(reason) => IoErrorModel::WriteFailed(reason@),
            IoError::ReadFailed(reason) => IoErrorModel::ReadFailed(reason@),
        }
    }
}

impl IoError {
    /// The message of the error.
    pub fn message(&self) -> (text: String)
        ensures
            text@ == self.deep_view().message(),
    {
        match self {
            IoError::ConnectFailed(reason) => reason.clone(),
            IoError::WriteFailed(reason) => reason.clone(),
            IoError::ReadFailed(reason) => reason.clone(),
        }
    }
}

impl ProtocolError {
    /// The message of the error.
    pub open spec fn message_spec(self) -> Seq<char> {
        match self {
            ProtocolError::Malformed => "Invalid request..."@,
            ProtocolError::UnknownKind => "Matching variant not found"@,
            ProtocolError::KindMismatch => "Invalid message kind..."@,
        }
    }

    /// The message of the error.
    pub fn message(&self) -> (text: String)
        ensures
            text@ == self.message_spec(),
    {
        match self {
            ProtocolError::Malformed => String::from_str("Invalid request..."),
            ProtocolError::UnknownKind => String::from_str("Matching variant not found"),
            ProtocolError::KindMismatch => String::from_str("Invalid message kind..."),
        }
    }
}

/// The bytes of a payload as it is sent: the text, or nothing where the
/// request carries none.
pub open spec fn payload_bytes(payload: Option<Seq<char>>) -> Seq<u8> {
    match payload {
        Some(text) => encode_utf8(text),
        None => Seq::empty(),
    }
}

/// The bytes that go out for a request of kind `kind` with the serialised
/// payload `payload`.
pub open spec fn outgoing_spec(kind: RequestKind, payload: Option<Seq<char>>) -> Seq<u8> {
    frame(kind.token(), payload_bytes(payload))
}

/// The payload that a request of kind `kind` accepts from the bytes of
/// its answer: the answer must be a frame, and of the kind that was
/// asked.
pub open spec fn accept(kind: RequestKind, response: Seq<u8>) -> Result<Seq<u8>, ProtocolError> {
    match decode(response) {
        Err(error) => Err(error),
        Ok((answered, payload)) => if answered == kind {
            Ok(payload)
        } else {
            Err(ProtocolError::KindMismatch)
        },
    }
}

/// The payload of the answers that only acknowledge: `REQUEST_SUCCEEDED`.
pub open spec fn acknowledgement() -> Seq<u8> {
    encode_utf8("REQUEST_SUCCEEDED"@)
}

/// What is wrong with `text` as a JSON document: the report of the parser,
/// or nothing where `text` is a JSON document.
pub uninterp spec fn json_fault(text: Seq<u8>) -> Option<Seq<char>>;

/// `serde_json::from_slice` into a `serde_json::Value`, and the `Display`
/// form of the `serde_json::Error` it may return: what the parser reports
/// of `text`, or nothing where it parsed. The report is a function of the
/// text alone.
#[verifier::external_body]
fn json_check(text: &[u8]) -> (fault: Option<String>)
    ensures
        fault.deep_view() == json_fault(text@),
{
    serde_json::from_slice::<serde_json::Value>(text).err().map(|error| error.to_string())
}

/// Whether an accepted payload is handed on: the acknowledgement is, as it
/// stands; any other payload must be a JSON document, and is else
/// replaced by `fault`, the report of the parser.
pub open spec fn checked(payload: Seq<u8>, fault: Option<Seq<char>>) -> Result<Seq<u8>, Seq<char>> {
    if payload == acknowledgement() {
        Ok(payload)
    } else {
        match fault {
            None => Ok(payload),
            Some(report) => Err(report),
        }
    }
}

/// How an exchange of kind `kind` ends, given what the transport got
/// back: with the accepted payload, which is the acknowledgement or a JSON
/// document, or with the message of whatever failed.
pub open spec fn settle(kind: RequestKind, outcome: Result<Seq<u8>, IoErrorModel>) -> Result<
    Seq<u8>,
    Seq<char>,
> {
    match outcome {
        Err(error) => Err(error.message()),
        Ok(response) => match accept(kind, response) {
            Ok(payload) => checked(payload, json_fault(payload)),
            Err(error) => Err(error.message_spec()),
        },
    }
}

/// An answer to what was sent is accepted with the payload that was sent:
/// a frame survives the exchange unchanged.
pub proof fn lemma_echo_is_accepted(kind: RequestKind, payload: Option<Seq<char>>)
    ensures
        accept(kind, outgoing_spec(kind, payload)) == Ok::<Seq<u8>, ProtocolError>(
            payload_bytes(payload),
        ),
{
    lemma_round_trip(kind, payload_bytes(payload));
}

/// An answer of another kind than was asked is refused, whatever payload
/// it carries: the payload is never handed on.
pub proof fn lemma_kind_mismatch_is_refused(asked: RequestKind, answered: RequestKind, payload: Seq<u8>)
    requires
        asked != answered,
    ensures
        accept(asked, frame(answered.token(), payload)) == Err::<Seq<u8>, ProtocolError>(
            ProtocolError::KindMismatch,
        ),
        settle(asked, Ok(frame(answered.token(), payload))) == Err::<Seq<u8>, Seq<char>>(
            "Invalid message kind..."@,
        ),
{
    lemma_round_trip(answered, payload);
}

/// Whatever decodes to another kind than was asked is refused, whatever
/// stands before its exclamation mark.
pub proof fn lemma_other_kind_is_refused(asked: RequestKind, response: Seq<u8>)
    requires
        decode(response) matches Ok((answered, _)) && answered != asked,
    ensures
        accept(asked, response) == Err::<Seq<u8>, ProtocolError>(ProtocolError::KindMismatch),
        settle(asked, Ok(response)) == Err::<Seq<u8>, Seq<char>>("Invalid message kind..."@),
{
}

/// A payload is accepted only from a frame of the kind that was asked
/// and is then the payload of that frame.
pub proof fn lemma_accepted_payload(kind: RequestKind, response: Seq<u8>)
    ensures
        accept(kind, response) matches Ok(payload) ==> decode(response) == Ok::<
            (RequestKind, Seq<u8>),
            ProtocolError,
        >((kind, payload)),
        settle(kind, Ok(response)) matches Ok(payload) ==> accept(kind, response) == Ok::<
            Seq<u8>,
            ProtocolError,
        >(payload) && (payload == acknowledgement() || json_fault(payload) is None),
{
}

/// The model of an accepted payload or its refusal.
pub open spec fn accepted_view(accepted: Result<Vec<u8>, ProtocolError>) -> Result<
    Seq<u8>,
    ProtocolError,
> {
    match accepted {
        Ok(payload) => Ok(payload@),
        Err(error) => Err(error),
    }
}

/// The model of what the transport got back.
pub open spec fn transport_view(outcome: Result<Vec<u8>, IoError>) -> Result<Seq<u8>, IoErrorModel> {
    match outcome {
        Ok(response) => Ok(response@),
        Err(error) => Err(error.deep_view()),
    }
}

/// The model of how an exchange ended.
pub open spec fn settled_view(settled: Result<Vec<u8>, String>) -> Result<Seq<u8>, Seq<char>> {
    match settled {
        Ok(payload) => Ok(payload@),
        Err(message) => Err(message@),
    }
}

/// Frames a request: the bytes to write to the connection.
pub fn outgoing(kind: RequestKind, payload: Option<String>) -> (bytes: Vec<u8>)
    ensures
        bytes@ == outgoing_spec(kind, payload.deep_view()),
{
    let text = match payload {
        Some(text) => text,
        None => String::new(),
    };
    assert(encode_utf8(Seq::<char>::empty()) =~= Seq::<u8>::empty()) by {
        reveal_with_fuel(encode_utf8, 1);
    }
    fetch_format(String::from_str(kind.name()), text)
}

/// Accepts the payload of an answer, or refuses the answer.
pub fn accept_response(kind: RequestKind, response: &[u8]) -> (accepted: Result<
    Vec<u8>,
    ProtocolError,
>)
    ensures
        accepted_view(accepted) == accept(kind, response@),
{
    match extract_parts(response) {
        Err(error) => Err(error),
        Ok((answered, payload)) => {
            if answered == kind {
                Ok(payload)
            } else {
                Err(ProtocolError::KindMismatch)
            }
        },
    }
}

/// Hands an accepted payload on, or replaces it by what the parser
/// reported of it.
pub fn check_payload(payload: Vec<u8>, fault: Option<String>) -> (handed: Result<Vec<u8>, String>)
    ensures
        settled_view(handed) == checked(payload@, fault.deep_view()),
{
    if acknowledged(payload.as_slice()) {
        return Ok(payload);
    }
    match fault {
        None => Ok(payload),
        Some(report) => Err(report),
    }
}

/// Ends an exchange: the accepted payload, or the message of whatever
/// failed, be it the transport, the frame or the payload.
pub fn incoming(kind: RequestKind, outcome: Result<Vec<u8>, IoError>) -> (settled: Result<
    Vec<u8>,
    String,
>)
    ensures
        settled_view(settled) == settle(kind, transport_view(outcome)),
{
    match outcome {
        Err(error) => Err(error.message()),
        Ok(response) => match accept_response(kind, response.as_slice()) {
            Ok(payload) => {
                let fault = json_check(payload.as_slice());
                check_payload(payload, fault)
            },
            Err(error) => Err(error.message()),
        },
    }
}

/// Whether `payload` only acknowledges.
pub fn acknowledged(payload: &[u8]) -> (acknowledged: bool)
    ensures
        acknowledged == (payload@ == acknowledgement()),
{
    let same = range_equals(payload, 0, payload.len(), "REQUEST_SUCCEEDED".as_bytes());
    assert(payload@.subrange(0, payload.len() as int) =~= payload@);
    same
}

} // verus!
