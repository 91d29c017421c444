//! The envelope of the correlation protocol: a sequence number around either
//! a payload or a typed error, written as a JSON object.
//!
//! A success is `{"sequenceNumber": n, "value": payload}`; a failure is
//! `{"sequenceNumber": n, "error": {"internal": message}}`.

use crate::json::{
    as_text, as_unsigned, duplicate, empty_object, json_of, json_parse, json_text, member, parse,
    render, set_member, text, unsigned, Json,
};
use vstd::prelude::*;

verus! {

/// The error that a peer reports in place of a value.
#[derive(Debug)]
pub enum BitwardenError {
    /// A failure described by a message.
    Internal(String),
}

impl View for BitwardenError {
    type V = Seq<char>;

    open spec fn view(&self) -> Seq<char> {
        match self {
            BitwardenError::Internal(message) => message@,
        }
    }
}

impl Clone for BitwardenError {
    fn clone(&self) -> (copy: Self)
        ensures
            copy@ == self@,
    {
        match self {
            BitwardenError::Internal(message) => BitwardenError::Internal(message.clone()),
        }
    }
}

impl BitwardenError {
    /// The message of the error.
    pub fn message(&self) -> (message: &str)
        ensures
            message@ == self@,
    {
        match self {
            BitwardenError::Internal(message) => message.as_str(),
        }
    }
}

/// One message of the correlation protocol.
#[derive(Debug)]
pub struct Envelope {
    /// The number that pairs a reply with its request.
    pub sequence_number: u64,
    /// The payload, or the error reported in its place.
    pub result: Result<serde_json::Value, BitwardenError>,
}

/// What an envelope holds.
pub struct EnvelopeModel {
    /// The number that pairs a reply with its request.
    pub sequence_number: u64,
    /// The payload, or the message of the error reported in its place.
    pub result: Result<Json, Seq<char>>,
}

impl View for Envelope {
    type V = EnvelopeModel;

    open spec fn view(&self) -> EnvelopeModel {
        EnvelopeModel {
            sequence_number: self.sequence_number,
            result: match self.result {
                Ok(payload) => Ok(json_of(payload)),
                Err(error) => Err(error@),
            },
        }
    }
}

/// Why a text is not an envelope.
#[derive(Clone, Copy, Debug, PartialEq, Eq, Structural)]
pub enum DecodeError {
    /// The text is not JSON.
    NotJson,
    /// The text is JSON, but not of an envelope's shape.
    NotEnvelope,
}

/// The key of the sequence number.
pub open spec fn key_sequence_number() -> Seq<char> {
    "sequenceNumber"@
}

/// The key of the payload.
pub open spec fn key_value() -> Seq<char> {
    "value"@
}

/// The key of the error.
pub open spec fn key_error() -> Seq<char> {
    "error"@
}

/// The key of an internal error's message.
pub open spec fn key_internal() -> Seq<char> {
    "internal"@
}

/// The three keys of an envelope differ from each other.
pub proof fn lemma_keys_distinct()
    ensures
        key_sequence_number() != key_value(),
        key_sequence_number() != key_error(),
        key_value() != key_error(),
{
    reveal_strlit("sequenceNumber");
    reveal_strlit("value");
    reveal_strlit("error");
    assert(key_sequence_number().len() == 14);
    assert(key_value().len() == 5);
    assert(key_error().len() == 5);
    assert(key_value()[0] == 'v');
    assert(key_error()[0] == 'e');
}

/// The document of a typed error: `{"internal": message}`.
pub open spec fn error_document(message: Seq<char>) -> Json {
    Json::Object(Map::<Seq<char>, Json>::empty().insert(key_internal(), Json::String(message)))
}

/// The message of a typed error's document, where it is one: an object with a
/// string under `internal`.
pub open spec fn error_of(doc: Json) -> Option<Seq<char>> {
    match doc {
        Json::Object(members) => if members.contains_key(key_internal()) {
            match members[key_internal()] {
                Json::String(message) => Some(message),
                _ => None,
            }
        } else {
            None
        },
        _ => None,
    }
}

/// The document of an envelope.
pub open spec fn document_of(envelope: EnvelopeModel) -> Json {
    let base = Map::<Seq<char>, Json>::empty().insert(
        key_sequence_number(),
        Json::Unsigned(envelope.sequence_number),
    );
    match envelope.result {
        Ok(payload) => Json::Object(base.insert(key_value(), payload)),
        Err(message) => Json::Object(base.insert(key_error(), error_document(message))),
    }
}

/// The envelope that a document stands for, where it stands for one: an
/// object with a whole number from 0 to `u64::MAX` under `sequenceNumber` and
/// with exactly one of `value` and `error`, the latter a typed error's
/// document. Other members are ignored.
pub open spec fn envelope_of(doc: Json) -> Option<EnvelopeModel> {
    match doc {
        Json::Object(members) => {
            if !members.contains_key(key_sequence_number()) {
                None
            } else {
                match members[key_sequence_number()] {
                    Json::Unsigned(sequence_number) => {
                        let has_value = members.contains_key(key_value());
                        let has_error = members.contains_key(key_error());
                        if has_value && !has_error {
                            Some(
                                EnvelopeModel { sequence_number, result: Ok(members[key_value()]) },
                            )
                        } else if has_error && !has_value {
                            match error_of(members[key_error()]) {
                                Some(message) => Some(
                                    EnvelopeModel { sequence_number, result: Err(message) },
                                ),
                                None => None,
                            }
                        } else {
                            None
                        }
                    },
                    _ => None,
                }
            }
        },
        _ => None,
    }
}

/// What decoding makes of a parsed text: the envelope, or the reason why
/// there is none.
pub open spec fn decode_result(parsed: Option<Json>) -> Result<EnvelopeModel, DecodeError> {
    match parsed {
        None => Err(DecodeError::NotJson),
        Some(doc) => match envelope_of(doc) {
            Some(envelope) => Ok(envelope),
            None => Err(DecodeError::NotEnvelope),
        },
    }
}

/// The view of an optional envelope.
pub open spec fn option_view(r: Option<Envelope>) -> Option<EnvelopeModel> {
    match r {
        Some(envelope) => Some(envelope@),
        None => None,
    }
}

/// The view of a decoding's outcome.
pub open spec fn result_view(r: Result<Envelope, DecodeError>) -> Result<
    EnvelopeModel,
    DecodeError,
> {
    match r {
        Ok(envelope) => Ok(envelope@),
        Err(e) => Err(e),
    }
}

/// Reading the document of a typed error gives back its message.
pub proof fn lemma_error_round_trip(message: Seq<char>)
    ensures
        error_of(error_document(message)) == Some(message),
{
}

/// Reading the document of an envelope gives back the envelope, for every
/// sequence number, every payload and every error message.
pub proof fn lemma_envelope_round_trip(envelope: EnvelopeModel)
    ensures
        envelope_of(document_of(envelope)) == Some(envelope),
{
    lemma_keys_distinct();
    lemma_error_round_trip(envelope.result->Err_0);
}

/// The document of a typed error.
pub fn error_to_value(error: &BitwardenError) -> (v: serde_json::Value)
    ensures
        json_of(v) == error_document(error@),
{
    let mut object = empty_object();
    set_member(&mut object, "internal".to_owned(), text(error.message().to_owned()));
    object
}

/// Reads a typed error from its document.
pub fn error_from_value(v: &serde_json::Value) -> (r: Option<BitwardenError>)
    ensures
        match r {
            Some(error) => error_of(json_of(*v)) == Some(error@),
            None => error_of(json_of(*v)) is None,
        },
{
    match member(v, "internal") {
        Some(m) => match as_text(m) {
            Some(message) => Some(BitwardenError::Internal(message.to_owned())),
            None => None,
        },
        None => None,
    }
}

/// The document of an envelope.
pub fn envelope_to_value(envelope: &Envelope) -> (v: serde_json::Value)
    ensures
        json_of(v) == document_of(envelope@),
{
    let mut object = empty_object();
    set_member(&mut object, "sequenceNumber".to_owned(), unsigned(envelope.sequence_number));
    match &envelope.result {
        Ok(payload) => {
            set_member(&mut object, "value".to_owned(), duplicate(payload));
        },
        Err(error) => {
            set_member(&mut object, "error".to_owned(), error_to_value(error));
        },
    }
    object
}

/// Reads an envelope from a document.
pub fn envelope_from_value(v: &serde_json::Value) -> (r: Option<Envelope>)
    ensures
        option_view(r) == envelope_of(json_of(*v)),
{
    let sequence_number: u64 = match member(v, "sequenceNumber") {
        Some(m) => match as_unsigned(m) {
            Some(n) => n,
            None => {
                return None;
            },
        },
        None => {
            return None;
        },
    };
    let value = member(v, "value");
    let error = member(v, "error");
    match (value, error) {
        (Some(payload), None) => Some(Envelope { sequence_number, result: Ok(duplicate(payload)) }),
        (None, Some(e)) => match error_from_value(e) {
            Some(error) => Some(Envelope { sequence_number, result: Err(error) }),
            None => None,
        },
        _ => None,
    }
}

/// Writes an envelope as compact JSON text.
pub fn encode(envelope: &Envelope) -> (wire: String)
    ensures
        wire@ == json_text(document_of(envelope@)),
{
    let v = envelope_to_value(envelope);
    render(&v)
}

/// Reads an envelope from JSON text.
pub fn decode(wire: &str) -> (r: Result<Envelope, DecodeError>)
    ensures
        result_view(r) == decode_result(json_parse(wire@)),
{
    match parse(wire) {
        Ok(v) => match envelope_from_value(&v) {
            Some(envelope) => Ok(envelope),
            None => Err(DecodeError::NotEnvelope),
        },
        Err(_) => Err(DecodeError::NotJson),
    }
}

} // verus!
