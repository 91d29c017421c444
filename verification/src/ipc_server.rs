//! The passkey service on top of the server: it sorts the payloads that
//! clients send unasked into the known request shapes and answers them with
//! envelopes that echo the request's sequence number.

use crate::envelope::{
    document_of, encode, envelope_from_value, envelope_of, lemma_envelope_round_trip,
    BitwardenError, Envelope, EnvelopeModel,
};
use crate::framing::{ByteOrder, FramingError};
use crate::json::{json_of, json_parse, json_text, parse, Json};
use crate::passkey::{
    assertion_request_document, assertion_request_of, assertion_response_document,
    lemma_assertion_request_round_trip, lemma_registration_is_no_assertion,
    lemma_registration_request_round_trip, registration_request_document,
    registration_request_of, registration_response_document, AssertionRequestModel,
    PasskeyAssertionMessage, PasskeyAssertionRequest, PasskeyAssertionResponse,
    PasskeyRegistrationMessage, PasskeyRegistrationRequest, PasskeyRegistrationResponse,
    RegistrationRequestModel,
};
use crate::server::{
    broadcast_result, broadcast_view, Broadcast, Message, MessageType, Server, ServerState,
};
use vstd::prelude::*;

verus! {

/// What a payload that a client sent unasked turned out to be.
#[derive(Debug)]
pub enum Unsolicited {
    /// An assertion request.
    Assertion(PasskeyAssertionMessage),
    /// An envelope that carries an error in place of a request. It reads
    /// under the first shape that is tried, which is the assertion's.
    AssertionFailed(BitwardenError),
    /// A registration request.
    Registration(PasskeyRegistrationMessage),
    /// None of the known shapes: the payload is reported and discarded.
    Unknown,
}

/// What a sorted payload holds.
#[allow(inconsistent_fields)]
pub enum UnsolicitedModel {
    Assertion { client_id: u32, sequence_number: u64, value: AssertionRequestModel },
    AssertionFailed(Seq<char>),
    Registration { client_id: u32, sequence_number: u64, value: RegistrationRequestModel },
    Unknown,
}

impl View for Unsolicited {
    type V = UnsolicitedModel;

    open spec fn view(&self) -> UnsolicitedModel {
        match self {
            Unsolicited::Assertion(m) => UnsolicitedModel::Assertion {
                client_id: m.client_id,
                sequence_number: m.sequence_number,
                value: m.value@,
            },
            Unsolicited::AssertionFailed(error) => UnsolicitedModel::AssertionFailed(error@),
            Unsolicited::Registration(m) => UnsolicitedModel::Registration {
                client_id: m.client_id,
                sequence_number: m.sequence_number,
                value: m.value@,
            },
            Unsolicited::Unknown => UnsolicitedModel::Unknown,
        }
    }
}

/// The view of an optional sorted payload.
pub open spec fn unsolicited_view(r: Option<Unsolicited>) -> Option<UnsolicitedModel> {
    match r {
        Some(u) => Some(u@),
        None => None,
    }
}

/// The shape of a document that client `client_id` sent. It must be an
/// envelope; its sequence number may be any that an envelope can carry. The
/// shapes are tried in a fixed order, the assertion request first and the
/// registration request second, and the first that reads decides.
pub open spec fn classify_document(client_id: u32, doc: Json) -> UnsolicitedModel {
    match envelope_of(doc) {
        None => UnsolicitedModel::Unknown,
        Some(envelope) => match envelope.result {
            Err(message) => UnsolicitedModel::AssertionFailed(message),
            Ok(payload) => match assertion_request_of(payload) {
                Some(value) => UnsolicitedModel::Assertion {
                    client_id,
                    sequence_number: envelope.sequence_number,
                    value,
                },
                None => match registration_request_of(payload) {
                    Some(value) => UnsolicitedModel::Registration {
                        client_id,
                        sequence_number: envelope.sequence_number,
                        value,
                    },
                    None => UnsolicitedModel::Unknown,
                },
            },
        },
    }
}

/// The shape of a payload, by what its text parses to.
pub open spec fn classify_parsed(client_id: u32, parsed: Option<Json>) -> UnsolicitedModel {
    match parsed {
        Some(doc) => classify_document(client_id, doc),
        None => UnsolicitedModel::Unknown,
    }
}

/// What an event of the server asks of the passkey service: lifecycle events
/// ask nothing, a payload is sorted.
pub open spec fn dispatch_result(
    kind: MessageType,
    client_id: u32,
    parsed: Option<Json>,
) -> Option<UnsolicitedModel> {
    match kind {
        MessageType::Message => Some(classify_parsed(client_id, parsed)),
        _ => None,
    }
}

/// The envelope that carries `payload` under `sequence_number`: a request
/// as the server takes it, or the answer that echoes the request's number.
pub open spec fn reply_envelope(sequence_number: u64, payload: Json) -> EnvelopeModel {
    EnvelopeModel { sequence_number, result: Ok(payload) }
}

/// The envelope of a registration request is sorted as that registration
/// request: no request of this shape is taken for an assertion.
pub proof fn lemma_registration_classified(
    client_id: u32,
    sequence_number: u64,
    request: RegistrationRequestModel,
)
    ensures
        classify_document(
            client_id,
            document_of(reply_envelope(sequence_number, registration_request_document(request))),
        ) == (UnsolicitedModel::Registration { client_id, sequence_number, value: request }),
{
    lemma_envelope_round_trip(
        reply_envelope(sequence_number, registration_request_document(request)),
    );
    lemma_registration_is_no_assertion(request);
    lemma_registration_request_round_trip(request);
}

/// The envelope of an assertion request is sorted as that assertion request.
pub proof fn lemma_assertion_classified(
    client_id: u32,
    sequence_number: u64,
    request: AssertionRequestModel,
)
    ensures
        classify_document(
            client_id,
            document_of(reply_envelope(sequence_number, assertion_request_document(request))),
        ) == (UnsolicitedModel::Assertion { client_id, sequence_number, value: request }),
{
    lemma_envelope_round_trip(
        reply_envelope(sequence_number, assertion_request_document(request)),
    );
    lemma_assertion_request_round_trip(request);
}

/// An envelope that carries an error is sorted as a failed assertion with
/// the error's message, whoever sent it.
pub proof fn lemma_error_classified(client_id: u32, sequence_number: u64, message: Seq<char>)
    ensures
        classify_document(
            client_id,
            document_of(EnvelopeModel { sequence_number, result: Err(message) }),
        ) == UnsolicitedModel::AssertionFailed(message),
{
    lemma_envelope_round_trip(EnvelopeModel { sequence_number, result: Err(message) });
}

/// Sorts a document that client `client_id` sent into the known shapes.
pub fn classify_value(client_id: u32, v: &serde_json::Value) -> (r: Unsolicited)
    ensures
        r@ == classify_document(client_id, json_of(*v)),
{
    let envelope = match envelope_from_value(v) {
        Some(envelope) => envelope,
        None => {
            return Unsolicited::Unknown;
        },
    };
    let sequence_number: u64 = envelope.sequence_number;
    match envelope.result {
        Err(error) => Unsolicited::AssertionFailed(error),
        Ok(payload) => {
            match PasskeyAssertionRequest::from_value(&payload) {
                Some(value) => {
                    return Unsolicited::Assertion(
                        PasskeyAssertionMessage { client_id, sequence_number, value },
                    );
                },
                None => {},
            }
            match PasskeyRegistrationRequest::from_value(&payload) {
                Some(value) => Unsolicited::Registration(
                    PasskeyRegistrationMessage { client_id, sequence_number, value },
                ),
                None => Unsolicited::Unknown,
            }
        },
    }
}

/// Sorts the text of a payload that client `client_id` sent into the known
/// shapes.
pub fn classify(client_id: u32, body: &str) -> (r: Unsolicited)
    ensures
        r@ == classify_parsed(client_id, json_parse(body@)),
{
    match parse(body) {
        Ok(v) => classify_value(client_id, &v),
        Err(_) => Unsolicited::Unknown,
    }
}

/// The text of the envelope that answers a registration request.
pub fn registration_reply(
    request: &PasskeyRegistrationMessage,
    response: &PasskeyRegistrationResponse,
) -> (wire: String)
    ensures
        wire@ == json_text(
            document_of(
                reply_envelope(request.sequence_number, registration_response_document(response@)),
            ),
        ),
{
    let envelope = Envelope {
        sequence_number: request.sequence_number,
        result: Ok(response.to_value()),
    };
    encode(&envelope)
}

/// The text of the envelope that answers an assertion request.
pub fn assertion_reply(request: &PasskeyAssertionMessage, response: &PasskeyAssertionResponse) -> (wire:
    String)
    ensures
        wire@ == json_text(
            document_of(
                reply_envelope(request.sequence_number, assertion_response_document(response@)),
            ),
        ),
{
    let envelope = Envelope {
        sequence_number: request.sequence_number,
        result: Ok(response.to_value()),
    };
    encode(&envelope)
}

/// The passkey service: a server and the byte order of its frames.
pub struct IpcServer<W> {
    /// The registry of live connections.
    pub server: Server<W>,
    /// The byte order of the frames' headers.
    pub order: ByteOrder,
}

impl<W> IpcServer<W> {
    /// Whether the service is well formed.
    pub open spec fn wf(&self) -> bool {
        self.server.wf()
    }

    /// A service that has just started and frames in the given byte order.
    pub fn listen(order: ByteOrder) -> (service: Self)
        ensures
            service.wf(),
            service.server@ == ServerState::<W>::initial(),
            service.order == order,
    {
        IpcServer { server: Server::new(), order }
    }

    /// Stops the service: every connection is dropped and none is taken in
    /// any more. Returns how many connections were dropped.
    pub fn stop(&mut self) -> (dropped: usize)
        requires
            old(self).wf(),
        ensures
            final(self).wf(),
            final(self).server@ == old(self).server@.stop(),
            final(self).order == old(self).order,
            dropped == old(self).server@.live.len(),
    {
        self.server.stop()
    }

    /// Handles one event of the server. Lifecycle events ask nothing of the
    /// service; a payload is sorted into the known shapes.
    pub fn dispatch(&self, message: &Message) -> (r: Option<Unsolicited>)
        ensures
            unsolicited_view(r) == dispatch_result(
                message.kind,
                message.client_id,
                json_parse(message.message@),
            ),
    {
        match message.kind {
            MessageType::Connected => None,
            MessageType::Disconnected => None,
            MessageType::Message => Some(classify(message.client_id, message.message.as_str())),
        }
    }

    /// Prepares the broadcast of `message` to every live client.
    pub fn send(&self, message: &str) -> (r: Result<Broadcast, FramingError>)
        ensures
            broadcast_view(r) == broadcast_result(
                self.server@,
                vstd::string::StringSliceAdditionalSpecFns::spec_bytes(message),
                self.order,
            ),
    {
        self.server.send_all(message, self.order)
    }

    /// Answers a registration request: prepares the broadcast of the
    /// envelope that carries `response` under the request's sequence number.
    pub fn complete_registration(
        &self,
        request: &PasskeyRegistrationMessage,
        response: &PasskeyRegistrationResponse,
    ) -> (r: Result<Broadcast, FramingError>)
        ensures
            broadcast_view(r) == broadcast_result(
                self.server@,
                vstd::utf8::encode_utf8(
                    json_text(
                        document_of(
                            reply_envelope(
                                request.sequence_number,
                                registration_response_document(response@),
                            ),
                        ),
                    ),
                ),
                self.order,
            ),
    {
        let wire = registration_reply(request, response);
        self.send(wire.as_str())
    }

    /// Answers an assertion request: prepares the broadcast of the envelope
    /// that carries `response` under the request's sequence number.
    pub fn complete_assertion(
        &self,
        request: &PasskeyAssertionMessage,
        response: &PasskeyAssertionResponse,
    ) -> (r: Result<Broadcast, FramingError>)
        ensures
            broadcast_view(r) == broadcast_result(
                self.server@,
                vstd::utf8::encode_utf8(
                    json_text(
                        document_of(
                            reply_envelope(
                                request.sequence_number,
                                assertion_response_document(response@),
                            ),
                        ),
                    ),
                ),
                self.order,
            ),
    {
        let wire = assertion_reply(request, response);
        self.send(wire.as_str())
    }
}

} // verus!
