use desktop_ipc::binding::{IpcMessage, IpcMessageType, KeyMaterial, OsDerivedKey};
use desktop_ipc::fields::{
    bytes_from_value, bytes_to_value, read_bytes, read_optional_string, read_string,
};
use desktop_ipc::framing::{read_frame, ByteOrder};
use desktop_ipc::ipc_server::{
    assertion_reply, classify, classify_value, registration_reply, IpcServer, Unsolicited,
};
use desktop_ipc::passkey::{
    PasskeyAssertionMessage, PasskeyAssertionRequest, PasskeyAssertionResponse,
    PasskeyRegistrationMessage, PasskeyRegistrationRequest, PasskeyRegistrationResponse,
    UserVerification,
};
use desktop_ipc::server::{Message, MessageType};
use serde_json::Value;

fn value(text: &str) -> Value {
    serde_json::from_str(text).unwrap()
}

fn registration_request() -> PasskeyRegistrationRequest {
    PasskeyRegistrationRequest {
        relying_party_id: "example.com".to_owned(),
        user_name: "ann".to_owned(),
        user_handle: vec![0, 1, 255],
        client_data_hash: vec![9, 8],
        user_verification: UserVerification::Preferred,
    }
}

fn assertion_request(record: Option<&str>) -> PasskeyAssertionRequest {
    PasskeyAssertionRequest {
        relying_party_id: "example.com".to_owned(),
        user_name: "ann".to_owned(),
        credential_id: vec![7, 7],
        user_handle: vec![0, 1, 255],
        record_identifier: record.map(|r| r.to_owned()),
        client_data_hash: vec![],
        user_verification: UserVerification::Discouraged,
    }
}

const REGISTRATION: &str = "{\"relyingPartyId\":\"example.com\",\"userName\":\"ann\",\
    \"userHandle\":[0,1,255],\"clientDataHash\":[9,8],\"userVerification\":\"preferred\"}";

const ASSERTION: &str = "{\"relyingPartyId\":\"example.com\",\"userName\":\"ann\",\
    \"credentialId\":[7,7],\"userHandle\":[0,1,255],\"recordIdentifier\":\"rec-1\",\
    \"clientDataHash\":[],\"userVerification\":\"discouraged\"}";

#[test]
fn user_verification_words() {
    assert_eq!(UserVerification::Preferred.as_str(), "preferred");
    assert_eq!(UserVerification::Required.as_str(), "required");
    assert_eq!(UserVerification::Discouraged.as_str(), "discouraged");
    for level in
        [UserVerification::Preferred, UserVerification::Required, UserVerification::Discouraged]
    {
        assert_eq!(UserVerification::from_word(level.as_str()), Some(level));
    }
    assert_eq!(UserVerification::from_word("Preferred"), None);
    assert_eq!(UserVerification::from_word(""), None);
}

#[test]
fn registration_request_document() {
    assert_eq!(registration_request().to_value(), value(REGISTRATION));
    assert_eq!(
        PasskeyRegistrationRequest::from_value(&value(REGISTRATION)),
        Some(registration_request())
    );
}

#[test]
fn assertion_request_document() {
    assert_eq!(assertion_request(Some("rec-1")).to_value(), value(ASSERTION));
    assert_eq!(
        PasskeyAssertionRequest::from_value(&value(ASSERTION)),
        Some(assertion_request(Some("rec-1")))
    );
}

#[test]
fn missing_record_identifier_is_written_as_null_and_read_as_none() {
    let doc = assertion_request(None).to_value();
    assert_eq!(doc.get("recordIdentifier"), Some(&Value::Null));
    assert_eq!(PasskeyAssertionRequest::from_value(&doc), Some(assertion_request(None)));
    let without = value(
        "{\"relyingPartyId\":\"example.com\",\"userName\":\"ann\",\"credentialId\":[7,7],\
         \"userHandle\":[0,1,255],\"clientDataHash\":[],\"userVerification\":\"discouraged\"}",
    );
    assert_eq!(PasskeyAssertionRequest::from_value(&without), Some(assertion_request(None)));
    let wrong = value(
        "{\"relyingPartyId\":\"example.com\",\"userName\":\"ann\",\"credentialId\":[7,7],\
         \"userHandle\":[0,1,255],\"recordIdentifier\":5,\"clientDataHash\":[],\
         \"userVerification\":\"discouraged\"}",
    );
    assert_eq!(PasskeyAssertionRequest::from_value(&wrong), None);
}

#[test]
fn responses_round_trip_through_their_documents() {
    let registration = PasskeyRegistrationResponse {
        relying_party: "example.com".to_owned(),
        client_data_hash: vec![1],
        credential_id: vec![2, 3],
        attestation_object: vec![4, 5, 6],
    };
    let doc = registration.to_value();
    assert_eq!(
        doc,
        value(
            "{\"relyingParty\":\"example.com\",\"clientDataHash\":[1],\"credentialId\":[2,3],\
             \"attestationObject\":[4,5,6]}"
        )
    );
    assert_eq!(PasskeyRegistrationResponse::from_value(&doc), Some(registration));

    let assertion = PasskeyAssertionResponse {
        user_handle: vec![1],
        relying_party: "example.com".to_owned(),
        signature: vec![2],
        client_data_hash: vec![3],
        authenticator_data: vec![4],
        credential_id: vec![5],
    };
    let doc = assertion.to_value();
    assert_eq!(
        doc,
        value(
            "{\"userHandle\":[1],\"relyingParty\":\"example.com\",\"signature\":[2],\
             \"clientDataHash\":[3],\"authenticatorData\":[4],\"credentialId\":[5]}"
        )
    );
    assert_eq!(PasskeyAssertionResponse::from_value(&doc), Some(assertion));
}

#[test]
fn shapes_refuse_documents_that_lack_a_member() {
    assert_eq!(PasskeyRegistrationRequest::from_value(&value("{}")), None);
    assert_eq!(PasskeyRegistrationRequest::from_value(&value("[]")), None);
    assert_eq!(
        PasskeyRegistrationRequest::from_value(&value(
            "{\"relyingPartyId\":\"example.com\",\"userName\":\"ann\",\"userHandle\":[0],\
             \"clientDataHash\":[9],\"userVerification\":\"sometimes\"}"
        )),
        None
    );
    assert_eq!(
        PasskeyRegistrationRequest::from_value(&value(
            "{\"relyingPartyId\":\"example.com\",\"userName\":\"ann\",\"userHandle\":[256],\
             \"clientDataHash\":[9],\"userVerification\":\"required\"}"
        )),
        None
    );
    assert_eq!(PasskeyAssertionRequest::from_value(&value(REGISTRATION)), None);
    assert_eq!(PasskeyRegistrationResponse::from_value(&value(REGISTRATION)), None);
    assert_eq!(PasskeyAssertionResponse::from_value(&value(ASSERTION)), None);
}

#[test]
fn byte_arrays_are_numbers_from_0_to_255() {
    assert_eq!(bytes_to_value(&[0, 127, 255]), value("[0,127,255]"));
    assert_eq!(bytes_to_value(&[]), value("[]"));
    assert_eq!(bytes_from_value(&value("[0,127,255]")), Some(vec![0, 127, 255]));
    assert_eq!(bytes_from_value(&value("[]")), Some(vec![]));
    assert_eq!(bytes_from_value(&value("[1,256]")), None);
    assert_eq!(bytes_from_value(&value("[1,-1]")), None);
    assert_eq!(bytes_from_value(&value("[1,\"2\"]")), None);
    assert_eq!(bytes_from_value(&value("\"AQI=\"")), None);
}

#[test]
fn typed_members_are_read_by_key() {
    let doc = value("{\"n\":5,\"s\":\"x\",\"z\":null}");
    assert_eq!(read_string(&doc, "s"), Some("x".to_owned()));
    assert_eq!(read_string(&doc, "n"), None);
    assert_eq!(read_string(&doc, "missing"), None);
    assert_eq!(read_bytes(&value("{\"b\":[1,2]}"), "b"), Some(vec![1, 2]));
    assert_eq!(read_bytes(&doc, "s"), None);
    assert_eq!(read_bytes(&doc, "missing"), None);
    assert_eq!(read_optional_string(&doc, "s"), Some(Some("x".to_owned())));
    assert_eq!(read_optional_string(&doc, "z"), Some(None));
    assert_eq!(read_optional_string(&doc, "missing"), Some(None));
    assert_eq!(read_optional_string(&doc, "n"), None);
}

#[test]
fn assertion_shape_is_tried_first() {
    let body = format!("{{\"sequenceNumber\":12,\"value\":{}}}", ASSERTION);
    match classify(3, &body) {
        Unsolicited::Assertion(m) => {
            assert_eq!(
                m,
                PasskeyAssertionMessage {
                    client_id: 3,
                    sequence_number: 12,
                    value: assertion_request(Some("rec-1")),
                }
            );
        }
        other => panic!("expected an assertion, got {:?}", other),
    }
}

#[test]
fn registration_shape_is_tried_second() {
    let body = format!("{{\"sequenceNumber\":13,\"value\":{}}}", REGISTRATION);
    match classify(4, &body) {
        Unsolicited::Registration(m) => {
            assert_eq!(
                m,
                PasskeyRegistrationMessage {
                    client_id: 4,
                    sequence_number: 13,
                    value: registration_request(),
                }
            );
        }
        other => panic!("expected a registration, got {:?}", other),
    }
}

#[test]
fn error_envelope_reads_under_the_first_shape() {
    match classify(1, "{\"sequenceNumber\":1,\"error\":{\"internal\":\"cancelled\"}}") {
        Unsolicited::AssertionFailed(error) => assert_eq!(error.message(), "cancelled"),
        other => panic!("expected a failed assertion, got {:?}", other),
    }
}

#[test]
fn payload_of_no_known_shape_is_unknown() {
    assert!(matches!(classify(1, "garbage"), Unsolicited::Unknown));
    assert!(matches!(classify(1, "{\"a\":1}"), Unsolicited::Unknown));
    assert!(matches!(classify(1, "{\"sequenceNumber\":1,\"value\":{\"a\":1}}"), Unsolicited::Unknown));
    let beyond = format!("{{\"sequenceNumber\":18446744073709551616,\"value\":{}}}", REGISTRATION);
    assert!(matches!(classify(1, &beyond), Unsolicited::Unknown));
    let negative = format!("{{\"sequenceNumber\":-1,\"value\":{}}}", REGISTRATION);
    assert!(matches!(classify(1, &negative), Unsolicited::Unknown));
}

#[test]
fn every_64_bit_sequence_number_is_taken() {
    for number in [0u64, 4_294_967_295, 4_294_967_296, u64::MAX - 1, u64::MAX] {
        let body = format!("{{\"sequenceNumber\":{},\"value\":{}}}", number, REGISTRATION);
        match classify(9, &body) {
            Unsolicited::Registration(m) => {
                assert_eq!(m.client_id, 9);
                assert_eq!(m.sequence_number, number);
                assert_eq!(m.value, registration_request());
            }
            other => panic!("expected a registration, got {:?}", other),
        }
        let body = format!("{{\"sequenceNumber\":{},\"value\":{}}}", number, ASSERTION);
        match classify_value(9, &value(&body)) {
            Unsolicited::Assertion(m) => {
                assert_eq!(m.client_id, 9);
                assert_eq!(m.sequence_number, number);
                assert_eq!(m.value, assertion_request(Some("rec-1")));
            }
            other => panic!("expected an assertion, got {:?}", other),
        }
    }
}

#[test]
fn replies_echo_sequence_numbers_beyond_32_bits() {
    let request = PasskeyRegistrationMessage {
        client_id: 1,
        sequence_number: u64::MAX,
        value: registration_request(),
    };
    let response = PasskeyRegistrationResponse {
        relying_party: "example.com".to_owned(),
        client_data_hash: vec![],
        credential_id: vec![],
        attestation_object: vec![],
    };
    assert_eq!(
        registration_reply(&request, &response),
        "{\"sequenceNumber\":18446744073709551615,\"value\":{\"attestationObject\":[],\
         \"clientDataHash\":[],\"credentialId\":[],\"relyingParty\":\"example.com\"}}"
    );
    let request = PasskeyAssertionMessage {
        client_id: 1,
        sequence_number: 4_294_967_296,
        value: assertion_request(None),
    };
    let response = PasskeyAssertionResponse {
        user_handle: vec![],
        relying_party: String::new(),
        signature: vec![],
        client_data_hash: vec![],
        authenticator_data: vec![],
        credential_id: vec![],
    };
    assert!(assertion_reply(&request, &response).starts_with("{\"sequenceNumber\":4294967296,"));
}

#[test]
fn key_material_holds_its_parts() {
    let material = KeyMaterial {
        os_key_part_b64: "b3M=".to_owned(),
        client_key_part_b64: Some("Y2xpZW50".to_owned()),
    };
    assert_eq!(material.clone(), material);
    assert_eq!(material.os_key_part_b64, "b3M=");
    assert_eq!(material.client_key_part_b64.as_deref(), Some("Y2xpZW50"));
    let key = OsDerivedKey { key_b64: "a2V5".to_owned(), iv_b64: "aXY=".to_owned() };
    assert_eq!(key.clone(), key);
    assert_eq!((key.key_b64.as_str(), key.iv_b64.as_str()), ("a2V5", "aXY="));
}

#[test]
fn dispatch_ignores_lifecycle_events() {
    let service: IpcServer<u8> = IpcServer::listen(ByteOrder::Big);
    assert!(service.dispatch(&Message::connected(1)).is_none());
    assert!(service.dispatch(&Message::disconnected(1)).is_none());
    let body = format!("{{\"sequenceNumber\":2,\"value\":{}}}", REGISTRATION);
    assert!(matches!(
        service.dispatch(&Message::payload(1, body)),
        Some(Unsolicited::Registration(_))
    ));
    assert!(matches!(
        service.dispatch(&Message::payload(1, "Connected".to_owned())),
        Some(Unsolicited::Unknown)
    ));
}

#[test]
fn replies_echo_the_sequence_number() {
    let request = PasskeyRegistrationMessage {
        client_id: 1,
        sequence_number: 77,
        value: registration_request(),
    };
    let response = PasskeyRegistrationResponse {
        relying_party: "example.com".to_owned(),
        client_data_hash: vec![1],
        credential_id: vec![2],
        attestation_object: vec![3],
    };
    assert_eq!(
        registration_reply(&request, &response),
        "{\"sequenceNumber\":77,\"value\":{\"attestationObject\":[3],\"clientDataHash\":[1],\
         \"credentialId\":[2],\"relyingParty\":\"example.com\"}}"
    );

    let request = PasskeyAssertionMessage {
        client_id: 1,
        sequence_number: 78,
        value: assertion_request(None),
    };
    let response = PasskeyAssertionResponse {
        user_handle: vec![1],
        relying_party: "example.com".to_owned(),
        signature: vec![2],
        client_data_hash: vec![3],
        authenticator_data: vec![4],
        credential_id: vec![5],
    };
    assert_eq!(
        assertion_reply(&request, &response),
        "{\"sequenceNumber\":78,\"value\":{\"authenticatorData\":[4],\"clientDataHash\":[3],\
         \"credentialId\":[5],\"relyingParty\":\"example.com\",\"signature\":[2],\
         \"userHandle\":[1]}}"
    );
}

#[test]
fn completing_a_request_broadcasts_the_reply() {
    let mut service: IpcServer<&str> = IpcServer::listen(ByteOrder::Little);
    service.server.accept("a").unwrap();
    service.server.accept("b").unwrap();
    let request = PasskeyRegistrationMessage {
        client_id: 2,
        sequence_number: 5,
        value: registration_request(),
    };
    let response = PasskeyRegistrationResponse {
        relying_party: "example.com".to_owned(),
        client_data_hash: vec![],
        credential_id: vec![],
        attestation_object: vec![],
    };
    let broadcast = service.complete_registration(&request, &response).unwrap();
    assert_eq!(broadcast.recipients, vec![1, 2]);
    assert_eq!(broadcast.attempted_count(), 2);
    let body = read_frame(&broadcast.frame, ByteOrder::Little).unwrap();
    assert_eq!(String::from_utf8(body).unwrap(), registration_reply(&request, &response));

    let request =
        PasskeyAssertionMessage { client_id: 1, sequence_number: 6, value: assertion_request(None) };
    let response = PasskeyAssertionResponse {
        user_handle: vec![],
        relying_party: String::new(),
        signature: vec![],
        client_data_hash: vec![],
        authenticator_data: vec![],
        credential_id: vec![],
    };
    let broadcast = service.complete_assertion(&request, &response).unwrap();
    let body = read_frame(&broadcast.frame, ByteOrder::Little).unwrap();
    assert_eq!(String::from_utf8(body).unwrap(), assertion_reply(&request, &response));

    assert_eq!(service.send("ok").unwrap().frame, vec![2, 0, 0, 0, b'o', b'k']);
    assert_eq!(service.stop(), 2);
    assert_eq!(service.send("ok").unwrap().attempted_count(), 0);
}

#[test]
fn events_keep_their_fields_on_the_way_to_the_host() {
    assert_eq!(IpcMessageType::from(MessageType::Connected), IpcMessageType::Connected);
    assert_eq!(IpcMessageType::from(MessageType::Disconnected), IpcMessageType::Disconnected);
    assert_eq!(IpcMessageType::from(MessageType::Message), IpcMessageType::Message);
    let host = IpcMessage::from(Message::payload(8, "body".to_owned()));
    assert_eq!(host.client_id, 8);
    assert_eq!(host.kind, IpcMessageType::Message);
    assert_eq!(host.message, "body");
    let host: IpcMessage = Message::disconnected(9).into();
    assert_eq!((host.client_id, host.kind, host.message.as_str()), (9, IpcMessageType::Disconnected, "Disconnected"));
}
