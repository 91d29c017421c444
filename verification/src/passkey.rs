//! The passkey messages that travel in envelopes: registration and assertion
//! requests that a client sends unasked, and the responses that answer them.
//!
//! Each shape is a JSON object with camel-case keys. Byte strings are arrays
//! of numbers from 0 to 255; members that a shape does not name are ignored.

use crate::fields::{
    bytes_document, bytes_member, bytes_to_value, lemma_bytes_round_trip, member_of,
    optional_string_document, optional_string_member, optional_string_to_value, read_bytes,
    read_optional_string, read_string, string_member, string_view,
};
use crate::json::{as_text, empty_object, json_of, member, set_member, text, Json};
use vstd::prelude::*;

verus! {

/// How strongly a relying party asks for user verification.
#[derive(Clone, Copy, Debug, PartialEq, Eq, Structural)]
pub enum UserVerification {
    /// Verify the user where the authenticator can.
    Preferred,
    /// Fail unless the user is verified.
    Required,
    /// Do not verify the user unless it cannot be avoided.
    Discouraged,
}

/// A request to create a passkey.
#[derive(Clone, Debug, PartialEq, Eq)]
pub struct PasskeyRegistrationRequest {
    /// The relying party's identifier.
    pub relying_party_id: String,
    /// The user's name at the relying party.
    pub user_name: String,
    /// The user's handle at the relying party.
    pub user_handle: Vec<u8>,
    /// The hash of the client data.
    pub client_data_hash: Vec<u8>,
    /// How strongly user verification is asked for.
    pub user_verification: UserVerification,
}

/// The answer to a registration request.
#[derive(Clone, Debug, PartialEq, Eq)]
pub struct PasskeyRegistrationResponse {
    /// The relying party's identifier.
    pub relying_party: String,
    /// The hash of the client data.
    pub client_data_hash: Vec<u8>,
    /// The identifier of the new credential.
    pub credential_id: Vec<u8>,
    /// The attestation object.
    pub attestation_object: Vec<u8>,
}

/// A request to sign in with a passkey.
#[derive(Clone, Debug, PartialEq, Eq)]
pub struct PasskeyAssertionRequest {
    /// The relying party's identifier.
    pub relying_party_id: String,
    /// The user's name at the relying party.
    pub user_name: String,
    /// The identifier of the credential to use.
    pub credential_id: Vec<u8>,
    /// The user's handle at the relying party.
    pub user_handle: Vec<u8>,
    /// The identifier of the record that holds the credential, where known.
    pub record_identifier: Option<String>,
    /// The hash of the client data.
    pub client_data_hash: Vec<u8>,
    /// How strongly user verification is asked for.
    pub user_verification: UserVerification,
}

/// The answer to an assertion request.
#[derive(Clone, Debug, PartialEq, Eq)]
pub struct PasskeyAssertionResponse {
    /// The user's handle at the relying party.
    pub user_handle: Vec<u8>,
    /// The relying party's identifier.
    pub relying_party: String,
    /// The signature over the authenticator data and the client data hash.
    pub signature: Vec<u8>,
    /// The hash of the client data.
    pub client_data_hash: Vec<u8>,
    /// The authenticator data.
    pub authenticator_data: Vec<u8>,
    /// The identifier of the credential that signed.
    pub credential_id: Vec<u8>,
}

/// A registration request as the server hands it on: with the client it came
/// from and the sequence number that the answer must echo.
#[derive(Clone, Debug, PartialEq, Eq)]
pub struct PasskeyRegistrationMessage {
    /// The client that sent the request.
    pub client_id: u32,
    /// The sequence number of the request.
    pub sequence_number: u64,
    /// The request.
    pub value: PasskeyRegistrationRequest,
}

/// An assertion request as the server hands it on: with the client it came
/// from and the sequence number that the answer must echo.
#[derive(Clone, Debug, PartialEq, Eq)]
pub struct PasskeyAssertionMessage {
    /// The client that sent the request.
    pub client_id: u32,
    /// The sequence number of the request.
    pub sequence_number: u64,
    /// The request.
    pub value: PasskeyAssertionRequest,
}

/// What a registration request holds.
pub struct RegistrationRequestModel {
    pub relying_party_id: Seq<char>,
    pub user_name: Seq<char>,
    pub user_handle: Seq<u8>,
    pub client_data_hash: Seq<u8>,
    pub user_verification: UserVerification,
}

/// What a registration response holds.
pub struct RegistrationResponseModel {
    pub relying_party: Seq<char>,
    pub client_data_hash: Seq<u8>,
    pub credential_id: Seq<u8>,
    pub attestation_object: Seq<u8>,
}

/// What an assertion request holds.
pub struct AssertionRequestModel {
    pub relying_party_id: Seq<char>,
    pub user_name: Seq<char>,
    pub credential_id: Seq<u8>,
    pub user_handle: Seq<u8>,
    pub record_identifier: Option<Seq<char>>,
    pub client_data_hash: Seq<u8>,
    pub user_verification: UserVerification,
}

/// What an assertion response holds.
pub struct AssertionResponseModel {
    pub user_handle: Seq<u8>,
    pub relying_party: Seq<char>,
    pub signature: Seq<u8>,
    pub client_data_hash: Seq<u8>,
    pub authenticator_data: Seq<u8>,
    pub credential_id: Seq<u8>,
}

impl View for PasskeyRegistrationRequest {
    type V = RegistrationRequestModel;

    open spec fn view(&self) -> RegistrationRequestModel {
        RegistrationRequestModel {
            relying_party_id: self.relying_party_id@,
            user_name: self.user_name@,
            user_handle: self.user_handle@,
            client_data_hash: self.client_data_hash@,
            user_verification: self.user_verification,
        }
    }
}

impl View for PasskeyRegistrationResponse {
    type V = RegistrationResponseModel;

    open spec fn view(&self) -> RegistrationResponseModel {
        RegistrationResponseModel {
            relying_party: self.relying_party@,
            client_data_hash: self.client_data_hash@,
            credential_id: self.credential_id@,
            attestation_object: self.attestation_object@,
        }
    }
}

impl View for PasskeyAssertionRequest {
    type V = AssertionRequestModel;

    open spec fn view(&self) -> AssertionRequestModel {
        AssertionRequestModel {
            relying_party_id: self.relying_party_id@,
            user_name: self.user_name@,
            credential_id: self.credential_id@,
            user_handle: self.user_handle@,
            record_identifier: string_view(self.record_identifier),
            client_data_hash: self.client_data_hash@,
            user_verification: self.user_verification,
        }
    }
}

impl View for PasskeyAssertionResponse {
    type V = AssertionResponseModel;

    open spec fn view(&self) -> AssertionResponseModel {
        AssertionResponseModel {
            user_handle: self.user_handle@,
            relying_party: self.relying_party@,
            signature: self.signature@,
            client_data_hash: self.client_data_hash@,
            authenticator_data: self.authenticator_data@,
            credential_id: self.credential_id@,
        }
    }
}

pub open spec fn key_relying_party_id() -> Seq<char> {
    "relyingPartyId"@
}

pub open spec fn key_relying_party() -> Seq<char> {
    "relyingParty"@
}

pub open spec fn key_user_name() -> Seq<char> {
    "userName"@
}

pub open spec fn key_user_handle() -> Seq<char> {
    "userHandle"@
}

pub open spec fn key_client_data_hash() -> Seq<char> {
    "clientDataHash"@
}

pub open spec fn key_user_verification() -> Seq<char> {
    "userVerification"@
}

pub open spec fn key_credential_id() -> Seq<char> {
    "credentialId"@
}

pub open spec fn key_record_identifier() -> Seq<char> {
    "recordIdentifier"@
}

pub open spec fn key_attestation_object() -> Seq<char> {
    "attestationObject"@
}

pub open spec fn key_signature() -> Seq<char> {
    "signature"@
}

pub open spec fn key_authenticator_data() -> Seq<char> {
    "authenticatorData"@
}

/// The length and the first letter of each key; they tell any two keys of one
/// shape apart.
pub proof fn lemma_keys()
    ensures
        key_relying_party_id().len() == 14 && key_relying_party_id()[0] == 'r',
        key_relying_party().len() == 12 && key_relying_party()[0] == 'r',
        key_user_name().len() == 8 && key_user_name()[0] == 'u',
        key_user_handle().len() == 10 && key_user_handle()[0] == 'u',
        key_client_data_hash().len() == 14 && key_client_data_hash()[0] == 'c',
        key_user_verification().len() == 16 && key_user_verification()[0] == 'u',
        key_credential_id().len() == 12 && key_credential_id()[0] == 'c',
        key_record_identifier().len() == 16 && key_record_identifier()[0] == 'r',
        key_attestation_object().len() == 17 && key_attestation_object()[0] == 'a',
        key_signature().len() == 9 && key_signature()[0] == 's',
        key_authenticator_data().len() == 17 && key_authenticator_data()[1] == 'u',
        key_attestation_object()[1] == 't',
{
    reveal_strlit("relyingPartyId");
    reveal_strlit("relyingParty");
    reveal_strlit("userName");
    reveal_strlit("userHandle");
    reveal_strlit("clientDataHash");
    reveal_strlit("userVerification");
    reveal_strlit("credentialId");
    reveal_strlit("recordIdentifier");
    reveal_strlit("attestationObject");
    reveal_strlit("signature");
    reveal_strlit("authenticatorData");
}

/// The word that stands for a level of user verification.
pub open spec fn verification_word(level: UserVerification) -> Seq<char> {
    match level {
        UserVerification::Preferred => "preferred"@,
        UserVerification::Required => "required"@,
        UserVerification::Discouraged => "discouraged"@,
    }
}

/// The level of user verification that a word stands for.
pub open spec fn verification_of_word(word: Seq<char>) -> Option<UserVerification> {
    if word == "preferred"@ {
        Some(UserVerification::Preferred)
    } else if word == "required"@ {
        Some(UserVerification::Required)
    } else if word == "discouraged"@ {
        Some(UserVerification::Discouraged)
    } else {
        None
    }
}

/// The level of user verification under `key`, where the object holds one of
/// the three words there.
pub open spec fn verification_member(doc: Json, key: Seq<char>) -> Option<UserVerification> {
    match string_member(doc, key) {
        Some(word) => verification_of_word(word),
        None => None,
    }
}

/// The three words differ, so each stands for its own level.
pub proof fn lemma_verification_round_trip(level: UserVerification)
    ensures
        verification_of_word(verification_word(level)) == Some(level),
{
    reveal_strlit("preferred");
    reveal_strlit("required");
    reveal_strlit("discouraged");
    assert("preferred"@.len() == 9);
    assert("required"@.len() == 8);
    assert("discouraged"@.len() == 11);
}

impl UserVerification {
    /// The word that stands for this level on the wire.
    pub fn as_str(&self) -> (word: &'static str)
        ensures
            word@ == verification_word(*self),
    {
        match self {
            UserVerification::Preferred => "preferred",
            UserVerification::Required => "required",
            UserVerification::Discouraged => "discouraged",
        }
    }

    /// The level that a word stands for.
    pub fn from_word(word: &str) -> (r: Option<UserVerification>)
        ensures
            r == verification_of_word(word@),
    {
        let owned: String = word.to_owned();
        if owned == "preferred".to_owned() {
            Some(UserVerification::Preferred)
        } else if owned == "required".to_owned() {
            Some(UserVerification::Required)
        } else if owned == "discouraged".to_owned() {
            Some(UserVerification::Discouraged)
        } else {
            None
        }
    }
}

/// The level of user verification under `key`.
pub fn read_verification(v: &serde_json::Value, key: &str) -> (r: Option<UserVerification>)
    ensures
        r == verification_member(json_of(*v), key@),
{
    match member(v, key) {
        Some(m) => match as_text(m) {
            Some(word) => UserVerification::from_word(word),
            None => None,
        },
        None => None,
    }
}

/// The document of a registration request.
pub open spec fn registration_request_document(r: RegistrationRequestModel) -> Json {
    Json::Object(
        Map::<Seq<char>, Json>::empty().insert(
            key_relying_party_id(),
            Json::String(r.relying_party_id),
        ).insert(key_user_name(), Json::String(r.user_name)).insert(
            key_user_handle(),
            bytes_document(r.user_handle),
        ).insert(key_client_data_hash(), bytes_document(r.client_data_hash)).insert(
            key_user_verification(),
            Json::String(verification_word(r.user_verification)),
        ),
    )
}

/// The registration request that a document stands for, where it has every
/// member of the shape.
pub open spec fn registration_request_of(doc: Json) -> Option<RegistrationRequestModel> {
    match (
        string_member(doc, key_relying_party_id()),
        string_member(doc, key_user_name()),
        bytes_member(doc, key_user_handle()),
        bytes_member(doc, key_client_data_hash()),
        verification_member(doc, key_user_verification()),
    ) {
        (
            Some(relying_party_id),
            Some(user_name),
            Some(user_handle),
            Some(client_data_hash),
            Some(user_verification),
        ) => Some(
            RegistrationRequestModel {
                relying_party_id,
                user_name,
                user_handle,
                client_data_hash,
                user_verification,
            },
        ),
        _ => None,
    }
}

/// The document of an assertion request. A record identifier that is not
/// known is written as `null`.
pub open spec fn assertion_request_document(r: AssertionRequestModel) -> Json {
    Json::Object(
        Map::<Seq<char>, Json>::empty().insert(
            key_relying_party_id(),
            Json::String(r.relying_party_id),
        ).insert(key_user_name(), Json::String(r.user_name)).insert(
            key_credential_id(),
            bytes_document(r.credential_id),
        ).insert(key_user_handle(), bytes_document(r.user_handle)).insert(
            key_record_identifier(),
            optional_string_document(r.record_identifier),
        ).insert(key_client_data_hash(), bytes_document(r.client_data_hash)).insert(
            key_user_verification(),
            Json::String(verification_word(r.user_verification)),
        ),
    )
}

/// The assertion request that a document stands for, where it has every
/// member of the shape; the record identifier may be missing or `null`.
pub open spec fn assertion_request_of(doc: Json) -> Option<AssertionRequestModel> {
    match (
        string_member(doc, key_relying_party_id()),
        string_member(doc, key_user_name()),
        bytes_member(doc, key_credential_id()),
        bytes_member(doc, key_user_handle()),
        optional_string_member(doc, key_record_identifier()),
        bytes_member(doc, key_client_data_hash()),
        verification_member(doc, key_user_verification()),
    ) {
        (
            Some(relying_party_id),
            Some(user_name),
            Some(credential_id),
            Some(user_handle),
            Some(record_identifier),
            Some(client_data_hash),
            Some(user_verification),
        ) => Some(
            AssertionRequestModel {
                relying_party_id,
                user_name,
                credential_id,
                user_handle,
                record_identifier,
                client_data_hash,
                user_verification,
            },
        ),
        _ => None,
    }
}

/// The document of a registration response.
pub open spec fn registration_response_document(r: RegistrationResponseModel) -> Json {
    Json::Object(
        Map::<Seq<char>, Json>::empty().insert(
            key_relying_party(),
            Json::String(r.relying_party),
        ).insert(key_client_data_hash(), bytes_document(r.client_data_hash)).insert(
            key_credential_id(),
            bytes_document(r.credential_id),
        ).insert(key_attestation_object(), bytes_document(r.attestation_object)),
    )
}

/// The registration response that a document stands for, where it has every
/// member of the shape.
pub open spec fn registration_response_of(doc: Json) -> Option<RegistrationResponseModel> {
    match (
        string_member(doc, key_relying_party()),
        bytes_member(doc, key_client_data_hash()),
        bytes_member(doc, key_credential_id()),
        bytes_member(doc, key_attestation_object()),
    ) {
        (
            Some(relying_party),
            Some(client_data_hash),
            Some(credential_id),
            Some(attestation_object),
        ) => Some(
            RegistrationResponseModel {
                relying_party,
                client_data_hash,
                credential_id,
                attestation_object,
            },
        ),
        _ => None,
    }
}

/// The document of an assertion response.
pub open spec fn assertion_response_document(r: AssertionResponseModel) -> Json {
    Json::Object(
        Map::<Seq<char>, Json>::empty().insert(
            key_user_handle(),
            bytes_document(r.user_handle),
        ).insert(key_relying_party(), Json::String(r.relying_party)).insert(
            key_signature(),
            bytes_document(r.signature),
        ).insert(key_client_data_hash(), bytes_document(r.client_data_hash)).insert(
            key_authenticator_data(),
            bytes_document(r.authenticator_data),
        ).insert(key_credential_id(), bytes_document(r.credential_id)),
    )
}

/// The assertion response that a document stands for, where it has every
/// member of the shape.
pub open spec fn assertion_response_of(doc: Json) -> Option<AssertionResponseModel> {
    match (
        bytes_member(doc, key_user_handle()),
        string_member(doc, key_relying_party()),
        bytes_member(doc, key_signature()),
        bytes_member(doc, key_client_data_hash()),
        bytes_member(doc, key_authenticator_data()),
        bytes_member(doc, key_credential_id()),
    ) {
        (
            Some(user_handle),
            Some(relying_party),
            Some(signature),
            Some(client_data_hash),
            Some(authenticator_data),
            Some(credential_id),
        ) => Some(
            AssertionResponseModel {
                user_handle,
                relying_party,
                signature,
                client_data_hash,
                authenticator_data,
                credential_id,
            },
        ),
        _ => None,
    }
}

/// Reading the document of a registration request gives back the request.
pub proof fn lemma_registration_request_round_trip(r: RegistrationRequestModel)
    ensures
        registration_request_of(registration_request_document(r)) == Some(r),
{
    lemma_keys();
    lemma_bytes_round_trip(r.user_handle);
    lemma_bytes_round_trip(r.client_data_hash);
    lemma_verification_round_trip(r.user_verification);
}

/// Reading the document of an assertion request gives back the request.
pub proof fn lemma_assertion_request_round_trip(r: AssertionRequestModel)
    ensures
        assertion_request_of(assertion_request_document(r)) == Some(r),
{
    lemma_keys();
    lemma_bytes_round_trip(r.credential_id);
    lemma_bytes_round_trip(r.user_handle);
    lemma_bytes_round_trip(r.client_data_hash);
    lemma_verification_round_trip(r.user_verification);
    let doc = assertion_request_document(r);
    assert(optional_string_member(doc, key_record_identifier()) == Some(r.record_identifier));
}

/// Reading the document of a registration response gives back the response.
pub proof fn lemma_registration_response_round_trip(r: RegistrationResponseModel)
    ensures
        registration_response_of(registration_response_document(r)) == Some(r),
{
    lemma_keys();
    lemma_bytes_round_trip(r.client_data_hash);
    lemma_bytes_round_trip(r.credential_id);
    lemma_bytes_round_trip(r.attestation_object);
}

/// Reading the document of an assertion response gives back the response.
pub proof fn lemma_assertion_response_round_trip(r: AssertionResponseModel)
    ensures
        assertion_response_of(assertion_response_document(r)) == Some(r),
{
    lemma_keys();
    lemma_bytes_round_trip(r.user_handle);
    lemma_bytes_round_trip(r.signature);
    lemma_bytes_round_trip(r.client_data_hash);
    lemma_bytes_round_trip(r.authenticator_data);
    lemma_bytes_round_trip(r.credential_id);
}

/// The document of a registration request never reads as an assertion
/// request: it names no credential.
pub proof fn lemma_registration_is_no_assertion(r: RegistrationRequestModel)
    ensures
        assertion_request_of(registration_request_document(r)) is None,
{
    lemma_keys();
    assert(member_of(registration_request_document(r), key_credential_id()) is None);
}

/// The view of an optional registration request.
pub open spec fn registration_request_view(r: Option<PasskeyRegistrationRequest>) -> Option<
    RegistrationRequestModel,
> {
    match r {
        Some(x) => Some(x@),
        None => None,
    }
}

/// The view of an optional assertion request.
pub open spec fn assertion_request_view(r: Option<PasskeyAssertionRequest>) -> Option<
    AssertionRequestModel,
> {
    match r {
        Some(x) => Some(x@),
        None => None,
    }
}

/// The view of an optional registration response.
pub open spec fn registration_response_view(r: Option<PasskeyRegistrationResponse>) -> Option<
    RegistrationResponseModel,
> {
    match r {
        Some(x) => Some(x@),
        None => None,
    }
}

/// The view of an optional assertion response.
pub open spec fn assertion_response_view(r: Option<PasskeyAssertionResponse>) -> Option<
    AssertionResponseModel,
> {
    match r {
        Some(x) => Some(x@),
        None => None,
    }
}

impl PasskeyRegistrationRequest {
    /// The document of this request.
    pub fn to_value(&self) -> (v: serde_json::Value)
        ensures
            json_of(v) == registration_request_document(self@),
    {
        let mut object = empty_object();
        set_member(&mut object, "relyingPartyId".to_owned(), text(self.relying_party_id.clone()));
        set_member(&mut object, "userName".to_owned(), text(self.user_name.clone()));
        set_member(&mut object, "userHandle".to_owned(), bytes_to_value(self.user_handle.as_slice()));
        set_member(
            &mut object,
            "clientDataHash".to_owned(),
            bytes_to_value(self.client_data_hash.as_slice()),
        );
        set_member(
            &mut object,
            "userVerification".to_owned(),
            text(self.user_verification.as_str().to_owned()),
        );
        object
    }

    /// Reads a request from a document.
    pub fn from_value(v: &serde_json::Value) -> (r: Option<PasskeyRegistrationRequest>)
        ensures
            registration_request_view(r) == registration_request_of(json_of(*v)),
    {
        let relying_party_id = match read_string(v, "relyingPartyId") {
            Some(x) => x,
            None => {
                return None;
            },
        };
        let user_name = match read_string(v, "userName") {
            Some(x) => x,
            None => {
                return None;
            },
        };
        let user_handle = match read_bytes(v, "userHandle") {
            Some(x) => x,
            None => {
                return None;
            },
        };
        let client_data_hash = match read_bytes(v, "clientDataHash") {
            Some(x) => x,
            None => {
                return None;
            },
        };
        let user_verification = match read_verification(v, "userVerification") {
            Some(x) => x,
            None => {
                return None;
            },
        };
        Some(
            PasskeyRegistrationRequest {
                relying_party_id,
                user_name,
                user_handle,
                client_data_hash,
                user_verification,
            },
        )
    }
}

impl PasskeyAssertionRequest {
    /// The document of this request.
    pub fn to_value(&self) -> (v: serde_json::Value)
        ensures
            json_of(v) == assertion_request_document(self@),
    {
        let mut object = empty_object();
        set_member(&mut object, "relyingPartyId".to_owned(), text(self.relying_party_id.clone()));
        set_member(&mut object, "userName".to_owned(), text(self.user_name.clone()));
        set_member(
            &mut object,
            "credentialId".to_owned(),
            bytes_to_value(self.credential_id.as_slice()),
        );
        set_member(&mut object, "userHandle".to_owned(), bytes_to_value(self.user_handle.as_slice()));
        set_member(
            &mut object,
            "recordIdentifier".to_owned(),
            optional_string_to_value(&self.record_identifier),
        );
        set_member(
            &mut object,
            "clientDataHash".to_owned(),
            bytes_to_value(self.client_data_hash.as_slice()),
        );
        set_member(
            &mut object,
            "userVerification".to_owned(),
            text(self.user_verification.as_str().to_owned()),
        );
        object
    }

    /// Reads a request from a document.
    pub fn from_value(v: &serde_json::Value) -> (r: Option<PasskeyAssertionRequest>)
        ensures
            assertion_request_view(r) == assertion_request_of(json_of(*v)),
    {
        let relying_party_id = match read_string(v, "relyingPartyId") {
            Some(x) => x,
            None => {
                return None;
            },
        };
        let user_name = match read_string(v, "userName") {
            Some(x) => x,
            None => {
                return None;
            },
        };
        let credential_id = match read_bytes(v, "credentialId") {
            Some(x) => x,
            None => {
                return None;
            },
        };
        let user_handle = match read_bytes(v, "userHandle") {
            Some(x) => x,
            None => {
                return None;
            },
        };
        let record_identifier = match read_optional_string(v, "recordIdentifier") {
            Some(x) => x,
            None => {
                return None;
            },
        };
        let client_data_hash = match read_bytes(v, "clientDataHash") {
            Some(x) => x,
            None => {
                return None;
            },
        };
        let user_verification = match read_verification(v, "userVerification") {
            Some(x) => x,
            None => {
                return None;
            },
        };
        Some(
            PasskeyAssertionRequest {
                relying_party_id,
                user_name,
                credential_id,
                user_handle,
                record_identifier,
                client_data_hash,
                user_verification,
            },
        )
    }
}

impl PasskeyRegistrationResponse {
    /// The document of this response.
    pub fn to_value(&self) -> (v: serde_json::Value)
        ensures
            json_of(v) == registration_response_document(self@),
    {
        let mut object = empty_object();
        set_member(&mut object, "relyingParty".to_owned(), text(self.relying_party.clone()));
        set_member(
            &mut object,
            "clientDataHash".to_owned(),
            bytes_to_value(self.client_data_hash.as_slice()),
        );
        set_member(
            &mut object,
            "credentialId".to_owned(),
            bytes_to_value(self.credential_id.as_slice()),
        );
        set_member(
            &mut object,
            "attestationObject".to_owned(),
            bytes_to_value(self.attestation_object.as_slice()),
        );
        object
    }

    /// Reads a response from a document.
    pub fn from_value(v: &serde_json::Value) -> (r: Option<PasskeyRegistrationResponse>)
        ensures
            registration_response_view(r) == registration_response_of(json_of(*v)),
    {
        let relying_party = match read_string(v, "relyingParty") {
            Some(x) => x,
            None => {
                return None;
            },
        };
        let client_data_hash = match read_bytes(v, "clientDataHash") {
            Some(x) => x,
            None => {
                return None;
            },
        };
        let credential_id = match read_bytes(v, "credentialId") {
            Some(x) => x,
            None => {
                return None;
            },
        };
        let attestation_object = match read_bytes(v, "attestationObject") {
            Some(x) => x,
            None => {
                return None;
            },
        };
        Some(
            PasskeyRegistrationResponse {
                relying_party,
                client_data_hash,
                credential_id,
                attestation_object,
            },
        )
    }
}

impl PasskeyAssertionResponse {
    /// The document of this response.
    pub fn to_value(&self) -> (v: serde_json::Value)
        ensures
            json_of(v) == assertion_response_document(self@),
    {
        let mut object = empty_object();
        set_member(&mut object, "userHandle".to_owned(), bytes_to_value(self.user_handle.as_slice()));
        set_member(&mut object, "relyingParty".to_owned(), text(self.relying_party.clone()));
        set_member(&mut object, "signature".to_owned(), bytes_to_value(self.signature.as_slice()));
        set_member(
            &mut object,
            "clientDataHash".to_owned(),
            bytes_to_value(self.client_data_hash.as_slice()),
        );
        set_member(
            &mut object,
            "authenticatorData".to_owned(),
            bytes_to_value(self.authenticator_data.as_slice()),
        );
        set_member(
            &mut object,
            "credentialId".to_owned(),
            bytes_to_value(self.credential_id.as_slice()),
        );
        object
    }

    /// Reads a response from a document.
    pub fn from_value(v: &serde_json::Value) -> (r: Option<PasskeyAssertionResponse>)
        ensures
            assertion_response_view(r) == assertion_response_of(json_of(*v)),
    {
        let user_handle = match read_bytes(v, "userHandle") {
            Some(x) => x,
            None => {
                return None;
            },
        };
        let relying_party = match read_string(v, "relyingParty") {
            Some(x) => x,
            None => {
                return None;
            },
        };
        let signature = match read_bytes(v, "signature") {
            Some(x) => x,
            None => {
                return None;
            },
        };
        let client_data_hash = match read_bytes(v, "clientDataHash") {
            Some(x) => x,
            None => {
                return None;
            },
        };
        let authenticator_data = match read_bytes(v, "authenticatorData") {
            Some(x) => x,
            None => {
                return None;
            },
        };
        let credential_id = match read_bytes(v, "credentialId") {
            Some(x) => x,
            None => {
                return None;
            },
        };
        Some(
            PasskeyAssertionResponse {
                user_handle,
                relying_party,
                signature,
                client_data_hash,
                authenticator_data,
                credential_id,
            },
        )
    }
}

} // verus!
