//! The wire form of the messages: one JSON object per message, with the
//! member `type` naming its kind.

use crate::error::DecodeError;
use crate::json::{members_map, parsed_document, json_text, Json, JsonModel};
use crate::message::{
    optional_text, Address, AuthRequest, AuthResponse, EpochChallenge, MessageModel, NewSolution, NewTask,
    PoolMessage,
};
use vstd::prelude::*;

verus! {

/// The document of an optional text: the text, or `null`.
pub open spec fn optional_text_document(text: Option<Seq<char>>) -> JsonModel {
    match text {
        Some(t) => JsonModel::Text(t),
        None => JsonModel::Null,
    }
}

/// The name of a message's kind, which the member `type` holds on the wire.
pub open spec fn kind_name(message: MessageModel) -> Seq<char> {
    match message {
        MessageModel::AuthRequest { .. } => "auth_request"@,
        MessageModel::AuthResponse { .. } => "auth_response"@,
        MessageModel::NewTask { .. } => "task"@,
        MessageModel::NewSolution { .. } => "solution"@,
    }
}

/// The members of a message's payload: what the message carries, without
/// its kind.
pub open spec fn payload_members(message: MessageModel) -> Map<Seq<char>, JsonModel> {
    match message {
        MessageModel::AuthRequest { username } => Map::empty().insert(
            "username"@,
            JsonModel::Text(username),
        ),
        MessageModel::AuthResponse { result, address, message } => Map::empty().insert(
            "result"@,
            JsonModel::Bool(result),
        ).insert("address"@, JsonModel::Text(address)).insert(
            "message"@,
            optional_text_document(message),
        ),
        MessageModel::NewTask { epoch_number, epoch_block_hash, degree, difficulty } => Map::empty().insert(
            "epoch_challenge"@,
            JsonModel::Object(
                Map::empty().insert("epoch_number"@, JsonModel::Number(epoch_number as u64)).insert(
                    "epoch_block_hash"@,
                    JsonModel::Text(epoch_block_hash),
                ).insert("degree"@, JsonModel::Number(degree as u64)),
            ),
        ).insert("difficulty"@, JsonModel::Number(difficulty)),
        MessageModel::NewSolution { epoch_number, solution } => Map::empty().insert(
            "solution"@,
            solution,
        ).insert("epoch_number"@, JsonModel::Number(epoch_number as u64)),
    }
}

/// The document of a message's payload: an object with the payload's
/// members and no others.
pub open spec fn payload_model(message: MessageModel) -> JsonModel {
    JsonModel::Object(payload_members(message))
}

/// The document that stands for a message on the wire: its payload's
/// members, and the member `type` with the name of its kind.
pub open spec fn encode_model(message: MessageModel) -> JsonModel {
    JsonModel::Object(
        payload_members(message).insert("type"@, JsonModel::Text(kind_name(message))),
    )
}

/// The text of the member `name`, where it is a string.
pub open spec fn text_member(document: JsonModel, name: Seq<char>) -> Option<Seq<char>> {
    match Json::member(document, name) {
        Some(JsonModel::Text(text)) => Some(text),
        _ => None,
    }
}

/// The value of the member `name`, where it is a boolean.
pub open spec fn bool_member(document: JsonModel, name: Seq<char>) -> Option<bool> {
    match Json::member(document, name) {
        Some(JsonModel::Bool(b)) => Some(b),
        _ => None,
    }
}

/// The value of the member `name`, where it is a number.
pub open spec fn u64_member(document: JsonModel, name: Seq<char>) -> Option<u64> {
    match Json::member(document, name) {
        Some(JsonModel::Number(n)) => Some(n),
        _ => None,
    }
}

/// The value of the member `name`, where it is a number of at most 32 bits.
pub open spec fn u32_member(document: JsonModel, name: Seq<char>) -> Option<u32> {
    match Json::member(document, name) {
        Some(JsonModel::Number(n)) => if n <= u32::MAX {
            Some(n as u32)
        } else {
            None
        },
        _ => None,
    }
}

/// The optional text of the member `name`: none where the member is missing
/// or `null`, the text where it is a string; the outer `None` where it is
/// anything else.
pub open spec fn optional_text_member(document: JsonModel, name: Seq<char>) -> Option<
    Option<Seq<char>>,
> {
    match Json::member(document, name) {
        None => Some(None),
        Some(JsonModel::Null) => Some(None),
        Some(JsonModel::Text(text)) => Some(Some(text)),
        Some(_) => None,
    }
}

/// The `auth_request` that a document holds.
pub open spec fn decode_auth_request(document: JsonModel) -> Result<MessageModel, DecodeError> {
    match text_member(document, "username"@) {
        Some(username) => Ok(MessageModel::AuthRequest { username }),
        None => Err(DecodeError::InvalidPayload),
    }
}

/// The `auth_response` that a document holds.
pub open spec fn decode_auth_response(document: JsonModel) -> Result<MessageModel, DecodeError> {
    match (
        bool_member(document, "result"@),
        text_member(document, "address"@),
        optional_text_member(document, "message"@),
    ) {
        (Some(result), Some(address), Some(message)) => Ok(
            MessageModel::AuthResponse { result, address, message },
        ),
        _ => Err(DecodeError::InvalidPayload),
    }
}

/// The `task` that a document holds.
pub open spec fn decode_task(document: JsonModel) -> Result<MessageModel, DecodeError> {
    match Json::member(document, "epoch_challenge"@) {
        Some(inner) => match (
            u32_member(inner, "epoch_number"@),
            text_member(inner, "epoch_block_hash"@),
            u32_member(inner, "degree"@),
            u64_member(document, "difficulty"@),
        ) {
            (Some(epoch_number), Some(epoch_block_hash), Some(degree), Some(difficulty)) => Ok(
                MessageModel::NewTask { epoch_number, epoch_block_hash, degree, difficulty },
            ),
            _ => Err(DecodeError::InvalidPayload),
        },
        None => Err(DecodeError::InvalidPayload),
    }
}

/// The `solution` that a document holds.
pub open spec fn decode_solution(document: JsonModel) -> Result<MessageModel, DecodeError> {
    match (Json::member(document, "solution"@), u32_member(document, "epoch_number"@)) {
        (Some(solution), Some(epoch_number)) => Ok(
            MessageModel::NewSolution { epoch_number, solution },
        ),
        _ => Err(DecodeError::InvalidPayload),
    }
}

/// The message that a document holds: the member `type` selects the kind,
/// the kind says which members are required. Members that the kind does not
/// know are ignored.
pub open spec fn decode_model(document: JsonModel) -> Result<MessageModel, DecodeError> {
    match Json::member(document, "type"@) {
        None => Err(DecodeError::MissingDiscriminator),
        Some(JsonModel::Text(kind)) => if kind == "auth_request"@ {
            decode_auth_request(document)
        } else if kind == "auth_response"@ {
            decode_auth_response(document)
        } else if kind == "task"@ {
            decode_task(document)
        } else if kind == "solution"@ {
            decode_solution(document)
        } else {
            Err(DecodeError::UnknownDiscriminator)
        },
        Some(_) => Err(DecodeError::UnknownDiscriminator),
    }
}

/// The message that a text holds.
pub open spec fn decode_text(text: Seq<char>) -> Result<MessageModel, DecodeError> {
    match parsed_document(text) {
        Some(document) => decode_model(document),
        None => Err(DecodeError::NotJson),
    }
}

/// The text that stands for a message on the wire.
pub open spec fn encode_text(message: MessageModel) -> Seq<char> {
    json_text(encode_model(message))
}

/// What a decoder returns, over mathematical values.
pub open spec fn decoded(result: Result<PoolMessage, DecodeError>) -> Result<
    MessageModel,
    DecodeError,
> {
    match result {
        Ok(message) => Ok(message@),
        Err(error) => Err(error),
    }
}

/// Appends a member to the members of an object.
fn put(members: &mut Vec<(String, Json)>, name: &str, value: Json)
    ensures
        members_map(Json::pairs(final(members)@)) == members_map(Json::pairs(old(members)@)).insert(
            name@,
            value.model(),
        ),
{
    members.push((String::from_str(name), value));
    proof {
        let before = Json::pairs(old(members)@);
        let after = Json::pairs(members@);
        assert(after.drop_last() =~= before);
        assert(after.last() == (name@, value.model()));
    }
}

/// Adds the member `type` to the document of a payload.
fn tagged(payload: Json, kind: &str) -> (r: Json)
    requires
        payload.model() is Object,
    ensures
        r.model() == JsonModel::Object(
            payload.model()->Object_0.insert("type"@, JsonModel::Text(kind@)),
        ),
{
    match payload {
        Json::Object(members) => {
            let mut members = members;
            put(&mut members, "type", Json::Text(String::from_str(kind)));
            Json::Object(members)
        },
        Json::RawNumber(raw) => {
            let _ = raw.as_u64();
            Json::RawNumber(raw)
        },
        other => other,
    }
}

/// The text of the member `name`, where it is a string.
fn text_of(document: &Json, name: &str) -> (r: Option<String>)
    ensures
        match r {
            Some(text) => text_member(document.model(), name@) == Some(text@),
            None => text_member(document.model(), name@) is None,
        },
{
    match document.get(name) {
        Some(value) => match value.as_text() {
            Some(text) => Some(text.clone()),
            None => None,
        },
        None => None,
    }
}

/// The value of the member `name`, where it is a boolean.
fn bool_of(document: &Json, name: &str) -> (r: Option<bool>)
    ensures
        r == bool_member(document.model(), name@),
{
    match document.get(name) {
        Some(value) => value.as_bool(),
        None => None,
    }
}

/// The value of the member `name`, where it is a number.
fn u64_of(document: &Json, name: &str) -> (r: Option<u64>)
    ensures
        r == u64_member(document.model(), name@),
{
    match document.get(name) {
        Some(value) => value.as_u64(),
        None => None,
    }
}

/// The value of the member `name`, where it is a number of at most 32 bits.
fn u32_of(document: &Json, name: &str) -> (r: Option<u32>)
    ensures
        r == u32_member(document.model(), name@),
{
    match document.get(name) {
        Some(value) => value.as_u32(),
        None => None,
    }
}

/// The optional text of the member `name`.
fn optional_text_of(document: &Json, name: &str) -> (r: Option<Option<String>>)
    ensures
        match r {
            Some(text) => optional_text_member(document.model(), name@) == Some(
                optional_text(text),
            ),
            None => optional_text_member(document.model(), name@) is None,
        },
{
    match document.get(name) {
        None => Some(None),
        Some(value) => if value.is_null() {
            Some(None)
        } else {
            match value.as_text() {
                Some(text) => Some(Some(text.clone())),
                None => None,
            }
        },
    }
}

impl AuthRequest {
    /// The request that an `auth_request` document holds.
    pub fn deserialize(document: &Json) -> (r: Result<AuthRequest, DecodeError>)
        ensures
            decode_auth_request(document.model()) == (match r {
                Ok(request) => Ok::<MessageModel, DecodeError>(request@),
                Err(error) => Err(error),
            }),
    {
        match text_of(document, "username") {
            Some(username) => Ok(AuthRequest { username }),
            None => Err(DecodeError::InvalidPayload),
        }
    }

    /// The document of this request: its payload, without the kind.
    pub fn serialize(&self) -> (r: Json)
        ensures
            r.model() == payload_model(self@),
    {
        let mut members: Vec<(String, Json)> = Vec::new();
        put(&mut members, "username", Json::Text(self.username.clone()));
        Json::Object(members)
    }
}

impl AuthResponse {
    /// The response that an `auth_response` document holds.
    pub fn deserialize(document: &Json) -> (r: Result<AuthResponse, DecodeError>)
        ensures
            decode_auth_response(document.model()) == (match r {
                Ok(response) => Ok::<MessageModel, DecodeError>(response@),
                Err(error) => Err(error),
            }),
    {
        let result = bool_of(document, "result");
        let address = text_of(document, "address");
        let message = optional_text_of(document, "message");
        match (result, address, message) {
            (Some(result), Some(address), Some(message)) => Ok(
                AuthResponse { result, address: Address::new(address), message },
            ),
            _ => Err(DecodeError::InvalidPayload),
        }
    }

    /// The document of this response: its payload, without the kind.
    pub fn serialize(&self) -> (r: Json)
        ensures
            r.model() == payload_model(self@),
    {
        let mut members: Vec<(String, Json)> = Vec::new();
        put(&mut members, "result", Json::Bool(self.result));
        put(&mut members, "address", Json::Text(self.address.text.clone()));
        let message = match &self.message {
            Some(text) => Json::Text(text.clone()),
            None => Json::Null,
        };
        put(&mut members, "message", message);
        Json::Object(members)
    }
}

impl NewTask {
    /// The task that a `task` document holds.
    pub fn deserialize(document: &Json) -> (r: Result<NewTask, DecodeError>)
        ensures
            decode_task(document.model()) == (match r {
                Ok(task) => Ok::<MessageModel, DecodeError>(task@),
                Err(error) => Err(error),
            }),
    {
        match document.get("epoch_challenge") {
            Some(inner) => {
                let epoch_number = u32_of(inner, "epoch_number");
                let epoch_block_hash = text_of(inner, "epoch_block_hash");
                let degree = u32_of(inner, "degree");
                let difficulty = u64_of(document, "difficulty");
                match (epoch_number, epoch_block_hash, degree, difficulty) {
                    (Some(epoch_number), Some(epoch_block_hash), Some(degree), Some(difficulty)) => Ok(
                        NewTask {
                            epoch_challenge: EpochChallenge::new(epoch_number, epoch_block_hash, degree),
                            difficulty,
                        },
                    ),
                    _ => Err(DecodeError::InvalidPayload),
                }
            },
            None => Err(DecodeError::InvalidPayload),
        }
    }

    /// The document of the task: its payload, without the kind.
    pub fn serialize(&self) -> (r: Json)
        ensures
            r.model() == payload_model(self@),
    {
        let mut inner: Vec<(String, Json)> = Vec::new();
        put(&mut inner, "epoch_number", Json::Number(self.epoch_challenge.epoch_number() as u64));
        put(&mut inner, "epoch_block_hash", Json::Text(self.epoch_challenge.epoch_block_hash().clone()));
        put(&mut inner, "degree", Json::Number(self.epoch_challenge.degree() as u64));
        let mut members: Vec<(String, Json)> = Vec::new();
        put(&mut members, "epoch_challenge", Json::Object(inner));
        put(&mut members, "difficulty", Json::Number(self.difficulty));
        Json::Object(members)
    }
}

impl NewSolution {
    /// The solution that a `solution` document holds.
    pub fn deserialize(document: &Json) -> (r: Result<NewSolution, DecodeError>)
        ensures
            decode_solution(document.model()) == (match r {
                Ok(solution) => Ok::<MessageModel, DecodeError>(solution@),
                Err(error) => Err(error),
            }),
    {
        let epoch_number = u32_of(document, "epoch_number");
        match (document.get("solution"), epoch_number) {
            (Some(solution), Some(epoch_number)) => Ok(
                NewSolution { epoch_number, solution: solution.duplicate() },
            ),
            _ => Err(DecodeError::InvalidPayload),
        }
    }

    /// The document of this solution: its payload, without the kind.
    pub fn serialize(&self) -> (r: Json)
        ensures
            r.model() == payload_model(self@),
    {
        let mut members: Vec<(String, Json)> = Vec::new();
        put(&mut members, "solution", self.solution.duplicate());
        put(&mut members, "epoch_number", Json::Number(self.epoch_number as u64));
        Json::Object(members)
    }
}

impl PoolMessage {
    /// The message that a document holds, or why it holds none.
    pub fn deserialize(document: &Json) -> (r: Result<PoolMessage, DecodeError>)
        ensures
            decode_model(document.model()) == decoded(r),
    {
        match document.get("type") {
            None => Err(DecodeError::MissingDiscriminator),
            Some(value) => match value.as_text() {
                None => Err(DecodeError::UnknownDiscriminator),
                Some(kind) => if *kind == String::from_str("auth_request") {
                    match AuthRequest::deserialize(document) {
                        Ok(request) => Ok(PoolMessage::AuthRequest(request)),
                        Err(error) => Err(error),
                    }
                } else if *kind == String::from_str("auth_response") {
                    match AuthResponse::deserialize(document) {
                        Ok(response) => Ok(PoolMessage::AuthResponse(response)),
                        Err(error) => Err(error),
                    }
                } else if *kind == String::from_str("task") {
                    match NewTask::deserialize(document) {
                        Ok(task) => Ok(PoolMessage::NewTask(task)),
                        Err(error) => Err(error),
                    }
                } else if *kind == String::from_str("solution") {
                    match NewSolution::deserialize(document) {
                        Ok(solution) => Ok(PoolMessage::NewSolution(solution)),
                        Err(error) => Err(error),
                    }
                } else {
                    Err(DecodeError::UnknownDiscriminator)
                },
            },
        }
    }

    /// The document of this message: the document of its payload, with the
    /// member `type` added.
    pub fn serialize(&self) -> (r: Json)
        ensures
            r.model() == encode_model(self@),
    {
        match self {
            PoolMessage::AuthRequest(request) => tagged(request.serialize(), "auth_request"),
            PoolMessage::AuthResponse(response) => tagged(response.serialize(), "auth_response"),
            PoolMessage::NewTask(task) => tagged(task.serialize(), "task"),
            PoolMessage::NewSolution(solution) => tagged(solution.serialize(), "solution"),
        }
    }

    /// Reads a message from its wire text. Fails, and says why, where the
    /// text is no JSON, names no kind of message, or lacks what the kind
    /// requires.
    pub fn decode(text: &str) -> (r: Result<PoolMessage, DecodeError>)
        ensures
            decode_text(text@) == decoded(r),
    {
        match Json::parse(text) {
            Some(document) => Self::deserialize(&document),
            None => Err(DecodeError::NotJson),
        }
    }

    /// Whether the text is a wire form of this message: whether it reads as
    /// a message, and as this one.
    pub fn reads_back(&self, text: &str) -> (r: bool)
        ensures
            r == (decode_text(text@) == Ok::<MessageModel, DecodeError>(self@)),
    {
        match Self::decode(text) {
            Ok(message) => message == *self,
            Err(_) => false,
        }
    }

    /// The wire text of this message, read back before it is handed out:
    /// `None` where `serde_json` does not read the text as the document that
    /// it printed. A text that is handed out holds this message.
    pub fn encode_checked(&self) -> (r: Option<String>)
        ensures
            match r {
                Some(text) => text@ == encode_text(self@) && parsed_document(text@) == Some(
                    encode_model(self@),
                ) && decode_text(text@) == Ok::<MessageModel, DecodeError>(self@),
                None => parsed_document(encode_text(self@)) != Some(encode_model(self@)),
            },
    {
        let document = self.serialize();
        let text = document.render();
        match Json::parse(text.as_str()) {
            Some(read) => if read.same_document(&document) {
                proof {
                    lemma_round_trip_on_text(self@);
                }
                Some(text)
            } else {
                None
            },
            None => None,
        }
    }

    /// The wire text of this message. Never fails.
    pub fn encode(&self) -> (r: String)
        ensures
            r@ == encode_text(self@),
    {
        self.serialize().render()
    }
}

/// The names of the members and of the kinds differ from one another.
pub proof fn lemma_names_differ()
    ensures
        "type"@ != "username"@,
        "type"@ != "result"@,
        "type"@ != "address"@,
        "type"@ != "message"@,
        "type"@ != "epoch_challenge"@,
        "type"@ != "difficulty"@,
        "type"@ != "solution"@,
        "type"@ != "epoch_number"@,
        "result"@ != "address"@,
        "result"@ != "message"@,
        "address"@ != "message"@,
        "epoch_challenge"@ != "difficulty"@,
        "solution"@ != "epoch_number"@,
        "epoch_number"@ != "epoch_block_hash"@,
        "epoch_number"@ != "degree"@,
        "epoch_block_hash"@ != "degree"@,
        "auth_request"@ != "auth_response"@,
        "auth_request"@ != "task"@,
        "auth_request"@ != "solution"@,
        "auth_response"@ != "task"@,
        "auth_response"@ != "solution"@,
        "task"@ != "solution"@,
{
    reveal_strlit("type");
    reveal_strlit("username");
    reveal_strlit("result");
    reveal_strlit("address");
    reveal_strlit("message");
    reveal_strlit("epoch_challenge");
    reveal_strlit("difficulty");
    reveal_strlit("solution");
    reveal_strlit("epoch_number");
    reveal_strlit("epoch_block_hash");
    reveal_strlit("degree");
    reveal_strlit("auth_request");
    reveal_strlit("auth_response");
    reveal_strlit("task");
    assert("type"@.len() == 4);
    assert("username"@.len() == 8);
    assert("result"@.len() == 6);
    assert("address"@.len() == 7);
    assert("message"@.len() == 7);
    assert("epoch_challenge"@.len() == 15);
    assert("difficulty"@.len() == 10);
    assert("solution"@.len() == 8);
    assert("epoch_number"@.len() == 12);
    assert("epoch_block_hash"@.len() == 16);
    assert("degree"@.len() == 6);
    assert("auth_request"@.len() == 12);
    assert("auth_response"@.len() == 13);
    assert("task"@.len() == 4);
    assert("address"@[0] != "message"@[0]);
    assert("type"@[1] != "task"@[1]);
    assert("result"@[0] != "degree"@[0]);
}

/// Round trip: the document of a message holds that message, whatever the
/// message is.
pub proof fn lemma_round_trip(message: MessageModel)
    ensures
        decode_model(encode_model(message)) == Ok::<MessageModel, DecodeError>(message),
{
    lemma_names_differ();
    match message {
        MessageModel::AuthRequest { username } => {},
        MessageModel::AuthResponse { result, address, message } => {},
        MessageModel::NewTask { epoch_number, epoch_block_hash, degree, difficulty } => {
            assert((epoch_number as u64) as u32 == epoch_number);
            assert((degree as u64) as u32 == degree);
        },
        MessageModel::NewSolution { epoch_number, solution } => {
            assert((epoch_number as u64) as u32 == epoch_number);
        },
    }
}

/// The payload that a payload's document holds, read as the kind of the
/// message.
pub open spec fn decode_payload(kind: MessageModel, document: JsonModel) -> Result<
    MessageModel,
    DecodeError,
> {
    match kind {
        MessageModel::AuthRequest { .. } => decode_auth_request(document),
        MessageModel::AuthResponse { .. } => decode_auth_response(document),
        MessageModel::NewTask { .. } => decode_task(document),
        MessageModel::NewSolution { .. } => decode_solution(document),
    }
}

/// Round trip of the payloads: the document of a payload has no member
/// `type`, and read as its own kind it holds that payload.
pub proof fn lemma_payload_round_trip(message: MessageModel)
    ensures
        Json::member(payload_model(message), "type"@) is None,
        decode_payload(message, payload_model(message)) == Ok::<MessageModel, DecodeError>(message),
{
    lemma_names_differ();
    match message {
        MessageModel::AuthRequest { username } => {},
        MessageModel::AuthResponse { result, address, message } => {},
        MessageModel::NewTask { epoch_number, epoch_block_hash, degree, difficulty } => {
            assert((epoch_number as u64) as u32 == epoch_number);
            assert((degree as u64) as u32 == degree);
        },
        MessageModel::NewSolution { epoch_number, solution } => {
            assert((epoch_number as u64) as u32 == epoch_number);
        },
    }
}

/// Round trip on text, where the text reads back: a message whose wire text
/// `serde_json` reads as the document that it printed is the message that
/// the text holds.
pub proof fn lemma_round_trip_on_text(message: MessageModel)
    requires
        parsed_document(encode_text(message)) == Some(encode_model(message)),
    ensures
        decode_text(encode_text(message)) == Ok::<MessageModel, DecodeError>(message),
{
    lemma_round_trip(message);
}

/// Two messages with the same document are the same message.
pub proof fn lemma_encode_injective(first: MessageModel, second: MessageModel)
    requires
        encode_model(first) == encode_model(second),
    ensures
        first == second,
{
    lemma_round_trip(first);
    lemma_round_trip(second);
}

} // verus!
