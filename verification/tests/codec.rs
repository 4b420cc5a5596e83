use aleo_mining_protocol::json::Json;
use aleo_mining_protocol::{
    Address, AuthRequest, AuthResponse, DecodeError, EpochChallenge, Error, NewSolution, NewTask,
    PoolMessage,
};

const POOL_ADDRESS: &str = "aleo1rhgdu77hgyqd3xjj8ucu3jj9r2krwz6mnzyd80gncr5fxcwlh5rsvzp9px";

fn proof_document() -> Json {
    Json::Object(vec![
        (
            "partial_solution".to_string(),
            Json::Object(vec![
                ("address".to_string(), Json::Text(POOL_ADDRESS.to_string())),
                ("nonce".to_string(), Json::Number(18446744073709551615)),
                ("commitment".to_string(), Json::Text("puzzle1commitment".to_string())),
            ]),
        ),
        ("proof.w".to_string(), Json::Array(vec![Json::Number(1), Json::Bool(false), Json::Null])),
    ])
}

fn sample_task() -> NewTask {
    NewTask {
        epoch_challenge: EpochChallenge::new(7, "ab1hash".to_string(), 8191),
        difficulty: 1000,
    }
}

#[test]
fn test_serialize_auth_request() {
    let message = PoolMessage::AuthRequest(AuthRequest {
        username: "test_username".to_string(),
    });
    println!("{}", message.encode());
}

#[test]
fn test_serialize_auth_response() {
    let address = Address::new(
        "aleo1rhgdu77hgyqd3xjj8ucu3jj9r2krwz6mnzyd80gncr5fxcwlh5rsvzp9px".to_string(),
    );
    let message = PoolMessage::AuthResponse(AuthResponse {
        result: true,
        address,
        message: None,
    });
    println!("{}", message.encode())
}

#[test]
fn test_serialize_new_task() {
    let epoch_challenge = EpochChallenge::new(0, Default::default(), (1 << 13) - 1);
    let message = PoolMessage::NewTask(NewTask {
        epoch_challenge,
        difficulty: 0,
    });
    let serialized = message.encode();
    println!("{}", serialized);
    let message = PoolMessage::decode(&serialized.to_string()).unwrap();
    assert!(matches!(message, PoolMessage::NewTask(..)));
}

#[test]
fn test_serialize_new_solution() {
    let address = Address::new(
        "aleo1rhgdu77hgyqd3xjj8ucu3jj9r2krwz6mnzyd80gncr5fxcwlh5rsvzp9px".to_string(),
    );
    let solution = Json::Object(vec![
        (
            "partial_solution".to_string(),
            Json::Object(vec![
                ("address".to_string(), Json::Text(address.text)),
                ("nonce".to_string(), Json::Number(6148914691236517205)),
                ("commitment".to_string(), Json::Text("commitment".to_string())),
            ]),
        ),
        ("proof.w".to_string(), Json::Text("w".to_string())),
    ]);
    let message = PoolMessage::NewSolution(NewSolution {
        solution,
        epoch_number: 0,
    });
    let serialized = message.encode();
    println!("{}", serialized);
    let message = PoolMessage::decode(&serialized.to_string()).unwrap();
    assert!(matches!(message, PoolMessage::NewSolution(..)))
}

#[test]
fn auth_request_has_its_exact_text() {
    let message = PoolMessage::AuthRequest(AuthRequest { username: "miner1".to_string() });
    assert_eq!(message.encode(), "{\"type\":\"auth_request\",\"username\":\"miner1\"}");
}

#[test]
fn auth_response_has_its_exact_text() {
    let message = PoolMessage::AuthResponse(AuthResponse {
        result: true,
        address: Address::new("aleo1pool".to_string()),
        message: None,
    });
    assert_eq!(
        message.encode(),
        "{\"address\":\"aleo1pool\",\"message\":null,\"result\":true,\"type\":\"auth_response\"}"
    );
}

#[test]
fn task_has_its_exact_text() {
    let message = PoolMessage::NewTask(sample_task());
    assert_eq!(
        message.encode(),
        "{\"difficulty\":1000,\"epoch_challenge\":{\"degree\":8191,\"epoch_block_hash\":\"ab1hash\",\"epoch_number\":7},\"type\":\"task\"}"
    );
}

#[test]
fn solution_has_its_exact_text() {
    let message = PoolMessage::NewSolution(NewSolution {
        epoch_number: 3,
        solution: Json::Object(vec![("nonce".to_string(), Json::Number(5))]),
    });
    assert_eq!(
        message.encode(),
        "{\"epoch_number\":3,\"solution\":{\"nonce\":5},\"type\":\"solution\"}"
    );
}

#[test]
fn round_trip_of_an_auth_request() {
    let message = PoolMessage::AuthRequest(AuthRequest { username: "mi\"ner\n1".to_string() });
    assert_eq!(PoolMessage::decode(&message.encode()), Ok(message));
}

#[test]
fn round_trip_of_an_auth_response_with_and_without_message() {
    let with = PoolMessage::AuthResponse(AuthResponse {
        result: false,
        address: Address::new(POOL_ADDRESS.to_string()),
        message: Some("unknown miner".to_string()),
    });
    assert_eq!(PoolMessage::decode(&with.encode()), Ok(with));
    let without = PoolMessage::AuthResponse(AuthResponse {
        result: true,
        address: Address::new(POOL_ADDRESS.to_string()),
        message: None,
    });
    assert_eq!(PoolMessage::decode(&without.encode()), Ok(without));
}

#[test]
fn round_trip_of_a_task_with_the_largest_numbers() {
    let message = PoolMessage::NewTask(NewTask {
        epoch_challenge: EpochChallenge::new(u32::MAX, "ab1hash".to_string(), u32::MAX),
        difficulty: u64::MAX,
    });
    assert_eq!(PoolMessage::decode(&message.encode()), Ok(message));
}

#[test]
fn round_trip_of_a_solution() {
    let message = PoolMessage::NewSolution(NewSolution { epoch_number: 9, solution: proof_document() });
    assert_eq!(PoolMessage::decode(&message.encode()), Ok(message));
}

#[test]
fn round_trip_through_documents() {
    let message = PoolMessage::NewTask(sample_task());
    assert_eq!(PoolMessage::deserialize(&message.serialize()), Ok(message));
}

#[test]
fn decode_reads_the_handshake_messages() {
    assert_eq!(
        PoolMessage::decode("{\"type\": \"auth_request\", \"username\": \"miner1\"}"),
        Ok(PoolMessage::AuthRequest(AuthRequest { username: "miner1".to_string() }))
    );
    assert_eq!(
        PoolMessage::decode(
            "{\"type\": \"auth_response\", \"result\": true, \"address\": \"aleo1rhgdu77hgyqd3xjj8ucu3jj9r2krwz6mnzyd80gncr5fxcwlh5rsvzp9px\", \"message\": null}"
        ),
        Ok(PoolMessage::AuthResponse(AuthResponse {
            result: true,
            address: Address::new(POOL_ADDRESS.to_string()),
            message: None,
        }))
    );
}

#[test]
fn decode_takes_a_missing_message_for_none() {
    assert_eq!(
        PoolMessage::decode("{\"type\":\"auth_response\",\"result\":false,\"address\":\"a\"}"),
        Ok(PoolMessage::AuthResponse(AuthResponse {
            result: false,
            address: Address::new("a".to_string()),
            message: None,
        }))
    );
}

#[test]
fn decode_ignores_members_it_does_not_know() {
    assert_eq!(
        PoolMessage::decode(
            "{\"type\":\"auth_request\",\"username\":\"m\",\"metadata\":{\"machine_name\":\"rig\"},\"extra\":[1,2]}"
        ),
        Ok(PoolMessage::AuthRequest(AuthRequest { username: "m".to_string() }))
    );
}

#[test]
fn decode_refuses_text_that_is_no_json() {
    assert_eq!(PoolMessage::decode("type=auth_request"), Err(DecodeError::NotJson));
    assert_eq!(PoolMessage::decode(""), Err(DecodeError::NotJson));
}

#[test]
fn decode_refuses_a_payload_without_discriminator() {
    assert_eq!(PoolMessage::decode("{\"username\":\"m\"}"), Err(DecodeError::MissingDiscriminator));
    assert_eq!(PoolMessage::decode("[1,2,3]"), Err(DecodeError::MissingDiscriminator));
    assert_eq!(PoolMessage::decode("\"auth_request\""), Err(DecodeError::MissingDiscriminator));
}

#[test]
fn decode_refuses_an_unknown_discriminator() {
    assert_eq!(
        PoolMessage::decode("{\"type\":\"ping\",\"username\":\"m\"}"),
        Err(DecodeError::UnknownDiscriminator)
    );
    assert_eq!(
        PoolMessage::decode("{\"type\":0,\"username\":\"m\"}"),
        Err(DecodeError::UnknownDiscriminator)
    );
    assert_eq!(
        PoolMessage::decode("{\"type\":\"Auth_Request\",\"username\":\"m\"}"),
        Err(DecodeError::UnknownDiscriminator)
    );
}

#[test]
fn decode_refuses_a_payload_that_lacks_a_member() {
    assert_eq!(PoolMessage::decode("{\"type\":\"auth_request\"}"), Err(DecodeError::InvalidPayload));
    assert_eq!(
        PoolMessage::decode("{\"type\":\"auth_request\",\"username\":5}"),
        Err(DecodeError::InvalidPayload)
    );
    assert_eq!(
        PoolMessage::decode("{\"type\":\"auth_response\",\"address\":\"a\"}"),
        Err(DecodeError::InvalidPayload)
    );
    assert_eq!(
        PoolMessage::decode("{\"type\":\"auth_response\",\"result\":true,\"address\":\"a\",\"message\":7}"),
        Err(DecodeError::InvalidPayload)
    );
    assert_eq!(
        PoolMessage::decode("{\"type\":\"task\",\"difficulty\":1}"),
        Err(DecodeError::InvalidPayload)
    );
    assert_eq!(
        PoolMessage::decode(
            "{\"type\":\"task\",\"difficulty\":1,\"epoch_challenge\":{\"epoch_number\":1,\"degree\":2}}"
        ),
        Err(DecodeError::InvalidPayload)
    );
    assert_eq!(
        PoolMessage::decode("{\"type\":\"solution\",\"epoch_number\":1}"),
        Err(DecodeError::InvalidPayload)
    );
    assert_eq!(
        PoolMessage::decode("{\"type\":\"solution\",\"solution\":{}}"),
        Err(DecodeError::InvalidPayload)
    );
}

#[test]
fn decode_refuses_a_number_that_does_not_fit() {
    assert_eq!(
        PoolMessage::decode("{\"type\":\"solution\",\"solution\":{},\"epoch_number\":4294967296}"),
        Err(DecodeError::InvalidPayload)
    );
    assert_eq!(
        PoolMessage::decode("{\"type\":\"solution\",\"solution\":{},\"epoch_number\":4294967295}"),
        Ok(PoolMessage::NewSolution(NewSolution {
            epoch_number: 4294967295,
            solution: Json::Object(vec![]),
        }))
    );
}

#[test]
fn extractors_give_the_payload_of_their_kind_only() {
    let request = || PoolMessage::AuthRequest(AuthRequest { username: "m".to_string() });
    assert_eq!(request().auth_request(), Ok(AuthRequest { username: "m".to_string() }));
    assert_eq!(request().auth_response(), Err(Error::UnexpectedMessageType));
    assert_eq!(request().new_task(), Err(Error::UnexpectedMessageType));
    assert_eq!(request().new_solution(), Err(Error::UnexpectedMessageType));
    assert_eq!(PoolMessage::NewTask(sample_task()).new_task(), Ok(sample_task()));
    assert_eq!(PoolMessage::NewTask(sample_task()).auth_request(), Err(Error::UnexpectedMessageType));
    let solution = || NewSolution { epoch_number: 1, solution: Json::Null };
    assert_eq!(PoolMessage::NewSolution(solution()).new_solution(), Ok(solution()));
    assert_eq!(PoolMessage::NewSolution(solution()).new_task(), Err(Error::UnexpectedMessageType));
    let response = || AuthResponse {
        result: true,
        address: Address::new("a".to_string()),
        message: None,
    };
    assert_eq!(PoolMessage::AuthResponse(response()).auth_response(), Ok(response()));
    assert_eq!(PoolMessage::AuthResponse(response()).new_solution(), Err(Error::UnexpectedMessageType));
}

#[test]
fn copies_are_equal_to_what_they_copy() {
    let message = PoolMessage::NewSolution(NewSolution { epoch_number: 9, solution: proof_document() });
    assert_eq!(message.clone(), message);
    let task = sample_task();
    assert_eq!(task.clone(), task);
    assert_eq!(task.epoch_challenge.epoch_number(), 7);
    assert_eq!(task.epoch_challenge.epoch_block_hash(), "ab1hash");
    assert_eq!(task.epoch_challenge.degree(), 8191);
}

#[test]
fn every_kind_of_message_reads_back_from_its_text() {
    let messages = vec![
        PoolMessage::AuthRequest(AuthRequest { username: "miner1".to_string() }),
        PoolMessage::AuthResponse(AuthResponse {
            result: true,
            address: Address::new(POOL_ADDRESS.to_string()),
            message: Some("welcome".to_string()),
        }),
        PoolMessage::NewTask(sample_task()),
        PoolMessage::NewSolution(NewSolution { epoch_number: 1, solution: proof_document() }),
        PoolMessage::NewSolution(NewSolution { epoch_number: 1, solution: Json::Null }),
    ];
    for message in &messages {
        assert!(message.reads_back(&message.encode()));
        assert_eq!(message.encode_checked(), Some(message.encode()));
    }
    assert!(!messages[0].reads_back(&messages[1].encode()));
    assert!(!messages[0].reads_back("{}"));
}

#[test]
fn decode_ignores_an_unknown_member_with_any_number() {
    assert_eq!(
        PoolMessage::decode("{\"type\":\"auth_request\",\"username\":\"m\",\"load\":-3,\"ratio\":0.25}"),
        Ok(PoolMessage::AuthRequest(AuthRequest { username: "m".to_string() }))
    );
}

#[test]
fn decode_refuses_a_required_number_that_is_no_unsigned_integer() {
    assert_eq!(
        PoolMessage::decode("{\"type\":\"solution\",\"solution\":{},\"epoch_number\":-1}"),
        Err(DecodeError::InvalidPayload)
    );
    assert_eq!(
        PoolMessage::decode("{\"type\":\"solution\",\"solution\":{},\"epoch_number\":1.0}"),
        Err(DecodeError::InvalidPayload)
    );
}

#[test]
fn a_solution_document_with_any_number_goes_round() {
    let text = "{\"epoch_number\":1,\"solution\":{\"delta\":-7,\"share\":0.5},\"type\":\"solution\"}";
    let message = PoolMessage::decode(text).unwrap();
    assert_eq!(message.encode(), text);
    assert!(message.reads_back(text));
    assert_eq!(message.encode_checked(), Some(text.to_string()));
}

#[test]
fn payloads_have_their_own_documents_without_the_kind() {
    let task = sample_task();
    assert_eq!(
        task.serialize().render(),
        "{\"difficulty\":1000,\"epoch_challenge\":{\"degree\":8191,\"epoch_block_hash\":\"ab1hash\",\"epoch_number\":7}}"
    );
    assert_eq!(task.serialize().get("type"), None);
    assert_eq!(NewTask::deserialize(&task.serialize()), Ok(sample_task()));
    let request = AuthRequest { username: "m".to_string() };
    assert_eq!(request.serialize().render(), "{\"username\":\"m\"}");
    assert_eq!(AuthRequest::deserialize(&request.serialize()), Ok(AuthRequest { username: "m".to_string() }));
    let response = AuthResponse { result: true, address: Address::new("a".to_string()), message: None };
    assert_eq!(response.serialize().render(), "{\"address\":\"a\",\"message\":null,\"result\":true}");
    assert_eq!(AuthResponse::deserialize(&response.serialize()), Ok(response));
    let solution = NewSolution { epoch_number: 2, solution: Json::Array(vec![]) };
    assert_eq!(solution.serialize().render(), "{\"epoch_number\":2,\"solution\":[]}");
    assert_eq!(NewSolution::deserialize(&solution.serialize()), Ok(solution));
    assert_eq!(
        PoolMessage::NewTask(sample_task()).serialize().get("type"),
        Some(&Json::Text("task".to_string()))
    );
}
