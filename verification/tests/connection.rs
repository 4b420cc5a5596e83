use aleo_mining_protocol::connection::{Action, Connection, Event, Frame, Link, HEARTBEAT_SECONDS};
use aleo_mining_protocol::json::Json;
use aleo_mining_protocol::{
    Address, AuthRequest, AuthResponse, DecodeError, EpochChallenge, Error, NewSolution, NewTask,
    PoolMessage,
};

fn request(name: &str) -> PoolMessage {
    PoolMessage::AuthRequest(AuthRequest { username: name.to_string() })
}

fn task_text(difficulty: u64) -> String {
    PoolMessage::NewTask(task(difficulty)).encode()
}

fn task(difficulty: u64) -> NewTask {
    NewTask { epoch_challenge: EpochChallenge::new(1, "ab1".to_string(), 3), difficulty }
}

#[test]
fn heartbeat_interval_is_fifteen() {
    assert_eq!(HEARTBEAT_SECONDS, 15);
}

#[test]
fn a_fresh_connection_is_alive_and_empty() {
    let mut connection = Connection::new(true);
    assert_eq!(connection.link(), Link::Alive);
    assert!(!connection.is_stalled());
    assert_eq!(connection.next(), Ok(None));
    assert_eq!(connection.handle_inner(Event::Outgoing), Action::Idle);
}

#[test]
fn a_sent_message_goes_out_as_its_text() {
    let mut connection = Connection::new(false);
    assert_eq!(connection.send(request("miner1")), Ok(None));
    assert_eq!(
        connection.handle_inner(Event::Outgoing),
        Action::Transmit(Frame::Text("{\"type\":\"auth_request\",\"username\":\"miner1\"}".to_string()))
    );
    assert_eq!(connection.handle_inner(Event::Outgoing), Action::Idle);
}

#[test]
fn one_message_is_in_flight_at_a_time() {
    let mut connection = Connection::new(false);
    assert_eq!(connection.send(request("first")), Ok(None));
    assert_eq!(connection.send(request("second")), Ok(Some(request("second"))));
    assert_eq!(
        connection.handle_inner(Event::Outgoing),
        Action::Transmit(Frame::Text(request("first").encode()))
    );
    assert_eq!(connection.send(request("second")), Ok(None));
    assert_eq!(
        connection.handle_inner(Event::Outgoing),
        Action::Transmit(Frame::Text(request("second").encode()))
    );
}

#[test]
fn a_text_frame_reaches_the_owner_as_a_message() {
    let mut connection = Connection::new(false);
    assert_eq!(connection.handle_inner(Event::Frame(Frame::Text(task_text(5)))), Action::Idle);
    assert_eq!(connection.next(), Ok(Some(PoolMessage::NewTask(task(5)))));
    assert_eq!(connection.next(), Ok(None));
}

#[test]
fn a_slow_owner_stalls_the_loop() {
    let mut connection = Connection::new(true);
    assert_eq!(connection.handle_inner(Event::Frame(Frame::Text(task_text(1)))), Action::Idle);
    assert!(!connection.is_stalled());
    assert_eq!(connection.handle_inner(Event::Frame(Frame::Text(task_text(2)))), Action::Idle);
    assert!(connection.is_stalled());
    assert_eq!(connection.handle_inner(Event::Heartbeat), Action::Deferred(Event::Heartbeat));
    assert_eq!(
        connection.handle_inner(Event::Frame(Frame::Close)),
        Action::Deferred(Event::Frame(Frame::Close))
    );
    assert_eq!(connection.link(), Link::Alive);
    assert_eq!(connection.next(), Ok(Some(PoolMessage::NewTask(task(1)))));
    assert!(!connection.is_stalled());
    assert_eq!(connection.next(), Ok(Some(PoolMessage::NewTask(task(2)))));
    assert_eq!(connection.next(), Ok(None));
    assert_eq!(connection.handle_inner(Event::Heartbeat), Action::Transmit(Frame::Ping));
}

#[test]
fn a_ping_is_answered_and_a_pong_is_dropped() {
    let mut connection = Connection::new(false);
    assert_eq!(connection.handle_inner(Event::Frame(Frame::Ping)), Action::Transmit(Frame::Pong));
    assert_eq!(connection.handle_inner(Event::Frame(Frame::Pong)), Action::Idle);
    assert_eq!(connection.next(), Ok(None));
    assert_eq!(connection.link(), Link::Alive);
}

#[test]
fn the_heartbeat_pings_only_where_it_is_enabled() {
    let mut with = Connection::new(true);
    assert_eq!(with.handle_inner(Event::Heartbeat), Action::Transmit(Frame::Ping));
    let mut without = Connection::new(false);
    assert_eq!(without.handle_inner(Event::Heartbeat), Action::Idle);
}

fn broken_by(event: Event) {
    let mut connection = Connection::new(true);
    assert_eq!(connection.handle_inner(event), Action::Stop);
    assert_eq!(connection.link(), Link::Broken);
    assert_eq!(connection.send(request("m")), Err(Error::ConnectionBroken));
    assert_eq!(connection.next(), Err(Error::ConnectionBroken));
    assert_eq!(connection.next_task(), Err(Error::ConnectionBroken));
    assert_eq!(connection.handle_inner(Event::Heartbeat), Action::Stop);
    assert_eq!(connection.handle_inner(Event::Frame(Frame::Ping)), Action::Stop);
    connection.close();
    assert_eq!(connection.link(), Link::Broken);
}

#[test]
fn a_close_frame_breaks_the_connection() {
    broken_by(Event::Frame(Frame::Close));
}

#[test]
fn a_binary_frame_breaks_the_connection() {
    broken_by(Event::Frame(Frame::Binary));
    broken_by(Event::Frame(Frame::Raw));
}

#[test]
fn a_text_that_is_no_message_breaks_the_connection() {
    broken_by(Event::Frame(Frame::Text("{\"type\":\"unknown\"}".to_string())));
    broken_by(Event::Frame(Frame::Text("not json".to_string())));
}

#[test]
fn the_end_or_a_failure_of_the_transport_breaks_the_connection() {
    broken_by(Event::TransportClosed);
    broken_by(Event::TransportFailed);
}

#[test]
fn a_closed_connection_fails_with_channel_closed() {
    let mut connection = Connection::new(true);
    assert_eq!(connection.send(request("m")), Ok(None));
    connection.close();
    assert_eq!(connection.link(), Link::Closed);
    assert_eq!(connection.send(request("m")), Err(Error::ChannelClosed));
    assert_eq!(connection.next(), Err(Error::ChannelClosed));
    assert_eq!(connection.handle_inner(Event::Outgoing), Action::Stop);
}

#[test]
fn a_message_of_another_kind_is_unexpected() {
    let mut connection = Connection::new(false);
    connection.handle_inner(Event::Frame(Frame::Text(task_text(1))));
    assert_eq!(connection.next_auth_request(), Err(Error::UnexpectedMessageType));
    assert_eq!(connection.link(), Link::Alive);
    assert_eq!(connection.next_auth_request(), Ok(None));
    connection.handle_inner(Event::Frame(Frame::Text(task_text(1))));
    assert_eq!(connection.next_auth_response(), Err(Error::UnexpectedMessageType));
    connection.handle_inner(Event::Frame(Frame::Text(task_text(1))));
    assert_eq!(connection.next_solution(), Err(Error::UnexpectedMessageType));
    connection.handle_inner(Event::Frame(Frame::Text(request("m").encode())));
    assert_eq!(connection.next_task(), Err(Error::UnexpectedMessageType));
}

#[test]
fn a_message_of_the_expected_kind_gives_its_payload() {
    let mut connection = Connection::new(false);
    connection.handle_inner(Event::Frame(Frame::Text(request("m").encode())));
    assert_eq!(connection.next_auth_request(), Ok(Some(AuthRequest { username: "m".to_string() })));
    connection.handle_inner(Event::Frame(Frame::Text(task_text(8))));
    assert_eq!(connection.next_task(), Ok(Some(task(8))));
    let response =
        || AuthResponse { result: true, address: Address::new("aleo1".to_string()), message: None };
    connection.handle_inner(Event::Frame(Frame::Text(PoolMessage::AuthResponse(response()).encode())));
    assert_eq!(connection.next_auth_response(), Ok(Some(response())));
    let solution = || NewSolution { epoch_number: 2, solution: Json::Text("proof".to_string()) };
    connection.handle_inner(Event::Frame(Frame::Text(PoolMessage::NewSolution(solution()).encode())));
    assert_eq!(connection.next_solution(), Ok(Some(solution())));
}

#[test]
fn errors_describe_themselves() {
    assert_eq!(Error::ConnectionBroken.describe(), "connection broken");
    assert_eq!(Error::ChannelClosed.describe(), "channel closed");
    assert_eq!(Error::NotAuthenticated.describe(), "not authenticated");
    assert_eq!(Error::AlreadyAuthenticated.describe(), "already authenticated");
    assert_eq!(Error::UnexpectedMessageType.describe(), "unexpected message type");
    assert_eq!(Error::AdmissionExhausted.describe(), "admission exhausted");
}

#[test]
fn only_a_text_frame_carries_a_message() {
    assert_eq!(Frame::Text(task_text(3)).decode(), Ok(PoolMessage::NewTask(task(3))));
    assert_eq!(Frame::Text("{}".to_string()).decode(), Err(DecodeError::MissingDiscriminator));
    assert_eq!(Frame::Binary.decode(), Err(DecodeError::NotText));
    assert_eq!(Frame::Ping.decode(), Err(DecodeError::NotText));
    assert_eq!(Frame::Pong.decode(), Err(DecodeError::NotText));
    assert_eq!(Frame::Close.decode(), Err(DecodeError::NotText));
    assert_eq!(Frame::Raw.decode(), Err(DecodeError::NotText));
}
