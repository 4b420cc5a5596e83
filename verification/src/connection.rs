//! One peer's connection: the decisions of the loop that owns the transport,
//! and the two single-slot mailboxes between that loop and its owner.
//!
//! The loop itself runs outside this library. It waits on the transport, on
//! the owner's mailbox and on the heartbeat timer, hands each event to
//! [`Connection::handle_inner`], and performs the action that comes back.

use crate::codec::{
    decode_text, decoded, encode_model, encode_text, lemma_round_trip_on_text,
};
use crate::json::parsed_document;
use crate::error::{DecodeError, Error};
use crate::message::{AuthRequest, AuthResponse, MessageModel, NewSolution, NewTask, PoolMessage};
use vstd::prelude::*;

verus! {

/// Whether a connection can still be used.
#[derive(Debug, Clone, Copy, PartialEq, Eq, Structural)]
pub enum Link {
    /// The loop is running.
    Alive,
    /// The transport failed or the peer broke the protocol. There is no way
    /// back.
    Broken,
    /// The owner closed the connection. There is no way back.
    Closed,
}

/// A frame of the transport, with what the connection reads of it.
#[derive(Debug, PartialEq, Eq)]
pub enum Frame {
    /// A data frame with its text.
    Text(String),
    /// A data frame with binary content.
    Binary,
    /// A liveness ping.
    Ping,
    /// A liveness pong.
    Pong,
    /// The peer closes.
    Close,
    /// Any other frame.
    Raw,
}

/// What a frame is, over mathematical values.
pub ghost enum FrameModel {
    Text(Seq<char>),
    Binary,
    Ping,
    Pong,
    Close,
    Raw,
}

/// What the loop was woken by.
#[derive(Debug, PartialEq, Eq)]
pub enum Event {
    /// The owner's mailbox may hold a message to send.
    Outgoing,
    /// The transport delivered a frame.
    Frame(Frame),
    /// The transport ended.
    TransportClosed,
    /// Reading from or writing to the transport failed.
    TransportFailed,
    /// The heartbeat timer fired.
    Heartbeat,
}

/// What an event is, over mathematical values.
pub ghost enum EventModel {
    Outgoing,
    Frame(FrameModel),
    TransportClosed,
    TransportFailed,
    Heartbeat,
}

/// What the loop has to do after an event.
#[derive(Debug, PartialEq, Eq)]
pub enum Action {
    /// Write the frame to the transport.
    Transmit(Frame),
    /// Nothing.
    Idle,
    /// Leave the loop: the connection is broken or closed.
    Stop,
    /// The loop holds a message that the owner has no room for yet: the
    /// event was not looked at, and is handed back.
    Deferred(Event),
}

/// What an action is, over mathematical values.
pub ghost enum ActionModel {
    Transmit(FrameModel),
    Idle,
    Stop,
    Deferred(EventModel),
}

/// The state of a connection, over mathematical values.
pub ghost struct ConnectionModel {
    /// Whether the connection can still be used.
    pub link: Link,
    /// Whether the loop sends liveness pings.
    pub heartbeat: bool,
    /// The owner's mailbox: one message accepted for sending and not yet
    /// written.
    pub outgoing: Option<MessageModel>,
    /// The loop's mailbox: one message received and not yet taken by the
    /// owner.
    pub incoming: Option<MessageModel>,
    /// A message received while the loop's mailbox was full. While the loop
    /// holds one it looks at no event.
    pub held: Option<MessageModel>,
}

/// The seconds between two heartbeats.
pub const HEARTBEAT_SECONDS: u64 = 15;

/// The message in a mailbox, over mathematical values.
pub open spec fn slot(message: Option<PoolMessage>) -> Option<MessageModel> {
    match message {
        Some(m) => Some(m@),
        None => None,
    }
}

impl View for Frame {
    type V = FrameModel;

    open spec fn view(&self) -> FrameModel {
        match *self {
            Frame::Text(text) => FrameModel::Text(text@),
            Frame::Binary => FrameModel::Binary,
            Frame::Ping => FrameModel::Ping,
            Frame::Pong => FrameModel::Pong,
            Frame::Close => FrameModel::Close,
            Frame::Raw => FrameModel::Raw,
        }
    }
}

impl View for Event {
    type V = EventModel;

    open spec fn view(&self) -> EventModel {
        match *self {
            Event::Outgoing => EventModel::Outgoing,
            Event::Frame(frame) => EventModel::Frame(frame@),
            Event::TransportClosed => EventModel::TransportClosed,
            Event::TransportFailed => EventModel::TransportFailed,
            Event::Heartbeat => EventModel::Heartbeat,
        }
    }
}

impl View for Action {
    type V = ActionModel;

    open spec fn view(&self) -> ActionModel {
        match *self {
            Action::Transmit(frame) => ActionModel::Transmit(frame@),
            Action::Idle => ActionModel::Idle,
            Action::Stop => ActionModel::Stop,
            Action::Deferred(event) => ActionModel::Deferred(event@),
        }
    }
}

/// The message that a frame carries: that of its text, where it has one.
pub open spec fn decode_frame(frame: FrameModel) -> Result<MessageModel, DecodeError> {
    match frame {
        FrameModel::Text(text) => decode_text(text),
        _ => Err(DecodeError::NotText),
    }
}

impl Frame {
    /// Reads the message that the frame carries. Fails with `NotText` for
    /// every frame that is no text frame, and as the text does for one that
    /// is.
    pub fn decode(&self) -> (r: Result<PoolMessage, DecodeError>)
        ensures
            decode_frame(self@) == decoded(r),
    {
        match self {
            Frame::Text(text) => PoolMessage::decode(text.as_str()),
            _ => Err(DecodeError::NotText),
        }
    }
}

impl ConnectionModel {
    /// A fresh connection: alive, with empty mailboxes.
    pub open spec fn fresh(heartbeat: bool) -> ConnectionModel {
        ConnectionModel { link: Link::Alive, heartbeat, outgoing: None, incoming: None, held: None }
    }

    /// Whether the loop looks at events: the connection is alive and the loop
    /// holds no message.
    pub open spec fn attentive(self) -> bool {
        self.link == Link::Alive && self.held is None
    }

    /// The error that every operation of the owner meets once the connection
    /// is not alive.
    pub open spec fn failure(self) -> Option<Error> {
        match self.link {
            Link::Alive => None,
            Link::Broken => Some(Error::ConnectionBroken),
            Link::Closed => Some(Error::ChannelClosed),
        }
    }

    /// The connection with its link broken.
    pub open spec fn broken(self) -> ConnectionModel {
        ConnectionModel { link: Link::Broken, ..self }
    }

    /// The connection after the loop has received a message: it goes to the
    /// loop's mailbox, or is held where that is full.
    pub open spec fn received(self, message: MessageModel) -> ConnectionModel {
        if self.incoming is None {
            ConnectionModel { incoming: Some(message), ..self }
        } else {
            ConnectionModel { held: Some(message), ..self }
        }
    }

    /// The connection after the loop has looked at an event.
    pub open spec fn after_event(self, event: EventModel) -> ConnectionModel {
        if !self.attentive() {
            self
        } else {
            match event {
                EventModel::Outgoing => ConnectionModel { outgoing: None, ..self },
                EventModel::Frame(FrameModel::Ping) => self,
                EventModel::Frame(FrameModel::Pong) => self,
                EventModel::Frame(frame) => match decode_frame(frame) {
                    Ok(message) => self.received(message),
                    Err(_) => self.broken(),
                },
                EventModel::TransportClosed => self.broken(),
                EventModel::TransportFailed => self.broken(),
                EventModel::Heartbeat => self,
            }
        }
    }

    /// What the loop has to do after an event.
    pub open spec fn action_for(self, event: EventModel) -> ActionModel {
        if self.link != Link::Alive {
            ActionModel::Stop
        } else if self.held is Some {
            ActionModel::Deferred(event)
        } else {
            match event {
                EventModel::Outgoing => match self.outgoing {
                    Some(message) => ActionModel::Transmit(FrameModel::Text(encode_text(message))),
                    None => ActionModel::Idle,
                },
                EventModel::Frame(FrameModel::Ping) => ActionModel::Transmit(FrameModel::Pong),
                EventModel::Frame(FrameModel::Pong) => ActionModel::Idle,
                EventModel::Frame(frame) => match decode_frame(frame) {
                    Ok(_) => ActionModel::Idle,
                    Err(_) => ActionModel::Stop,
                },
                EventModel::TransportClosed => ActionModel::Stop,
                EventModel::TransportFailed => ActionModel::Stop,
                EventModel::Heartbeat => if self.heartbeat {
                    ActionModel::Transmit(FrameModel::Ping)
                } else {
                    ActionModel::Idle
                },
            }
        }
    }

    /// The connection after the owner has offered a message for sending: an
    /// alive connection with an empty mailbox takes it.
    pub open spec fn after_send(self, message: MessageModel) -> ConnectionModel {
        if self.link == Link::Alive && self.outgoing is None {
            ConnectionModel { outgoing: Some(message), ..self }
        } else {
            self
        }
    }

    /// What the owner is told after offering a message: the error of a
    /// connection that is not alive; else nothing where the message was
    /// taken, and the message itself where the mailbox was full.
    pub open spec fn send_result(self, message: MessageModel) -> Result<Option<MessageModel>, Error> {
        match self.failure() {
            Some(error) => Err(error),
            None => if self.outgoing is None {
                Ok(None)
            } else {
                Ok(Some(message))
            },
        }
    }

    /// The connection after the owner has asked for the next message: the
    /// loop's mailbox is emptied and a held message moves into it.
    pub open spec fn after_next(self) -> ConnectionModel {
        if self.link == Link::Alive {
            ConnectionModel { incoming: self.held, held: None, ..self }
        } else {
            self
        }
    }

    /// What the owner is told after asking for the next message: the error of
    /// a connection that is not alive, else what the loop's mailbox held.
    pub open spec fn next_result(self) -> Result<Option<MessageModel>, Error> {
        match self.failure() {
            Some(error) => Err(error),
            None => Ok(self.incoming),
        }
    }

    /// The connection after the owner has closed it.
    pub open spec fn after_close(self) -> ConnectionModel {
        if self.link == Link::Alive {
            ConnectionModel { link: Link::Closed, ..self }
        } else {
            self
        }
    }
}

impl EventModel {
    /// Whether the event is fatal to a connection whose loop looks at it: a
    /// frame that is neither ping nor pong and carries no message, the end of
    /// the transport or a failure of it.
    pub open spec fn fatal(self) -> bool {
        match self {
            EventModel::Frame(FrameModel::Ping) => false,
            EventModel::Frame(FrameModel::Pong) => false,
            EventModel::Frame(frame) => decode_frame(frame) is Err,
            EventModel::TransportClosed => true,
            EventModel::TransportFailed => true,
            EventModel::Outgoing => false,
            EventModel::Heartbeat => false,
        }
    }
}

impl ConnectionModel {
    /// What holds of every connection that the operations can reach: the
    /// loop holds a message only while its mailbox is full.
    pub open spec fn consistent(self) -> bool {
        self.held is Some ==> self.incoming is Some
    }
}

/// A frame that is no text frame carries no message: but for a ping and a
/// pong, each is fatal.
pub proof fn lemma_frames_without_text(frame: FrameModel)
    requires
        !(frame is Text),
    ensures
        decode_frame(frame) == Err::<MessageModel, DecodeError>(DecodeError::NotText),
        EventModel::Frame(frame).fatal() <==> !(frame is Ping || frame is Pong),
{
}

/// Fatal events: an alive connection whose loop looks at a fatal event is
/// broken afterwards and its loop stops; an alive connection is broken by no
/// other event. Once broken, sending and receiving both fail with
/// `ConnectionBroken` and change nothing.
pub proof fn lemma_fatal_event_breaks(
    connection: ConnectionModel,
    event: EventModel,
    message: MessageModel,
)
    requires
        connection.attentive(),
    ensures
        event.fatal() <==> connection.after_event(event).link == Link::Broken,
        event.fatal() ==> connection.action_for(event) == ActionModel::Stop,
        event.fatal() ==> connection.after_event(event).send_result(message) == Err::<
            Option<MessageModel>,
            Error,
        >(Error::ConnectionBroken),
        event.fatal() ==> connection.after_event(event).next_result() == Err::<
            Option<MessageModel>,
            Error,
        >(Error::ConnectionBroken),
        event.fatal() ==> connection.after_event(event).after_send(message)
            == connection.after_event(event),
        event.fatal() ==> connection.after_event(event).after_next() == connection.after_event(
            event,
        ),
{
}

/// Round trip through the connection: where `serde_json` reads the wire text
/// of a message as the document that it printed, a loop that looks at a text
/// frame with that text hands exactly that message to the owner, once, and
/// goes on.
pub proof fn lemma_delivers_what_was_sent(connection: ConnectionModel, message: MessageModel)
    requires
        connection.attentive(),
        connection.incoming is None,
    ensures
        parsed_document(encode_text(message)) == Some(encode_model(message)) ==> ({
            let event = EventModel::Frame(FrameModel::Text(encode_text(message)));
            &&& connection.after_event(event) == ConnectionModel {
                incoming: Some(message),
                ..connection
            }
            &&& connection.action_for(event) == ActionModel::Idle
            &&& connection.after_event(event).next_result() == Ok::<Option<MessageModel>, Error>(
                Some(message),
            )
            &&& connection.after_event(event).after_next() == connection
        }),
{
    if parsed_document(encode_text(message)) == Some(encode_model(message)) {
        lemma_round_trip_on_text(message);
    }
}

/// No way back: whatever happens to a connection that is not alive, it
/// stays as it is, its loop stops, and its owner's operations fail.
pub proof fn lemma_not_alive_is_final(
    connection: ConnectionModel,
    event: EventModel,
    message: MessageModel,
)
    requires
        connection.link != Link::Alive,
    ensures
        connection.after_event(event) == connection,
        connection.action_for(event) == ActionModel::Stop,
        connection.after_send(message) == connection,
        connection.after_next() == connection,
        connection.after_close() == connection,
        connection.send_result(message) is Err,
        connection.next_result() is Err,
{
}

/// The loop holds a message only while its mailbox is full: this holds of a
/// fresh connection and is kept by every operation.
pub proof fn lemma_consistent(
    connection: ConnectionModel,
    heartbeat: bool,
    event: EventModel,
    message: MessageModel,
)
    requires
        connection.consistent(),
    ensures
        ConnectionModel::fresh(heartbeat).consistent(),
        connection.after_event(event).consistent(),
        connection.after_send(message).consistent(),
        connection.after_next().consistent(),
        connection.after_close().consistent(),
{
}

/// One message in flight: a message that was taken for sending is the one
/// that the loop writes next, as the text of that message, and the mailbox
/// is free again afterwards; until then no other message is taken.
pub proof fn lemma_send_then_transmit(
    connection: ConnectionModel,
    message: MessageModel,
    other: MessageModel,
)
    requires
        connection.attentive(),
        connection.outgoing is None,
    ensures
        connection.send_result(message) == Ok::<Option<MessageModel>, Error>(None),
        connection.after_send(message).send_result(other) == Ok::<Option<MessageModel>, Error>(
            Some(other),
        ),
        connection.after_send(message).after_send(other) == connection.after_send(message),
        connection.after_send(message).action_for(EventModel::Outgoing) == ActionModel::Transmit(
            FrameModel::Text(encode_text(message)),
        ),
        connection.after_send(message).after_event(EventModel::Outgoing) == connection,
{
}

/// Inbound order: a message that the loop receives while its mailbox is
/// full reaches the owner after the one in the mailbox, and in between the
/// loop looks at no event.
pub proof fn lemma_held_message_follows(
    connection: ConnectionModel,
    text: Seq<char>,
    event: EventModel,
)
    requires
        connection.attentive(),
        connection.incoming is Some,
        decode_text(text) is Ok,
    ensures
        ({
            let stalled = connection.after_event(EventModel::Frame(FrameModel::Text(text)));
            &&& stalled.next_result() == Ok::<Option<MessageModel>, Error>(connection.incoming)
            &&& stalled.after_event(event) == stalled
            &&& stalled.action_for(event) == ActionModel::Deferred(event)
            &&& stalled.after_next().next_result() == Ok::<Option<MessageModel>, Error>(
                Some(decode_text(text)->Ok_0),
            )
            &&& stalled.after_next().attentive()
        }),
{
}

/// A connection to one peer.
#[derive(Debug)]
pub struct Connection {
    link: Link,
    heartbeat: bool,
    outgoing: Option<PoolMessage>,
    incoming: Option<PoolMessage>,
    held: Option<PoolMessage>,
}

impl View for Connection {
    type V = ConnectionModel;

    closed spec fn view(&self) -> ConnectionModel {
        ConnectionModel {
            link: self.link,
            heartbeat: self.heartbeat,
            outgoing: slot(self.outgoing),
            incoming: slot(self.incoming),
            held: slot(self.held),
        }
    }
}

/// What an operation returns, over mathematical values.
pub open spec fn carried<T: View<V = MessageModel>>(result: Result<Option<T>, Error>) -> Result<
    Option<MessageModel>,
    Error,
> {
    match result {
        Ok(Some(value)) => Ok(Some(value@)),
        Ok(None) => Ok(None),
        Err(error) => Err(error),
    }
}

/// What becomes of a received message where one kind is expected: a message
/// of another kind is the error `UnexpectedMessageType`.
pub open spec fn expecting(
    received: Result<Option<MessageModel>, Error>,
    wanted: spec_fn(MessageModel) -> bool,
) -> Result<Option<MessageModel>, Error> {
    match received {
        Ok(Some(message)) => if wanted(message) {
            received
        } else {
            Err(Error::UnexpectedMessageType)
        },
        _ => received,
    }
}

impl Connection {
    /// A fresh connection: alive, nothing sent or received. `enable_hb` says
    /// whether the loop sends liveness pings.
    pub fn new(enable_hb: bool) -> (r: Connection)
        ensures
            r@ == ConnectionModel::fresh(enable_hb),
            r@.consistent(),
    {
        Connection { link: Link::Alive, heartbeat: enable_hb, outgoing: None, incoming: None, held: None }
    }

    /// Whether the connection can still be used.
    pub fn link(&self) -> (r: Link)
        ensures
            r == self@.link,
    {
        self.link
    }

    /// Whether the loop holds a message that the owner has no room for: it
    /// then reads no further frame.
    pub fn is_stalled(&self) -> (r: bool)
        ensures
            r == (self@.held is Some),
    {
        self.held.is_some()
    }

    /// One step of the loop: looks at the event that woke it, changes the
    /// state and says what to do.
    ///
    /// A connection that is not alive stops. A loop that holds a message
    /// hands the event back. Otherwise: the owner's message is taken from
    /// its mailbox and goes out as a text frame; a text frame is decoded and
    /// its message goes to the owner; a ping is answered with a pong; a pong
    /// is dropped; the heartbeat sends a ping where it is enabled. A text
    /// that is no message, any other frame, and the end or a failure of the
    /// transport break the connection.
    pub fn handle_inner(&mut self, event: Event) -> (r: Action)
        ensures
            old(self)@.consistent() ==> final(self)@.consistent(),
            final(self)@ == old(self)@.after_event(event@),
            r@ == old(self)@.action_for(event@),
    {
        match self.link {
            Link::Alive => {},
            _ => {
                return Action::Stop;
            },
        }
        if self.held.is_some() {
            return Action::Deferred(event);
        }
        match event {
            Event::Outgoing => match self.outgoing.take() {
                Some(message) => Action::Transmit(Frame::Text(message.encode())),
                None => Action::Idle,
            },
            Event::Frame(Frame::Ping) => Action::Transmit(Frame::Pong),
            Event::Frame(Frame::Pong) => Action::Idle,
            Event::Frame(frame) => match frame.decode() {
                Ok(message) => {
                    if self.incoming.is_none() {
                        self.incoming = Some(message);
                    } else {
                        self.held = Some(message);
                    }
                    Action::Idle
                },
                Err(_) => {
                    self.link = Link::Broken;
                    Action::Stop
                },
            },
            Event::TransportClosed => {
                self.link = Link::Broken;
                Action::Stop
            },
            Event::TransportFailed => {
                self.link = Link::Broken;
                Action::Stop
            },
            Event::Heartbeat => if self.heartbeat {
                Action::Transmit(Frame::Ping)
            } else {
                Action::Idle
            },
        }
    }

    /// Offers a message for sending. An alive connection with an empty
    /// mailbox takes it; with a full mailbox the message comes back, to be
    /// offered again once the loop has written the one before. A connection
    /// that is not alive fails and stays as it is.
    pub fn send(&mut self, msg: PoolMessage) -> (r: Result<Option<PoolMessage>, Error>)
        ensures
            old(self)@.consistent() ==> final(self)@.consistent(),
            final(self)@ == old(self)@.after_send(msg@),
            carried(r) == old(self)@.send_result(msg@),
    {
        match self.link {
            Link::Broken => Err(Error::ConnectionBroken),
            Link::Closed => Err(Error::ChannelClosed),
            Link::Alive => if self.outgoing.is_none() {
                self.outgoing = Some(msg);
                Ok(None)
            } else {
                Ok(Some(msg))
            },
        }
    }

    /// Takes the next message that the loop has received, if one has come.
    /// A message that the loop held moves into the mailbox. A connection that
    /// is not alive fails and stays as it is.
    pub fn next(&mut self) -> (r: Result<Option<PoolMessage>, Error>)
        ensures
            old(self)@.consistent() ==> final(self)@.consistent(),
            final(self)@ == old(self)@.after_next(),
            carried(r) == old(self)@.next_result(),
    {
        match self.link {
            Link::Broken => Err(Error::ConnectionBroken),
            Link::Closed => Err(Error::ChannelClosed),
            Link::Alive => {
                let message = self.incoming.take();
                self.incoming = self.held.take();
                Ok(message)
            },
        }
    }

    /// Takes the next message, which has to be an `AuthRequest`.
    pub fn next_auth_request(&mut self) -> (r: Result<Option<AuthRequest>, Error>)
        ensures
            old(self)@.consistent() ==> final(self)@.consistent(),
            final(self)@ == old(self)@.after_next(),
            carried(r) == expecting(old(self)@.next_result(), |m: MessageModel| m is AuthRequest),
    {
        match self.next() {
            Err(error) => Err(error),
            Ok(None) => Ok(None),
            Ok(Some(message)) => match message.auth_request() {
                Ok(request) => Ok(Some(request)),
                Err(error) => Err(error),
            },
        }
    }

    /// Takes the next message, which has to be an `AuthResponse`.
    pub fn next_auth_response(&mut self) -> (r: Result<Option<AuthResponse>, Error>)
        ensures
            old(self)@.consistent() ==> final(self)@.consistent(),
            final(self)@ == old(self)@.after_next(),
            carried(r) == expecting(old(self)@.next_result(), |m: MessageModel| m is AuthResponse),
    {
        match self.next() {
            Err(error) => Err(error),
            Ok(None) => Ok(None),
            Ok(Some(message)) => match message.auth_response() {
                Ok(response) => Ok(Some(response)),
                Err(error) => Err(error),
            },
        }
    }

    /// Takes the next message, which has to be a `NewSolution`.
    pub fn next_solution(&mut self) -> (r: Result<Option<NewSolution>, Error>)
        ensures
            old(self)@.consistent() ==> final(self)@.consistent(),
            final(self)@ == old(self)@.after_next(),
            carried(r) == expecting(old(self)@.next_result(), |m: MessageModel| m is NewSolution),
    {
        match self.next() {
            Err(error) => Err(error),
            Ok(None) => Ok(None),
            Ok(Some(message)) => match message.new_solution() {
                Ok(solution) => Ok(Some(solution)),
                Err(error) => Err(error),
            },
        }
    }

    /// Takes the next message, which has to be a `NewTask`.
    pub fn next_task(&mut self) -> (r: Result<Option<NewTask>, Error>)
        ensures
            old(self)@.consistent() ==> final(self)@.consistent(),
            final(self)@ == old(self)@.after_next(),
            carried(r) == expecting(old(self)@.next_result(), |m: MessageModel| m is NewTask),
    {
        match self.next() {
            Err(error) => Err(error),
            Ok(None) => Ok(None),
            Ok(Some(message)) => match message.new_task() {
                Ok(task) => Ok(Some(task)),
                Err(error) => Err(error),
            },
        }
    }

    /// Closes the connection on the owner's side. A broken connection stays
    /// broken.
    pub fn close(&mut self)
        ensures
            old(self)@.consistent() ==> final(self)@.consistent(),
            final(self)@ == old(self)@.after_close(),
    {
        match self.link {
            Link::Alive => {
                self.link = Link::Closed;
            },
            _ => {},
        }
    }
}

} // verus!
