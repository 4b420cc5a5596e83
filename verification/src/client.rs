//! The client's session: a connection behind an authentication gate.

use crate::codec::{decode_text, encode_text};
use crate::connection::{
    carried, expecting, Action, ActionModel, Connection, ConnectionModel, Event, EventModel,
    FrameModel, Link,
};
use crate::error::Error;
use crate::message::{AuthRequest, AuthResponse, MessageModel, NewSolution, NewTask, PoolMessage};
use vstd::prelude::*;

verus! {

/// Whether the pool has admitted the client.
#[derive(Debug, Clone, Copy, PartialEq, Eq, Structural)]
pub enum AuthState {
    Unauthenticated,
    Authenticated,
}

/// The state of a session, over mathematical values.
pub ghost struct ClientModel {
    /// Whether the pool has admitted the client.
    pub authed: AuthState,
    /// Whether a request was sent that no response has answered yet.
    pub awaiting: bool,
    /// Whether the stream of tasks has ended.
    pub tasks_closed: bool,
    /// The connection to the pool.
    pub connection: ConnectionModel,
}

impl ClientModel {
    /// A fresh session: not authenticated, on a fresh connection with the
    /// heartbeat on.
    pub open spec fn fresh() -> ClientModel {
        ClientModel {
            authed: AuthState::Unauthenticated,
            awaiting: false,
            tasks_closed: false,
            connection: ConnectionModel::fresh(true),
        }
    }

    /// What `auth` returns: `AlreadyAuthenticated` for an authenticated
    /// session, else what sending the request on the connection returns.
    pub open spec fn auth_result(self, request: MessageModel) -> Result<Option<MessageModel>, Error> {
        if self.authed == AuthState::Authenticated {
            Err(Error::AlreadyAuthenticated)
        } else {
            self.connection.send_result(request)
        }
    }

    /// The session after `auth`: an authenticated session stays as it is;
    /// else the request is offered to the connection, and where it was taken
    /// the session awaits the response.
    pub open spec fn after_auth(self, request: MessageModel) -> ClientModel {
        if self.authed == AuthState::Authenticated {
            self
        } else {
            ClientModel {
                awaiting: self.awaiting || self.connection.send_result(request) == Ok::<
                    Option<MessageModel>,
                    Error,
                >(None),
                connection: self.connection.after_send(request),
                ..self
            }
        }
    }

    /// What `next_auth_response` returns: `AlreadyAuthenticated` for an
    /// authenticated session, `NotAuthenticated` where no request awaits its
    /// response; else the failure of the connection, nothing where no
    /// message has come, the response where the message is one, and
    /// `UnexpectedMessageType` where it is another.
    pub open spec fn response_result(self) -> Result<Option<MessageModel>, Error> {
        if self.authed == AuthState::Authenticated {
            Err(Error::AlreadyAuthenticated)
        } else if !self.awaiting {
            Err(Error::NotAuthenticated)
        } else {
            expecting(self.connection.next_result(), |m: MessageModel| m is AuthResponse)
        }
    }

    /// The session after `next_auth_response`: where the connection was
    /// asked, its message is taken; a message ends the wait; a response that
    /// grants the request makes the session authenticated.
    pub open spec fn after_response(self) -> ClientModel {
        if self.authed == AuthState::Authenticated || !self.awaiting {
            self
        } else {
            match self.connection.next_result() {
                Ok(Some(message)) => ClientModel {
                    authed: if message matches MessageModel::AuthResponse { result: true, .. } {
                        AuthState::Authenticated
                    } else {
                        AuthState::Unauthenticated
                    },
                    awaiting: false,
                    connection: self.connection.after_next(),
                    ..self
                },
                _ => ClientModel { connection: self.connection.after_next(), ..self },
            }
        }
    }

    /// What `next_task` returns: `NotAuthenticated` before authentication,
    /// `ChannelClosed` once the stream of tasks has ended; else the failure
    /// of the connection, nothing where no message has come, the task where
    /// the message is one, and `UnexpectedMessageType` where it is another.
    pub open spec fn task_result(self) -> Result<Option<MessageModel>, Error> {
        if self.authed != AuthState::Authenticated {
            Err(Error::NotAuthenticated)
        } else if self.tasks_closed {
            Err(Error::ChannelClosed)
        } else {
            expecting(self.connection.next_result(), |m: MessageModel| m is NewTask)
        }
    }

    /// The session after `next_task`: where the connection was asked, its
    /// message is taken, and the first failure ends the stream of tasks.
    pub open spec fn after_task(self) -> ClientModel {
        if self.authed != AuthState::Authenticated || self.tasks_closed {
            self
        } else {
            ClientModel {
                tasks_closed: self.task_result() is Err,
                connection: self.connection.after_next(),
                ..self
            }
        }
    }

    /// What `send_solution` returns: `NotAuthenticated` before
    /// authentication, else what sending the solution on the connection
    /// returns.
    pub open spec fn solution_result(self, solution: MessageModel) -> Result<
        Option<MessageModel>,
        Error,
    > {
        if self.authed != AuthState::Authenticated {
            Err(Error::NotAuthenticated)
        } else {
            self.connection.send_result(solution)
        }
    }

    /// The session after `send_solution`.
    pub open spec fn after_solution(self, solution: MessageModel) -> ClientModel {
        if self.authed != AuthState::Authenticated {
            self
        } else {
            ClientModel { connection: self.connection.after_send(solution), ..self }
        }
    }

    /// What holds of every session: what holds of every connection holds of
    /// its own.
    pub open spec fn consistent(self) -> bool {
        self.connection.consistent()
    }

    /// The session after its connection's loop has looked at an event.
    pub open spec fn after_event(self, event: EventModel) -> ClientModel {
        ClientModel { connection: self.connection.after_event(event), ..self }
    }
}

/// Auth gating, before: an unauthenticated session refuses to take tasks and
/// to send solutions with `NotAuthenticated`, and stays as it is.
pub proof fn lemma_gate_closed(client: ClientModel, solution: MessageModel)
    requires
        client.authed == AuthState::Unauthenticated,
    ensures
        client.task_result() == Err::<Option<MessageModel>, Error>(Error::NotAuthenticated),
        client.solution_result(solution) == Err::<Option<MessageModel>, Error>(
            Error::NotAuthenticated,
        ),
        client.after_task() == client,
        client.after_solution(solution) == client,
{
}

/// Auth gating, after: once authenticated, a session on an alive connection
/// takes a solution into an empty mailbox, and hands out the task that has
/// come; neither fails with `NotAuthenticated` on any connection.
pub proof fn lemma_gate_open(client: ClientModel, solution: MessageModel, task: MessageModel)
    requires
        client.authed == AuthState::Authenticated,
    ensures
        client.task_result() != Err::<Option<MessageModel>, Error>(Error::NotAuthenticated),
        client.solution_result(solution) != Err::<Option<MessageModel>, Error>(
            Error::NotAuthenticated,
        ),
        client.connection.link == Link::Alive && client.connection.outgoing is None
            ==> client.solution_result(solution) == Ok::<Option<MessageModel>, Error>(None)
            && client.after_solution(solution).connection.outgoing == Some(solution),
        client.connection.link == Link::Alive && !client.tasks_closed && task is NewTask
            && client.connection.incoming == Some(task) ==> client.task_result() == Ok::<
            Option<MessageModel>,
            Error,
        >(Some(task)),
{
}

/// The guard against a second handshake: an authenticated session answers
/// `auth` and `next_auth_response` with `AlreadyAuthenticated` and stays as it
/// is, its connection included: nothing is sent and nothing is taken.
pub proof fn lemma_auth_twice(client: ClientModel, request: MessageModel)
    requires
        client.authed == AuthState::Authenticated,
    ensures
        client.auth_result(request) == Err::<Option<MessageModel>, Error>(
            Error::AlreadyAuthenticated,
        ),
        client.after_auth(request) == client,
        client.response_result() == Err::<Option<MessageModel>, Error>(
            Error::AlreadyAuthenticated,
        ),
        client.after_response() == client,
{
}

/// Only a response that grants a request makes a session authenticated, and
/// only one that answers a request that was sent; nothing makes an
/// authenticated session unauthenticated.
pub proof fn lemma_authentication_steps(
    client: ClientModel,
    request: MessageModel,
    solution: MessageModel,
    event: EventModel,
)
    ensures
        client.after_auth(request).authed == client.authed,
        client.after_task().authed == client.authed,
        client.after_solution(solution).authed == client.authed,
        client.after_event(event).authed == client.authed,
        client.authed == AuthState::Authenticated ==> client.after_response().authed
            == AuthState::Authenticated,
        client.authed == AuthState::Unauthenticated ==> (client.after_response().authed
            == AuthState::Authenticated <==> client.awaiting && client.connection.link
            == Link::Alive && client.connection.incoming matches Some(
            MessageModel::AuthResponse { result: true, .. },
        )),
        client.authed == AuthState::Unauthenticated && client.after_response().authed
            == AuthState::Authenticated ==> client.response_result() == Ok::<
            Option<MessageModel>,
            Error,
        >(client.connection.incoming),
{
}

/// The handshake from end to end: a fresh session sends its request, the
/// loop writes it as the text of that request, the pool's answer arrives as a
/// text that holds a granting response, and the session that takes it is
/// authenticated and hands the response out.
pub proof fn lemma_handshake(request: MessageModel, answer: Seq<char>)
    requires
        request is AuthRequest,
        decode_text(answer) matches Ok(MessageModel::AuthResponse { result: true, .. }),
    ensures
        ({
            let sent = ClientModel::fresh().after_auth(request);
            let written = sent.after_event(EventModel::Outgoing);
            let answered = written.after_event(EventModel::Frame(FrameModel::Text(answer)));
            &&& ClientModel::fresh().auth_result(request) == Ok::<Option<MessageModel>, Error>(None)
            &&& sent.connection.action_for(EventModel::Outgoing) == ActionModel::Transmit(
                FrameModel::Text(encode_text(request)),
            )
            &&& written.connection.action_for(EventModel::Frame(FrameModel::Text(answer)))
                == ActionModel::Idle
            &&& answered.response_result() == Ok::<Option<MessageModel>, Error>(
                Some(decode_text(answer)->Ok_0),
            )
            &&& answered.after_response().authed == AuthState::Authenticated
        }),
{
}

/// A client's session with the pool.
#[derive(Debug)]
pub struct Client {
    authed: AuthState,
    awaiting: bool,
    tasks_closed: bool,
    connection: Connection,
}

impl View for Client {
    type V = ClientModel;

    closed spec fn view(&self) -> ClientModel {
        ClientModel {
            authed: self.authed,
            awaiting: self.awaiting,
            tasks_closed: self.tasks_closed,
            connection: self.connection@,
        }
    }
}

impl Client {
    fn is_authed(&self) -> (r: bool)
        ensures
            r == (self@.authed == AuthState::Authenticated),
    {
        match self.authed {
            AuthState::Authenticated => true,
            AuthState::Unauthenticated => false,
        }
    }

    /// A fresh session on a fresh connection, with the heartbeat on.
    pub fn connect() -> (r: Client)
        ensures
            r@ == ClientModel::fresh(),
            r@.consistent(),
    {
        Client {
            authed: AuthState::Unauthenticated,
            awaiting: false,
            tasks_closed: false,
            connection: Connection::new(true),
        }
    }

    /// Whether the pool has admitted the client.
    pub fn state(&self) -> (r: AuthState)
        ensures
            r == self@.authed,
    {
        self.authed
    }

    /// Whether the connection can still be used.
    pub fn link(&self) -> (r: Link)
        ensures
            r == self@.connection.link,
    {
        self.connection.link()
    }

    /// Starts the handshake: offers the request to the connection. An
    /// authenticated session fails with `AlreadyAuthenticated` and touches
    /// nothing. Where the connection's mailbox is full the request comes
    /// back.
    pub fn auth(&mut self, request: AuthRequest) -> (r: Result<Option<AuthRequest>, Error>)
        ensures
            old(self)@.consistent() ==> final(self)@.consistent(),
            final(self)@ == old(self)@.after_auth(request@),
            carried(r) == old(self)@.auth_result(request@),
    {
        if self.is_authed() {
            return Err(Error::AlreadyAuthenticated);
        }
        match self.connection.send(PoolMessage::AuthRequest(request)) {
            Err(error) => Err(error),
            Ok(None) => {
                self.awaiting = true;
                Ok(None)
            },
            Ok(Some(back)) => match back.auth_request() {
                Ok(request) => Ok(Some(request)),
                Err(error) => Err(error),
            },
        }
    }

    /// Ends the handshake: takes the pool's response, if it has come. The
    /// session becomes authenticated where the response grants the request.
    /// A message of another kind fails with `UnexpectedMessageType` and
    /// leaves the session unauthenticated.
    pub fn next_auth_response(&mut self) -> (r: Result<Option<AuthResponse>, Error>)
        ensures
            old(self)@.consistent() ==> final(self)@.consistent(),
            final(self)@ == old(self)@.after_response(),
            carried(r) == old(self)@.response_result(),
    {
        if self.is_authed() {
            return Err(Error::AlreadyAuthenticated);
        }
        if !self.awaiting {
            return Err(Error::NotAuthenticated);
        }
        match self.connection.next_auth_response() {
            Err(error) => {
                match error {
                    Error::UnexpectedMessageType => {
                        self.awaiting = false;
                    },
                    _ => {},
                }
                Err(error)
            },
            Ok(None) => Ok(None),
            Ok(Some(response)) => {
                self.awaiting = false;
                if response.result {
                    self.authed = AuthState::Authenticated;
                }
                Ok(Some(response))
            },
        }
    }

    /// Takes the next task of the pool, if one has come. Fails with
    /// `NotAuthenticated` before authentication. The first message that is
    /// no task, and the first failure of the connection, end the stream of
    /// tasks: from then on this fails with `ChannelClosed`.
    pub fn next_task(&mut self) -> (r: Result<Option<NewTask>, Error>)
        ensures
            old(self)@.consistent() ==> final(self)@.consistent(),
            final(self)@ == old(self)@.after_task(),
            carried(r) == old(self)@.task_result(),
    {
        if !self.is_authed() {
            return Err(Error::NotAuthenticated);
        }
        if self.tasks_closed {
            return Err(Error::ChannelClosed);
        }
        match self.connection.next_task() {
            Err(error) => {
                self.tasks_closed = true;
                Err(error)
            },
            Ok(task) => Ok(task),
        }
    }

    /// Offers a solution to the connection. Fails with `NotAuthenticated`
    /// before authentication. Where the connection's mailbox is full the
    /// solution comes back. The pool acknowledges nothing.
    pub fn send_solution(&mut self, solution: NewSolution) -> (r: Result<Option<NewSolution>, Error>)
        ensures
            old(self)@.consistent() ==> final(self)@.consistent(),
            final(self)@ == old(self)@.after_solution(solution@),
            carried(r) == old(self)@.solution_result(solution@),
    {
        if !self.is_authed() {
            return Err(Error::NotAuthenticated);
        }
        match self.connection.send(PoolMessage::NewSolution(solution)) {
            Err(error) => Err(error),
            Ok(None) => Ok(None),
            Ok(Some(back)) => match back.new_solution() {
                Ok(solution) => Ok(Some(solution)),
                Err(error) => Err(error),
            },
        }
    }

    /// One step of the connection's loop.
    pub fn handle_inner(&mut self, event: Event) -> (r: Action)
        ensures
            old(self)@.consistent() ==> final(self)@.consistent(),
            final(self)@ == old(self)@.after_event(event@),
            r@ == old(self)@.connection.action_for(event@),
    {
        self.connection.handle_inner(event)
    }
}

} // verus!
