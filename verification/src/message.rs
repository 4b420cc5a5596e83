//! The four messages of the protocol and the values they carry.

use crate::error::Error;
use crate::json::{Json, JsonModel};
use vstd::prelude::*;

verus! {

/// What a message says, over mathematical values.
pub ghost enum MessageModel {
    AuthRequest { username: Seq<char> },
    AuthResponse { result: bool, address: Seq<char>, message: Option<Seq<char>> },
    NewTask { epoch_number: u32, epoch_block_hash: Seq<char>, degree: u32, difficulty: u64 },
    NewSolution { epoch_number: u32, solution: JsonModel },
}

/// A miner asks to be admitted.
#[derive(Debug)]
pub struct AuthRequest {
    /// Miner account or address.
    pub username: String,
}

/// A pool address in its text form. The core carries it and does not look
/// inside.
#[derive(Debug)]
pub struct Address {
    pub text: String,
}

/// The pool's answer to an [`AuthRequest`].
#[derive(Debug)]
pub struct AuthResponse {
    /// Whether the request was granted.
    pub result: bool,
    /// Pool address.
    pub address: Address,
    /// Extra message.
    pub message: Option<String>,
}

/// The descriptor of the current puzzle. The core carries its three parts
/// and computes nothing on them.
#[derive(Debug)]
pub struct EpochChallenge {
    epoch_number: u32,
    epoch_block_hash: String,
    degree: u32,
}

/// The pool's current work assignment.
#[derive(Debug)]
pub struct NewTask {
    pub epoch_challenge: EpochChallenge,
    pub difficulty: u64,
}

/// A miner's solution for an epoch. The proof is a document that the core
/// carries unread.
#[derive(Debug)]
pub struct NewSolution {
    pub epoch_number: u32,
    pub solution: Json,
}

/// A message of the protocol.
#[derive(Debug)]
pub enum PoolMessage {
    AuthRequest(AuthRequest),
    AuthResponse(AuthResponse),
    NewTask(NewTask),
    NewSolution(NewSolution),
}

/// The text that an optional string holds, if any.
pub open spec fn optional_text(text: Option<String>) -> Option<Seq<char>> {
    match text {
        Some(t) => Some(t@),
        None => None,
    }
}

impl Address {
    /// An address with the given text.
    pub fn new(text: String) -> (r: Address)
        ensures
            r.text@ == text@,
    {
        Address { text }
    }
}

impl Clone for Address {
    fn clone(&self) -> (r: Address)
        ensures
            r.text@ == self.text@,
    {
        Address { text: self.text.clone() }
    }
}

impl EpochChallenge {
    /// A descriptor with the given parts.
    pub fn new(epoch_number: u32, epoch_block_hash: String, degree: u32) -> (r: EpochChallenge)
        ensures
            r.spec_epoch_number() == epoch_number,
            r.spec_epoch_block_hash() == epoch_block_hash@,
            r.spec_degree() == degree,
    {
        EpochChallenge { epoch_number, epoch_block_hash, degree }
    }

    pub closed spec fn spec_epoch_number(&self) -> u32 {
        self.epoch_number
    }

    pub closed spec fn spec_epoch_block_hash(&self) -> Seq<char> {
        self.epoch_block_hash@
    }

    pub closed spec fn spec_degree(&self) -> u32 {
        self.degree
    }

    /// The number of the epoch.
    #[verifier::when_used_as_spec(spec_epoch_number)]
    pub fn epoch_number(&self) -> (r: u32)
        ensures
            r == self.spec_epoch_number(),
    {
        self.epoch_number
    }

    /// The hash of the epoch's block, as text.
    pub fn epoch_block_hash(&self) -> (r: &String)
        ensures
            r@ == self.spec_epoch_block_hash(),
    {
        &self.epoch_block_hash
    }

    /// The degree of the puzzle's polynomial.
    #[verifier::when_used_as_spec(spec_degree)]
    pub fn degree(&self) -> (r: u32)
        ensures
            r == self.spec_degree(),
    {
        self.degree
    }
}

impl Clone for EpochChallenge {
    fn clone(&self) -> (r: EpochChallenge)
        ensures
            r.spec_epoch_number() == self.spec_epoch_number(),
            r.spec_epoch_block_hash() == self.spec_epoch_block_hash(),
            r.spec_degree() == self.spec_degree(),
    {
        EpochChallenge {
            epoch_number: self.epoch_number,
            epoch_block_hash: self.epoch_block_hash.clone(),
            degree: self.degree,
        }
    }
}

impl View for AuthRequest {
    type V = MessageModel;

    open spec fn view(&self) -> MessageModel {
        MessageModel::AuthRequest { username: self.username@ }
    }
}

impl Clone for AuthRequest {
    fn clone(&self) -> (r: AuthRequest)
        ensures
            r@ == self@,
    {
        AuthRequest { username: self.username.clone() }
    }
}

impl View for AuthResponse {
    type V = MessageModel;

    open spec fn view(&self) -> MessageModel {
        MessageModel::AuthResponse {
            result: self.result,
            address: self.address.text@,
            message: optional_text(self.message),
        }
    }
}

impl Clone for AuthResponse {
    fn clone(&self) -> (r: AuthResponse)
        ensures
            r@ == self@,
    {
        let message = match &self.message {
            Some(text) => Some(text.clone()),
            None => None,
        };
        AuthResponse { result: self.result, address: self.address.clone(), message }
    }
}

impl View for NewTask {
    type V = MessageModel;

    open spec fn view(&self) -> MessageModel {
        MessageModel::NewTask {
            epoch_number: self.epoch_challenge.spec_epoch_number(),
            epoch_block_hash: self.epoch_challenge.spec_epoch_block_hash(),
            degree: self.epoch_challenge.spec_degree(),
            difficulty: self.difficulty,
        }
    }
}

impl Clone for NewTask {
    fn clone(&self) -> (r: NewTask)
        ensures
            r@ == self@,
    {
        NewTask { epoch_challenge: self.epoch_challenge.clone(), difficulty: self.difficulty }
    }
}

impl View for NewSolution {
    type V = MessageModel;

    open spec fn view(&self) -> MessageModel {
        MessageModel::NewSolution {
            epoch_number: self.epoch_number,
            solution: self.solution.model(),
        }
    }
}

impl Clone for NewSolution {
    fn clone(&self) -> (r: NewSolution)
        ensures
            r@ == self@,
    {
        NewSolution { epoch_number: self.epoch_number, solution: self.solution.duplicate() }
    }
}

impl View for PoolMessage {
    type V = MessageModel;

    open spec fn view(&self) -> MessageModel {
        match *self {
            PoolMessage::AuthRequest(request) => request@,
            PoolMessage::AuthResponse(response) => response@,
            PoolMessage::NewTask(task) => task@,
            PoolMessage::NewSolution(solution) => solution@,
        }
    }
}

impl Clone for PoolMessage {
    fn clone(&self) -> (r: PoolMessage)
        ensures
            r@ == self@,
    {
        match self {
            PoolMessage::AuthRequest(request) => PoolMessage::AuthRequest(request.clone()),
            PoolMessage::AuthResponse(response) => PoolMessage::AuthResponse(response.clone()),
            PoolMessage::NewTask(task) => PoolMessage::NewTask(task.clone()),
            PoolMessage::NewSolution(solution) => PoolMessage::NewSolution(solution.clone()),
        }
    }
}

impl PartialEq for Address {
    fn eq(&self, other: &Address) -> (r: bool) {
        self.text == other.text
    }
}

impl vstd::std_specs::cmp::PartialEqSpecImpl for Address {
    open spec fn obeys_eq_spec() -> bool {
        true
    }

    open spec fn eq_spec(&self, other: &Address) -> bool {
        self.text@ == other.text@
    }
}

impl Eq for Address {

}

impl PartialEq for EpochChallenge {
    fn eq(&self, other: &EpochChallenge) -> (r: bool) {
        self.epoch_number == other.epoch_number && self.epoch_block_hash == other.epoch_block_hash
            && self.degree == other.degree
    }
}

impl vstd::std_specs::cmp::PartialEqSpecImpl for EpochChallenge {
    open spec fn obeys_eq_spec() -> bool {
        true
    }

    open spec fn eq_spec(&self, other: &EpochChallenge) -> bool {
        &&& self.spec_epoch_number() == other.spec_epoch_number()
        &&& self.spec_epoch_block_hash() == other.spec_epoch_block_hash()
        &&& self.spec_degree() == other.spec_degree()
    }
}

impl Eq for EpochChallenge {

}

impl PartialEq for AuthRequest {
    fn eq(&self, other: &AuthRequest) -> (r: bool) {
        self.username == other.username
    }
}

impl vstd::std_specs::cmp::PartialEqSpecImpl for AuthRequest {
    open spec fn obeys_eq_spec() -> bool {
        true
    }

    open spec fn eq_spec(&self, other: &AuthRequest) -> bool {
        self@ == other@
    }
}

impl Eq for AuthRequest {

}

impl PartialEq for AuthResponse {
    fn eq(&self, other: &AuthResponse) -> (r: bool) {
        let same_message = match (&self.message, &other.message) {
            (Some(mine), Some(theirs)) => *mine == *theirs,
            (None, None) => true,
            _ => false,
        };
        self.result == other.result && self.address == other.address && same_message
    }
}

impl vstd::std_specs::cmp::PartialEqSpecImpl for AuthResponse {
    open spec fn obeys_eq_spec() -> bool {
        true
    }

    open spec fn eq_spec(&self, other: &AuthResponse) -> bool {
        self@ == other@
    }
}

impl Eq for AuthResponse {

}

impl PartialEq for NewTask {
    fn eq(&self, other: &NewTask) -> (r: bool) {
        self.epoch_challenge == other.epoch_challenge && self.difficulty == other.difficulty
    }
}

impl vstd::std_specs::cmp::PartialEqSpecImpl for NewTask {
    open spec fn obeys_eq_spec() -> bool {
        true
    }

    open spec fn eq_spec(&self, other: &NewTask) -> bool {
        self@ == other@
    }
}

impl Eq for NewTask {

}

impl PartialEq for NewSolution {
    fn eq(&self, other: &NewSolution) -> (r: bool) {
        self.epoch_number == other.epoch_number && self.solution == other.solution
    }
}

impl vstd::std_specs::cmp::PartialEqSpecImpl for NewSolution {
    open spec fn obeys_eq_spec() -> bool {
        true
    }

    open spec fn eq_spec(&self, other: &NewSolution) -> bool {
        self@ == other@
    }
}

impl Eq for NewSolution {

}

impl PartialEq for PoolMessage {
    fn eq(&self, other: &PoolMessage) -> (r: bool) {
        match (self, other) {
            (PoolMessage::AuthRequest(mine), PoolMessage::AuthRequest(theirs)) => *mine == *theirs,
            (PoolMessage::AuthResponse(mine), PoolMessage::AuthResponse(theirs)) => *mine == *theirs,
            (PoolMessage::NewTask(mine), PoolMessage::NewTask(theirs)) => *mine == *theirs,
            (PoolMessage::NewSolution(mine), PoolMessage::NewSolution(theirs)) => *mine == *theirs,
            _ => false,
        }
    }
}

impl vstd::std_specs::cmp::PartialEqSpecImpl for PoolMessage {
    open spec fn obeys_eq_spec() -> bool {
        true
    }

    open spec fn eq_spec(&self, other: &PoolMessage) -> bool {
        self@ == other@
    }
}

impl Eq for PoolMessage {

}

impl PoolMessage {
    /// The request that this message carries. A message of another kind is
    /// the error `UnexpectedMessageType`.
    pub fn auth_request(self) -> (r: Result<AuthRequest, Error>)
        ensures
            r == (match self {
                PoolMessage::AuthRequest(request) => Ok::<AuthRequest, Error>(request),
                _ => Err(Error::UnexpectedMessageType),
            }),
    {
        match self {
            Self::AuthRequest(request) => Ok(request),
            _ => Err(Error::UnexpectedMessageType),
        }
    }

    /// The response that this message carries. A message of another kind is
    /// the error `UnexpectedMessageType`.
    pub fn auth_response(self) -> (r: Result<AuthResponse, Error>)
        ensures
            r == (match self {
                PoolMessage::AuthResponse(response) => Ok::<AuthResponse, Error>(response),
                _ => Err(Error::UnexpectedMessageType),
            }),
    {
        match self {
            Self::AuthResponse(response) => Ok(response),
            _ => Err(Error::UnexpectedMessageType),
        }
    }

    /// The task that this message carries. A message of another kind is
    /// the error `UnexpectedMessageType`.
    pub fn new_task(self) -> (r: Result<NewTask, Error>)
        ensures
            r == (match self {
                PoolMessage::NewTask(task) => Ok::<NewTask, Error>(task),
                _ => Err(Error::UnexpectedMessageType),
            }),
    {
        match self {
            Self::NewTask(task) => Ok(task),
            _ => Err(Error::UnexpectedMessageType),
        }
    }

    /// The solution that this message carries. A message of another kind is
    /// the error `UnexpectedMessageType`.
    pub fn new_solution(self) -> (r: Result<NewSolution, Error>)
        ensures
            r == (match self {
                PoolMessage::NewSolution(solution) => Ok::<NewSolution, Error>(solution),
                _ => Err(Error::UnexpectedMessageType),
            }),
    {
        match self {
            Self::NewSolution(solution) => Ok(solution),
            _ => Err(Error::UnexpectedMessageType),
        }
    }
}

} // verus!
