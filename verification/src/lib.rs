//! Networking core of a mining-pool protocol: the wire messages and their
//! codec, the per-peer connection, the client session and the task hub, each
//! as a verified state machine over plain values.

pub mod client;
pub mod codec;
pub mod connection;
pub mod error;
pub mod json;
pub mod message;
pub mod pubsub;

pub use error::{DecodeError, Error};
pub use message::{Address, AuthRequest, AuthResponse, EpochChallenge, NewSolution, NewTask, PoolMessage};
