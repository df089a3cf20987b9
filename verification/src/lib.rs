//! A single-writer chat room actor: the state machine of one room instance,
//! the relay of its live connections, and the gateway that routes callers to
//! the room.
//!
//! Storage, placement and the transport are collaborators outside this
//! library. Every function here decides what is to be done next and leaves
//! the doing to the caller, who hands the outcome back as a plain value.

pub mod durable;
pub mod error;
pub mod gateway;
pub mod history;
pub mod relay;
pub mod response;
