//! The gateway: from a caller's path to the room that serves it.
//!
//! The gateway owns no room state. It names the room, says what is to be
//! forwarded to it, and passes the room's answer back as it came.

use crate::error::ActorError;
use vstd::prelude::*;
use vstd::string::StringExecFns;

verus! {

/// The identity of a room: the namespace it lives in and the name it was
/// derived from.
#[derive(Debug, Clone, PartialEq, Eq)]
pub struct ActorIdentity {
    pub namespace: String,
    pub name: String,
}

/// The mathematical counterpart of [`ActorIdentity`].
pub struct Identity {
    pub namespace: Seq<char>,
    pub name: Seq<char>,
}

impl View for ActorIdentity {
    type V = Identity;

    open spec fn view(&self) -> Identity {
        Identity { namespace: self.namespace@, name: self.name@ }
    }
}

/// The identity that `name` resolves to in `namespace`.
pub open spec fn identity_of(namespace: Seq<char>, name: Seq<char>) -> Identity {
    Identity { namespace, name }
}

/// The address under which a request for `path` is forwarded to the room.
pub open spec fn forward_url(path: Seq<char>) -> Seq<char> {
    "http://example.com/"@ + path
}

/// What the gateway asks of the placement collaborator for one request.
#[derive(Debug, Clone, PartialEq, Eq)]
pub struct Forward {
    /// The room to obtain a handle to.
    pub identity: ActorIdentity,
    /// The address to forward to that handle.
    pub url: String,
}

/// The configuration that every request of the gateway shares.
#[derive(Debug, Clone, PartialEq, Eq)]
pub struct AppState {
    namespace: String,
    room: String,
}

impl AppState {
    /// The namespace the rooms live in.
    pub closed spec fn namespace(&self) -> Seq<char> {
        self.namespace@
    }

    /// The name of the room that all requests go to.
    pub closed spec fn room(&self) -> Seq<char> {
        self.room@
    }

    /// The configuration of the one room this gateway serves.
    pub fn new() -> (state: AppState)
        ensures
            state.namespace() == "CHATROOM"@,
            state.room() == "chat_room_1"@,
    {
        AppState {
            namespace: String::from_str("CHATROOM"),
            room: String::from_str("chat_room_1"),
        }
    }

    /// The identity that `name` resolves to. It depends on the namespace and
    /// the name, and on nothing else.
    pub fn resolve(&self, name: &str) -> (identity: ActorIdentity)
        ensures
            identity@ == identity_of(self.namespace(), name@),
    {
        ActorIdentity { namespace: self.namespace.clone(), name: String::from_str(name) }
    }
}

/// Says where a request for `path` goes: to the configured room, with the
/// path forwarded as it came.
pub fn get_durable(state: &AppState, path: &str) -> (forward: Forward)
    ensures
        forward.identity@ == identity_of(state.namespace(), state.room()),
        forward.url@ == forward_url(path@),
{
    let identity = state.resolve(state.room.as_str());
    let url = String::from_str("http://example.com/").concat(path);
    Forward { identity, url }
}

/// What the caller receives once the placement collaborator has answered:
/// the room's answer as it came, or the failure to reach the room.
pub open spec fn passed_through<R, E>(forwarded: Result<R, E>) -> Result<R, ActorError> {
    match forwarded {
        Ok(answer) => Ok(answer),
        Err(_) => Err(ActorError::ActorUnreachable),
    }
}

/// Passes the room's answer back unchanged. Where no handle to the room was
/// obtained, or forwarding failed, the request fails as unreachable.
pub fn pass_through<R, E>(forwarded: Result<R, E>) -> (outcome: Result<R, ActorError>)
    ensures
        outcome == passed_through(forwarded),
{
    match forwarded {
        Ok(answer) => Ok(answer),
        Err(_) => Err(ActorError::ActorUnreachable),
    }
}

/// Identities are determined by names: within a namespace, two names
/// resolve to the same identity exactly if they are the same name.
pub proof fn lemma_identity_is_determined_by_name(
    namespace: Seq<char>,
    first: Seq<char>,
    second: Seq<char>,
)
    ensures
        identity_of(namespace, first) == identity_of(namespace, second) <==> first == second,
{
}

} // verus!
