//! The room instance: the single owner of one room's state.
//!
//! An instance starts cold, loads the persisted record once, and from then on
//! serves requests from memory. It never touches storage itself: `fetch`
//! says what is to be read or written, and the caller reports the outcome to
//! `hydrate` or `acknowledge`.

use crate::error::{ActorError, Failure};
use crate::relay::{delivery, live_after, live_after_send, Frame, Relay, RelayAction};
use crate::response::{Answer, Response, STATUS_OK, STATUS_SWITCHING_PROTOCOLS};
use vstd::prelude::*;
use vstd::string::StringExecFns;

verus! {

/// How far an instance has come in its life.
#[derive(Debug, Clone, Copy, PartialEq, Eq, Structural)]
pub enum Lifecycle {
    /// No request has been seen yet.
    Cold,
    /// The persisted record is being read.
    Hydrating,
    /// The record has been read, or the read has failed; nothing is read again.
    Ready,
}

/// The operations a room has.
#[derive(Debug, Clone, Copy, PartialEq, Eq, Structural)]
pub enum Operation {
    /// Append the next number to the sequence.
    Append,
    /// Hand the connection over to the relay.
    Connect,
    /// Anything else.
    Unknown,
}

/// The operation that a request path selects.
pub open spec fn selected(path: Seq<char>) -> Operation {
    if path == "/add"@ {
        Operation::Append
    } else if path == "/websocket"@ {
        Operation::Connect
    } else {
        Operation::Unknown
    }
}

/// Tells which operation `path` selects.
pub fn classify(path: &str) -> (operation: Operation)
    ensures
        operation == selected(path@),
{
    let path = String::from_str(path);
    if path == String::from_str("/add") {
        Operation::Append
    } else if path == String::from_str("/websocket") {
        Operation::Connect
    } else {
        Operation::Unknown
    }
}

/// The number that an append adds to `sequence`: one more than its last
/// number, or 1 where there is none.
pub open spec fn next_value(sequence: Seq<i32>) -> int {
    if sequence.len() == 0 {
        1
    } else {
        sequence.last() + 1
    }
}

/// Whether the next number still fits the sequence's integer type.
pub open spec fn can_grow(sequence: Seq<i32>) -> bool {
    next_value(sequence) <= i32::MAX
}

/// `sequence` after one append.
pub open spec fn appended(sequence: Seq<i32>) -> Seq<i32> {
    sequence.push(next_value(sequence) as i32)
}

/// The text that the debug format of std prints for a list of integers.
pub uninterp spec fn listing(users: Seq<i32>) -> Seq<char>;

/// The body of the answer to a successful append.
pub open spec fn greeting(users: Seq<i32>) -> Seq<char> {
    "Hello: "@ + listing(users)
}

/// Formats `users` with `{:?}`, as `format!` of std does.
#[verifier::external_body]
fn list(users: &Vec<i32>) -> (text: String)
    ensures
        text@ == listing(users@),
{
    format!("{:?}", users)
}

/// Makes the body of the answer to a successful append from the listing of
/// the sequence.
pub fn greet(listing: &str) -> (text: String)
    ensures
        text@ == "Hello: "@ + listing@,
{
    String::from_str("Hello: ").concat(listing)
}

/// What the caller is to do for the request it handed to `fetch`.
#[derive(Debug, Clone, PartialEq, Eq)]
pub enum Action {
    /// Read the persisted record, report it to `hydrate`, and fetch again.
    Load,
    /// Write `record` as the persisted record, then hand the outcome and
    /// `reply` to `acknowledge`, which gives the answer.
    Persist { record: Vec<i32>, reply: String },
    /// Accept the connection, register it, and answer with `response`.
    Upgrade { response: Response },
    /// Fail the request with `error`.
    Reject { error: ActorError },
}

/// The mathematical counterpart of [`Action`].
#[verifier::ext_equal]
pub enum Effect {
    Load,
    Persist { record: Seq<i32>, reply: Seq<char> },
    Upgrade { response: Answer },
    Reject { error: Failure },
}

impl View for Action {
    type V = Effect;

    open spec fn view(&self) -> Effect {
        match self {
            Action::Load => Effect::Load,
            Action::Persist { record, reply } => Effect::Persist { record: record@, reply: reply@ },
            Action::Upgrade { response } => Effect::Upgrade { response: response@ },
            Action::Reject { error } => Effect::Reject { error: error@ },
        }
    }
}

/// The state of an instance, as contracts see it.
#[verifier::ext_equal]
pub struct ActorState {
    pub phase: Lifecycle,
    pub sequence: Seq<i32>,
    pub live: Set<u64>,
}

/// The state of an instance that has seen no request.
pub open spec fn cold() -> ActorState {
    ActorState { phase: Lifecycle::Cold, sequence: Seq::empty(), live: Set::empty() }
}

/// The sequence that a storage read leaves in memory: the record where one
/// was found, and nothing where there was none or the read failed.
pub open spec fn loaded(read: Result<Option<Vec<i32>>, ActorError>) -> Seq<i32> {
    match read {
        Ok(Some(record)) => record@,
        _ => Seq::empty(),
    }
}

/// The state after a storage read that left `record`. An instance that is
/// ready keeps what it has.
pub open spec fn hydrated(state: ActorState, record: Seq<i32>) -> ActorState {
    if state.phase is Ready {
        state
    } else {
        ActorState { phase: Lifecycle::Ready, sequence: record, ..state }
    }
}

/// Whether a request for `path` asks for an append that the sequence has no
/// room for: its last number is the largest of its type.
pub open spec fn exhausted(state: ActorState, path: Seq<char>) -> bool {
    state.phase is Ready && selected(path) is Append && !can_grow(state.sequence)
}

/// The state after a request for `path` was fetched.
pub open spec fn state_after(state: ActorState, path: Seq<char>) -> ActorState {
    if !(state.phase is Ready) {
        ActorState { phase: Lifecycle::Hydrating, ..state }
    } else if selected(path) is Append && can_grow(state.sequence) {
        ActorState { sequence: appended(state.sequence), ..state }
    } else {
        state
    }
}

/// What the caller is told to do for a request for `path` that can be
/// served.
pub open spec fn effect(state: ActorState, path: Seq<char>) -> Effect {
    if !(state.phase is Ready) {
        Effect::Load
    } else {
        match selected(path) {
            Operation::Append => Effect::Persist {
                record: appended(state.sequence),
                reply: greeting(appended(state.sequence)),
            },
            Operation::Connect => Effect::Upgrade {
                response: Answer {
                    status: STATUS_SWITCHING_PROTOCOLS as int,
                    body: Seq::empty(),
                },
            },
            Operation::Unknown => Effect::Reject { error: Failure::UnsupportedOperation(path) },
        }
    }
}

/// The answer to an append once the write has been acknowledged or has
/// failed.
pub open spec fn answer(stored: bool, reply: Seq<char>) -> Result<Answer, Failure> {
    if stored {
        Ok(Answer { status: STATUS_OK as int, body: reply })
    } else {
        Err(Failure::StorageUnavailable)
    }
}

/// The mathematical counterpart of a request's outcome.
pub open spec fn outcome_view(outcome: Result<Response, ActorError>) -> Result<Answer, Failure> {
    match outcome {
        Ok(response) => Ok(response@),
        Err(error) => Err(error@),
    }
}

/// One room instance.
pub struct Chatroom {
    users: Vec<i32>,
    phase: Lifecycle,
    relay: Relay,
}

impl View for Chatroom {
    type V = ActorState;

    closed spec fn view(&self) -> ActorState {
        ActorState { phase: self.phase, sequence: self.users@, live: self.relay@ }
    }
}

impl Chatroom {
    /// A cold instance: empty, and with no connection.
    pub fn new() -> (room: Chatroom)
        ensures
            room@ == cold(),
    {
        Chatroom { users: Vec::new(), phase: Lifecycle::Cold, relay: Relay::new() }
    }

    /// The key under which the sequence is persisted.
    pub fn record_key() -> (key: String)
        ensures
            key@ == "users"@,
    {
        String::from_str("users")
    }

    /// How far this instance has come.
    pub fn phase(&self) -> (phase: Lifecycle)
        ensures
            phase == self@.phase,
    {
        self.phase
    }

    /// The sequence as it stands in memory.
    pub fn users(&self) -> (users: &Vec<i32>)
        ensures
            users@ == self@.sequence,
    {
        &self.users
    }

    /// Whether `conn` is a live connection of this room.
    pub fn is_live(&self, conn: u64) -> (live: bool)
        ensures
            live == self@.live.contains(conn),
    {
        self.relay.is_live(conn)
    }

    /// Appends the next number and returns the whole sequence, which is the
    /// record to persist.
    pub fn append(&mut self) -> (record: Vec<i32>)
        requires
            can_grow(old(self)@.sequence),
        ensures
            record@ == appended(old(self)@.sequence),
            final(self)@ == (ActorState { sequence: record@, ..old(self)@ }),
    {
        let next: i32 = if self.users.len() == 0 {
            1
        } else {
            self.users[self.users.len() - 1] + 1
        };
        self.users.push(next);
        self.users.clone()
    }

    /// Whether the sequence has room for one more number.
    pub fn can_append(&self) -> (room: bool)
        ensures
            room == can_grow(self@.sequence),
    {
        self.users.len() == 0 || self.users[self.users.len() - 1] < i32::MAX
    }

    /// Decides what a request for `path` leads to.
    ///
    /// An instance that is not ready asks for the persisted record first. A
    /// ready one appends and asks for the write, hands the connection over,
    /// or rejects the path. Where an append is asked for and the sequence
    /// has no room for it, nothing is decided and nothing changes.
    pub fn fetch(&mut self, path: &str) -> (action: Option<Action>)
        ensures
            final(self)@ == state_after(old(self)@, path@),
            action is None <==> exhausted(old(self)@, path@),
            action matches Some(decided) ==> decided@ == effect(old(self)@, path@),
    {
        match self.phase {
            Lifecycle::Ready => {},
            _ => {
                self.phase = Lifecycle::Hydrating;
                return Some(Action::Load);
            },
        }
        match classify(path) {
            Operation::Append => {
                if !self.can_append() {
                    return None;
                }
                let record = self.append();
                let reply = greet(list(&record).as_str());
                Some(Action::Persist { record, reply })
            },
            Operation::Connect => Some(
                Action::Upgrade { response: Response::switching_protocols() },
            ),
            Operation::Unknown => Some(
                Action::Reject { error: ActorError::UnsupportedOperation(String::from_str(path)) },
            ),
        }
    }

    /// Takes in the outcome of the storage read. The first outcome makes the
    /// instance ready, whatever it is; a later one is passed over.
    pub fn hydrate(&mut self, read: Result<Option<Vec<i32>>, ActorError>)
        ensures
            final(self)@ == hydrated(old(self)@, loaded(read)),
    {
        match self.phase {
            Lifecycle::Ready => {},
            _ => {
                self.users = match read {
                    Ok(Some(record)) => record,
                    _ => Vec::new(),
                };
                self.phase = Lifecycle::Ready;
            },
        }
    }

    /// Registers `conn` as a live connection of this room.
    pub fn accept(&mut self, conn: u64)
        ensures
            final(self)@ == (ActorState { live: old(self)@.live.insert(conn), ..old(self)@ }),
    {
        self.relay.accept(conn);
    }

    /// Decides what a frame received on connection `from` leads to. The
    /// sequence and the phase stay as they are.
    pub fn receive(&mut self, from: u64, frame: Frame) -> (action: RelayAction)
        ensures
            final(self)@ == (ActorState {
                live: live_after(old(self)@.live, from, frame@),
                ..old(self)@
            }),
            action@ == delivery(old(self)@.live, from, frame@),
    {
        self.relay.receive(from, frame)
    }

    /// Takes note of how a send on `conn` ended. A failed send takes `conn`
    /// out of the live connections and touches nothing else.
    pub fn delivered(&mut self, conn: u64, sent: Result<(), ActorError>) -> (outcome: Result<
        (),
        ActorError,
    >)
        ensures
            final(self)@ == (ActorState {
                live: live_after_send(old(self)@.live, conn, sent is Ok),
                ..old(self)@
            }),
            outcome is Ok <==> sent is Ok,
            outcome matches Err(error) ==> error@ == Failure::ConnectionLost,
    {
        self.relay.delivered(conn, sent)
    }

    /// Takes `conn` out of the live connections after its stream failed or
    /// ended, and names the failure.
    pub fn lost(&mut self, conn: u64) -> (error: ActorError)
        ensures
            final(self)@ == (ActorState { live: old(self)@.live.remove(conn), ..old(self)@ }),
            error@ == Failure::ConnectionLost,
    {
        self.relay.lost(conn)
    }

    /// Gives the answer to an append: `reply` once the write is acknowledged,
    /// and a failure where it was not.
    pub fn acknowledge(ack: Result<(), ActorError>, reply: String) -> (outcome: Result<
        Response,
        ActorError,
    >)
        ensures
            outcome_view(outcome) == answer(ack is Ok, reply@),
    {
        match ack {
            Ok(()) => Ok(Response::ok(reply)),
            Err(_) => Err(ActorError::StorageUnavailable),
        }
    }
}

/// Ready is final: a ready instance never asks for the record again, stays
/// ready through every request, and passes over any read it is handed. An
/// instance that is not ready becomes ready by the first read it is handed,
/// and starts from nothing where that read found no record or failed.
pub proof fn lemma_ready_is_final(
    state: ActorState,
    path: Seq<char>,
    read: Result<Option<Vec<i32>>, ActorError>,
)
    ensures
        hydrated(state, loaded(read)).phase is Ready,
        !(read matches Ok(Some(_))) ==> loaded(read) == Seq::<i32>::empty(),
        state.phase is Ready ==> {
            &&& hydrated(state, loaded(read)) == state
            &&& !(effect(state, path) is Load)
            &&& state_after(state, path).phase is Ready
        },
        !(state.phase is Ready) ==> {
            &&& effect(state, path) is Load
            &&& state_after(state, path).phase is Hydrating
            &&& state_after(state, path).sequence == state.sequence
            &&& hydrated(state, loaded(read)).sequence == loaded(read)
        },
{
}

} // verus!
