//! The connection relay: which connections are live, and what is sent where
//! when a frame arrives.
//!
//! A connection is known here by the number its owner gave it; the transport
//! behind it stays with the caller. The relay policy is echo: a text frame
//! goes back to the connection it came from, and to no other.

use crate::error::{ActorError, Failure};
use std::collections::HashSet;
use vstd::prelude::*;

verus! {

broadcast use vstd::std_specs::hash::group_hash_axioms;

/// One inbound event on a connection.
#[derive(Debug, Clone, PartialEq, Eq)]
pub enum Frame {
    /// A text message.
    Text(String),
    /// A binary message or a control frame.
    Other,
    /// The peer closed the connection.
    Close,
}

/// The mathematical counterpart of [`Frame`].
pub enum Message {
    Text(Seq<char>),
    Other,
    Close,
}

impl View for Frame {
    type V = Message;

    open spec fn view(&self) -> Message {
        match self {
            Frame::Text(text) => Message::Text(text@),
            Frame::Other => Message::Other,
            Frame::Close => Message::Close,
        }
    }
}

/// What the caller is to do after a frame was received.
#[derive(Debug, Clone, PartialEq, Eq)]
pub enum RelayAction {
    /// Send `text` on connection `to`, then report the outcome.
    Send { to: u64, text: String },
    /// Nothing is to be sent.
    Idle,
}

/// The mathematical counterpart of [`RelayAction`].
pub enum Delivery {
    Send { to: u64, text: Seq<char> },
    Idle,
}

impl View for RelayAction {
    type V = Delivery;

    open spec fn view(&self) -> Delivery {
        match self {
            RelayAction::Send { to, text } => Delivery::Send { to: *to, text: text@ },
            RelayAction::Idle => Delivery::Idle,
        }
    }
}

/// The live connections after `message` arrived on `from`. Only a close
/// changes them, and it removes `from` alone.
pub open spec fn live_after(live: Set<u64>, from: u64, message: Message) -> Set<u64> {
    match message {
        Message::Close => live.remove(from),
        _ => live,
    }
}

/// What is sent when `message` arrives on `from`: a text goes back to `from`
/// if `from` is live; anything else is passed over.
pub open spec fn delivery(live: Set<u64>, from: u64, message: Message) -> Delivery {
    match message {
        Message::Text(text) if live.contains(from) => Delivery::Send { to: from, text },
        _ => Delivery::Idle,
    }
}

/// The live connections once a send on `conn` has succeeded or failed.
pub open spec fn live_after_send(live: Set<u64>, conn: u64, sent: bool) -> Set<u64> {
    if sent {
        live
    } else {
        live.remove(conn)
    }
}

/// The live connections after all of `messages` arrived on `from`, first to
/// last.
pub open spec fn live_after_all(live: Set<u64>, from: u64, messages: Seq<Message>) -> Set<u64>
    decreases messages.len(),
{
    if messages.len() == 0 {
        live
    } else {
        live_after(live_after_all(live, from, messages.drop_last()), from, messages.last())
    }
}

/// What is decided for each of `messages` as they arrive on `from`, first to
/// last.
pub open spec fn deliveries(live: Set<u64>, from: u64, messages: Seq<Message>) -> Seq<Delivery>
    decreases messages.len(),
{
    if messages.len() == 0 {
        Seq::empty()
    } else {
        deliveries(live, from, messages.drop_last()).push(
            delivery(
                live_after_all(live, from, messages.drop_last()),
                from,
                messages.last(),
            ),
        )
    }
}

/// The membership of live connections of one room.
pub struct Relay {
    live: HashSet<u64>,
}

impl View for Relay {
    type V = Set<u64>;

    closed spec fn view(&self) -> Set<u64> {
        self.live@
    }
}

impl Relay {
    /// A relay with no connection.
    pub fn new() -> (relay: Relay)
        ensures
            relay@ == Set::<u64>::empty(),
    {
        Relay { live: HashSet::new() }
    }

    /// Whether `conn` is live.
    pub fn is_live(&self, conn: u64) -> (live: bool)
        ensures
            live == self@.contains(conn),
    {
        self.live.contains(&conn)
    }

    /// Registers `conn` as live.
    pub fn accept(&mut self, conn: u64)
        ensures
            final(self)@ == old(self)@.insert(conn),
    {
        self.live.insert(conn);
    }

    /// Takes `conn` out of the live connections and names the failure that
    /// ends its relay.
    pub fn lost(&mut self, conn: u64) -> (error: ActorError)
        ensures
            final(self)@ == old(self)@.remove(conn),
            error@ == Failure::ConnectionLost,
    {
        self.live.remove(&conn);
        ActorError::ConnectionLost
    }

    /// Decides what a frame received on `from` leads to.
    pub fn receive(&mut self, from: u64, frame: Frame) -> (action: RelayAction)
        ensures
            final(self)@ == live_after(old(self)@, from, frame@),
            action@ == delivery(old(self)@, from, frame@),
    {
        match frame {
            Frame::Text(text) => {
                if self.live.contains(&from) {
                    RelayAction::Send { to: from, text }
                } else {
                    RelayAction::Idle
                }
            },
            Frame::Other => RelayAction::Idle,
            Frame::Close => {
                self.live.remove(&from);
                RelayAction::Idle
            },
        }
    }

    /// Takes note of how a send on `conn` ended. A failed send ends that
    /// connection's relay and no other.
    pub fn delivered(&mut self, conn: u64, sent: Result<(), ActorError>) -> (outcome: Result<
        (),
        ActorError,
    >)
        ensures
            final(self)@ == live_after_send(old(self)@, conn, sent is Ok),
            outcome is Ok <==> sent is Ok,
            outcome matches Err(error) ==> error@ == Failure::ConnectionLost,
    {
        match sent {
            Ok(()) => Ok(()),
            Err(_) => Err(self.lost(conn)),
        }
    }
}

/// Connections are isolated: when one connection closes or a send on it
/// fails, every other connection is live exactly if it was before, and what
/// is relayed for a frame on it is what would have been relayed before.
pub proof fn lemma_other_connections_unaffected(
    live: Set<u64>,
    gone: u64,
    other: u64,
    message: Message,
)
    requires
        gone != other,
    ensures
        live_after(live, gone, Message::Close).contains(other) == live.contains(other),
        live_after_send(live, gone, false).contains(other) == live.contains(other),
        delivery(live_after(live, gone, Message::Close), other, message) == delivery(
            live,
            other,
            message,
        ),
        delivery(live_after_send(live, gone, false), other, message) == delivery(
            live,
            other,
            message,
        ),
{
}

/// The relay echoes: a text received on a live connection is sent back to
/// that connection unchanged and to no other, and nothing else is ever sent.
pub proof fn lemma_relay_echoes(live: Set<u64>, from: u64, message: Message)
    ensures
        delivery(live, from, message) matches Delivery::Send { to, text } ==> to == from
            && live.contains(from) && message == Message::Text(text),
        live.contains(from) && message is Text ==> delivery(live, from, message) == (
        Delivery::Send { to: from, text: message->Text_0 }),
        !(message is Close) ==> live_after(live, from, message) == live,
{
}

/// Frames of one connection are relayed in the order received: as long as
/// the connection is live and does not close, the decision for the i-th
/// frame is made from that frame alone, so the i-th text comes back as the
/// i-th send, and the connection stays live.
pub proof fn lemma_relayed_in_receipt_order(live: Set<u64>, from: u64, messages: Seq<Message>)
    requires
        live.contains(from),
        forall|i: int| 0 <= i < messages.len() ==> !(#[trigger] messages[i] is Close),
    ensures
        live_after_all(live, from, messages) == live,
        deliveries(live, from, messages).len() == messages.len(),
        forall|i: int|
            0 <= i < messages.len() ==> #[trigger] deliveries(live, from, messages)[i] == delivery(
                live,
                from,
                messages[i],
            ),
    decreases messages.len(),
{
    if messages.len() > 0 {
        let before = messages.drop_last();
        assert forall|i: int| 0 <= i < before.len() implies !(#[trigger] before[i] is Close) by {
            assert(before[i] == messages[i]);
        }
        lemma_relayed_in_receipt_order(live, from, before);
        assert(!(messages[messages.len() - 1] is Close));
        assert forall|i: int| 0 <= i < messages.len() implies #[trigger] deliveries(
            live,
            from,
            messages,
        )[i] == delivery(live, from, messages[i]) by {
            if i < before.len() {
                assert(deliveries(live, from, before)[i] == delivery(live, from, before[i]));
            }
        }
    }
}

} // verus!
