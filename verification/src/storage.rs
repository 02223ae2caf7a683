//! The records that the agent keeps: its configuration, the peers it knows,
//! and the messages of each conversation.

use vstd::prelude::*;

verus! {

/// Where the relay is and how often it is asked.
#[derive(Debug, Clone, PartialEq, Eq)]
pub struct Config {
    pub server_url: String,
    pub polling_interval_secs: u64,
}

/// A contact: its name, its two public keys as hex, and the queue shared with it.
#[derive(Debug, Clone, PartialEq, Eq)]
pub struct Peer {
    pub name: String,
    pub encrypt_pk: String,
    pub sign_pk: String,
    pub queue_id: String,
}

/// A message of a conversation as it is kept locally.
#[derive(Debug, Clone, PartialEq, Eq)]
pub struct Message {
    pub id: String,
    pub queue_id: String,
    pub sender: String,
    pub content: String,
    pub timestamp: i64,
    pub msg_type: String,
    pub status: String,
    pub is_outbound: bool,
}

/// A configuration as plain values.
pub struct ConfigView {
    pub server_url: Seq<char>,
    pub polling_interval_secs: u64,
}

/// A peer as plain values.
pub struct PeerView {
    pub name: Seq<char>,
    pub encrypt_pk: Seq<char>,
    pub sign_pk: Seq<char>,
    pub queue_id: Seq<char>,
}

/// A message as plain values.
pub struct MessageView {
    pub id: Seq<char>,
    pub queue_id: Seq<char>,
    pub sender: Seq<char>,
    pub content: Seq<char>,
    pub timestamp: i64,
    pub msg_type: Seq<char>,
    pub status: Seq<char>,
    pub is_outbound: bool,
}

impl View for Config {
    type V = ConfigView;

    open spec fn view(&self) -> ConfigView {
        ConfigView {
            server_url: self.server_url@,
            polling_interval_secs: self.polling_interval_secs,
        }
    }
}

impl DeepView for Config {
    type V = ConfigView;

    open spec fn deep_view(&self) -> ConfigView {
        self@
    }
}

impl View for Peer {
    type V = PeerView;

    open spec fn view(&self) -> PeerView {
        PeerView {
            name: self.name@,
            encrypt_pk: self.encrypt_pk@,
            sign_pk: self.sign_pk@,
            queue_id: self.queue_id@,
        }
    }
}

impl DeepView for Peer {
    type V = PeerView;

    open spec fn deep_view(&self) -> PeerView {
        self@
    }
}

impl View for Message {
    type V = MessageView;

    open spec fn view(&self) -> MessageView {
        MessageView {
            id: self.id@,
            queue_id: self.queue_id@,
            sender: self.sender@,
            content: self.content@,
            timestamp: self.timestamp,
            msg_type: self.msg_type@,
            status: self.status@,
            is_outbound: self.is_outbound,
        }
    }
}

impl DeepView for Message {
    type V = MessageView;

    open spec fn deep_view(&self) -> MessageView {
        self@
    }
}

/// Status of an outbound message that waits for the relay.
pub open spec fn status_sending() -> Seq<char> {
    "sending"@
}

/// Status of an outbound message that the relay took.
pub open spec fn status_sent() -> Seq<char> {
    "sent"@
}

/// Status of an inbound message.
pub open spec fn status_delivered() -> Seq<char> {
    "delivered"@
}

/// Status of an outbound message that the relay did not take.
pub open spec fn status_failed() -> Seq<char> {
    "failed"@
}

impl Peer {
    /// A copy with the same fields.
    pub fn duplicate(&self) -> (r: Peer)
        ensures
            r@ == self@,
    {
        Peer {
            name: self.name.clone(),
            encrypt_pk: self.encrypt_pk.clone(),
            sign_pk: self.sign_pk.clone(),
            queue_id: self.queue_id.clone(),
        }
    }
}

impl Message {
    /// A copy with the same fields.
    pub fn duplicate(&self) -> (r: Message)
        ensures
            r@ == self@,
    {
        Message {
            id: self.id.clone(),
            queue_id: self.queue_id.clone(),
            sender: self.sender.clone(),
            content: self.content.clone(),
            timestamp: self.timestamp,
            msg_type: self.msg_type.clone(),
            status: self.status.clone(),
            is_outbound: self.is_outbound,
        }
    }
}

/// The message store as the delivery loop relies on it: at most one record
/// under each id.
pub open spec fn store_upsert(
    store: Map<Seq<char>, MessageView>,
    message: MessageView,
) -> Map<Seq<char>, MessageView> {
    store.insert(message.id, message)
}

/// Storing a record a second time changes nothing: the store holds one
/// record under the id, the same as after the first time.
pub proof fn lemma_upsert_idempotent(store: Map<Seq<char>, MessageView>, message: MessageView)
    ensures
        store_upsert(store_upsert(store, message), message) == store_upsert(store, message),
        store_upsert(store, message).dom() == store.dom().insert(message.id),
        store_upsert(store, message)[message.id] == message,
{
    assert(store_upsert(store_upsert(store, message), message) =~= store_upsert(store, message));
}

} // verus!
