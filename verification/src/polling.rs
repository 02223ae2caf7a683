//! The delivery loop's decisions: how a fetched blob becomes a message, what
//! happens to the blob afterwards, and how the poll cadence follows activity
//! and the presence of a session.

use vstd::prelude::*;
use crate::crypto::Keypair;
use crate::encoding::{base64_bytes, base64_decode};
use crate::envelope::{open_envelope, open_spec, OpenError};
use crate::ipc::IpcSignal;
use crate::json::{
    json_integer_member, json_integer_of, json_parse, json_parsed, json_string_member,
    json_string_of, text_view,
};
use crate::mailbox::ServerMessage;
use crate::storage::{
    lemma_upsert_idempotent, status_delivered, store_upsert, Message, MessageView,
};
use crate::text::{decimal_digits, decimal_text};
use vstd::string::StringExecFns;

verus! {

/// Timestamps above this count milliseconds and are cut down to seconds.
pub const MAX_SECONDS_TIMESTAMP: i64 = 9_999_999_999;

/// Seconds between polls while no session is attached.
pub const SLOW_INTERVAL_SECS: u64 = 60;

/// Shortest interval between polls while a session is attached.
pub const FAST_MIN_SECS: u64 = 5;

/// Longest interval between polls while a session is attached.
pub const FAST_MAX_SECS: u64 = 60;

/// Self-tuning poll period: it shrinks to `min_secs` on activity and doubles,
/// capped at `max_secs`, on silence.
#[derive(Debug, Clone)]
pub struct AdaptiveInterval {
    current_secs: u64,
    min_secs: u64,
    max_secs: u64,
}

impl AdaptiveInterval {
    /// The period that the next sleep takes.
    pub closed spec fn current(&self) -> u64 {
        self.current_secs
    }

    /// The shortest period, taken after activity.
    pub closed spec fn min(&self) -> u64 {
        self.min_secs
    }

    /// The longest period the back-off reaches.
    pub closed spec fn max(&self) -> u64 {
        self.max_secs
    }

    /// The period lies between the two bounds.
    pub open spec fn wf(&self) -> bool {
        self.min() <= self.current() <= self.max()
    }

    /// The period that follows `current` after a silent cycle.
    pub open spec fn doubled(current: u64, max: u64) -> u64 {
        if 2 * current <= max {
            (2 * current) as u64
        } else {
            max
        }
    }

    /// An interval that starts at its shortest.
    pub fn new(min_secs: u64, max_secs: u64) -> (r: Self)
        ensures
            r.current() == min_secs,
            r.min() == min_secs,
            r.max() == max_secs,
            r.wf() <==> min_secs <= max_secs,
    {
        Self { current_secs: min_secs, min_secs, max_secs }
    }

    /// Activity: back to the shortest interval.
    pub fn reset(&mut self)
        ensures
            final(self).current() == old(self).min(),
            final(self).min() == old(self).min(),
            final(self).max() == old(self).max(),
            old(self).min() <= old(self).max() ==> final(self).wf(),
    {
        self.current_secs = self.min_secs;
    }

    /// Silence: twice the interval, up to the longest.
    pub fn increase(&mut self)
        ensures
            final(self).current() == Self::doubled(old(self).current(), old(self).max()),
            final(self).min() == old(self).min(),
            final(self).max() == old(self).max(),
            old(self).wf() ==> final(self).wf(),
    {
        self.current_secs = match self.current_secs.checked_mul(2) {
            Some(twice) if twice <= self.max_secs => twice,
            _ => self.max_secs,
        };
    }

    /// The interval in seconds.
    pub fn get(&self) -> (r: u64)
        ensures
            r == self.current(),
    {
        self.current_secs
    }
}

impl Default for AdaptiveInterval {
    /// The interval of an attached session: from 5 to 60 seconds.
    fn default() -> (r: Self)
        ensures
            r.current() == FAST_MIN_SECS,
            r.min() == FAST_MIN_SECS,
            r.max() == FAST_MAX_SECS,
            r.wf(),
    {
        AdaptiveInterval::new(FAST_MIN_SECS, FAST_MAX_SECS)
    }
}

/// What the delivery loop tells the agent's main thread.
#[derive(Debug, Clone, Copy, PartialEq, Eq, Structural)]
pub enum DaemonEvent {
    /// The number of messages that arrived while no session was attached.
    UnreadCount(usize),
}

/// Why a decrypted payload is no message.
#[derive(Debug, Clone, Copy, PartialEq, Eq, Structural)]
pub enum PayloadError {
    InvalidJson,
    MissingContent,
    MissingTimestamp,
    MissingSenderId,
}

/// Why a fetched blob gave no message.
#[derive(Debug, Clone, Copy, PartialEq, Eq, Structural)]
pub enum ProcessError {
    /// The blob's text is no base64.
    Base64,
    /// The envelope did not open.
    Envelope(OpenError),
    /// The envelope opened, but what it held is no message.
    Payload(PayloadError),
}

impl ProcessError {
    /// The text shown for the error.
    pub open spec fn text(self) -> Seq<char> {
        match self {
            ProcessError::Base64 => "base64 decode"@,
            ProcessError::Envelope(e) => e.text(),
            ProcessError::Payload(PayloadError::InvalidJson) => "JSON parse"@,
            ProcessError::Payload(PayloadError::MissingContent) => "Missing content"@,
            ProcessError::Payload(PayloadError::MissingTimestamp) => "Missing timestamp"@,
            ProcessError::Payload(PayloadError::MissingSenderId) => "Missing sender_id"@,
        }
    }

    /// The text as a string.
    pub fn message(&self) -> (r: String)
        ensures
            r@ == self.text(),
    {
        match self {
            ProcessError::Base64 => "base64 decode".to_owned(),
            ProcessError::Envelope(e) => e.message(),
            ProcessError::Payload(PayloadError::InvalidJson) => "JSON parse".to_owned(),
            ProcessError::Payload(PayloadError::MissingContent) => "Missing content".to_owned(),
            ProcessError::Payload(PayloadError::MissingTimestamp) => "Missing timestamp".to_owned(),
            ProcessError::Payload(PayloadError::MissingSenderId) => "Missing sender_id".to_owned(),
        }
    }
}

/// What a sender put into an envelope.
#[derive(Debug, Clone, PartialEq, Eq)]
pub struct Payload {
    pub msg_type: String,
    pub content: String,
    pub timestamp: i64,
    pub sender_id: String,
}

/// A payload as plain values.
pub struct PayloadView {
    pub msg_type: Seq<char>,
    pub content: Seq<char>,
    pub timestamp: i64,
    pub sender_id: Seq<char>,
}

impl View for Payload {
    type V = PayloadView;

    open spec fn view(&self) -> PayloadView {
        PayloadView {
            msg_type: self.msg_type@,
            content: self.content@,
            timestamp: self.timestamp,
            sender_id: self.sender_id@,
        }
    }
}

/// A result that holds a payload, as plain values.
pub open spec fn payload_result_view(r: Result<Payload, PayloadError>) -> Result<
    PayloadView,
    PayloadError,
> {
    match r {
        Ok(payload) => Ok(payload@),
        Err(e) => Err(e),
    }
}

/// A result that holds a message, as plain values.
pub open spec fn message_result_view(r: Result<Message, ProcessError>) -> Result<
    MessageView,
    ProcessError,
> {
    match r {
        Ok(message) => Ok(message@),
        Err(e) => Err(e),
    }
}

/// A timestamp in seconds: one that counts milliseconds is divided by 1000.
pub open spec fn normalized_timestamp(timestamp: i64) -> i64 {
    if timestamp > MAX_SECONDS_TIMESTAMP {
        (timestamp / 1000) as i64
    } else {
        timestamp
    }
}

/// The payload that the members of a document make: content, timestamp and
/// sender are needed, in that order; the type is `text` unless given.
pub open spec fn payload_of_fields(
    content: Option<Seq<char>>,
    timestamp: Option<i64>,
    sender_id: Option<Seq<char>>,
    msg_type: Option<Seq<char>>,
) -> Result<PayloadView, PayloadError> {
    if content is None {
        Err(PayloadError::MissingContent)
    } else if timestamp is None {
        Err(PayloadError::MissingTimestamp)
    } else if sender_id is None {
        Err(PayloadError::MissingSenderId)
    } else {
        Ok(
            PayloadView {
                msg_type: match msg_type {
                    Some(t) => t,
                    None => "text"@,
                },
                content: content->0,
                timestamp: normalized_timestamp(timestamp->0),
                sender_id: sender_id->0,
            },
        )
    }
}

/// The payload that decrypted bytes hold.
pub open spec fn payload_spec(plaintext: Seq<u8>) -> Result<PayloadView, PayloadError> {
    match json_parsed(plaintext) {
        None => Err(PayloadError::InvalidJson),
        Some(document) => payload_of_fields(
            json_string_of(document, "content"@),
            json_integer_of(document, "timestamp"@),
            json_string_of(document, "sender_id"@),
            json_string_of(document, "type"@),
        ),
    }
}

/// The message that a blob of a queue gives the local identity: the inbound,
/// delivered record of what the envelope in the blob holds, under the blob's id.
pub open spec fn process_spec(
    blob_id: Seq<char>,
    blob_data: Seq<char>,
    queue_id: Seq<char>,
    local_sign_pk: Seq<u8>,
    local_encrypt_sk: Seq<u8>,
) -> Result<MessageView, ProcessError> {
    match base64_bytes(blob_data) {
        None => Err(ProcessError::Base64),
        Some(envelope) => match open_spec(envelope, local_sign_pk, local_encrypt_sk) {
            Err(e) => Err(ProcessError::Envelope(e)),
            Ok(plaintext) => match payload_spec(plaintext) {
                Err(e) => Err(ProcessError::Payload(e)),
                Ok(payload) => Ok(
                    MessageView {
                        id: blob_id,
                        queue_id: queue_id,
                        sender: payload.sender_id,
                        content: payload.content,
                        timestamp: payload.timestamp,
                        msg_type: payload.msg_type,
                        status: status_delivered(),
                        is_outbound: false,
                    },
                ),
            },
        },
    }
}

/// Makes a payload of the members read from a document.
pub fn payload_from_fields(
    content: Option<String>,
    timestamp: Option<i64>,
    sender_id: Option<String>,
    msg_type: Option<String>,
) -> (r: Result<Payload, PayloadError>)
    ensures
        payload_result_view(r) == payload_of_fields(
            text_view(content),
            timestamp,
            text_view(sender_id),
            text_view(msg_type),
        ),
{
    let content = match content {
        Some(content) => content,
        None => {
            return Err(PayloadError::MissingContent);
        },
    };
    let timestamp = match timestamp {
        Some(timestamp) => timestamp,
        None => {
            return Err(PayloadError::MissingTimestamp);
        },
    };
    let sender_id = match sender_id {
        Some(sender_id) => sender_id,
        None => {
            return Err(PayloadError::MissingSenderId);
        },
    };
    let msg_type = match msg_type {
        Some(msg_type) => msg_type,
        None => "text".to_owned(),
    };
    let timestamp = if timestamp > MAX_SECONDS_TIMESTAMP {
        timestamp / 1000
    } else {
        timestamp
    };
    Ok(Payload { msg_type, content, timestamp, sender_id })
}

/// Reads the payload out of decrypted bytes.
pub fn decode_payload(plaintext: &[u8]) -> (r: Result<Payload, PayloadError>)
    ensures
        payload_result_view(r) == payload_spec(plaintext@),
{
    let document = match json_parse(plaintext) {
        Some(document) => document,
        None => {
            return Err(PayloadError::InvalidJson);
        },
    };
    let content = json_string_member(&document, "content");
    let timestamp = json_integer_member(&document, "timestamp");
    let sender_id = json_string_member(&document, "sender_id");
    let msg_type = json_string_member(&document, "type");
    payload_from_fields(content, timestamp, sender_id, msg_type)
}

/// Turns a blob of a queue into the message it carries for the local
/// identity.
pub fn process_message(server_msg: &ServerMessage, queue_id: &str, keypair: &Keypair) -> (r: Result<
    Message,
    ProcessError,
>)
    ensures
        message_result_view(r) == process_spec(
            server_msg.id@,
            server_msg.data@,
            queue_id@,
            keypair.sign_pk@,
            keypair.encrypt_sk@,
        ),
{
    let envelope = match base64_decode(server_msg.data.as_str()) {
        Some(envelope) => envelope,
        None => {
            return Err(ProcessError::Base64);
        },
    };
    let plaintext = match open_envelope(envelope.as_slice(), keypair) {
        Ok(plaintext) => plaintext,
        Err(e) => {
            return Err(ProcessError::Envelope(e));
        },
    };
    let payload = match decode_payload(plaintext.as_slice()) {
        Ok(payload) => payload,
        Err(e) => {
            return Err(ProcessError::Payload(e));
        },
    };
    Ok(
        Message {
            id: server_msg.id.clone(),
            queue_id: queue_id.to_owned(),
            sender: payload.sender_id,
            content: payload.content,
            timestamp: payload.timestamp,
            msg_type: payload.msg_type,
            status: "delivered".to_owned(),
            is_outbound: false,
        },
    )
}

/// What becomes of a blob whose envelope is corrupt or foreign.
#[derive(Debug, Clone, Copy, PartialEq, Eq, Structural)]
pub enum RejectPolicy {
    /// Leave it on the relay, for a later look. The agent does this.
    Keep,
    /// Delete it, so that the queue does not grow.
    Delete,
}

/// What the loop does with a fetched blob.
#[derive(Debug, Clone, PartialEq, Eq)]
pub enum BlobVerdict {
    /// Persist the message, then go on as [`after_persist`] says.
    Deliver(Message),
    /// The local identity sent it: leave it for the other side, silently.
    SkipOwn,
    /// It gave no message: report `error`, and delete the blob if `delete` says so.
    Reject { error: ProcessError, delete: bool },
}

/// A verdict as plain values.
pub enum BlobVerdictView {
    Deliver(MessageView),
    SkipOwn,
    Reject { error: ProcessError, delete: bool },
}

impl View for BlobVerdict {
    type V = BlobVerdictView;

    open spec fn view(&self) -> BlobVerdictView {
        match self {
            BlobVerdict::Deliver(message) => BlobVerdictView::Deliver(message@),
            BlobVerdict::SkipOwn => BlobVerdictView::SkipOwn,
            BlobVerdict::Reject { error, delete } => BlobVerdictView::Reject {
                error: *error,
                delete: *delete,
            },
        }
    }
}

/// Whether a rejected blob is deleted: only under the deleting policy, and only
/// one whose signature or ciphertext failed its check.
pub open spec fn deletes_rejected(policy: RejectPolicy, error: ProcessError) -> bool {
    policy == RejectPolicy::Delete && (error == ProcessError::Envelope(OpenError::SignatureInvalid)
        || error == ProcessError::Envelope(OpenError::DecryptionFailed))
}

/// The verdict on a blob, from what processing it gave.
pub open spec fn verdict_of(
    processed: Result<MessageView, ProcessError>,
    policy: RejectPolicy,
) -> BlobVerdictView {
    match processed {
        Ok(message) => BlobVerdictView::Deliver(message),
        Err(ProcessError::Envelope(OpenError::OwnMessage)) => BlobVerdictView::SkipOwn,
        Err(error) => BlobVerdictView::Reject { error, delete: deletes_rejected(policy, error) },
    }
}

/// What follows an attempt to persist a delivered message.
#[derive(Debug, Clone, Copy, PartialEq, Eq, Structural)]
pub struct DeliveryStep {
    /// The message counts as new in this cycle.
    pub counted: bool,
    /// The attached session, if any, is told of the message.
    pub notify: bool,
    /// The blob is deleted from the relay.
    pub delete: bool,
}

/// Decides what the loop does with the outcome of [`process_message`].
pub fn verdict(processed: Result<Message, ProcessError>, policy: RejectPolicy) -> (r: BlobVerdict)
    ensures
        r@ == verdict_of(message_result_view(processed), policy),
{
    match processed {
        Ok(message) => BlobVerdict::Deliver(message),
        Err(ProcessError::Envelope(OpenError::OwnMessage)) => BlobVerdict::SkipOwn,
        Err(error) => {
            let delete = match policy {
                RejectPolicy::Keep => false,
                RejectPolicy::Delete => match error {
                    ProcessError::Envelope(OpenError::SignatureInvalid) => true,
                    ProcessError::Envelope(OpenError::DecryptionFailed) => true,
                    _ => false,
                },
            };
            BlobVerdict::Reject { error, delete }
        },
    }
}

/// Processes a fetched blob and decides what the loop does with it.
pub fn judge_blob(
    server_msg: &ServerMessage,
    queue_id: &str,
    keypair: &Keypair,
    policy: RejectPolicy,
) -> (r: BlobVerdict)
    ensures
        r@ == verdict_of(
            process_spec(
                server_msg.id@,
                server_msg.data@,
                queue_id@,
                keypair.sign_pk@,
                keypair.encrypt_sk@,
            ),
            policy,
        ),
{
    verdict(process_message(server_msg, queue_id, keypair), policy)
}

/// After the attempt to persist a delivered message: one that was saved is
/// counted, pushed to the session and deleted from the relay; one that was not
/// stays on the relay, to be fetched again.
pub fn after_persist(saved: bool) -> (r: DeliveryStep)
    ensures
        r.counted == saved,
        r.notify == saved,
        r.delete == saved,
{
    DeliveryStep { counted: saved, notify: saved, delete: saved }
}

/// The two cadences of the loop.
#[derive(Debug, Clone, Copy, PartialEq, Eq, Structural)]
pub enum PollMode {
    /// A session is attached: the adaptive interval applies.
    Interactive,
    /// No session is attached: the fixed slow interval applies.
    Background,
}

/// The state of the delivery loop as plain values.
pub struct EngineView {
    pub mode: PollMode,
    pub current_secs: u64,
    pub min_secs: u64,
    pub max_secs: u64,
    pub slow_secs: u64,
    pub unread: usize,
    pub cycle_new: usize,
}

/// What the loop does after a cycle or a signal.
#[derive(Debug, Clone, Copy, PartialEq, Eq, Structural)]
pub struct EngineActions {
    /// Tell the attached session this interval.
    pub push_interval: Option<u64>,
    /// Tell the main thread this unread count.
    pub unread_count: Option<usize>,
    /// Notify the user of this many new messages.
    pub notify: Option<usize>,
    /// Then sleep this long, unless a signal comes first.
    pub sleep_secs: u64,
}

/// The state of the delivery loop between two polls.
#[derive(Debug, Clone)]
pub struct DeliveryEngine {
    tui_connected: bool,
    fast_interval: AdaptiveInterval,
    slow_interval_secs: u64,
    unread: usize,
    cycle_new: usize,
}

impl View for DeliveryEngine {
    type V = EngineView;

    closed spec fn view(&self) -> EngineView {
        EngineView {
            mode: if self.tui_connected {
                PollMode::Interactive
            } else {
                PollMode::Background
            },
            current_secs: self.fast_interval.current(),
            min_secs: self.fast_interval.min(),
            max_secs: self.fast_interval.max(),
            slow_secs: self.slow_interval_secs,
            unread: self.unread,
            cycle_new: self.cycle_new,
        }
    }
}

impl EngineView {
    /// The adaptive interval lies between its bounds.
    pub open spec fn wf(self) -> bool {
        self.min_secs <= self.current_secs <= self.max_secs
    }

    /// How long the loop sleeps in this state.
    pub open spec fn sleep_secs(self) -> u64 {
        match self.mode {
            PollMode::Interactive => self.current_secs,
            PollMode::Background => self.slow_secs,
        }
    }

    /// The state after one more message was delivered in the running cycle.
    pub open spec fn delivered(self) -> EngineView {
        EngineView {
            cycle_new: if self.cycle_new < usize::MAX {
                (self.cycle_new + 1) as usize
            } else {
                self.cycle_new
            },
            ..self
        }
    }

    /// The state after a cycle that delivered `cycle_new` messages. With a
    /// session attached the interval follows the activity; without one the
    /// messages are added to the unread count.
    pub open spec fn after_cycle(self) -> EngineView {
        match self.mode {
            PollMode::Interactive => EngineView {
                current_secs: if self.cycle_new > 0 {
                    self.min_secs
                } else {
                    AdaptiveInterval::doubled(self.current_secs, self.max_secs)
                },
                cycle_new: 0,
                ..self
            },
            PollMode::Background => EngineView {
                unread: if self.unread + self.cycle_new <= usize::MAX {
                    (self.unread + self.cycle_new) as usize
                } else {
                    usize::MAX
                },
                cycle_new: 0,
                ..self
            },
        }
    }

    /// What the loop does at the end of a cycle.
    pub open spec fn cycle_actions(self) -> EngineActions {
        match self.mode {
            PollMode::Interactive => EngineActions {
                push_interval: Some(self.after_cycle().current_secs),
                unread_count: None,
                notify: None,
                sleep_secs: self.after_cycle().sleep_secs(),
            },
            PollMode::Background => EngineActions {
                push_interval: None,
                unread_count: if self.cycle_new > 0 {
                    Some(self.after_cycle().unread)
                } else {
                    None
                },
                notify: if self.cycle_new > 0 {
                    Some(self.cycle_new)
                } else {
                    None
                },
                sleep_secs: self.after_cycle().sleep_secs(),
            },
        }
    }

    /// The state after a signal of the control channel.
    pub open spec fn after_signal(self, signal: IpcSignal) -> EngineView {
        match signal {
            IpcSignal::TuiConnected => EngineView {
                mode: PollMode::Interactive,
                current_secs: self.min_secs,
                unread: 0,
                ..self
            },
            IpcSignal::TuiDisconnected => EngineView { mode: PollMode::Background, ..self },
            IpcSignal::ResetPollingInterval => EngineView { current_secs: self.min_secs, ..self },
        }
    }

    /// What the loop does on a signal, before it polls again at once.
    pub open spec fn signal_actions(self, signal: IpcSignal) -> EngineActions {
        match signal {
            IpcSignal::TuiConnected => EngineActions {
                push_interval: Some(self.min_secs),
                unread_count: Some(0),
                notify: None,
                sleep_secs: 0,
            },
            IpcSignal::TuiDisconnected => EngineActions {
                push_interval: None,
                unread_count: None,
                notify: None,
                sleep_secs: 0,
            },
            IpcSignal::ResetPollingInterval => EngineActions {
                push_interval: Some(self.min_secs),
                unread_count: None,
                notify: None,
                sleep_secs: 0,
            },
        }
    }
}

impl DeliveryEngine {
    /// The loop as it starts: no session, nothing unread, the adaptive
    /// interval at its shortest.
    pub fn new() -> (r: Self)
        ensures
            r@ == (EngineView {
                mode: PollMode::Background,
                current_secs: FAST_MIN_SECS,
                min_secs: FAST_MIN_SECS,
                max_secs: FAST_MAX_SECS,
                slow_secs: SLOW_INTERVAL_SECS,
                unread: 0,
                cycle_new: 0,
            }),
            r@.wf(),
    {
        DeliveryEngine {
            tui_connected: false,
            fast_interval: AdaptiveInterval::new(FAST_MIN_SECS, FAST_MAX_SECS),
            slow_interval_secs: SLOW_INTERVAL_SECS,
            unread: 0,
            cycle_new: 0,
        }
    }

    /// The loop of a front-end that polls by itself: the session is there
    /// from the start and never leaves.
    pub fn attached() -> (r: Self)
        ensures
            r@ == (EngineView {
                mode: PollMode::Interactive,
                current_secs: FAST_MIN_SECS,
                min_secs: FAST_MIN_SECS,
                max_secs: FAST_MAX_SECS,
                slow_secs: SLOW_INTERVAL_SECS,
                unread: 0,
                cycle_new: 0,
            }),
            r@.wf(),
    {
        DeliveryEngine {
            tui_connected: true,
            fast_interval: AdaptiveInterval::new(FAST_MIN_SECS, FAST_MAX_SECS),
            slow_interval_secs: SLOW_INTERVAL_SECS,
            unread: 0,
            cycle_new: 0,
        }
    }

    /// Whether a session is attached.
    pub fn is_interactive(&self) -> (r: bool)
        ensures
            r == (self@.mode == PollMode::Interactive),
    {
        self.tui_connected
    }

    /// The adaptive interval, whether or not it applies now.
    pub fn interval_secs(&self) -> (r: u64)
        ensures
            r == self@.current_secs,
    {
        self.fast_interval.get()
    }

    /// Messages that arrived while no session was attached.
    pub fn unread(&self) -> (r: usize)
        ensures
            r == self@.unread,
    {
        self.unread
    }

    /// How long the loop sleeps now.
    pub fn sleep_secs(&self) -> (r: u64)
        ensures
            r == self@.sleep_secs(),
    {
        if self.tui_connected {
            self.fast_interval.get()
        } else {
            self.slow_interval_secs
        }
    }

    /// Counts what [`after_persist`] said of one blob.
    pub fn record(&mut self, step: DeliveryStep)
        ensures
            final(self)@ == if step.counted {
                old(self)@.delivered()
            } else {
                old(self)@
            },
    {
        if step.counted && self.cycle_new < usize::MAX {
            self.cycle_new = self.cycle_new + 1;
        }
    }

    /// Ends a cycle: adapts the interval or the unread count to what the
    /// cycle delivered, and says what to tell whom and how long to sleep.
    pub fn finish_cycle(&mut self) -> (r: EngineActions)
        ensures
            final(self)@ == old(self)@.after_cycle(),
            r == old(self)@.cycle_actions(),
            old(self)@.wf() ==> final(self)@.wf(),
    {
        let new_count = self.cycle_new;
        self.cycle_new = 0;
        if self.tui_connected {
            if new_count > 0 {
                self.fast_interval.reset();
            } else {
                self.fast_interval.increase();
            }
            let secs = self.fast_interval.get();
            EngineActions {
                push_interval: Some(secs),
                unread_count: None,
                notify: None,
                sleep_secs: secs,
            }
        } else if new_count > 0 {
            self.unread = self.unread.saturating_add(new_count);
            EngineActions {
                push_interval: None,
                unread_count: Some(self.unread),
                notify: Some(new_count),
                sleep_secs: self.slow_interval_secs,
            }
        } else {
            EngineActions {
                push_interval: None,
                unread_count: None,
                notify: None,
                sleep_secs: self.slow_interval_secs,
            }
        }
    }

    /// Takes a signal that interrupted the sleep. The loop polls again at once,
    /// whatever the signal.
    pub fn signal(&mut self, signal: IpcSignal) -> (r: EngineActions)
        ensures
            final(self)@ == old(self)@.after_signal(signal),
            r == old(self)@.signal_actions(signal),
            old(self)@.wf() ==> final(self)@.wf(),
    {
        match signal {
            IpcSignal::TuiConnected => {
                self.tui_connected = true;
                self.unread = 0;
                self.fast_interval.reset();
                EngineActions {
                    push_interval: Some(self.fast_interval.get()),
                    unread_count: Some(0),
                    notify: None,
                    sleep_secs: 0,
                }
            },
            IpcSignal::TuiDisconnected => {
                self.tui_connected = false;
                EngineActions {
                    push_interval: None,
                    unread_count: None,
                    notify: None,
                    sleep_secs: 0,
                }
            },
            IpcSignal::ResetPollingInterval => {
                self.fast_interval.reset();
                EngineActions {
                    push_interval: Some(self.fast_interval.get()),
                    unread_count: None,
                    notify: None,
                    sleep_secs: 0,
                }
            },
        }
    }
}

/// Attaching a session yields one interval event with the value that then
/// applies, clears the unread count, and leaves the loop in interactive mode.
pub proof fn lemma_attach_pushes_interval_and_clears_unread(engine: EngineView)
    ensures
        engine.signal_actions(IpcSignal::TuiConnected).push_interval == Some(
            engine.after_signal(IpcSignal::TuiConnected).current_secs,
        ),
        engine.after_signal(IpcSignal::TuiConnected).unread == 0,
        engine.signal_actions(IpcSignal::TuiConnected).unread_count == Some(0usize),
        engine.after_signal(IpcSignal::TuiConnected).mode == PollMode::Interactive,
{
}

/// Detaching pushes nothing, and every cycle that ends afterwards, until a
/// session attaches again, sleeps the slow interval and pushes no interval.
pub proof fn lemma_detach_resumes_background(engine: EngineView)
    ensures
        engine.signal_actions(IpcSignal::TuiDisconnected).push_interval is None,
        engine.signal_actions(IpcSignal::TuiDisconnected).unread_count is None,
        engine.signal_actions(IpcSignal::TuiDisconnected).notify is None,
        ({
            let detached = engine.after_signal(IpcSignal::TuiDisconnected);
            &&& detached.mode == PollMode::Background
            &&& detached.cycle_actions().push_interval is None
            &&& detached.cycle_actions().sleep_secs == engine.slow_secs
            &&& detached.after_cycle().mode == PollMode::Background
            &&& detached.delivered().mode == PollMode::Background
        }),
{
}

/// Delivery is idempotent: a blob that is fetched and processed again, after
/// its deletion failed, gives the same record under the same id, the blob's,
/// so storing it by id again leaves the store as it was after the first time.
pub proof fn lemma_redelivery_is_idempotent(
    store: Map<Seq<char>, MessageView>,
    blob_id: Seq<char>,
    blob_data: Seq<char>,
    queue_id: Seq<char>,
    local_sign_pk: Seq<u8>,
    local_encrypt_sk: Seq<u8>,
)
    ensures
        process_spec(blob_id, blob_data, queue_id, local_sign_pk, local_encrypt_sk) matches Ok(
            message,
        ) ==> {
            let once = store_upsert(store, message);
            &&& message.id == blob_id
            &&& store_upsert(once, message) == once
            &&& once.dom() == store.dom().insert(blob_id)
        },
{
    if let Ok(message) = process_spec(
        blob_id,
        blob_data,
        queue_id,
        local_sign_pk,
        local_encrypt_sk,
    ) {
        lemma_upsert_idempotent(store, message);
    }
}

/// The text of the notification for `count` new messages.
pub open spec fn notification_text(count: usize) -> Seq<char> {
    if count == 1 {
        "You have 1 new message"@
    } else {
        "You have "@ + decimal_digits(count as nat) + " new messages"@
    }
}

/// The text of the notification that tells the user of new messages.
pub fn notification_body(count: usize) -> (r: String)
    ensures
        r@ == notification_text(count),
{
    if count == 1 {
        "You have 1 new message".to_owned()
    } else {
        let mut body = "You have ".to_owned();
        body.append(decimal_text(count as u64).as_str());
        body.append(" new messages");
        body
    }
}

} // verus!
