use base64::Engine;
use trassenger::crypto::{to_hex, Keypair};
use trassenger::envelope::{seal_envelope, OpenError};
use trassenger::ipc::{prepare_outbound, IpcSignal};
use trassenger::mailbox::{MessageMeta, ServerMessage};
use trassenger::polling::{
    after_persist, decode_payload, judge_blob, notification_body, payload_from_fields,
    process_message, verdict, AdaptiveInterval, BlobVerdict, DaemonEvent, DeliveryEngine,
    DeliveryStep, EngineActions, PayloadError, ProcessError, RejectPolicy,
};
use trassenger::storage::Message;

fn person(seed: u8) -> Keypair {
    Keypair::from_secrets(vec![seed; 32], vec![seed.wrapping_add(50); 32]).unwrap()
}

fn blob(id: &str, data: String) -> ServerMessage {
    ServerMessage {
        id: id.to_string(),
        timestamp: 1,
        data,
        meta: MessageMeta { filename: None, size: None },
    }
}

fn encode(bytes: &[u8]) -> String {
    base64::engine::general_purpose::STANDARD.encode(bytes)
}

#[test]
fn adaptive_interval_doubles_up_to_the_cap() {
    let mut interval = AdaptiveInterval::new(5, 60);
    assert_eq!(interval.get(), 5);
    interval.increase();
    assert_eq!(interval.get(), 10);
    interval.increase();
    assert_eq!(interval.get(), 20);
    interval.increase();
    assert_eq!(interval.get(), 40);
    interval.increase();
    assert_eq!(interval.get(), 60);
    interval.increase();
    assert_eq!(interval.get(), 60);
    interval.reset();
    assert_eq!(interval.get(), 5);
}

#[test]
fn adaptive_interval_resets_from_anywhere() {
    let mut interval = AdaptiveInterval::new(5, 60);
    interval.reset();
    assert_eq!(interval.get(), 5);
    interval.increase();
    interval.reset();
    assert_eq!(interval.get(), 5);
    interval.increase();
    interval.increase();
    interval.reset();
    assert_eq!(interval.get(), 5);
}

#[test]
fn adaptive_interval_default_is_five_to_sixty() {
    let mut interval = AdaptiveInterval::default();
    assert_eq!(interval.get(), 5);
    for _ in 0..10 {
        interval.increase();
    }
    assert_eq!(interval.get(), 60);
}

#[test]
fn adaptive_interval_near_the_largest_number() {
    let mut interval = AdaptiveInterval::new(u64::MAX / 2 + 1, u64::MAX);
    interval.increase();
    assert_eq!(interval.get(), u64::MAX);
    let mut zero = AdaptiveInterval::new(0, 10);
    zero.increase();
    assert_eq!(zero.get(), 0);
    let mut odd = AdaptiveInterval::new(3, 7);
    odd.increase();
    assert_eq!(odd.get(), 6);
    odd.increase();
    assert_eq!(odd.get(), 7);
}

#[test]
fn payload_needs_content_timestamp_and_sender() {
    let text = |s: &str| Some(s.to_string());
    assert_eq!(
        payload_from_fields(None, None, None, None),
        Err(PayloadError::MissingContent)
    );
    assert_eq!(
        payload_from_fields(text("hi"), None, None, None),
        Err(PayloadError::MissingTimestamp)
    );
    assert_eq!(
        payload_from_fields(text("hi"), Some(1), None, text("text")),
        Err(PayloadError::MissingSenderId)
    );
    let payload = payload_from_fields(text("hi"), Some(1700000000), text("me"), None).unwrap();
    assert_eq!(payload.content, "hi");
    assert_eq!(payload.timestamp, 1700000000);
    assert_eq!(payload.sender_id, "me");
    assert_eq!(payload.msg_type, "text");
    let payload = payload_from_fields(text("hi"), Some(1), text("me"), text("file")).unwrap();
    assert_eq!(payload.msg_type, "file");
}

#[test]
fn millisecond_timestamps_become_seconds() {
    let text = |s: &str| Some(s.to_string());
    let at = |t: i64| payload_from_fields(text("c"), Some(t), text("s"), None).unwrap().timestamp;
    assert_eq!(at(1700000000000), 1700000000);
    assert_eq!(at(1700000000999), 1700000000);
    assert_eq!(at(9_999_999_999), 9_999_999_999);
    assert_eq!(at(10_000_000_000), 10_000_000);
    assert_eq!(at(0), 0);
    assert_eq!(at(-5), -5);
    assert_eq!(at(i64::MAX), i64::MAX / 1000);
}

#[test]
fn payload_is_read_from_json() {
    let payload = decode_payload(
        br#"{"type":"text","content":"hello","timestamp":1700000000123,"sender_id":"abcd"}"#,
    )
    .unwrap();
    assert_eq!(payload.content, "hello");
    assert_eq!(payload.timestamp, 1700000000);
    assert_eq!(payload.sender_id, "abcd");
    assert_eq!(payload.msg_type, "text");

    let payload =
        decode_payload(br#"{"content":"x","timestamp":7,"sender_id":"s","extra":[1,2]}"#).unwrap();
    assert_eq!(payload.msg_type, "text");
    assert_eq!(payload.timestamp, 7);
}

#[test]
fn payload_with_wrong_shapes() {
    assert_eq!(decode_payload(b"not json"), Err(PayloadError::InvalidJson));
    assert_eq!(decode_payload(b""), Err(PayloadError::InvalidJson));
    assert_eq!(decode_payload(b"[1,2]"), Err(PayloadError::MissingContent));
    assert_eq!(decode_payload(b"{}"), Err(PayloadError::MissingContent));
    assert_eq!(
        decode_payload(br#"{"content":5,"timestamp":1,"sender_id":"s"}"#),
        Err(PayloadError::MissingContent)
    );
    assert_eq!(
        decode_payload(br#"{"content":"c","timestamp":"1","sender_id":"s"}"#),
        Err(PayloadError::MissingTimestamp)
    );
    assert_eq!(
        decode_payload(br#"{"content":"c","timestamp":1.5,"sender_id":"s"}"#),
        Err(PayloadError::MissingTimestamp)
    );
    assert_eq!(
        decode_payload(br#"{"content":"c","timestamp":1}"#),
        Err(PayloadError::MissingSenderId)
    );
    let payload =
        decode_payload(br#"{"content":"c","timestamp":1,"sender_id":"s","type":7}"#).unwrap();
    assert_eq!(payload.msg_type, "text");
}

#[test]
fn blob_becomes_a_delivered_message() {
    let alice = person(1);
    let bob = person(2);
    let payload = br#"{"type":"text","content":"hi","timestamp":1700000000,"sender_id":"aa"}"#;
    let envelope = seal_envelope(payload, &bob.encrypt_pk, &alice).unwrap();
    let message = process_message(&blob("blob-1", encode(&envelope)), "queue-9", &bob).unwrap();
    assert_eq!(
        message,
        Message {
            id: "blob-1".to_string(),
            queue_id: "queue-9".to_string(),
            sender: "aa".to_string(),
            content: "hi".to_string(),
            timestamp: 1700000000,
            msg_type: "text".to_string(),
            status: "delivered".to_string(),
            is_outbound: false,
        }
    );
}

#[test]
fn processing_a_blob_twice_gives_one_record() {
    let alice = person(1);
    let bob = person(2);
    let payload = br#"{"content":"hi","timestamp":5,"sender_id":"aa"}"#;
    let envelope = seal_envelope(payload, &bob.encrypt_pk, &alice).unwrap();
    let fetched = blob("blob-1", encode(&envelope));
    let first = process_message(&fetched, "q", &bob).unwrap();
    let second = process_message(&fetched, "q", &bob).unwrap();
    assert_eq!(first, second);

    let mut store = std::collections::BTreeMap::new();
    store.insert(first.id.clone(), first);
    store.insert(second.id.clone(), second);
    assert_eq!(store.len(), 1);
}

#[test]
fn blob_failures_are_named() {
    let alice = person(1);
    let bob = person(2);
    assert_eq!(
        process_message(&blob("b", "***".to_string()), "q", &bob),
        Err(ProcessError::Base64)
    );
    assert_eq!(
        process_message(&blob("b", "aGVsbG8".to_string()), "q", &bob),
        Err(ProcessError::Base64)
    );
    assert_eq!(
        process_message(&blob("b", encode(b"short")), "q", &bob),
        Err(ProcessError::Envelope(OpenError::Truncated))
    );
    let envelope = seal_envelope(b"{}", &bob.encrypt_pk, &alice).unwrap();
    assert_eq!(
        process_message(&blob("b", encode(&envelope)), "q", &alice),
        Err(ProcessError::Envelope(OpenError::OwnMessage))
    );
    assert_eq!(
        process_message(&blob("b", encode(&envelope)), "q", &bob),
        Err(ProcessError::Payload(PayloadError::MissingContent))
    );
    assert_eq!(
        process_message(&blob("b", encode(&envelope)), "q", &person(3)),
        Err(ProcessError::Envelope(OpenError::DecryptionFailed))
    );
    let envelope = seal_envelope(b"hi", &bob.encrypt_pk, &alice).unwrap();
    assert_eq!(
        process_message(&blob("b", encode(&envelope)), "q", &bob),
        Err(ProcessError::Payload(PayloadError::InvalidJson))
    );
    let mut changed = envelope.clone();
    changed[40] ^= 1;
    assert_eq!(
        process_message(&blob("b", encode(&changed)), "q", &bob),
        Err(ProcessError::Envelope(OpenError::SignatureInvalid))
    );
}

#[test]
fn process_error_texts() {
    assert_eq!(ProcessError::Base64.message(), "base64 decode");
    assert_eq!(
        ProcessError::Envelope(OpenError::OwnMessage).message(),
        "Skipping own message"
    );
    assert_eq!(ProcessError::Payload(PayloadError::InvalidJson).message(), "JSON parse");
    assert_eq!(
        ProcessError::Payload(PayloadError::MissingContent).message(),
        "Missing content"
    );
    assert_eq!(
        ProcessError::Payload(PayloadError::MissingTimestamp).message(),
        "Missing timestamp"
    );
    assert_eq!(
        ProcessError::Payload(PayloadError::MissingSenderId).message(),
        "Missing sender_id"
    );
}

#[test]
fn verdicts_follow_the_policy() {
    let message = Message {
        id: "i".to_string(),
        queue_id: "q".to_string(),
        sender: "s".to_string(),
        content: "c".to_string(),
        timestamp: 1,
        msg_type: "text".to_string(),
        status: "delivered".to_string(),
        is_outbound: false,
    };
    for policy in [RejectPolicy::Keep, RejectPolicy::Delete] {
        assert_eq!(verdict(Ok(message.clone()), policy), BlobVerdict::Deliver(message.clone()));
        assert_eq!(
            verdict(Err(ProcessError::Envelope(OpenError::OwnMessage)), policy),
            BlobVerdict::SkipOwn
        );
    }
    let rejected = [
        (ProcessError::Base64, false),
        (ProcessError::Envelope(OpenError::Truncated), false),
        (ProcessError::Envelope(OpenError::SignatureInvalid), true),
        (ProcessError::Envelope(OpenError::DecryptionFailed), true),
        (ProcessError::Envelope(OpenError::InvalidLocalKey), false),
        (ProcessError::Payload(PayloadError::InvalidJson), false),
        (ProcessError::Payload(PayloadError::MissingSenderId), false),
    ];
    for (error, deleted_when_deleting) in rejected {
        assert_eq!(
            verdict(Err(error), RejectPolicy::Keep),
            BlobVerdict::Reject { error, delete: false }
        );
        assert_eq!(
            verdict(Err(error), RejectPolicy::Delete),
            BlobVerdict::Reject { error, delete: deleted_when_deleting }
        );
    }
}

#[test]
fn judging_a_blob() {
    let alice = person(1);
    let bob = person(2);
    let payload = br#"{"content":"hi","timestamp":5,"sender_id":"aa"}"#;
    let envelope = seal_envelope(payload, &bob.encrypt_pk, &alice).unwrap();
    let fetched = blob("blob-1", encode(&envelope));
    match judge_blob(&fetched, "q", &bob, RejectPolicy::Keep) {
        BlobVerdict::Deliver(message) => assert_eq!(message.content, "hi"),
        other => panic!("unexpected verdict {:?}", other),
    }
    assert_eq!(judge_blob(&fetched, "q", &alice, RejectPolicy::Delete), BlobVerdict::SkipOwn);
    assert_eq!(
        judge_blob(&fetched, "q", &person(3), RejectPolicy::Delete),
        BlobVerdict::Reject {
            error: ProcessError::Envelope(OpenError::DecryptionFailed),
            delete: true
        }
    );
    assert_eq!(
        judge_blob(&fetched, "q", &person(3), RejectPolicy::Keep),
        BlobVerdict::Reject {
            error: ProcessError::Envelope(OpenError::DecryptionFailed),
            delete: false
        }
    );
}

#[test]
fn unsaved_message_stays_on_the_relay() {
    assert_eq!(
        after_persist(true),
        DeliveryStep { counted: true, notify: true, delete: true }
    );
    assert_eq!(
        after_persist(false),
        DeliveryStep { counted: false, notify: false, delete: false }
    );
}

#[test]
fn engine_starts_in_the_background() {
    let mut engine = DeliveryEngine::new();
    assert!(!engine.is_interactive());
    assert_eq!(engine.sleep_secs(), 60);
    assert_eq!(engine.interval_secs(), 5);
    assert_eq!(engine.unread(), 0);
    let actions = engine.finish_cycle();
    assert_eq!(
        actions,
        EngineActions { push_interval: None, unread_count: None, notify: None, sleep_secs: 60 }
    );
    assert_eq!(engine.interval_secs(), 5);
}

#[test]
fn background_cycles_count_unread_messages() {
    let mut engine = DeliveryEngine::new();
    engine.record(after_persist(true));
    engine.record(after_persist(false));
    engine.record(after_persist(true));
    let actions = engine.finish_cycle();
    assert_eq!(
        actions,
        EngineActions {
            push_interval: None,
            unread_count: Some(2),
            notify: Some(2),
            sleep_secs: 60
        }
    );
    engine.record(after_persist(true));
    let actions = engine.finish_cycle();
    assert_eq!(actions.unread_count, Some(3));
    assert_eq!(actions.notify, Some(1));
    assert_eq!(engine.unread(), 3);
    let actions = engine.finish_cycle();
    assert_eq!(actions.unread_count, None);
    assert_eq!(actions.notify, None);
    assert_eq!(engine.unread(), 3);
    assert_eq!(engine.interval_secs(), 5);
}

#[test]
fn attaching_pushes_the_interval_and_clears_unread() {
    let mut engine = DeliveryEngine::new();
    engine.record(after_persist(true));
    engine.finish_cycle();
    assert_eq!(engine.unread(), 1);

    let actions = engine.signal(IpcSignal::TuiConnected);
    assert_eq!(
        actions,
        EngineActions {
            push_interval: Some(5),
            unread_count: Some(0),
            notify: None,
            sleep_secs: 0
        }
    );
    assert!(engine.is_interactive());
    assert_eq!(engine.unread(), 0);
    assert_eq!(engine.sleep_secs(), 5);
}

#[test]
fn interactive_cycles_adapt_the_interval() {
    let mut engine = DeliveryEngine::new();
    engine.signal(IpcSignal::TuiConnected);
    let mut pushed = Vec::new();
    for _ in 0..5 {
        let actions = engine.finish_cycle();
        assert_eq!(actions.unread_count, None);
        assert_eq!(actions.notify, None);
        assert_eq!(actions.push_interval, Some(actions.sleep_secs));
        pushed.push(actions.sleep_secs);
    }
    assert_eq!(pushed, vec![10, 20, 40, 60, 60]);

    engine.record(after_persist(true));
    let actions = engine.finish_cycle();
    assert_eq!(actions.push_interval, Some(5));
    assert_eq!(actions.sleep_secs, 5);
    assert_eq!(engine.unread(), 0);

    let actions = engine.finish_cycle();
    assert_eq!(actions.push_interval, Some(10));
}

#[test]
fn reset_signal_restarts_the_interval() {
    let mut engine = DeliveryEngine::new();
    engine.signal(IpcSignal::TuiConnected);
    engine.finish_cycle();
    engine.finish_cycle();
    assert_eq!(engine.interval_secs(), 20);
    let actions = engine.signal(IpcSignal::ResetPollingInterval);
    assert_eq!(
        actions,
        EngineActions { push_interval: Some(5), unread_count: None, notify: None, sleep_secs: 0 }
    );
    assert!(engine.is_interactive());
    assert_eq!(engine.interval_secs(), 5);
}

#[test]
fn detaching_returns_to_the_slow_cadence() {
    let mut engine = DeliveryEngine::new();
    engine.signal(IpcSignal::TuiConnected);
    engine.finish_cycle();
    let actions = engine.signal(IpcSignal::TuiDisconnected);
    assert_eq!(
        actions,
        EngineActions { push_interval: None, unread_count: None, notify: None, sleep_secs: 0 }
    );
    assert!(!engine.is_interactive());
    assert_eq!(engine.sleep_secs(), 60);
    for _ in 0..3 {
        let actions = engine.finish_cycle();
        assert_eq!(actions.push_interval, None);
        assert_eq!(actions.sleep_secs, 60);
    }
    assert_eq!(engine.interval_secs(), 10);
}

#[test]
fn engine_of_a_polling_front_end() {
    let mut engine = DeliveryEngine::attached();
    assert!(engine.is_interactive());
    assert_eq!(engine.sleep_secs(), 5);
    assert_eq!(engine.finish_cycle().push_interval, Some(10));
}

#[test]
fn notification_texts() {
    assert_eq!(notification_body(1), "You have 1 new message");
    assert_eq!(notification_body(2), "You have 2 new messages");
    assert_eq!(notification_body(0), "You have 0 new messages");
    assert_eq!(notification_body(120), "You have 120 new messages");
}

#[test]
fn unread_count_event() {
    assert_eq!(DaemonEvent::UnreadCount(3), DaemonEvent::UnreadCount(3));
    assert_ne!(DaemonEvent::UnreadCount(3), DaemonEvent::UnreadCount(0));
}

#[test]
fn sent_message_arrives_at_the_peer() {
    let alice = person(1);
    let bob = person(2);
    let outbound = prepare_outbound(
        &alice,
        "queue-1",
        "hi",
        &to_hex(&bob.encrypt_pk),
        1700000000,
        "local-1".to_string(),
        &[4u8; 24],
    )
    .unwrap();
    let arrived =
        process_message(&blob("relay-7", outbound.encoded.clone()), "queue-1", &bob).unwrap();
    assert_eq!(arrived.id, "relay-7");
    assert_eq!(arrived.content, "hi");
    assert_eq!(arrived.sender, to_hex(&alice.encrypt_pk));
    assert_eq!(arrived.timestamp, 1700000000);
    assert_eq!(arrived.msg_type, "text");
    assert_eq!(arrived.status, "delivered");
    assert!(!arrived.is_outbound);
    assert_eq!(
        process_message(&blob("relay-7", outbound.encoded), "queue-1", &alice),
        Err(ProcessError::Envelope(OpenError::OwnMessage))
    );
}
