use base64::Engine;
use trassenger::crypto::{from_hex, generate_conversation_queue_id, to_hex, CryptoError, Keypair};
use trassenger::envelope::open_envelope;
use trassenger::ipc::{
    contact_from_fields, contact_written, error_reply, export_contact, frame_line,
    handle_command, handle_export_contact, handle_import_contact, handle_load_messages,
    handle_load_peers, handle_send_message, handle_update_config, import_contact,
    outbound_stored, peer_saved, post_finished, prefixed, prepare_outbound, CommandStep,
    DaemonEvent, ImportError, IpcSignal, IpcState, SendError, SessionSlot, TuiCommand,
};
use trassenger::storage::{Config, Message, Peer};

fn person(seed: u8) -> Keypair {
    Keypair::from_secrets(vec![seed; 32], vec![seed.wrapping_add(50); 32]).unwrap()
}

fn state_of(keypair: Option<Keypair>) -> IpcState {
    IpcState { keypair, server_url: "https://relay.example".to_string(), current_interval_secs: 60 }
}

fn contact_json(name: &str, keypair: &Keypair) -> String {
    let mut object = serde_json::Map::new();
    object.insert("name".to_string(), serde_json::Value::String(name.to_string()));
    object.insert(
        "encrypt_pk".to_string(),
        serde_json::Value::String(to_hex(&keypair.encrypt_pk)),
    );
    object.insert("sign_pk".to_string(), serde_json::Value::String(to_hex(&keypair.sign_pk)));
    serde_json::Value::Object(object).to_string()
}

fn peer_of(name: &str, keypair: &Keypair, own: &Keypair) -> Peer {
    Peer {
        name: name.to_string(),
        encrypt_pk: to_hex(&keypair.encrypt_pk),
        sign_pk: to_hex(&keypair.sign_pk),
        queue_id: generate_conversation_queue_id(
            &to_hex(&own.encrypt_pk),
            &to_hex(&keypair.encrypt_pk),
        )
        .unwrap(),
    }
}

fn error_event(text: &str) -> Vec<DaemonEvent> {
    vec![DaemonEvent::Error { message: text.to_string() }]
}

#[test]
fn end_to_end_import_and_send() {
    let alice = person(1);
    let bob = person(2);
    let alice_hex = to_hex(&alice.encrypt_pk);
    let bob_hex = to_hex(&bob.encrypt_pk);

    let exported = export_contact("Bob", &bob).unwrap();
    let state = state_of(Some(alice.duplicate()));
    let peer = handle_import_contact(exported.json, &state, &Vec::new()).unwrap();
    assert_eq!(peer.name, "Bob");
    assert_eq!(peer.encrypt_pk, bob_hex);
    assert_eq!(peer.sign_pk, to_hex(&bob.sign_pk));
    assert_eq!(
        peer.queue_id,
        generate_conversation_queue_id(&alice_hex, &bob_hex).unwrap()
    );
    assert_eq!(
        peer_saved(peer.clone(), Ok(())),
        vec![DaemonEvent::ContactImported { peer: peer.clone() }]
    );

    let step = handle_command(
        TuiCommand::SendMessage {
            queue_id: peer.queue_id.clone(),
            plaintext: "hi".to_string(),
            peer_encrypt_pk: peer.encrypt_pk.clone(),
        },
        &state,
    );
    let outbound = match step {
        CommandStep::StoreOutbound { outbound } => outbound,
        other => panic!("unexpected step {:?}", other),
    };
    assert_eq!(outbound.message.status, "sending");
    assert_eq!(outbound.message.queue_id, peer.queue_id);
    assert!(outbound.message.is_outbound);
    assert_eq!(outbound.message.content, "hi");
    assert_eq!(outbound.message.sender, "You");
    assert_eq!(outbound.message.msg_type, "text");

    let (events, post) = outbound_stored(true);
    assert_eq!(events, vec![DaemonEvent::MessageSent]);
    assert!(post);

    let mut stored = outbound.message.clone();
    stored.status = post_finished(true);
    assert_eq!(stored.status, "sent");
}

#[test]
fn import_names_each_refusal() {
    let alice = person(1);
    let bob = person(2);
    let own = to_hex(&alice.encrypt_pk);
    let none: Vec<Peer> = Vec::new();
    let import = |json: &str| import_contact(json, Some(&own), &none);

    assert_eq!(import("not json"), Err(ImportError::InvalidJson));
    assert_eq!(import("{}"), Err(ImportError::MissingName));
    assert_eq!(import("[]"), Err(ImportError::MissingName));
    assert_eq!(import(r#"{"name":5}"#), Err(ImportError::MissingName));
    assert_eq!(import(r#"{"name":"Bob"}"#), Err(ImportError::MissingEncryptPk));
    assert_eq!(
        import(r#"{"name":"Bob","encrypt_pk":"aa"}"#),
        Err(ImportError::MissingSignPk)
    );
    assert_eq!(
        import(r#"{"name":"Bob","encrypt_pk":"xyz","sign_pk":"aa"}"#),
        Err(ImportError::InvalidEncryptPk)
    );
    assert_eq!(
        import(r#"{"name":"Bob","encrypt_pk":"aa","sign_pk":"abc"}"#),
        Err(ImportError::InvalidSignPk)
    );
    assert_eq!(import(&contact_json("Me", &alice)), Err(ImportError::OwnContact));

    let known = vec![peer_of("Bob", &bob, &alice)];
    assert_eq!(
        import_contact(&contact_json("Robert", &bob), Some(&own), &known),
        Err(ImportError::AlreadyExists)
    );
    assert_eq!(
        import_contact(&contact_json("Bob", &bob), Some(&own), &known),
        Err(ImportError::AlreadyExists)
    );
    let carol = person(3);
    assert_eq!(
        import_contact(&contact_json("Carol", &carol), Some(&own), &known),
        Ok(peer_of("Carol", &carol, &alice))
    );
}

#[test]
fn import_without_an_identity_uses_the_empty_key() {
    let bob = person(2);
    let peer = import_contact(&contact_json("Bob", &bob), None, &Vec::new()).unwrap();
    assert_eq!(
        peer.queue_id,
        generate_conversation_queue_id("", &to_hex(&bob.encrypt_pk)).unwrap()
    );
    let peer =
        handle_import_contact(contact_json("Bob", &bob), &state_of(None), &Vec::new()).unwrap();
    assert_eq!(
        peer.queue_id,
        generate_conversation_queue_id("", &to_hex(&bob.encrypt_pk)).unwrap()
    );
}

#[test]
fn import_from_fields() {
    let text = |s: &str| Some(s.to_string());
    let peer =
        contact_from_fields(text("Bob"), text("AABB"), text("ccdd"), Some("0011"), &Vec::new())
            .unwrap();
    assert_eq!(
        peer,
        Peer {
            name: "Bob".to_string(),
            encrypt_pk: "AABB".to_string(),
            sign_pk: "ccdd".to_string(),
            queue_id: generate_conversation_queue_id("0011", "AABB").unwrap(),
        }
    );
    assert_eq!(
        contact_from_fields(text("Bob"), text("0011"), text("ccdd"), Some("0011"), &Vec::new()),
        Err(ImportError::OwnContact)
    );
    assert_eq!(
        contact_from_fields(None, None, None, None, &Vec::new()),
        Err(ImportError::MissingName)
    );
}

#[test]
fn import_failures_become_error_events() {
    let alice = person(1);
    let state = state_of(Some(alice.duplicate()));
    assert_eq!(
        handle_import_contact("nope".to_string(), &state, &Vec::new()),
        Err(error_event("Invalid JSON"))
    );
    assert_eq!(
        handle_import_contact(r#"{"name":"x"}"#.to_string(), &state, &Vec::new()),
        Err(error_event("Missing 'encrypt_pk' field"))
    );
    assert_eq!(
        handle_import_contact(contact_json("Me", &alice), &state, &Vec::new()),
        Err(error_event("Cannot import your own contact"))
    );
    let bob = person(2);
    let known = vec![peer_of("Bob", &bob, &alice)];
    assert_eq!(
        handle_import_contact(contact_json("Bob", &bob), &state, &known),
        Err(error_event("Contact already exists"))
    );
    assert_eq!(
        peer_saved(peer_of("Bob", &bob, &alice), Err("disk full".to_string())),
        error_event("Save peer failed: disk full")
    );
}

#[test]
fn import_error_texts() {
    assert_eq!(ImportError::MissingName.message(), "Missing 'name' field");
    assert_eq!(ImportError::MissingSignPk.message(), "Missing 'sign_pk' field");
    assert_eq!(ImportError::InvalidEncryptPk.message(), "Invalid encrypt_pk: Invalid hex");
    assert_eq!(ImportError::InvalidSignPk.message(), "Invalid sign_pk: Invalid hex");
}

#[test]
fn exported_contact_holds_name_and_keys() {
    let bob = person(2);
    let export = export_contact("Bob", &bob).unwrap();
    assert_eq!(export.filename, "contact-Bob.json");
    let document: serde_json::Value = serde_json::from_str(&export.json).unwrap();
    let object = document.as_object().unwrap();
    assert_eq!(object.len(), 3);
    assert_eq!(document.get("name").unwrap().as_str(), Some("Bob"));
    assert_eq!(
        document.get("encrypt_pk").unwrap().as_str(),
        Some(to_hex(&bob.encrypt_pk).as_str())
    );
    assert_eq!(
        document.get("sign_pk").unwrap().as_str(),
        Some(to_hex(&bob.sign_pk).as_str())
    );
    assert!(export.json.contains('\n'));
}

#[test]
fn export_file_name_has_dashes_for_spaces() {
    let bob = person(2);
    assert_eq!(export_contact("Bob the Builder", &bob).unwrap().filename, "contact-Bob-the-Builder.json");
    assert_eq!(export_contact("", &bob).unwrap().filename, "contact-.json");
    assert_eq!(export_contact(" a  b ", &bob).unwrap().filename, "contact--a--b-.json");
    assert_eq!(export_contact("Zoë", &bob).unwrap().filename, "contact-Zoë.json");
}

#[test]
fn export_needs_an_identity() {
    assert_eq!(
        handle_export_contact("Bob".to_string(), &state_of(None)),
        CommandStep::Reply(error_event("Keypair not loaded"))
    );
    let bob = person(2);
    let expected = export_contact("Bob", &bob).unwrap();
    assert_eq!(
        handle_export_contact("Bob".to_string(), &state_of(Some(bob))),
        CommandStep::WriteContact { export: expected }
    );
    assert_eq!(
        contact_written("{}".to_string(), Ok(())),
        vec![DaemonEvent::ContactExported { json: "{}".to_string() }]
    );
    assert_eq!(
        contact_written("{}".to_string(), Err("denied".to_string())),
        error_event("Write file: denied")
    );
}

#[test]
fn outbound_payload_is_the_json_of_the_message() {
    let alice = person(1);
    let bob = person(2);
    let outbound = prepare_outbound(
        &alice,
        "queue-1",
        "hi \"there\"",
        &to_hex(&bob.encrypt_pk),
        1700000000,
        "local-1".to_string(),
        &[4u8; 24],
    )
    .unwrap();
    assert_eq!(
        outbound.message,
        Message {
            id: "local-1".to_string(),
            queue_id: "queue-1".to_string(),
            sender: "You".to_string(),
            content: "hi \"there\"".to_string(),
            timestamp: 1700000000,
            msg_type: "text".to_string(),
            status: "sending".to_string(),
            is_outbound: true,
        }
    );
    let envelope = base64::engine::general_purpose::STANDARD.decode(&outbound.encoded).unwrap();
    assert_eq!(&envelope[128..152], &[4u8; 24]);
    let payload = open_envelope(&envelope, &bob).unwrap();
    let expected = format!(
        "{{\"content\":\"hi \\\"there\\\"\",\"sender_id\":\"{}\",\"timestamp\":1700000000,\"type\":\"text\"}}",
        to_hex(&alice.encrypt_pk)
    );
    assert_eq!(String::from_utf8(payload).unwrap(), expected);
}

#[test]
fn outbound_refusals() {
    let alice = person(1);
    let bob_hex = to_hex(&person(2).encrypt_pk);
    let prepare = |keypair: &Keypair, peer: &str, nonce: &[u8]| {
        prepare_outbound(keypair, "q", "hi", peer, 1, "id".to_string(), nonce)
    };
    assert_eq!(prepare(&alice, "xyz", &[0u8; 24]), Err(SendError::InvalidPeerKey));
    assert_eq!(prepare(&alice, "abc", &[0u8; 24]), Err(SendError::InvalidPeerKey));
    assert_eq!(
        prepare(&alice, "aabb", &[0u8; 24]),
        Err(SendError::Seal(CryptoError::InvalidRecipientPublicKeyLength))
    );
    assert_eq!(
        prepare(&alice, &bob_hex, &[0u8; 23]),
        Err(SendError::Seal(CryptoError::InvalidNonceLength))
    );
    let mut broken = person(1);
    broken.sign_sk.pop();
    assert_eq!(
        prepare(&broken, &bob_hex, &[0u8; 24]),
        Err(SendError::Seal(CryptoError::InvalidSigningSecretKeyLength))
    );
    assert_eq!(SendError::InvalidPeerKey.message(), "Invalid peer_encrypt_pk: Invalid hex");
    assert_eq!(
        SendError::Seal(CryptoError::InvalidRecipientPublicKeyLength).message(),
        "Encrypt: Invalid recipient public key length"
    );
    assert_eq!(
        SendError::Seal(CryptoError::InvalidSigningSecretKeyLength).message(),
        "Sign: Invalid signing secret key length"
    );
    assert_eq!(SendError::TooLarge.message(), "Message too large");
}

#[test]
fn send_takes_the_time_and_a_fresh_id() {
    let alice = person(1);
    let bob_hex = to_hex(&person(2).encrypt_pk);
    let state = state_of(Some(alice));
    let send = || match handle_send_message(
        "q".to_string(),
        "hi".to_string(),
        bob_hex.clone(),
        &state,
    ) {
        CommandStep::StoreOutbound { outbound } => outbound,
        other => panic!("unexpected step {:?}", other),
    };
    let first = send();
    let second = send();
    assert!(first.message.timestamp > 1_600_000_000);
    assert!(first.message.timestamp < 100_000_000_000);
    assert_eq!(first.message.id.len(), 36);
    assert_ne!(first.message.id, second.message.id);
    assert_ne!(first.encoded, second.encoded);
    assert_eq!(first.message.status, "sending");
}

#[test]
fn send_failures_become_error_events() {
    let bob_hex = to_hex(&person(2).encrypt_pk);
    assert_eq!(
        handle_send_message("q".to_string(), "hi".to_string(), bob_hex, &state_of(None)),
        CommandStep::Reply(error_event("Keypair not loaded"))
    );
    assert_eq!(
        handle_send_message(
            "q".to_string(),
            "hi".to_string(),
            "nothex".to_string(),
            &state_of(Some(person(1)))
        ),
        CommandStep::Reply(error_event("Invalid peer_encrypt_pk: Invalid hex"))
    );
    assert_eq!(
        handle_send_message(
            "q".to_string(),
            "hi".to_string(),
            "aabb".to_string(),
            &state_of(Some(person(1)))
        ),
        CommandStep::Reply(error_event("Encrypt: Invalid recipient public key length"))
    );
    let (events, post) = outbound_stored(false);
    assert_eq!(events, error_event("Failed to save message to DB"));
    assert!(!post);
    assert_eq!(post_finished(false), "failed");
}

#[test]
fn commands_are_dispatched() {
    let state = state_of(Some(person(1)));
    assert_eq!(handle_command(TuiCommand::LoadPeers, &state), CommandStep::LoadPeers);
    assert_eq!(
        handle_command(TuiCommand::LoadMessages { queue_id: "q1".to_string() }, &state),
        CommandStep::LoadMessages { queue_id: "q1".to_string() }
    );
    assert_eq!(
        handle_command(TuiCommand::ImportContact { json: "{}".to_string() }, &state),
        CommandStep::ImportContact { json: "{}".to_string() }
    );
    assert_eq!(
        handle_command(
            TuiCommand::UpdateConfig { server_url: "http://x".to_string(), polling_interval_secs: 9 },
            &state
        ),
        CommandStep::SaveConfig {
            config: Config { server_url: "http://x".to_string(), polling_interval_secs: 9 }
        }
    );
    assert_eq!(
        handle_command(TuiCommand::ResetPollingInterval, &state),
        CommandStep::Signal(IpcSignal::ResetPollingInterval)
    );
    match handle_command(TuiCommand::ExportContact { name: "A B".to_string() }, &state) {
        CommandStep::WriteContact { export } => assert_eq!(export.filename, "contact-A-B.json"),
        other => panic!("unexpected step {:?}", other),
    }
}

#[test]
fn loaded_data_becomes_events() {
    let peer = Peer {
        name: "Bob".to_string(),
        encrypt_pk: "aa".to_string(),
        sign_pk: "bb".to_string(),
        queue_id: "q".to_string(),
    };
    assert_eq!(
        handle_load_peers(Ok(vec![peer.clone()])),
        vec![DaemonEvent::Peers { peers: vec![peer] }]
    );
    assert_eq!(handle_load_peers(Ok(vec![])), vec![DaemonEvent::Peers { peers: vec![] }]);
    assert_eq!(handle_load_peers(Err("no file".to_string())), error_event("no file"));
    assert_eq!(
        handle_load_messages("q".to_string(), Ok(vec![])),
        vec![DaemonEvent::Messages { queue_id: "q".to_string(), messages: vec![] }]
    );
    assert_eq!(
        handle_load_messages("q".to_string(), Err("locked".to_string())),
        error_event("locked")
    );
    assert_eq!(handle_update_config(Ok(())), Vec::<DaemonEvent>::new());
    assert_eq!(
        handle_update_config(Err("read-only".to_string())),
        error_event("Save config: read-only")
    );
    assert_eq!(error_reply("x".to_string()), error_event("x"));
    assert_eq!(prefixed("a: ", "b"), "a: b");
}

#[test]
fn lines_end_with_a_newline() {
    assert_eq!(frame_line("{\"type\":\"LoadPeers\"}"), "{\"type\":\"LoadPeers\"}\n");
    assert_eq!(frame_line(""), "\n");
}

#[test]
fn session_attach_and_detach() {
    let mut slot = SessionSlot::new();
    assert!(!slot.is_tui_connected());
    assert_eq!(slot.push_polling_interval(5), None);

    let mut state = state_of(None);
    state.current_interval_secs = 40;
    let opening = slot.attach(&state);
    assert_eq!(opening.signal, IpcSignal::TuiConnected);
    assert_eq!(opening.first_event, DaemonEvent::PollingInterval { secs: 40 });
    assert!(slot.is_tui_connected());
    assert_eq!(slot.push_polling_interval(5), Some(DaemonEvent::PollingInterval { secs: 5 }));

    assert_eq!(slot.detach(opening.session), Some(IpcSignal::TuiDisconnected));
    assert!(!slot.is_tui_connected());
    assert_eq!(slot.push_polling_interval(5), None);
    assert_eq!(slot.detach(opening.session), None);
}

#[test]
fn last_connection_wins() {
    let state = state_of(None);
    let mut slot = SessionSlot::new();
    let first = slot.attach(&state);
    let second = slot.attach(&state);
    assert_ne!(first.session, second.session);
    assert_eq!(second.signal, IpcSignal::TuiConnected);

    let before = slot;
    assert_eq!(slot.detach(first.session), None);
    assert_eq!(slot, before);
    assert!(slot.is_tui_connected());
    assert_eq!(slot.push_polling_interval(5), Some(DaemonEvent::PollingInterval { secs: 5 }));

    assert_eq!(slot.detach(second.session), Some(IpcSignal::TuiDisconnected));
    assert!(!slot.is_tui_connected());

    let third = slot.attach(&state);
    assert_ne!(third.session, first.session);
    assert_ne!(third.session, second.session);
    assert_eq!(slot.detach(first.session), None);
    assert!(slot.is_tui_connected());
}

#[test]
fn new_messages_are_pushed_to_an_attached_session_only() {
    let message = Message {
        id: "i".to_string(),
        queue_id: "q".to_string(),
        sender: "s".to_string(),
        content: "c".to_string(),
        timestamp: 1,
        msg_type: "text".to_string(),
        status: "delivered".to_string(),
        is_outbound: false,
    };
    let mut slot = SessionSlot::new();
    assert_eq!(slot.push_new_message(message.clone()), None);
    slot.attach(&state_of(None));
    assert_eq!(
        slot.push_new_message(message.clone()),
        Some(DaemonEvent::NewMessage { message })
    );
}

#[test]
fn hex_keys_of_an_identity() {
    let alice = person(1);
    assert_eq!(from_hex(&to_hex(&alice.encrypt_pk)).unwrap(), alice.encrypt_pk);
}

#[test]
fn posted_text_is_the_envelope_in_base64() {
    let alice = person(1);
    let bob = person(2);
    let outbound = prepare_outbound(
        &alice,
        "queue-1",
        "hi",
        &to_hex(&bob.encrypt_pk),
        1700000000,
        "local-1".to_string(),
        &[4u8; 24],
    )
    .unwrap();
    let envelope = base64::engine::general_purpose::STANDARD.decode(&outbound.encoded).unwrap();
    let payload = open_envelope(&envelope, &bob).unwrap();
    assert_eq!(envelope.len(), payload.len() + 168);
    assert_eq!(&envelope[..32], &alice.sign_pk[..]);
    let signed = trassenger::crypto::verify_signature(&envelope[32..], &alice.sign_pk).unwrap();
    assert_eq!(&signed[..], &envelope[96..]);
    assert_eq!(&signed[..32], &alice.encrypt_pk[..]);
    assert_eq!(&signed[32..56], &[4u8; 24]);
    assert_eq!(signed[32..].len(), 24 + payload.len() + 16);
    assert_eq!(
        trassenger::crypto::decrypt_message(&signed[32..], &alice.encrypt_pk, &bob.encrypt_sk)
            .unwrap(),
        payload
    );
    let again = trassenger::envelope::seal_envelope_with_nonce(
        &payload,
        &bob.encrypt_pk,
        &alice,
        &[4u8; 24],
    )
    .unwrap();
    assert_eq!(envelope, again);
}

#[test]
fn exported_contact_is_imported_by_the_other_side() {
    let alice = person(1);
    let bob = person(2);
    let from_bob = match handle_export_contact("Bob B".to_string(), &state_of(Some(bob.duplicate())))
    {
        CommandStep::WriteContact { export } => export,
        other => panic!("unexpected step {:?}", other),
    };
    let from_alice = export_contact("Alice", &alice).unwrap();
    let at_alice = handle_import_contact(
        from_bob.json,
        &state_of(Some(alice.duplicate())),
        &Vec::new(),
    )
    .unwrap();
    let at_bob =
        handle_import_contact(from_alice.json, &state_of(Some(bob.duplicate())), &Vec::new())
            .unwrap();
    assert_eq!(at_alice.name, "Bob B");
    assert_eq!(at_alice.encrypt_pk, to_hex(&bob.encrypt_pk));
    assert_eq!(at_alice.sign_pk, to_hex(&bob.sign_pk));
    assert_eq!(at_bob.name, "Alice");
    assert_eq!(at_alice.queue_id, at_bob.queue_id);
}

#[test]
fn short_text_is_always_made_ready() {
    let bob_hex = to_hex(&person(2).encrypt_pk);
    let state = state_of(Some(person(1)));
    for text in ["hi", "", "\"\n\u{1}\\", "grüße 日本語"] {
        match handle_send_message("q".to_string(), text.to_string(), bob_hex.clone(), &state) {
            CommandStep::StoreOutbound { outbound } => {
                assert_eq!(outbound.message.content, text);
                assert_eq!(outbound.message.queue_id, "q");
                assert_eq!(outbound.message.status, "sending");
                assert!(outbound.message.is_outbound);
            }
            other => panic!("unexpected step {:?}", other),
        }
    }
}
