use trassenger::app::{App, AppAction, ImportSource, InputMode, MenuState};
use trassenger::client::{
    command_for, route_event, DaemonCommand, PollingCommand, PushedEvent, Routing,
};
use trassenger::ipc::{DaemonEvent, IpcSignal, TuiCommand};
use trassenger::storage::{Message, Peer};

fn message() -> Message {
    Message {
        id: "i".to_string(),
        queue_id: "q".to_string(),
        sender: "s".to_string(),
        content: "c".to_string(),
        timestamp: 1,
        msg_type: "text".to_string(),
        status: "delivered".to_string(),
        is_outbound: false,
    }
}

#[test]
fn new_message_goes_to_the_event_loop() {
    assert_eq!(
        route_event(DaemonEvent::NewMessage { message: message() }),
        Routing { pushed: Some(PushedEvent::NewMessage(message())), response: None }
    );
}

#[test]
fn interval_goes_both_ways() {
    assert_eq!(
        route_event(DaemonEvent::PollingInterval { secs: 20 }),
        Routing {
            pushed: Some(PushedEvent::PollingIntervalUpdate(20)),
            response: Some(DaemonEvent::PollingInterval { secs: 20 }),
        }
    );
}

#[test]
fn answers_are_queued() {
    for event in [
        DaemonEvent::MessageSent,
        DaemonEvent::Error { message: "x".to_string() },
        DaemonEvent::Peers { peers: vec![] },
        DaemonEvent::Messages { queue_id: "q".to_string(), messages: vec![message()] },
        DaemonEvent::ContactExported { json: "{}".to_string() },
    ] {
        assert_eq!(
            route_event(event.clone()),
            Routing { pushed: None, response: Some(event) }
        );
    }
}

#[test]
fn commands_of_the_session() {
    assert_eq!(DaemonCommand::load_peers().into_command(), TuiCommand::LoadPeers);
    assert_eq!(
        DaemonCommand::load_messages("q").into_command(),
        TuiCommand::LoadMessages { queue_id: "q".to_string() }
    );
    assert_eq!(
        DaemonCommand::send_message("q", "hi", "aa").into_command(),
        TuiCommand::SendMessage {
            queue_id: "q".to_string(),
            plaintext: "hi".to_string(),
            peer_encrypt_pk: "aa".to_string(),
        }
    );
    assert_eq!(
        DaemonCommand::import_contact("{}").into_command(),
        TuiCommand::ImportContact { json: "{}".to_string() }
    );
    assert_eq!(
        DaemonCommand::export_contact("Bob").into_command(),
        TuiCommand::ExportContact { name: "Bob".to_string() }
    );
    assert_eq!(
        DaemonCommand::update_config("http://x", 3).into_command(),
        TuiCommand::UpdateConfig { server_url: "http://x".to_string(), polling_interval_secs: 3 }
    );
    assert_eq!(
        DaemonCommand::reset_polling_interval().into_command(),
        TuiCommand::ResetPollingInterval
    );
    assert_eq!(PollingCommand::ResetInterval.signal(), IpcSignal::ResetPollingInterval);
}

fn contact(name: &str, queue: &str) -> Peer {
    Peer {
        name: name.to_string(),
        encrypt_pk: format!("{}-key", name),
        sign_pk: format!("{}-sign", name),
        queue_id: queue.to_string(),
    }
}

fn front_end() -> App {
    App::initialize(vec![contact("Bob", "q")], "http://relay", 10, false).0
}

#[test]
fn actions_become_commands() {
    assert_eq!(
        command_for(&AppAction::LoadMessages { queue_id: "q".to_string(), announce: None }),
        Some(DaemonCommand::LoadMessages { queue_id: "q".to_string() })
    );
    assert_eq!(
        command_for(&AppAction::SendMessage { peer: contact("Bob", "q"), content: "hi".to_string() }),
        Some(DaemonCommand::SendMessage {
            queue_id: "q".to_string(),
            plaintext: "hi".to_string(),
            peer_encrypt_pk: "Bob-key".to_string(),
        })
    );
    assert_eq!(
        command_for(&AppAction::ImportContact { source: ImportSource::Json("{}".to_string()) }),
        Some(DaemonCommand::ImportContact { json: "{}".to_string() })
    );
    assert_eq!(
        command_for(&AppAction::ImportContact {
            source: ImportSource::AbsolutePath("/x".to_string())
        }),
        None
    );
    assert_eq!(
        command_for(&AppAction::ImportContact {
            source: ImportSource::RelativePath("x".to_string())
        }),
        None
    );
    assert_eq!(
        command_for(&AppAction::ExportContact { name: "Me".to_string() }),
        Some(DaemonCommand::ExportContact { name: "Me".to_string() })
    );
    assert_eq!(
        command_for(&AppAction::SaveSettings {
            server_url: "http://x".to_string(),
            polling_interval_secs: 7
        }),
        Some(DaemonCommand::UpdateConfig {
            server_url: "http://x".to_string(),
            polling_interval_secs: 7
        })
    );
    assert_eq!(command_for(&AppAction::ToggleAutostart), None);
    assert_eq!(command_for(&AppAction::ResetPolling), Some(DaemonCommand::ResetPollingInterval));
}

#[test]
fn answers_reach_the_front_end() {
    let load = AppAction::LoadMessages { queue_id: "q".to_string(), announce: None };

    let mut app = front_end();
    assert_eq!(
        app.handle_daemon_event(DaemonEvent::NewMessage { message: message() }),
        vec![load.clone()]
    );
    assert_eq!(app.status_message, "← s");
    let mut other = message();
    other.queue_id = "elsewhere".to_string();
    assert!(app.handle_daemon_event(DaemonEvent::NewMessage { message: other.clone() }).is_empty());

    app.chat_scroll_offset = 4;
    assert!(app
        .handle_daemon_event(DaemonEvent::Messages {
            queue_id: "q".to_string(),
            messages: vec![message()]
        })
        .is_empty());
    assert_eq!(app.messages, vec![message()]);
    assert_eq!(app.chat_scroll_offset, 0);
    assert_eq!(app.status_message, "← s");
    app.handle_daemon_event(DaemonEvent::Messages {
        queue_id: "elsewhere".to_string(),
        messages: vec![other],
    });
    assert_eq!(app.messages, vec![message()]);

    app.selected_peer_index = 5;
    assert_eq!(
        app.handle_daemon_event(DaemonEvent::Peers {
            peers: vec![contact("Carol", "q2"), contact("Dave", "q3")]
        }),
        vec![AppAction::LoadMessages { queue_id: "q2".to_string(), announce: None }]
    );
    assert_eq!(app.selected_peer_index, 0);
    assert_eq!(app.peers.len(), 2);
    assert!(app.handle_daemon_event(DaemonEvent::Peers { peers: vec![] }).is_empty());

    let mut app = front_end();
    app.handle_daemon_event(DaemonEvent::ContactImported { peer: contact("Eve", "q5") });
    assert_eq!(app.peers.len(), 2);
    assert_eq!(app.status_message, "Contact 'Eve' imported");
    assert_eq!(app.menu_state, MenuState::Closed);

    app.contact_export_name = " Bob B ".to_string();
    app.handle_daemon_event(DaemonEvent::ContactExported { json: "{}".to_string() });
    assert_eq!(app.status_message, "✓ Saved to Downloads: contact-Bob-B.json");
    assert_eq!(app.contact_export_json, "{}");

    app.message_input = "hi".to_string();
    app.input_mode = InputMode::Editing;
    assert_eq!(
        app.handle_daemon_event(DaemonEvent::MessageSent),
        vec![load, AppAction::ResetPolling]
    );
    assert_eq!(app.message_input, "");
    assert_eq!(app.status_message, "Sent");
    assert_eq!(app.current_polling_interval, 5);
    assert_eq!(app.input_mode, InputMode::Normal);

    app.handle_daemon_event(DaemonEvent::PollingInterval { secs: 40 });
    assert_eq!(app.current_polling_interval, 40);

    app.input_mode = InputMode::Editing;
    app.handle_daemon_event(DaemonEvent::Error { message: "Keypair not loaded".to_string() });
    assert_eq!(app.status_message, "Keypair not loaded");
    assert_eq!(app.input_mode, InputMode::Normal);
}
