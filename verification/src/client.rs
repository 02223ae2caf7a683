//! The session's end of the control channel: the commands it sends, and
//! where each event of the agent goes.

use vstd::prelude::*;
use crate::app::{
    ActionView, App, AppAction, AppView, ExportOutcome, ExportOutcomeView, ImportOutcome,
    ImportOutcomeView, ImportSource, ImportSourceView, InputMode,
};
use crate::ipc::{
    contact_file, contact_file_name, prefixed, DaemonEvent, DaemonEventView, IpcSignal, TuiCommand,
};
use crate::storage::{Message, MessageView};
use crate::text::{str_equal, trim, trimmed};

verus! {

/// A command of the session to the agent, as the session writes it.
#[derive(Debug, Clone, PartialEq, Eq)]
pub enum DaemonCommand {
    SendMessage { queue_id: String, plaintext: String, peer_encrypt_pk: String },
    LoadMessages { queue_id: String },
    LoadPeers,
    ImportContact { json: String },
    ExportContact { name: String },
    UpdateConfig { server_url: String, polling_interval_secs: u64 },
    ResetPollingInterval,
}

/// A command as plain values. Both ends of the channel mean the same by it.
pub enum CommandView {
    SendMessage { queue_id: Seq<char>, plaintext: Seq<char>, peer_encrypt_pk: Seq<char> },
    LoadMessages { queue_id: Seq<char> },
    LoadPeers,
    ImportContact { json: Seq<char> },
    ExportContact { name: Seq<char> },
    UpdateConfig { server_url: Seq<char>, polling_interval_secs: u64 },
    ResetPollingInterval,
}

impl View for DaemonCommand {
    type V = CommandView;

    open spec fn view(&self) -> CommandView {
        match self {
            DaemonCommand::SendMessage { queue_id, plaintext, peer_encrypt_pk } => {
                CommandView::SendMessage {
                    queue_id: queue_id@,
                    plaintext: plaintext@,
                    peer_encrypt_pk: peer_encrypt_pk@,
                }
            },
            DaemonCommand::LoadMessages { queue_id } => CommandView::LoadMessages {
                queue_id: queue_id@,
            },
            DaemonCommand::LoadPeers => CommandView::LoadPeers,
            DaemonCommand::ImportContact { json } => CommandView::ImportContact { json: json@ },
            DaemonCommand::ExportContact { name } => CommandView::ExportContact { name: name@ },
            DaemonCommand::UpdateConfig { server_url, polling_interval_secs } => {
                CommandView::UpdateConfig {
                    server_url: server_url@,
                    polling_interval_secs: *polling_interval_secs,
                }
            },
            DaemonCommand::ResetPollingInterval => CommandView::ResetPollingInterval,
        }
    }
}

/// What the agent reads in a command.
pub open spec fn command_view(cmd: TuiCommand) -> CommandView {
    match cmd {
        TuiCommand::SendMessage { queue_id, plaintext, peer_encrypt_pk } => {
            CommandView::SendMessage {
                queue_id: queue_id@,
                plaintext: plaintext@,
                peer_encrypt_pk: peer_encrypt_pk@,
            }
        },
        TuiCommand::LoadMessages { queue_id } => CommandView::LoadMessages { queue_id: queue_id@ },
        TuiCommand::LoadPeers => CommandView::LoadPeers,
        TuiCommand::ImportContact { json } => CommandView::ImportContact { json: json@ },
        TuiCommand::ExportContact { name } => CommandView::ExportContact { name: name@ },
        TuiCommand::UpdateConfig { server_url, polling_interval_secs } => {
            CommandView::UpdateConfig { server_url: server_url@, polling_interval_secs }
        },
        TuiCommand::ResetPollingInterval => CommandView::ResetPollingInterval,
    }
}

impl DaemonCommand {
    /// Asks for the known peers.
    pub fn load_peers() -> (r: DaemonCommand)
        ensures
            r@ == CommandView::LoadPeers,
    {
        DaemonCommand::LoadPeers
    }

    /// Asks for the messages of a queue.
    pub fn load_messages(queue_id: &str) -> (r: DaemonCommand)
        ensures
            r@ == (CommandView::LoadMessages { queue_id: queue_id@ }),
    {
        DaemonCommand::LoadMessages { queue_id: queue_id.to_owned() }
    }

    /// Asks to send a text to the peer of a queue.
    pub fn send_message(queue_id: &str, plaintext: &str, peer_encrypt_pk: &str) -> (r:
        DaemonCommand)
        ensures
            r@ == (CommandView::SendMessage {
                queue_id: queue_id@,
                plaintext: plaintext@,
                peer_encrypt_pk: peer_encrypt_pk@,
            }),
    {
        DaemonCommand::SendMessage {
            queue_id: queue_id.to_owned(),
            plaintext: plaintext.to_owned(),
            peer_encrypt_pk: peer_encrypt_pk.to_owned(),
        }
    }

    /// Asks to add the peer of a contact document.
    pub fn import_contact(json: &str) -> (r: DaemonCommand)
        ensures
            r@ == (CommandView::ImportContact { json: json@ }),
    {
        DaemonCommand::ImportContact { json: json.to_owned() }
    }

    /// Asks for the own contact document under a name.
    pub fn export_contact(name: &str) -> (r: DaemonCommand)
        ensures
            r@ == (CommandView::ExportContact { name: name@ }),
    {
        DaemonCommand::ExportContact { name: name.to_owned() }
    }

    /// Asks to save the relay's address and the poll interval.
    pub fn update_config(server_url: &str, polling_interval_secs: u64) -> (r: DaemonCommand)
        ensures
            r@ == (CommandView::UpdateConfig { server_url: server_url@, polling_interval_secs }),
    {
        DaemonCommand::UpdateConfig { server_url: server_url.to_owned(), polling_interval_secs }
    }

    /// Tells the agent that the user is active.
    pub fn reset_polling_interval() -> (r: DaemonCommand)
        ensures
            r@ == CommandView::ResetPollingInterval,
    {
        DaemonCommand::ResetPollingInterval
    }

    /// The command as the agent reads it.
    pub fn into_command(self) -> (r: TuiCommand)
        ensures
            command_view(r) == self@,
    {
        match self {
            DaemonCommand::SendMessage { queue_id, plaintext, peer_encrypt_pk } => {
                TuiCommand::SendMessage { queue_id, plaintext, peer_encrypt_pk }
            },
            DaemonCommand::LoadMessages { queue_id } => TuiCommand::LoadMessages { queue_id },
            DaemonCommand::LoadPeers => TuiCommand::LoadPeers,
            DaemonCommand::ImportContact { json } => TuiCommand::ImportContact { json },
            DaemonCommand::ExportContact { name } => TuiCommand::ExportContact { name },
            DaemonCommand::UpdateConfig { server_url, polling_interval_secs } => {
                TuiCommand::UpdateConfig { server_url, polling_interval_secs }
            },
            DaemonCommand::ResetPollingInterval => TuiCommand::ResetPollingInterval,
        }
    }
}

/// What the session asks of a delivery loop that runs in its own process.
#[derive(Debug, Clone, Copy, PartialEq, Eq, Structural)]
pub enum PollingCommand {
    ResetInterval,
}

impl PollingCommand {
    /// The signal that the delivery loop takes for the command.
    pub fn signal(self) -> (r: IpcSignal)
        ensures
            r == IpcSignal::ResetPollingInterval,
    {
        match self {
            PollingCommand::ResetInterval => IpcSignal::ResetPollingInterval,
        }
    }
}

/// What the channel hands to the session's event loop.
#[derive(Debug, Clone, PartialEq, Eq)]
pub enum PushedEvent {
    /// A message arrived.
    NewMessage(Message),
    /// The poll interval changed.
    PollingIntervalUpdate(u64),
}

/// A pushed event as plain values.
pub enum PushedEventView {
    NewMessage(MessageView),
    PollingIntervalUpdate(u64),
}

impl View for PushedEvent {
    type V = PushedEventView;

    open spec fn view(&self) -> PushedEventView {
        match self {
            PushedEvent::NewMessage(message) => PushedEventView::NewMessage(message@),
            PushedEvent::PollingIntervalUpdate(secs) => PushedEventView::PollingIntervalUpdate(
                *secs,
            ),
        }
    }
}

/// Where an event of the agent goes in the session.
#[derive(Debug, Clone, PartialEq, Eq)]
pub struct Routing {
    /// What the event loop is handed.
    pub pushed: Option<PushedEvent>,
    /// What is queued as an answer to a command.
    pub response: Option<DaemonEvent>,
}

/// Where an event goes, as plain values.
pub open spec fn route_of(event: DaemonEventView) -> (
    Option<PushedEventView>,
    Option<DaemonEventView>,
) {
    match event {
        DaemonEventView::NewMessage { message } => (
            Some(PushedEventView::NewMessage(message)),
            None,
        ),
        DaemonEventView::PollingInterval { secs } => (
            Some(PushedEventView::PollingIntervalUpdate(secs)),
            Some(event),
        ),
        _ => (None, Some(event)),
    }
}

/// Routes an event of the agent: a new message goes to the event loop, the
/// poll interval goes to the event loop and to the answers, everything else
/// is an answer.
pub fn route_event(event: DaemonEvent) -> (r: Routing)
    ensures
        route_of(event@) == (
            match r.pushed {
                Some(pushed) => Some(pushed@),
                None => None,
            },
            match r.response {
                Some(response) => Some(response@),
                None => None,
            },
        ),
{
    match event {
        DaemonEvent::NewMessage { message } => Routing {
            pushed: Some(PushedEvent::NewMessage(message)),
            response: None,
        },
        DaemonEvent::PollingInterval { secs } => Routing {
            pushed: Some(PushedEvent::PollingIntervalUpdate(secs)),
            response: Some(DaemonEvent::PollingInterval { secs }),
        },
        other => Routing { pushed: None, response: Some(other) },
    }
}

/// The command that asks the agent for what an action of the front-end
/// needs, where the agent can do it: a contact in a file is read by the
/// front-end first, and the start at login is the front-end's own business.
pub open spec fn command_of(action: ActionView) -> Option<CommandView> {
    match action {
        ActionView::LoadMessages { queue_id, announce } => Some(
            CommandView::LoadMessages { queue_id },
        ),
        ActionView::SendMessage { peer, content } => Some(
            CommandView::SendMessage {
                queue_id: peer.queue_id,
                plaintext: content,
                peer_encrypt_pk: peer.encrypt_pk,
            },
        ),
        ActionView::ImportContact { source } => match source {
            ImportSourceView::Json(json) => Some(CommandView::ImportContact { json }),
            _ => None,
        },
        ActionView::ExportContact { name } => Some(CommandView::ExportContact { name }),
        ActionView::SaveSettings { server_url, polling_interval_secs } => Some(
            CommandView::UpdateConfig { server_url, polling_interval_secs },
        ),
        ActionView::ToggleAutostart => None,
        ActionView::ResetPolling => Some(CommandView::ResetPollingInterval),
    }
}

/// An optional command as plain values.
pub open spec fn sent_view(command: Option<DaemonCommand>) -> Option<CommandView> {
    match command {
        Some(command) => Some(command@),
        None => None,
    }
}

/// The command that an action of the front-end becomes on the control
/// channel.
pub fn command_for(action: &AppAction) -> (r: Option<DaemonCommand>)
    ensures
        sent_view(r) == command_of(action@),
{
    match action {
        AppAction::LoadMessages { queue_id, announce } => Some(
            DaemonCommand::LoadMessages { queue_id: queue_id.clone() },
        ),
        AppAction::SendMessage { peer, content } => Some(
            DaemonCommand::SendMessage {
                queue_id: peer.queue_id.clone(),
                plaintext: content.clone(),
                peer_encrypt_pk: peer.encrypt_pk.clone(),
            },
        ),
        AppAction::ImportContact { source } => match source {
            ImportSource::Json(json) => Some(DaemonCommand::ImportContact { json: json.clone() }),
            _ => None,
        },
        AppAction::ExportContact { name } => Some(
            DaemonCommand::ExportContact { name: name.clone() },
        ),
        AppAction::SaveSettings { server_url, polling_interval_secs } => Some(
            DaemonCommand::UpdateConfig {
                server_url: server_url.clone(),
                polling_interval_secs: *polling_interval_secs,
            },
        ),
        AppAction::ToggleAutostart => None,
        AppAction::ResetPolling => Some(DaemonCommand::ResetPollingInterval),
    }
}

/// The actions that an optional action stands for.
pub open spec fn actions_of(action: Option<ActionView>) -> Seq<ActionView> {
    match action {
        Some(action) => seq![action],
        None => Seq::empty(),
    }
}

impl AppView {
    /// What an answer of the agent does to the front-end. A new message is
    /// announced, and the open conversation is read again where the message
    /// belongs to it; new peers are followed by reading the selected one's
    /// messages. The messages of
    /// another conversation than the open one are left aside; an error goes
    /// to the status line.
    pub open spec fn answered(self, event: DaemonEventView) -> (AppView, Seq<ActionView>) {
        match event {
            DaemonEventView::NewMessage { message } => {
                let refresh = if self.selected_peer_index < self.peers.len()
                    && self.peers[self.selected_peer_index as int].queue_id == message.queue_id {
                    self.load(None)
                } else {
                    None
                };
                (
                    AppView { status_message: Self::announcement(message.sender), ..self },
                    actions_of(refresh),
                )
            },
            DaemonEventView::Messages { queue_id, messages } => if self.selected_peer_index
                < self.peers.len() && self.peers[self.selected_peer_index as int].queue_id
                == queue_id {
                (AppView { messages, chat_scroll_offset: 0, ..self }, Seq::empty())
            } else {
                (self, Seq::empty())
            },
            DaemonEventView::Peers { peers } => {
                let after = AppView {
                    peers,
                    selected_peer_index: if self.selected_peer_index < peers.len() {
                        self.selected_peer_index
                    } else {
                        0
                    },
                    ..self
                };
                (after, actions_of(after.load(None)))
            },
            DaemonEventView::ContactImported { peer } => (
                self.contact_imported(ImportOutcomeView::Imported(peer)),
                Seq::empty(),
            ),
            DaemonEventView::ContactExported { json } => (
                self.contact_exported(
                    ExportOutcomeView::Saved {
                        filename: contact_file_name(trimmed(self.contact_export_name)),
                        json,
                    },
                ),
                Seq::empty(),
            ),
            DaemonEventView::MessageSent => self.message_sent(Ok(Seq::empty())),
            DaemonEventView::PollingInterval { secs } => (
                AppView { current_polling_interval: secs, ..self },
                Seq::empty(),
            ),
            DaemonEventView::Error { message } => (
                AppView { status_message: message, input_mode: InputMode::Normal, ..self },
                Seq::empty(),
            ),
        }
    }
}

/// The list of an optional action.
fn actions_from(action: Option<AppAction>) -> (r: Vec<AppAction>)
    ensures
        r.deep_view() == actions_of(crate::app::action_view(action)),
{
    let mut actions: Vec<AppAction> = Vec::new();
    match action {
        Some(action) => {
            let ghost view = action@;
            actions.push(action);
            assert(actions.deep_view() =~= seq![view]);
        },
        None => {
            assert(actions.deep_view() =~= Seq::<ActionView>::empty());
        },
    }
    actions
}

impl App {
    /// Takes an event of the agent, and says what the front-end has to do
    /// next.
    pub fn handle_daemon_event(&mut self, event: DaemonEvent) -> (r: Vec<AppAction>)
        ensures
            (final(self)@, r.deep_view()) == old(self)@.answered(event@),
    {
        let mut actions: Vec<AppAction> = Vec::new();
        assert(actions.deep_view() =~= Seq::<ActionView>::empty());
        match event {
            DaemonEvent::NewMessage { message } => {
                let refresh = if self.selected_peer_index < self.peers.len() && str_equal(
                    self.peers[self.selected_peer_index].queue_id.as_str(),
                    message.queue_id.as_str(),
                ) {
                    self.load(None)
                } else {
                    None
                };
                self.status_message = prefixed("← ", message.sender.as_str());
                return actions_from(refresh);
            },
            DaemonEvent::Messages { queue_id, messages } => {
                if self.selected_peer_index < self.peers.len() && str_equal(
                    self.peers[self.selected_peer_index].queue_id.as_str(),
                    queue_id.as_str(),
                ) {
                    self.messages = messages;
                    self.chat_scroll_offset = 0;
                }
            },
            DaemonEvent::Peers { peers } => {
                if self.selected_peer_index >= peers.len() {
                    self.selected_peer_index = 0;
                }
                self.peers = peers;
                return actions_from(self.load(None));
            },
            DaemonEvent::ContactImported { peer } => {
                self.contact_imported(ImportOutcome::Imported(peer));
            },
            DaemonEvent::ContactExported { json } => {
                let filename = contact_file(trim(self.contact_export_name.as_str()));
                self.contact_exported(ExportOutcome::Saved { filename, json });
            },
            DaemonEvent::MessageSent => {
                return self.message_sent(Ok(String::new()));
            },
            DaemonEvent::PollingInterval { secs } => {
                self.current_polling_interval = secs;
            },
            DaemonEvent::Error { message } => {
                self.status_message = message;
                self.input_mode = InputMode::Normal;
            },
        }
        actions
    }
}

} // verus!
