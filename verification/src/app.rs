//! The state of the interactive front-end: which view is open, what is being
//! typed, which peer is selected, and what each key does to them.
//!
//! The front-end reads and draws; everything it decides is decided here. A
//! step that needs the outside world returns an [`AppAction`]; the front-end
//! performs it and hands the outcome to the method that the action names.

use vstd::prelude::*;
use vstd::string::{StrSliceExecFns, StringExecFns};
use crate::ipc::{prefixed, ImportError};
use crate::json::text_view;
use crate::storage::{Message, MessageView, Peer, PeerView};
use crate::text::{
    byte_index_of, decimal_digits, decimal_text, ends_with, insert_char, lowercased, parse_u64,
    parsed_u64, remove_char, remove_last_char, starts_with, str_equal, strip_prefixes, to_lowercase,
    trim, trimmed, with_char_at, without_char_at, without_last_char, without_prefixes,
};

verus! {

/// The view that is open.
#[derive(Debug, Clone, Copy, PartialEq, Eq, Structural)]
pub enum MenuState {
    /// The chat with the selected peer.
    Closed,
    /// The list of contacts.
    Contacts,
    /// The form that imports a contact.
    ImportContact,
    /// The form that exports the own contact.
    ExportContact,
    /// The settings.
    Settings,
}

/// Whether keys move or type.
#[derive(Debug, Clone, Copy, PartialEq, Eq, Structural)]
pub enum InputMode {
    /// Keys navigate.
    Normal,
    /// Keys edit the active input.
    Editing,
}

/// The key of a key press, as far as the front-end tells keys apart.
#[derive(Debug, Clone, Copy, PartialEq, Eq, Structural)]
pub enum KeyCode {
    Esc,
    Enter,
    Backspace,
    Delete,
    Left,
    Right,
    Up,
    Down,
    Home,
    End,
    Char(char),
    Other,
}

/// A key press.
#[derive(Debug, Clone, Copy, PartialEq, Eq, Structural)]
pub struct KeyInput {
    pub code: KeyCode,
    pub control: bool,
    pub shift: bool,
}

/// What reaches the front-end's state from outside.
#[derive(Debug, Clone, PartialEq, Eq)]
pub enum AppEvent {
    /// A key was pressed.
    Key(KeyInput),
    /// The delivery loop stored a new message.
    NewMessage(Message),
    /// Time passed: the view is refreshed.
    Tick,
    /// The poll interval changed.
    PollingIntervalUpdate(u64),
    /// Text was pasted or dropped.
    Paste(String),
}

/// Where the contact to import is read from.
#[derive(Debug, Clone, PartialEq, Eq)]
pub enum ImportSource {
    /// The input is the document itself.
    Json(String),
    /// The input names a file, from the root or from the home directory.
    AbsolutePath(String),
    /// The input names a file in the application's data directory.
    RelativePath(String),
}

/// What the front-end has to do after a step.
#[derive(Debug, Clone, PartialEq, Eq)]
pub enum AppAction {
    /// Read the messages of the queue, then call [`App::messages_loaded`].
    LoadMessages { queue_id: String, announce: Option<String> },
    /// Send the text to the peer, then call [`App::message_sent`].
    SendMessage { peer: Peer, content: String },
    /// Read, check and save the contact, then call [`App::contact_imported`].
    ImportContact { source: ImportSource },
    /// Write the own contact under the name, then call [`App::contact_exported`].
    ExportContact { name: String },
    /// Save the settings, then call [`App::settings_saved`].
    SaveSettings { server_url: String, polling_interval_secs: u64 },
    /// Switch the start at login, then call [`App::autostart_toggled`].
    ToggleAutostart,
    /// Tell the delivery loop to start again from its shortest interval.
    ResetPolling,
}

/// A source as plain values.
pub enum ImportSourceView {
    Json(Seq<char>),
    AbsolutePath(Seq<char>),
    RelativePath(Seq<char>),
}

/// An action as plain values.
pub enum ActionView {
    LoadMessages { queue_id: Seq<char>, announce: Option<Seq<char>> },
    SendMessage { peer: PeerView, content: Seq<char> },
    ImportContact { source: ImportSourceView },
    ExportContact { name: Seq<char> },
    SaveSettings { server_url: Seq<char>, polling_interval_secs: u64 },
    ToggleAutostart,
    ResetPolling,
}

impl View for ImportSource {
    type V = ImportSourceView;

    open spec fn view(&self) -> ImportSourceView {
        match self {
            ImportSource::Json(text) => ImportSourceView::Json(text@),
            ImportSource::AbsolutePath(text) => ImportSourceView::AbsolutePath(text@),
            ImportSource::RelativePath(text) => ImportSourceView::RelativePath(text@),
        }
    }
}

impl View for AppAction {
    type V = ActionView;

    open spec fn view(&self) -> ActionView {
        match self {
            AppAction::LoadMessages { queue_id, announce } => ActionView::LoadMessages {
                queue_id: queue_id@,
                announce: match announce {
                    Some(text) => Some(text@),
                    None => None,
                },
            },
            AppAction::SendMessage { peer, content } => ActionView::SendMessage {
                peer: peer@,
                content: content@,
            },
            AppAction::ImportContact { source } => ActionView::ImportContact { source: source@ },
            AppAction::ExportContact { name } => ActionView::ExportContact { name: name@ },
            AppAction::SaveSettings { server_url, polling_interval_secs } => {
                ActionView::SaveSettings {
                    server_url: server_url@,
                    polling_interval_secs: *polling_interval_secs,
                }
            },
            AppAction::ToggleAutostart => ActionView::ToggleAutostart,
            AppAction::ResetPolling => ActionView::ResetPolling,
        }
    }
}

impl DeepView for AppAction {
    type V = ActionView;

    open spec fn deep_view(&self) -> ActionView {
        self@
    }
}

/// An optional action as plain values.
pub open spec fn action_view(action: Option<AppAction>) -> Option<ActionView> {
    match action {
        Some(action) => Some(action@),
        None => None,
    }
}

/// The state of the front-end.
#[derive(Debug, Clone, PartialEq, Eq)]
pub struct App {
    /// The known peers.
    pub peers: Vec<Peer>,
    /// The messages of the open conversation.
    pub messages: Vec<Message>,
    /// The view that is open.
    pub menu_state: MenuState,
    /// Whether keys move or type.
    pub input_mode: InputMode,
    /// The index of the selected peer.
    pub selected_peer_index: usize,
    /// The message that is being typed.
    pub message_input: String,
    /// The cursor in the message, counted in characters.
    pub input_cursor: usize,
    /// Whether the menu of slash commands is open.
    pub show_slash_menu: bool,
    /// The selected entry of that menu.
    pub slash_menu_index: usize,
    /// The input of the import form.
    pub contact_import_input: String,
    /// The input of the export form.
    pub contact_export_name: String,
    /// The contact document that was exported last.
    pub contact_export_json: String,
    /// The selected field of the settings.
    pub settings_selected_field: usize,
    /// The relay's address as typed in the settings.
    pub settings_server_url: String,
    /// The poll interval as typed in the settings.
    pub settings_polling_interval: String,
    /// Whether the agent starts at login.
    pub settings_autostart_enabled: bool,
    /// The line of status at the bottom.
    pub status_message: String,
    /// The poll interval that is shown.
    pub current_polling_interval: u64,
    /// How far the chat is scrolled up from its end.
    pub chat_scroll_offset: usize,
    /// Whether the front-end is to end.
    pub should_quit: bool,
    /// Whether the terminal tells Shift+Enter from Enter.
    pub keyboard_enhancements_supported: bool,
}

/// The state of the front-end as plain values.
pub struct AppView {
    pub peers: Seq<PeerView>,
    pub messages: Seq<MessageView>,
    pub menu_state: MenuState,
    pub input_mode: InputMode,
    pub selected_peer_index: usize,
    pub message_input: Seq<char>,
    pub input_cursor: usize,
    pub show_slash_menu: bool,
    pub slash_menu_index: usize,
    pub contact_import_input: Seq<char>,
    pub contact_export_name: Seq<char>,
    pub contact_export_json: Seq<char>,
    pub settings_selected_field: usize,
    pub settings_server_url: Seq<char>,
    pub settings_polling_interval: Seq<char>,
    pub settings_autostart_enabled: bool,
    pub status_message: Seq<char>,
    pub current_polling_interval: u64,
    pub chat_scroll_offset: usize,
    pub should_quit: bool,
    pub keyboard_enhancements_supported: bool,
}

impl View for App {
    type V = AppView;

    open spec fn view(&self) -> AppView {
        AppView {
            peers: self.peers.deep_view(),
            messages: self.messages.deep_view(),
            menu_state: self.menu_state,
            input_mode: self.input_mode,
            selected_peer_index: self.selected_peer_index,
            message_input: self.message_input@,
            input_cursor: self.input_cursor,
            show_slash_menu: self.show_slash_menu,
            slash_menu_index: self.slash_menu_index,
            contact_import_input: self.contact_import_input@,
            contact_export_name: self.contact_export_name@,
            contact_export_json: self.contact_export_json@,
            settings_selected_field: self.settings_selected_field,
            settings_server_url: self.settings_server_url@,
            settings_polling_interval: self.settings_polling_interval@,
            settings_autostart_enabled: self.settings_autostart_enabled,
            status_message: self.status_message@,
            current_polling_interval: self.current_polling_interval,
            chat_scroll_offset: self.chat_scroll_offset,
            should_quit: self.should_quit,
            keyboard_enhancements_supported: self.keyboard_enhancements_supported,
        }
    }
}

/// The interval that is shown right after the user sent a message.
pub const ACTIVE_INTERVAL_SECS: u64 = 5;

/// The index of the last field of the settings.
pub const LAST_SETTINGS_FIELD: usize = 2;

/// The name alone where it starts with `filter`, nothing otherwise.
pub open spec fn name_if_matching(name: Seq<char>, filter: Seq<char>) -> Seq<Seq<char>> {
    if filter.is_prefix_of(name) {
        seq![name]
    } else {
        Seq::empty()
    }
}

/// The names of the slash commands that start with `filter`, in the order of
/// the menu.
pub open spec fn names_matching(filter: Seq<char>) -> Seq<Seq<char>> {
    name_if_matching("/import"@, filter) + name_if_matching("/export"@, filter)
        + name_if_matching("/contacts"@, filter) + name_if_matching("/settings"@, filter)
        + name_if_matching("/quit"@, filter)
}

/// The names of a list of commands with their descriptions.
pub open spec fn names_of(commands: Seq<(&'static str, &'static str)>) -> Seq<Seq<char>> {
    Seq::new(commands.len(), |i: int| commands[i].0@)
}

/// One more than a count, unless the count is the largest there is.
pub open spec fn next_index(i: usize) -> usize {
    if i < usize::MAX {
        (i + 1) as usize
    } else {
        i
    }
}

/// The byte at which a character of a text starts.
pub fn char_to_byte_index(s: &str, char_idx: usize) -> (r: usize)
    ensures
        r == byte_index_of(s@, char_idx as int),
{
    if char_idx < s.unicode_len() {
        s.substring_char(0, char_idx).as_bytes().len()
    } else {
        s.as_bytes().len()
    }
}

impl AppView {
    /// The action that reads the messages of the selected peer, if a peer
    /// is selected.
    pub open spec fn load(self, announce: Option<Seq<char>>) -> Option<ActionView> {
        if self.selected_peer_index < self.peers.len() {
            Some(
                ActionView::LoadMessages {
                    queue_id: self.peers[self.selected_peer_index as int].queue_id,
                    announce,
                },
            )
        } else {
            None
        }
    }

    /// The selection moves to the peer before, if there is one.
    pub open spec fn up(self) -> (AppView, Option<ActionView>) {
        if self.selected_peer_index > 0 {
            let moved = AppView {
                selected_peer_index: (self.selected_peer_index - 1) as usize,
                ..self
            };
            (moved, moved.load(None))
        } else {
            (self, None)
        }
    }

    /// The selection moves to the peer after, if there is one.
    pub open spec fn down(self) -> (AppView, Option<ActionView>) {
        if self.selected_peer_index + 1 < self.peers.len() {
            let moved = AppView {
                selected_peer_index: (self.selected_peer_index + 1) as usize,
                ..self
            };
            (moved, moved.load(None))
        } else {
            (self, None)
        }
    }

    /// The message input is emptied.
    pub open spec fn cleared(self) -> AppView {
        AppView { message_input: Seq::empty(), input_cursor: 0, ..self }
    }

    /// A character is typed into the active input.
    pub open spec fn typed(self, c: char) -> AppView {
        match self.menu_state {
            MenuState::Closed => AppView {
                message_input: with_char_at(self.message_input, self.input_cursor as int, c),
                input_cursor: next_index(self.input_cursor),
                ..self
            },
            MenuState::ImportContact => AppView {
                contact_import_input: self.contact_import_input.push(c),
                ..self
            },
            MenuState::ExportContact => AppView {
                contact_export_name: self.contact_export_name.push(c),
                ..self
            },
            MenuState::Settings => if self.settings_selected_field == 0 {
                AppView { settings_server_url: self.settings_server_url.push(c), ..self }
            } else if self.settings_selected_field == 1 {
                AppView {
                    settings_polling_interval: self.settings_polling_interval.push(c),
                    ..self
                }
            } else {
                self
            },
            MenuState::Contacts => self,
        }
    }

    /// The character before the cursor of the active input is taken out.
    pub open spec fn backspaced(self) -> AppView {
        match self.menu_state {
            MenuState::Closed => if self.input_cursor > 0 {
                AppView {
                    message_input: without_char_at(self.message_input, self.input_cursor - 1),
                    input_cursor: (self.input_cursor - 1) as usize,
                    ..self
                }
            } else {
                self
            },
            MenuState::ImportContact => AppView {
                contact_import_input: without_last_char(self.contact_import_input),
                ..self
            },
            MenuState::ExportContact => AppView {
                contact_export_name: without_last_char(self.contact_export_name),
                ..self
            },
            MenuState::Settings => if self.settings_selected_field == 0 {
                AppView { settings_server_url: without_last_char(self.settings_server_url), ..self }
            } else if self.settings_selected_field == 1 {
                AppView {
                    settings_polling_interval: without_last_char(self.settings_polling_interval),
                    ..self
                }
            } else {
                self
            },
            MenuState::Contacts => self,
        }
    }

    /// The character at the cursor of the message is taken out.
    pub open spec fn deleted(self) -> AppView {
        if self.menu_state == MenuState::Closed {
            AppView {
                message_input: without_char_at(self.message_input, self.input_cursor as int),
                ..self
            }
        } else {
            self
        }
    }

    /// The names of the slash commands that the typed text can still become.
    pub open spec fn filtered(self) -> Seq<Seq<char>> {
        names_matching(lowercased(trimmed(self.message_input)))
    }

    /// A slash command is carried out.
    pub open spec fn slash_command(self, command: Seq<char>) -> AppView {
        if command == "/contacts"@ || command == "/c"@ {
            AppView {
                menu_state: MenuState::Contacts,
                input_mode: InputMode::Normal,
                ..self.cleared()
            }
        } else if command == "/import"@ || command == "/i"@ {
            AppView {
                menu_state: MenuState::ImportContact,
                contact_import_input: Seq::empty(),
                input_mode: InputMode::Editing,
                ..self.cleared()
            }
        } else if command == "/export"@ || command == "/e"@ {
            AppView {
                menu_state: MenuState::ExportContact,
                contact_export_name: Seq::empty(),
                contact_export_json: Seq::empty(),
                input_mode: InputMode::Editing,
                ..self.cleared()
            }
        } else if command == "/settings"@ || command == "/s"@ {
            AppView {
                menu_state: MenuState::Settings,
                input_mode: InputMode::Normal,
                ..self.cleared()
            }
        } else if command == "/quit"@ || command == "/q"@ {
            AppView { should_quit: true, ..self }
        } else {
            AppView {
                status_message: "Unknown command: "@ + command,
                input_mode: InputMode::Normal,
                ..self.cleared()
            }
        }
    }

    /// The message is submitted: it is sent to the selected peer, unless it
    /// is blank or there is nobody to send it to.
    pub open spec fn submit_message(self) -> (AppView, Option<ActionView>) {
        if trimmed(self.message_input).len() == 0 {
            (AppView { input_mode: InputMode::Normal, status_message: Seq::empty(), ..self }, None)
        } else if self.peers.len() == 0 {
            (
                AppView {
                    input_mode: InputMode::Normal,
                    status_message: "No contacts - import one first"@,
                    ..self.cleared()
                },
                None,
            )
        } else if self.selected_peer_index >= self.peers.len() {
            (
                AppView {
                    input_mode: InputMode::Normal,
                    status_message: "Invalid peer selection"@,
                    ..self
                },
                None,
            )
        } else {
            (
                self,
                Some(
                    ActionView::SendMessage {
                        peer: self.peers[self.selected_peer_index as int],
                        content: self.message_input,
                    },
                ),
            )
        }
    }

    /// The import form is submitted: what was typed is a document where it
    /// starts with a brace, the path of a file otherwise.
    pub open spec fn submit_import(self) -> (AppView, Option<ActionView>) {
        let input = trimmed(self.contact_import_input);
        if input.len() == 0 {
            (
                AppView {
                    status_message: "Empty input"@,
                    input_mode: InputMode::Normal,
                    ..self
                },
                None,
            )
        } else if "{"@.is_prefix_of(input) {
            (self, Some(ActionView::ImportContact { source: ImportSourceView::Json(input) }))
        } else if "/"@.is_prefix_of(input) || "~"@.is_prefix_of(input) {
            (
                self,
                Some(ActionView::ImportContact { source: ImportSourceView::AbsolutePath(input) }),
            )
        } else {
            (
                self,
                Some(ActionView::ImportContact { source: ImportSourceView::RelativePath(input) }),
            )
        }
    }

    /// The export form is submitted.
    pub open spec fn submit_export(self) -> (AppView, Option<ActionView>) {
        let name = trimmed(self.contact_export_name);
        if name.len() == 0 {
            (AppView { status_message: "Name cannot be empty"@, ..self }, None)
        } else {
            (self, Some(ActionView::ExportContact { name }))
        }
    }

    /// The settings are submitted: the third field switches the start at
    /// login; otherwise the address must be one of HTTP and the interval a
    /// positive number.
    pub open spec fn submit_settings(self) -> (AppView, Option<ActionView>) {
        let url = trimmed(self.settings_server_url);
        if self.settings_selected_field == LAST_SETTINGS_FIELD {
            (self, Some(ActionView::ToggleAutostart))
        } else if !("http://"@.is_prefix_of(url) || "https://"@.is_prefix_of(url)) {
            (
                AppView {
                    status_message: "✗ Invalid URL (must start with http:// or https://)"@,
                    input_mode: InputMode::Normal,
                    ..self
                },
                None,
            )
        } else {
            match parsed_u64(trimmed(self.settings_polling_interval)) {
                Some(secs) if secs > 0 => (
                    self,
                    Some(ActionView::SaveSettings { server_url: url, polling_interval_secs: secs }),
                ),
                _ => (
                    AppView {
                        status_message: "✗ Invalid interval (must be positive number)"@,
                        input_mode: InputMode::Normal,
                        ..self
                    },
                    None,
                ),
            }
        }
    }

    /// Enter in editing mode: what it submits depends on the view.
    pub open spec fn submit(self) -> (AppView, Option<ActionView>) {
        match self.menu_state {
            MenuState::Closed => {
                let input = trimmed(self.message_input);
                if "/"@.is_prefix_of(input) {
                    (self.slash_command(input), None)
                } else {
                    self.submit_message()
                }
            },
            MenuState::ImportContact => self.submit_import(),
            MenuState::ExportContact => self.submit_export(),
            MenuState::Settings => self.submit_settings(),
            MenuState::Contacts => (AppView { input_mode: InputMode::Normal, ..self }, None),
        }
    }

    /// A key in normal mode.
    pub open spec fn key_normal(self, key: KeyInput) -> (AppView, Option<ActionView>) {
        match key.code {
            KeyCode::Esc => (
                AppView { menu_state: MenuState::Closed, status_message: Seq::empty(), ..self },
                None,
            ),
            KeyCode::Char(c) => if c == '/' {
                (
                    AppView {
                        input_mode: InputMode::Editing,
                        message_input: self.message_input + "/"@,
                        input_cursor: (self.message_input + "/"@).len() as usize,
                        show_slash_menu: true,
                        slash_menu_index: 0,
                        ..self
                    },
                    None,
                )
            } else if self.menu_state == MenuState::Closed {
                if self.peers.len() > 0 {
                    (AppView { input_mode: InputMode::Editing, ..self }.typed(c), None)
                } else {
                    (
                        AppView {
                            status_message: "No contacts - type /import to add one"@,
                            ..self
                        },
                        None,
                    )
                }
            } else {
                (self, None)
            },
            KeyCode::Up => match self.menu_state {
                MenuState::Contacts => self.up(),
                MenuState::Settings => (
                    AppView {
                        settings_selected_field: if self.settings_selected_field > 0 {
                            (self.settings_selected_field - 1) as usize
                        } else {
                            self.settings_selected_field
                        },
                        ..self
                    },
                    None,
                ),
                MenuState::Closed => (
                    AppView { chat_scroll_offset: next_index(self.chat_scroll_offset), ..self },
                    None,
                ),
                _ => (self, None),
            },
            KeyCode::Down => match self.menu_state {
                MenuState::Contacts => self.down(),
                MenuState::Settings => (
                    AppView {
                        settings_selected_field: if self.settings_selected_field
                            < LAST_SETTINGS_FIELD {
                            (self.settings_selected_field + 1) as usize
                        } else {
                            self.settings_selected_field
                        },
                        ..self
                    },
                    None,
                ),
                MenuState::Closed => (
                    AppView {
                        chat_scroll_offset: if self.chat_scroll_offset > 0 {
                            (self.chat_scroll_offset - 1) as usize
                        } else {
                            self.chat_scroll_offset
                        },
                        ..self
                    },
                    None,
                ),
                _ => (self, None),
            },
            KeyCode::Enter => match self.menu_state {
                MenuState::Settings => self.submit_settings(),
                MenuState::Contacts => if self.selected_peer_index < self.peers.len() {
                    let chat = AppView { menu_state: MenuState::Closed, ..self };
                    (chat, chat.load(None))
                } else {
                    (self, None)
                },
                _ => (self, None),
            },
            _ => (self, None),
        }
    }

    /// The message input is given up.
    pub open spec fn escaped(self) -> AppView {
        AppView {
            input_mode: InputMode::Normal,
            show_slash_menu: false,
            status_message: Seq::empty(),
            ..self.cleared()
        }
    }

    /// A key in editing mode while the menu of slash commands is open.
    pub open spec fn key_in_slash_menu(self, key: KeyInput) -> (AppView, Option<ActionView>) {
        match key.code {
            KeyCode::Esc => (self.escaped(), None),
            KeyCode::Up => (
                AppView {
                    slash_menu_index: if self.filtered().len() > 0 && self.slash_menu_index > 0 {
                        (self.slash_menu_index - 1) as usize
                    } else {
                        self.slash_menu_index
                    },
                    ..self
                },
                None,
            ),
            KeyCode::Down => (
                AppView {
                    slash_menu_index: if self.slash_menu_index + 1 < self.filtered().len() {
                        (self.slash_menu_index + 1) as usize
                    } else {
                        self.slash_menu_index
                    },
                    ..self
                },
                None,
            ),
            KeyCode::Enter => if self.slash_menu_index < self.filtered().len() {
                AppView {
                    message_input: self.filtered()[self.slash_menu_index as int],
                    show_slash_menu: false,
                    ..self
                }.submit()
            } else {
                (self, None)
            },
            KeyCode::Backspace => {
                let shorter = self.backspaced();
                (
                    AppView {
                        show_slash_menu: "/"@.is_prefix_of(shorter.message_input),
                        slash_menu_index: 0,
                        ..shorter
                    },
                    None,
                )
            },
            KeyCode::Char(c) => (AppView { slash_menu_index: 0, ..self.typed(c) }, None),
            _ => (self, None),
        }
    }

    /// A key in editing mode.
    pub open spec fn key_editing(self, key: KeyInput) -> (AppView, Option<ActionView>) {
        if self.show_slash_menu && self.menu_state == MenuState::Closed {
            self.key_in_slash_menu(key)
        } else {
            let in_chat = self.menu_state == MenuState::Closed;
            match key.code {
                KeyCode::Esc => (self.escaped(), None),
                KeyCode::Char(c) => if c == 'j' && key.control {
                    (self.typed('\n'), None)
                } else {
                    (self.typed(c), None)
                },
                KeyCode::Enter => if key.shift {
                    (self.typed('\n'), None)
                } else {
                    self.submit()
                },
                KeyCode::Backspace => (self.backspaced(), None),
                KeyCode::Delete => (self.deleted(), None),
                KeyCode::Left => (
                    AppView {
                        input_cursor: if in_chat && self.input_cursor > 0 {
                            (self.input_cursor - 1) as usize
                        } else {
                            self.input_cursor
                        },
                        ..self
                    },
                    None,
                ),
                KeyCode::Right => (
                    AppView {
                        input_cursor: if in_chat && self.input_cursor < self.message_input.len() {
                            (self.input_cursor + 1) as usize
                        } else {
                            self.input_cursor
                        },
                        ..self
                    },
                    None,
                ),
                KeyCode::Home => (
                    AppView {
                        input_cursor: if in_chat {
                            0
                        } else {
                            self.input_cursor
                        },
                        ..self
                    },
                    None,
                ),
                KeyCode::End => (
                    AppView {
                        input_cursor: if in_chat {
                            self.message_input.len() as usize
                        } else {
                            self.input_cursor
                        },
                        ..self
                    },
                    None,
                ),
                _ => (self, None),
            }
        }
    }

    /// A key: with Control, `c` and `q` end the front-end, `p` and `n` move
    /// the selection; every other key goes by the mode.
    pub open spec fn key(self, key: KeyInput) -> (AppView, Option<ActionView>) {
        if key.control && (key.code == KeyCode::Char('c') || key.code == KeyCode::Char('q')) {
            (AppView { should_quit: true, ..self }, None)
        } else if key.control && key.code == KeyCode::Char('p') {
            self.up()
        } else if key.control && key.code == KeyCode::Char('n') {
            self.down()
        } else {
            match self.input_mode {
                InputMode::Normal => self.key_normal(key),
                InputMode::Editing => self.key_editing(key),
            }
        }
    }

    /// Text is pasted. The import form takes the path of a file where the
    /// text ends in `.json` or is a file address, and a document otherwise;
    /// the other inputs get the text at their end.
    pub open spec fn pasted(self, text: Seq<char>) -> AppView {
        let cut = trimmed(text);
        match self.menu_state {
            MenuState::ImportContact => if ".json"@.is_suffix_of(cut) || "file://"@.is_prefix_of(
                cut,
            ) {
                AppView {
                    contact_import_input: without_prefixes(cut, "file://"@),
                    status_message: "File path pasted - press Enter to import"@,
                    ..self
                }
            } else {
                AppView {
                    contact_import_input: text,
                    status_message: "JSON pasted - press Enter to import"@,
                    ..self
                }
            },
            MenuState::ExportContact => AppView {
                contact_export_name: self.contact_export_name + text,
                ..self
            },
            _ => AppView { message_input: self.message_input + text, ..self },
        }
    }

    /// The line that announces a message of `sender`.
    pub open spec fn announcement(sender: Seq<char>) -> Seq<char> {
        "← "@ + sender
    }

    /// A message arrived: the open conversation is read again where the
    /// message belongs to it, and the sender is announced.
    pub open spec fn new_message(self, message: MessageView) -> (AppView, Option<ActionView>) {
        if self.selected_peer_index < self.peers.len()
            && self.peers[self.selected_peer_index as int].queue_id == message.queue_id {
            (self, self.load(Some(Self::announcement(message.sender))))
        } else {
            (AppView { status_message: Self::announcement(message.sender), ..self }, None)
        }
    }

    /// The messages of the open conversation were read.
    pub open spec fn messages_loaded(
        self,
        loaded: Result<Seq<MessageView>, Seq<char>>,
        announce: Option<Seq<char>>,
    ) -> AppView {
        let after = match loaded {
            Ok(messages) => AppView {
                messages,
                chat_scroll_offset: 0,
                status_message: Seq::empty(),
                ..self
            },
            Err(e) => AppView { status_message: "Load error: "@ + e, ..self },
        };
        match announce {
            Some(line) => AppView { status_message: line, ..after },
            None => after,
        }
    }

    /// The attempt to send the message ended.
    pub open spec fn message_sent(self, sent: Result<Seq<char>, Seq<char>>) -> (
        AppView,
        Seq<ActionView>,
    ) {
        match sent {
            Ok(_) => {
                let after = AppView {
                    status_message: "Sent"@,
                    current_polling_interval: ACTIVE_INTERVAL_SECS,
                    input_mode: InputMode::Normal,
                    ..self.cleared()
                };
                (
                    after,
                    match after.load(None) {
                        Some(load) => seq![load, ActionView::ResetPolling],
                        None => seq![ActionView::ResetPolling],
                    },
                )
            },
            Err(e) => (
                AppView {
                    status_message: "Send failed: "@ + e,
                    input_mode: InputMode::Normal,
                    ..self
                },
                Seq::empty(),
            ),
        }
    }

    /// The settings were saved, or not.
    pub open spec fn settings_saved(self, saved: Result<(), Seq<char>>) -> AppView {
        AppView {
            status_message: match saved {
                Ok(_) => "Settings saved (restart to apply)"@,
                Err(e) => "Save failed: "@ + e,
            },
            input_mode: InputMode::Normal,
            ..self
        }
    }

    /// The start at login was switched: `switched_on` says whether it was
    /// switched on with success, `enabled` what holds now.
    pub open spec fn autostart_toggled(self, switched_on: bool, enabled: bool) -> AppView {
        AppView {
            settings_autostart_enabled: enabled,
            status_message: if switched_on {
                "✓ Daemon will start at login"@
            } else {
                "✓ Autostart disabled"@
            },
            ..self
        }
    }
}

/// What is asked of the operating system to switch the start at login:
/// to enable it where it is disabled, to disable it where it is enabled.
pub fn autostart_request(enabled: bool) -> (enable: bool)
    ensures
        enable == !enabled,
{
    !enabled
}

/// Whether the start at login was switched on: it was off before, and the
/// request to enable it succeeded.
pub fn autostart_switched_on(enabled_before: bool, request_ok: bool) -> (r: bool)
    ensures
        r == (request_ok && !enabled_before),
{
    request_ok && !enabled_before
}

/// How the import of a contact ended.
#[derive(Debug, Clone, PartialEq, Eq)]
pub enum ImportOutcome {
    /// The data directory, which a relative path starts from, was not found.
    DataDirFailed(String),
    /// The file was not read.
    ReadFailed(String),
    /// The document is no contact that can be added.
    Rejected(ImportError),
    /// The peer was not saved.
    SaveFailed(String),
    /// The peer was saved.
    Imported(Peer),
}

/// How the export of the own contact ended.
#[derive(Debug, Clone, PartialEq, Eq)]
pub enum ExportOutcome {
    /// The file was written.
    Saved { filename: String, json: String },
    /// The file was not written.
    WriteFailed(String),
    /// There is no folder to write to.
    NoDownloads,
}

/// An import's end as plain values.
pub enum ImportOutcomeView {
    DataDirFailed(Seq<char>),
    ReadFailed(Seq<char>),
    Rejected(ImportError),
    SaveFailed(Seq<char>),
    Imported(PeerView),
}

/// An export's end as plain values.
pub enum ExportOutcomeView {
    Saved { filename: Seq<char>, json: Seq<char> },
    WriteFailed(Seq<char>),
    NoDownloads,
}

impl View for ImportOutcome {
    type V = ImportOutcomeView;

    open spec fn view(&self) -> ImportOutcomeView {
        match self {
            ImportOutcome::DataDirFailed(e) => ImportOutcomeView::DataDirFailed(e@),
            ImportOutcome::ReadFailed(e) => ImportOutcomeView::ReadFailed(e@),
            ImportOutcome::Rejected(e) => ImportOutcomeView::Rejected(*e),
            ImportOutcome::SaveFailed(e) => ImportOutcomeView::SaveFailed(e@),
            ImportOutcome::Imported(peer) => ImportOutcomeView::Imported(peer@),
        }
    }
}

impl View for ExportOutcome {
    type V = ExportOutcomeView;

    open spec fn view(&self) -> ExportOutcomeView {
        match self {
            ExportOutcome::Saved { filename, json } => ExportOutcomeView::Saved {
                filename: filename@,
                json: json@,
            },
            ExportOutcome::WriteFailed(e) => ExportOutcomeView::WriteFailed(e@),
            ExportOutcome::NoDownloads => ExportOutcomeView::NoDownloads,
        }
    }
}

/// Whether a rejected import empties the form.
pub open spec fn rejection_clears_input(e: ImportError) -> bool {
    e == ImportError::OwnContact || e == ImportError::AlreadyExists
}

/// The status line for a rejected import.
pub open spec fn rejection_text(e: ImportError) -> Seq<char> {
    if e == ImportError::InvalidJson || rejection_clears_input(e) {
        e.text()
    } else {
        "✗ "@ + e.text()
    }
}

impl AppView {
    /// The import of a contact ended.
    pub open spec fn contact_imported(self, outcome: ImportOutcomeView) -> AppView {
        match outcome {
            ImportOutcomeView::DataDirFailed(e) => AppView {
                status_message: "Failed to get data dir: "@ + e,
                input_mode: InputMode::Normal,
                ..self
            },
            ImportOutcomeView::ReadFailed(e) => AppView {
                status_message: "Failed to read file: "@ + e,
                input_mode: InputMode::Normal,
                ..self
            },
            ImportOutcomeView::Rejected(e) => AppView {
                status_message: rejection_text(e),
                contact_import_input: if rejection_clears_input(e) {
                    Seq::empty()
                } else {
                    self.contact_import_input
                },
                input_mode: InputMode::Normal,
                ..self
            },
            ImportOutcomeView::SaveFailed(e) => AppView {
                status_message: "Import failed: "@ + e,
                input_mode: InputMode::Normal,
                ..self
            },
            ImportOutcomeView::Imported(peer) => AppView {
                peers: self.peers.push(peer),
                status_message: "Contact '"@ + peer.name + "' imported"@,
                contact_import_input: Seq::empty(),
                menu_state: MenuState::Closed,
                input_mode: InputMode::Normal,
                ..self
            },
        }
    }

    /// The export of the own contact ended.
    pub open spec fn contact_exported(self, outcome: ExportOutcomeView) -> AppView {
        match outcome {
            ExportOutcomeView::Saved { filename, json } => AppView {
                status_message: "✓ Saved to Downloads: "@ + filename,
                contact_export_json: json,
                input_mode: InputMode::Normal,
                ..self
            },
            ExportOutcomeView::WriteFailed(e) => AppView {
                status_message: "Failed to write file: "@ + e,
                ..self
            },
            ExportOutcomeView::NoDownloads => AppView {
                status_message: "Failed to find Downloads folder"@,
                ..self
            },
        }
    }

    /// What an event does.
    pub open spec fn event(self, event: AppEventView) -> (AppView, Option<ActionView>) {
        match event {
            AppEventView::Key(key) => self.key(key),
            AppEventView::NewMessage(message) => self.new_message(message),
            AppEventView::Tick => (self, self.load(None)),
            AppEventView::PollingIntervalUpdate(secs) => (
                AppView { current_polling_interval: secs, ..self },
                None,
            ),
            AppEventView::Paste(text) => (self.pasted(text), None),
        }
    }

    /// The state in which the front-end starts.
    pub open spec fn initial(
        peers: Seq<PeerView>,
        server_url: Seq<char>,
        polling_interval_secs: u64,
        autostart_enabled: bool,
    ) -> AppView {
        AppView {
            peers,
            messages: Seq::empty(),
            menu_state: MenuState::Closed,
            input_mode: InputMode::Normal,
            selected_peer_index: 0,
            message_input: Seq::empty(),
            input_cursor: 0,
            show_slash_menu: false,
            slash_menu_index: 0,
            contact_import_input: Seq::empty(),
            contact_export_name: Seq::empty(),
            contact_export_json: Seq::empty(),
            settings_selected_field: 0,
            settings_server_url: server_url,
            settings_polling_interval: decimal_digits(polling_interval_secs as nat),
            settings_autostart_enabled: autostart_enabled,
            status_message: Seq::empty(),
            current_polling_interval: polling_interval_secs,
            chat_scroll_offset: 0,
            should_quit: false,
            keyboard_enhancements_supported: false,
        }
    }
}

/// An event as plain values.
pub enum AppEventView {
    Key(KeyInput),
    NewMessage(MessageView),
    Tick,
    PollingIntervalUpdate(u64),
    Paste(Seq<char>),
}

impl View for AppEvent {
    type V = AppEventView;

    open spec fn view(&self) -> AppEventView {
        match self {
            AppEvent::Key(key) => AppEventView::Key(*key),
            AppEvent::NewMessage(message) => AppEventView::NewMessage(message@),
            AppEvent::Tick => AppEventView::Tick,
            AppEvent::PollingIntervalUpdate(secs) => AppEventView::PollingIntervalUpdate(*secs),
            AppEvent::Paste(text) => AppEventView::Paste(text@),
        }
    }
}

/// What reading the messages gave, as plain values.
pub open spec fn loaded_view(loaded: Result<Vec<Message>, String>) -> Result<
    Seq<MessageView>,
    Seq<char>,
> {
    match loaded {
        Ok(messages) => Ok(messages.deep_view()),
        Err(e) => Err(e@),
    }
}

/// A result of two texts as plain values.
pub open spec fn texts_view(r: Result<String, String>) -> Result<Seq<char>, Seq<char>> {
    match r {
        Ok(text) => Ok(text@),
        Err(e) => Err(e@),
    }
}

/// A result with a text for the failure as plain values.
pub open spec fn done_view(r: Result<(), String>) -> Result<(), Seq<char>> {
    match r {
        Ok(_) => Ok(()),
        Err(e) => Err(e@),
    }
}

/// Adds a command to the list where its name starts with `filter`.
fn push_if_matching(
    list: &mut Vec<(&'static str, &'static str)>,
    name: &'static str,
    description: &'static str,
    filter: &str,
)
    ensures
        names_of(final(list)@) == names_of(old(list)@) + name_if_matching(name@, filter@),
{
    let ghost before = names_of(list@);
    if starts_with(name, filter) {
        list.push((name, description));
        assert(names_of(list@) =~= before + seq![name@]);
    } else {
        assert(names_of(list@) =~= before + Seq::<Seq<char>>::empty());
    }
}

impl App {
    /// The front-end as it starts, and the action that reads the first
    /// peer's messages where there is a peer.
    pub fn initialize(
        peers: Vec<Peer>,
        server_url: &str,
        polling_interval_secs: u64,
        autostart_enabled: bool,
    ) -> (r: (App, Option<AppAction>))
        ensures
            r.0@ == AppView::initial(
                peers.deep_view(),
                server_url@,
                polling_interval_secs,
                autostart_enabled,
            ),
            action_view(r.1) == r.0@.load(None),
    {
        let app = App {
            peers,
            messages: Vec::new(),
            menu_state: MenuState::Closed,
            input_mode: InputMode::Normal,
            selected_peer_index: 0,
            message_input: String::new(),
            input_cursor: 0,
            show_slash_menu: false,
            slash_menu_index: 0,
            contact_import_input: String::new(),
            contact_export_name: String::new(),
            contact_export_json: String::new(),
            settings_selected_field: 0,
            settings_server_url: server_url.to_owned(),
            settings_polling_interval: decimal_text(polling_interval_secs),
            settings_autostart_enabled: autostart_enabled,
            status_message: String::new(),
            current_polling_interval: polling_interval_secs,
            chat_scroll_offset: 0,
            should_quit: false,
            keyboard_enhancements_supported: false,
        };
        proof {
            assert(app.messages.deep_view() =~= Seq::<MessageView>::empty());
        }
        let action = app.load(None);
        (app, action)
    }

    /// The action that reads the messages of the selected peer.
    pub fn load(&self, announce: Option<String>) -> (r: Option<AppAction>)
        ensures
            action_view(r) == self@.load(text_view(announce)),
    {
        if self.selected_peer_index < self.peers.len() {
            Some(
                AppAction::LoadMessages {
                    queue_id: self.peers[self.selected_peer_index].queue_id.clone(),
                    announce,
                },
            )
        } else {
            None
        }
    }

    fn handle_up(&mut self) -> (r: Option<AppAction>)
        ensures
            (final(self)@, action_view(r)) == old(self)@.up(),
    {
        if self.selected_peer_index > 0 {
            self.selected_peer_index = self.selected_peer_index - 1;
            self.load(None)
        } else {
            None
        }
    }

    fn handle_down(&mut self) -> (r: Option<AppAction>)
        ensures
            (final(self)@, action_view(r)) == old(self)@.down(),
    {
        if self.peers.len() > 0 && self.selected_peer_index < self.peers.len() - 1 {
            self.selected_peer_index = self.selected_peer_index + 1;
            self.load(None)
        } else {
            None
        }
    }

    fn clear_message_input(&mut self)
        ensures
            final(self)@ == old(self)@.cleared(),
    {
        self.message_input = String::new();
        self.input_cursor = 0;
    }

    fn handle_char_input(&mut self, c: char)
        ensures
            final(self)@ == old(self)@.typed(c),
    {
        match self.menu_state {
            MenuState::Closed => {
                self.message_input = insert_char(self.message_input.as_str(), self.input_cursor, c);
                if self.input_cursor < usize::MAX {
                    self.input_cursor = self.input_cursor + 1;
                }
            },
            MenuState::ImportContact => {
                let end = self.contact_import_input.as_str().unicode_len();
                self.contact_import_input = insert_char(self.contact_import_input.as_str(), end, c);
            },
            MenuState::ExportContact => {
                let end = self.contact_export_name.as_str().unicode_len();
                self.contact_export_name = insert_char(self.contact_export_name.as_str(), end, c);
            },
            MenuState::Settings => {
                if self.settings_selected_field == 0 {
                    let end = self.settings_server_url.as_str().unicode_len();
                    self.settings_server_url = insert_char(
                        self.settings_server_url.as_str(),
                        end,
                        c,
                    );
                } else if self.settings_selected_field == 1 {
                    let end = self.settings_polling_interval.as_str().unicode_len();
                    self.settings_polling_interval = insert_char(
                        self.settings_polling_interval.as_str(),
                        end,
                        c,
                    );
                }
            },
            MenuState::Contacts => {},
        }
    }

    fn handle_backspace(&mut self)
        ensures
            final(self)@ == old(self)@.backspaced(),
    {
        match self.menu_state {
            MenuState::Closed => {
                if self.input_cursor > 0 {
                    self.message_input = remove_char(
                        self.message_input.as_str(),
                        self.input_cursor - 1,
                    );
                    self.input_cursor = self.input_cursor - 1;
                }
            },
            MenuState::ImportContact => {
                self.contact_import_input = remove_last_char(self.contact_import_input.as_str());
            },
            MenuState::ExportContact => {
                self.contact_export_name = remove_last_char(self.contact_export_name.as_str());
            },
            MenuState::Settings => {
                if self.settings_selected_field == 0 {
                    self.settings_server_url = remove_last_char(self.settings_server_url.as_str());
                } else if self.settings_selected_field == 1 {
                    self.settings_polling_interval = remove_last_char(
                        self.settings_polling_interval.as_str(),
                    );
                }
            },
            MenuState::Contacts => {},
        }
    }

    fn handle_delete(&mut self)
        ensures
            final(self)@ == old(self)@.deleted(),
    {
        match self.menu_state {
            MenuState::Closed => {
                self.message_input = remove_char(self.message_input.as_str(), self.input_cursor);
            },
            _ => {},
        }
    }

    /// The slash commands that the typed text can still become, each with
    /// what it does.
    pub fn get_filtered_slash_commands(&self) -> (r: Vec<(&'static str, &'static str)>)
        ensures
            names_of(r@) == self@.filtered(),
    {
        let filter = to_lowercase(trim(self.message_input.as_str()));
        let mut commands: Vec<(&'static str, &'static str)> = Vec::new();
        assert(names_of(commands@) =~= Seq::<Seq<char>>::empty());
        push_if_matching(&mut commands, "/import", "Import a contact from JSON", filter.as_str());
        push_if_matching(
            &mut commands,
            "/export",
            "Export your contact info as JSON",
            filter.as_str(),
        );
        push_if_matching(&mut commands, "/contacts", "View all contacts", filter.as_str());
        push_if_matching(&mut commands, "/settings", "View settings", filter.as_str());
        push_if_matching(&mut commands, "/quit", "Quit application", filter.as_str());
        assert(names_of(commands@) =~= names_matching(filter@));
        commands
    }

    fn handle_slash_command(&mut self, command: &str)
        ensures
            final(self)@ == old(self)@.slash_command(command@),
    {
        if str_equal(command, "/contacts") || str_equal(command, "/c") {
            self.menu_state = MenuState::Contacts;
            self.clear_message_input();
            self.input_mode = InputMode::Normal;
        } else if str_equal(command, "/import") || str_equal(command, "/i") {
            self.menu_state = MenuState::ImportContact;
            self.contact_import_input = String::new();
            self.clear_message_input();
            self.input_mode = InputMode::Editing;
        } else if str_equal(command, "/export") || str_equal(command, "/e") {
            self.menu_state = MenuState::ExportContact;
            self.contact_export_name = String::new();
            self.contact_export_json = String::new();
            self.clear_message_input();
            self.input_mode = InputMode::Editing;
        } else if str_equal(command, "/settings") || str_equal(command, "/s") {
            self.menu_state = MenuState::Settings;
            self.clear_message_input();
            self.input_mode = InputMode::Normal;
        } else if str_equal(command, "/quit") || str_equal(command, "/q") {
            self.should_quit = true;
        } else {
            self.status_message = prefixed("Unknown command: ", command);
            self.clear_message_input();
            self.input_mode = InputMode::Normal;
        }
    }

    fn submit_message(&mut self) -> (r: Option<AppAction>)
        ensures
            (final(self)@, action_view(r)) == old(self)@.submit_message(),
    {
        if trim(self.message_input.as_str()).unicode_len() == 0 {
            self.input_mode = InputMode::Normal;
            self.status_message = String::new();
            return None;
        }
        if self.peers.len() == 0 {
            self.input_mode = InputMode::Normal;
            self.clear_message_input();
            self.status_message = "No contacts - import one first".to_owned();
            return None;
        }
        if self.selected_peer_index >= self.peers.len() {
            self.input_mode = InputMode::Normal;
            self.status_message = "Invalid peer selection".to_owned();
            return None;
        }
        Some(
            AppAction::SendMessage {
                peer: self.peers[self.selected_peer_index].duplicate(),
                content: self.message_input.clone(),
            },
        )
    }

    fn submit_import(&mut self) -> (r: Option<AppAction>)
        ensures
            (final(self)@, action_view(r)) == old(self)@.submit_import(),
    {
        let input = trim(self.contact_import_input.as_str());
        if input.unicode_len() == 0 {
            self.status_message = "Empty input".to_owned();
            self.input_mode = InputMode::Normal;
            return None;
        }
        let source = if starts_with(input, "{") {
            ImportSource::Json(input.to_owned())
        } else if starts_with(input, "/") || starts_with(input, "~") {
            ImportSource::AbsolutePath(input.to_owned())
        } else {
            ImportSource::RelativePath(input.to_owned())
        };
        Some(AppAction::ImportContact { source })
    }

    fn submit_export(&mut self) -> (r: Option<AppAction>)
        ensures
            (final(self)@, action_view(r)) == old(self)@.submit_export(),
    {
        let name = trim(self.contact_export_name.as_str());
        if name.unicode_len() == 0 {
            self.status_message = "Name cannot be empty".to_owned();
            return None;
        }
        Some(AppAction::ExportContact { name: name.to_owned() })
    }

    fn submit_settings(&mut self) -> (r: Option<AppAction>)
        ensures
            (final(self)@, action_view(r)) == old(self)@.submit_settings(),
    {
        if self.settings_selected_field == LAST_SETTINGS_FIELD {
            return Some(AppAction::ToggleAutostart);
        }
        let url = trim(self.settings_server_url.as_str());
        if !(starts_with(url, "http://") || starts_with(url, "https://")) {
            self.status_message = "✗ Invalid URL (must start with http:// or https://)".to_owned();
            self.input_mode = InputMode::Normal;
            return None;
        }
        match parse_u64(trim(self.settings_polling_interval.as_str())) {
            Some(secs) if secs > 0 => Some(
                AppAction::SaveSettings {
                    server_url: url.to_owned(),
                    polling_interval_secs: secs,
                },
            ),
            _ => {
                self.status_message = "✗ Invalid interval (must be positive number)".to_owned();
                self.input_mode = InputMode::Normal;
                None
            },
        }
    }

    fn handle_submit(&mut self) -> (r: Option<AppAction>)
        ensures
            (final(self)@, action_view(r)) == old(self)@.submit(),
    {
        match self.menu_state {
            MenuState::Closed => {
                let input = trim(self.message_input.as_str()).to_owned();
                if starts_with(input.as_str(), "/") {
                    self.handle_slash_command(input.as_str());
                    None
                } else {
                    self.submit_message()
                }
            },
            MenuState::ImportContact => self.submit_import(),
            MenuState::ExportContact => self.submit_export(),
            MenuState::Settings => self.submit_settings(),
            MenuState::Contacts => {
                self.input_mode = InputMode::Normal;
                None
            },
        }
    }
}

impl App {
    fn handle_key_normal(&mut self, key: KeyInput) -> (r: Option<AppAction>)
        ensures
            (final(self)@, action_view(r)) == old(self)@.key_normal(key),
    {
        match key.code {
            KeyCode::Esc => {
                self.menu_state = MenuState::Closed;
                self.status_message = String::new();
                None
            },
            KeyCode::Char(c) => {
                if c == '/' {
                    self.input_mode = InputMode::Editing;
                    self.message_input.append("/");
                    self.input_cursor = self.message_input.as_str().unicode_len();
                    self.show_slash_menu = true;
                    self.slash_menu_index = 0;
                } else if self.menu_state == MenuState::Closed {
                    if self.peers.len() > 0 {
                        self.input_mode = InputMode::Editing;
                        self.handle_char_input(c);
                    } else {
                        self.status_message = "No contacts - type /import to add one".to_owned();
                    }
                }
                None
            },
            KeyCode::Up => match self.menu_state {
                MenuState::Contacts => self.handle_up(),
                MenuState::Settings => {
                    if self.settings_selected_field > 0 {
                        self.settings_selected_field = self.settings_selected_field - 1;
                    }
                    None
                },
                MenuState::Closed => {
                    if self.chat_scroll_offset < usize::MAX {
                        self.chat_scroll_offset = self.chat_scroll_offset + 1;
                    }
                    None
                },
                _ => None,
            },
            KeyCode::Down => match self.menu_state {
                MenuState::Contacts => self.handle_down(),
                MenuState::Settings => {
                    if self.settings_selected_field < LAST_SETTINGS_FIELD {
                        self.settings_selected_field = self.settings_selected_field + 1;
                    }
                    None
                },
                MenuState::Closed => {
                    if self.chat_scroll_offset > 0 {
                        self.chat_scroll_offset = self.chat_scroll_offset - 1;
                    }
                    None
                },
                _ => None,
            },
            KeyCode::Enter => match self.menu_state {
                MenuState::Settings => self.submit_settings(),
                MenuState::Contacts => {
                    if self.selected_peer_index < self.peers.len() {
                        self.menu_state = MenuState::Closed;
                        self.load(None)
                    } else {
                        None
                    }
                },
                _ => None,
            },
            _ => None,
        }
    }

    fn handle_escape(&mut self)
        ensures
            final(self)@ == old(self)@.escaped(),
    {
        self.input_mode = InputMode::Normal;
        self.clear_message_input();
        self.show_slash_menu = false;
        self.status_message = String::new();
    }

    fn handle_key_in_slash_menu(&mut self, key: KeyInput) -> (r: Option<AppAction>)
        ensures
            (final(self)@, action_view(r)) == old(self)@.key_in_slash_menu(key),
    {
        match key.code {
            KeyCode::Esc => {
                self.handle_escape();
                None
            },
            KeyCode::Up => {
                let commands = self.get_filtered_slash_commands();
                if commands.len() > 0 && self.slash_menu_index > 0 {
                    self.slash_menu_index = self.slash_menu_index - 1;
                }
                None
            },
            KeyCode::Down => {
                let commands = self.get_filtered_slash_commands();
                if self.slash_menu_index < usize::MAX && self.slash_menu_index + 1
                    < commands.len() {
                    self.slash_menu_index = self.slash_menu_index + 1;
                }
                None
            },
            KeyCode::Enter => {
                let commands = self.get_filtered_slash_commands();
                if self.slash_menu_index < commands.len() {
                    self.message_input = commands[self.slash_menu_index].0.to_owned();
                    self.show_slash_menu = false;
                    self.handle_submit()
                } else {
                    None
                }
            },
            KeyCode::Backspace => {
                self.handle_backspace();
                self.show_slash_menu = starts_with(self.message_input.as_str(), "/");
                self.slash_menu_index = 0;
                None
            },
            KeyCode::Char(c) => {
                self.handle_char_input(c);
                self.slash_menu_index = 0;
                None
            },
            _ => None,
        }
    }

    fn handle_key_editing(&mut self, key: KeyInput) -> (r: Option<AppAction>)
        ensures
            (final(self)@, action_view(r)) == old(self)@.key_editing(key),
    {
        if self.show_slash_menu && self.menu_state == MenuState::Closed {
            return self.handle_key_in_slash_menu(key);
        }
        let in_chat = self.menu_state == MenuState::Closed;
        match key.code {
            KeyCode::Esc => {
                self.handle_escape();
                None
            },
            KeyCode::Char(c) => {
                if c == 'j' && key.control {
                    self.handle_char_input('\n');
                } else {
                    self.handle_char_input(c);
                }
                None
            },
            KeyCode::Enter => {
                if key.shift {
                    self.handle_char_input('\n');
                    None
                } else {
                    self.handle_submit()
                }
            },
            KeyCode::Backspace => {
                self.handle_backspace();
                None
            },
            KeyCode::Delete => {
                self.handle_delete();
                None
            },
            KeyCode::Left => {
                if in_chat && self.input_cursor > 0 {
                    self.input_cursor = self.input_cursor - 1;
                }
                None
            },
            KeyCode::Right => {
                if in_chat && self.input_cursor < self.message_input.as_str().unicode_len() {
                    self.input_cursor = self.input_cursor + 1;
                }
                None
            },
            KeyCode::Home => {
                if in_chat {
                    self.input_cursor = 0;
                }
                None
            },
            KeyCode::End => {
                if in_chat {
                    self.input_cursor = self.message_input.as_str().unicode_len();
                }
                None
            },
            _ => None,
        }
    }

    fn handle_key(&mut self, key: KeyInput) -> (r: Option<AppAction>)
        ensures
            (final(self)@, action_view(r)) == old(self)@.key(key),
    {
        if key.control {
            match key.code {
                KeyCode::Char(c) => {
                    if c == 'c' || c == 'q' {
                        self.should_quit = true;
                        return None;
                    } else if c == 'p' {
                        return self.handle_up();
                    } else if c == 'n' {
                        return self.handle_down();
                    }
                },
                _ => {},
            }
        }
        match self.input_mode {
            InputMode::Normal => self.handle_key_normal(key),
            InputMode::Editing => self.handle_key_editing(key),
        }
    }

    fn handle_paste(&mut self, text: String)
        ensures
            final(self)@ == old(self)@.pasted(text@),
    {
        match self.menu_state {
            MenuState::ImportContact => {
                let cut = trim(text.as_str());
                if ends_with(cut, ".json") || starts_with(cut, "file://") {
                    self.contact_import_input = strip_prefixes(cut, "file://").to_owned();
                    self.status_message = "File path pasted - press Enter to import".to_owned();
                } else {
                    self.contact_import_input = text;
                    self.status_message = "JSON pasted - press Enter to import".to_owned();
                }
            },
            MenuState::ExportContact => {
                self.contact_export_name.append(text.as_str());
            },
            _ => {
                self.message_input.append(text.as_str());
            },
        }
    }

    fn handle_new_message(&mut self, message: Message) -> (r: Option<AppAction>)
        ensures
            (final(self)@, action_view(r)) == old(self)@.new_message(message@),
    {
        let line = prefixed("← ", message.sender.as_str());
        if self.selected_peer_index < self.peers.len() && str_equal(
            self.peers[self.selected_peer_index].queue_id.as_str(),
            message.queue_id.as_str(),
        ) {
            self.load(Some(line))
        } else {
            self.status_message = line;
            None
        }
    }

    /// Takes an event, and says what the front-end has to do next.
    pub fn handle_event(&mut self, event: AppEvent) -> (r: Option<AppAction>)
        ensures
            (final(self)@, action_view(r)) == old(self)@.event(event@),
    {
        match event {
            AppEvent::Key(key) => self.handle_key(key),
            AppEvent::NewMessage(message) => self.handle_new_message(message),
            AppEvent::Tick => self.load(None),
            AppEvent::PollingIntervalUpdate(secs) => {
                self.current_polling_interval = secs;
                None
            },
            AppEvent::Paste(text) => {
                self.handle_paste(text);
                None
            },
        }
    }

    /// Takes what reading the messages of the open conversation gave. The
    /// line in `announce` is shown afterwards, whatever the reading gave.
    pub fn messages_loaded(&mut self, loaded: Result<Vec<Message>, String>, announce: Option<String>)
        ensures
            final(self)@ == old(self)@.messages_loaded(loaded_view(loaded), text_view(announce)),
    {
        match loaded {
            Ok(messages) => {
                self.messages = messages;
                self.chat_scroll_offset = 0;
                self.status_message = String::new();
            },
            Err(e) => {
                self.status_message = prefixed("Load error: ", e.as_str());
            },
        }
        match announce {
            Some(line) => {
                self.status_message = line;
            },
            None => {},
        }
    }

    /// Takes the end of a send. After a success the input is empty, the
    /// conversation is read again and the delivery loop is told to hurry.
    pub fn message_sent(&mut self, sent: Result<String, String>) -> (r: Vec<AppAction>)
        ensures
            (final(self)@, r.deep_view()) == old(self)@.message_sent(texts_view(sent)),
    {
        let mut actions: Vec<AppAction> = Vec::new();
        match sent {
            Ok(_) => {
                self.status_message = "Sent".to_owned();
                self.clear_message_input();
                self.current_polling_interval = ACTIVE_INTERVAL_SECS;
                self.input_mode = InputMode::Normal;
                match self.load(None) {
                    Some(load) => {
                        let ghost view = load@;
                        actions.push(load);
                        actions.push(AppAction::ResetPolling);
                        assert(actions.deep_view() =~= seq![view, ActionView::ResetPolling]);
                    },
                    None => {
                        actions.push(AppAction::ResetPolling);
                        assert(actions.deep_view() =~= seq![ActionView::ResetPolling]);
                    },
                }
            },
            Err(e) => {
                self.status_message = prefixed("Send failed: ", e.as_str());
                self.input_mode = InputMode::Normal;
                assert(actions.deep_view() =~= Seq::<ActionView>::empty());
            },
        }
        actions
    }

    /// Takes the end of an import.
    pub fn contact_imported(&mut self, outcome: ImportOutcome)
        ensures
            final(self)@ == old(self)@.contact_imported(outcome@),
    {
        match outcome {
            ImportOutcome::DataDirFailed(e) => {
                self.status_message = prefixed("Failed to get data dir: ", e.as_str());
            },
            ImportOutcome::ReadFailed(e) => {
                self.status_message = prefixed("Failed to read file: ", e.as_str());
            },
            ImportOutcome::Rejected(e) => {
                match e {
                    ImportError::InvalidJson => {
                        self.status_message = e.message();
                    },
                    ImportError::OwnContact => {
                        self.status_message = e.message();
                        self.contact_import_input = String::new();
                    },
                    ImportError::AlreadyExists => {
                        self.status_message = e.message();
                        self.contact_import_input = String::new();
                    },
                    _ => {
                        self.status_message = prefixed("✗ ", e.message().as_str());
                    },
                }
            },
            ImportOutcome::SaveFailed(e) => {
                self.status_message = prefixed("Import failed: ", e.as_str());
            },
            ImportOutcome::Imported(peer) => {
                let mut line = prefixed("Contact '", peer.name.as_str());
                line.append("' imported");
                let ghost before = self.peers.deep_view();
                let ghost added = peer@;
                self.peers.push(peer);
                assert(self.peers.deep_view() =~= before.push(added));
                self.status_message = line;
                self.contact_import_input = String::new();
                self.menu_state = MenuState::Closed;
            },
        }
        self.input_mode = InputMode::Normal;
    }

    /// Takes the end of an export.
    pub fn contact_exported(&mut self, outcome: ExportOutcome)
        ensures
            final(self)@ == old(self)@.contact_exported(outcome@),
    {
        match outcome {
            ExportOutcome::Saved { filename, json } => {
                self.status_message = prefixed("✓ Saved to Downloads: ", filename.as_str());
                self.contact_export_json = json;
                self.input_mode = InputMode::Normal;
            },
            ExportOutcome::WriteFailed(e) => {
                self.status_message = prefixed("Failed to write file: ", e.as_str());
            },
            ExportOutcome::NoDownloads => {
                self.status_message = "Failed to find Downloads folder".to_owned();
            },
        }
    }

    /// Takes the end of saving the settings.
    pub fn settings_saved(&mut self, saved: Result<(), String>)
        ensures
            final(self)@ == old(self)@.settings_saved(done_view(saved)),
    {
        match saved {
            Ok(_) => {
                self.status_message = "Settings saved (restart to apply)".to_owned();
            },
            Err(e) => {
                self.status_message = prefixed("Save failed: ", e.as_str());
            },
        }
        self.input_mode = InputMode::Normal;
    }

    /// Takes the end of switching the start at login.
    pub fn autostart_toggled(&mut self, switched_on: bool, enabled: bool)
        ensures
            final(self)@ == old(self)@.autostart_toggled(switched_on, enabled),
    {
        self.settings_autostart_enabled = enabled;
        if switched_on {
            self.status_message = "✓ Daemon will start at login".to_owned();
        } else {
            self.status_message = "✓ Autostart disabled".to_owned();
        }
    }
}

} // verus!
