//! The control channel between the agent and its one interactive session:
//! the commands a session sends, the events the agent answers and pushes, and
//! what the agent does for each command.

use vstd::prelude::*;
use vstd::string::{StrSliceExecFns, StringExecFns};
use vstd::utf8::encode_utf8;
use crate::crypto::{
    conversation_queue_id, from_hex, generate_conversation_queue_id, to_hex, CryptoError, Keypair,
};
use crate::encoding::{
    base64_bytes, base64_encode, base64_fits, base64_text, hex_bytes, hex_string, is_hex_text,
};
use crate::envelope::{
    checks_out, laid_out, open_spec, opens_for_recipient, seal_envelope_with_nonce, seal_spec,
    OpenError,
};
use crate::json::{
    integer_members, integers_size, json_encode_object, json_encode_object_pretty,
    json_object_pretty_text, json_object_text, json_parse, json_parsed, json_size_bound,
    json_string_member, json_string_of, string_members, strings_size, text_view,
};
use crate::platform::{fresh_message_id, unix_time_secs};
use crate::polling::{
    normalized_timestamp, payload_spec, process_spec, PayloadError, PayloadView, ProcessError,
};
use crate::primitives::{random_nonce, x25519_public, KEY_LEN, NONCE_LEN};
use crate::registry::{has_encrypt_pk, knows_key, text_of};
use crate::storage::{
    status_delivered, status_failed, status_sending, status_sent, Config, ConfigView, Message,
    MessageView, Peer, PeerView,
};
use crate::text::{ends_with, replace_char, replaced, str_equal};

verus! {

/// What the control channel tells the delivery loop.
#[derive(Debug, Clone, Copy, PartialEq, Eq, Structural)]
pub enum IpcSignal {
    /// A session attached: poll fast.
    TuiConnected,
    /// The session went away: poll slowly.
    TuiDisconnected,
    /// The user just did something: start again from the shortest interval.
    ResetPollingInterval,
}

/// What the agent knows when it handles a command.
#[derive(Debug, Clone)]
pub struct IpcState {
    /// The identity, once the delivery loop has loaded it.
    pub keypair: Option<Keypair>,
    /// The relay's address.
    pub server_url: String,
    /// The poll interval that a new session is told at once.
    pub current_interval_secs: u64,
}

/// A command of the session to the agent.
#[derive(Debug, Clone, PartialEq, Eq)]
pub enum TuiCommand {
    SendMessage { queue_id: String, plaintext: String, peer_encrypt_pk: String },
    LoadMessages { queue_id: String },
    LoadPeers,
    ImportContact { json: String },
    ExportContact { name: String },
    UpdateConfig { server_url: String, polling_interval_secs: u64 },
    ResetPollingInterval,
}

/// An event of the agent to the session: an answer to a command, or a push.
#[derive(Debug, Clone, PartialEq, Eq)]
pub enum DaemonEvent {
    NewMessage { message: Message },
    Messages { queue_id: String, messages: Vec<Message> },
    Peers { peers: Vec<Peer> },
    ContactImported { peer: Peer },
    ContactExported { json: String },
    MessageSent,
    PollingInterval { secs: u64 },
    Error { message: String },
}

/// An event as plain values.
pub enum DaemonEventView {
    NewMessage { message: MessageView },
    Messages { queue_id: Seq<char>, messages: Seq<MessageView> },
    Peers { peers: Seq<PeerView> },
    ContactImported { peer: PeerView },
    ContactExported { json: Seq<char> },
    MessageSent,
    PollingInterval { secs: u64 },
    Error { message: Seq<char> },
}

impl View for DaemonEvent {
    type V = DaemonEventView;

    open spec fn view(&self) -> DaemonEventView {
        match self {
            DaemonEvent::NewMessage { message } => DaemonEventView::NewMessage {
                message: message@,
            },
            DaemonEvent::Messages { queue_id, messages } => DaemonEventView::Messages {
                queue_id: queue_id@,
                messages: messages.deep_view(),
            },
            DaemonEvent::Peers { peers } => DaemonEventView::Peers { peers: peers.deep_view() },
            DaemonEvent::ContactImported { peer } => DaemonEventView::ContactImported {
                peer: peer@,
            },
            DaemonEvent::ContactExported { json } => DaemonEventView::ContactExported {
                json: json@,
            },
            DaemonEvent::MessageSent => DaemonEventView::MessageSent,
            DaemonEvent::PollingInterval { secs } => DaemonEventView::PollingInterval {
                secs: *secs,
            },
            DaemonEvent::Error { message } => DaemonEventView::Error { message: message@ },
        }
    }
}

impl DeepView for DaemonEvent {
    type V = DaemonEventView;

    open spec fn deep_view(&self) -> DaemonEventView {
        self@
    }
}

/// Why a contact was not imported.
#[derive(Debug, Clone, Copy, PartialEq, Eq, Structural)]
pub enum ImportError {
    InvalidJson,
    MissingName,
    MissingEncryptPk,
    MissingSignPk,
    InvalidEncryptPk,
    InvalidSignPk,
    OwnContact,
    AlreadyExists,
}

impl ImportError {
    /// The text shown for the error.
    pub open spec fn text(self) -> Seq<char> {
        match self {
            ImportError::InvalidJson => "Invalid JSON"@,
            ImportError::MissingName => "Missing 'name' field"@,
            ImportError::MissingEncryptPk => "Missing 'encrypt_pk' field"@,
            ImportError::MissingSignPk => "Missing 'sign_pk' field"@,
            ImportError::InvalidEncryptPk => "Invalid encrypt_pk: Invalid hex"@,
            ImportError::InvalidSignPk => "Invalid sign_pk: Invalid hex"@,
            ImportError::OwnContact => "Cannot import your own contact"@,
            ImportError::AlreadyExists => "Contact already exists"@,
        }
    }

    /// The text as a string.
    pub fn message(&self) -> (r: String)
        ensures
            r@ == self.text(),
    {
        match self {
            ImportError::InvalidJson => "Invalid JSON".to_owned(),
            ImportError::MissingName => "Missing 'name' field".to_owned(),
            ImportError::MissingEncryptPk => "Missing 'encrypt_pk' field".to_owned(),
            ImportError::MissingSignPk => "Missing 'sign_pk' field".to_owned(),
            ImportError::InvalidEncryptPk => "Invalid encrypt_pk: Invalid hex".to_owned(),
            ImportError::InvalidSignPk => "Invalid sign_pk: Invalid hex".to_owned(),
            ImportError::OwnContact => "Cannot import your own contact".to_owned(),
            ImportError::AlreadyExists => "Contact already exists".to_owned(),
        }
    }
}

/// Why a message was not made ready to send.
#[derive(Debug, Clone, Copy, PartialEq, Eq, Structural)]
pub enum SendError {
    /// The peer's encryption key is no well-formed hex.
    InvalidPeerKey,
    /// The envelope was not sealed.
    Seal(CryptoError),
    /// The envelope is too large to be written as base64.
    TooLarge,
}

impl SendError {
    /// The text shown for the error.
    pub open spec fn text(self) -> Seq<char> {
        match self {
            SendError::InvalidPeerKey => "Invalid peer_encrypt_pk: Invalid hex"@,
            SendError::Seal(CryptoError::InvalidSigningSecretKeyLength) => "Sign: "@
                + CryptoError::InvalidSigningSecretKeyLength.text(),
            SendError::Seal(e) => "Encrypt: "@ + e.text(),
            SendError::TooLarge => "Message too large"@,
        }
    }

    /// The text as a string.
    pub fn message(&self) -> (r: String)
        ensures
            r@ == self.text(),
    {
        match self {
            SendError::InvalidPeerKey => "Invalid peer_encrypt_pk: Invalid hex".to_owned(),
            SendError::Seal(CryptoError::InvalidSigningSecretKeyLength) => {
                let mut text = "Sign: ".to_owned();
                text.append(CryptoError::InvalidSigningSecretKeyLength.message().as_str());
                text
            },
            SendError::Seal(e) => {
                let mut text = "Encrypt: ".to_owned();
                text.append(e.message().as_str());
                text
            },
            SendError::TooLarge => "Message too large".to_owned(),
        }
    }
}

/// A message that is ready to leave: the local record of it, and the sealed
/// envelope as the text that is posted to the record's queue.
#[derive(Debug, Clone, PartialEq, Eq)]
pub struct Outbound {
    pub message: Message,
    pub encoded: String,
}

/// An outbound message as plain values.
pub struct OutboundView {
    pub message: MessageView,
    pub encoded: Seq<char>,
}

impl View for Outbound {
    type V = OutboundView;

    open spec fn view(&self) -> OutboundView {
        OutboundView { message: self.message@, encoded: self.encoded@ }
    }
}

/// A contact file: its name and what is written into it.
#[derive(Debug, Clone, PartialEq, Eq)]
pub struct ContactExport {
    pub filename: String,
    pub json: String,
}

/// What the agent has to do for a command before it can answer.
#[derive(Debug, Clone, PartialEq, Eq)]
pub enum CommandStep {
    /// Answer with these events; there is nothing else to do.
    Reply(Vec<DaemonEvent>),
    /// Read the peers, then answer with [`handle_load_peers`].
    LoadPeers,
    /// Read the messages of the queue, then answer with [`handle_load_messages`].
    LoadMessages { queue_id: String },
    /// Read the peers, then go on with [`handle_import_contact`].
    ImportContact { json: String },
    /// Store the record, then go on with [`outbound_stored`].
    StoreOutbound { outbound: Outbound },
    /// Write the file into the downloads folder, then answer with [`contact_written`].
    WriteContact { export: ContactExport },
    /// Save the configuration, then answer with [`handle_update_config`].
    SaveConfig { config: Config },
    /// Hand the signal to the delivery loop; there is no answer.
    Signal(IpcSignal),
}

/// A step as plain values.
pub enum CommandStepView {
    Reply(Seq<DaemonEventView>),
    LoadPeers,
    LoadMessages { queue_id: Seq<char> },
    ImportContact { json: Seq<char> },
    StoreOutbound { outbound: OutboundView },
    WriteContact { filename: Seq<char>, json: Seq<char> },
    SaveConfig { config: ConfigView },
    Signal(IpcSignal),
}

impl View for CommandStep {
    type V = CommandStepView;

    open spec fn view(&self) -> CommandStepView {
        match self {
            CommandStep::Reply(events) => CommandStepView::Reply(events.deep_view()),
            CommandStep::LoadPeers => CommandStepView::LoadPeers,
            CommandStep::LoadMessages { queue_id } => CommandStepView::LoadMessages {
                queue_id: queue_id@,
            },
            CommandStep::ImportContact { json } => CommandStepView::ImportContact { json: json@ },
            CommandStep::StoreOutbound { outbound } => CommandStepView::StoreOutbound {
                outbound: outbound@,
            },
            CommandStep::WriteContact { export } => CommandStepView::WriteContact {
                filename: export.filename@,
                json: export.json@,
            },
            CommandStep::SaveConfig { config } => CommandStepView::SaveConfig { config: config@ },
            CommandStep::Signal(signal) => CommandStepView::Signal(*signal),
        }
    }
}

/// The one event that reports a failure.
pub open spec fn error_events(message: Seq<char>) -> Seq<DaemonEventView> {
    seq![DaemonEventView::Error { message }]
}

/// A result that holds a peer, as plain values.
pub open spec fn peer_result_view(r: Result<Peer, ImportError>) -> Result<PeerView, ImportError> {
    match r {
        Ok(peer) => Ok(peer@),
        Err(e) => Err(e),
    }
}

/// A result that holds an outbound message, as plain values.
pub open spec fn outbound_result_view(r: Result<Outbound, SendError>) -> Result<
    OutboundView,
    SendError,
> {
    match r {
        Ok(outbound) => Ok(outbound@),
        Err(e) => Err(e),
    }
}

/// The text of an identity's own encryption key, or the empty text where no
/// identity is loaded.
pub open spec fn own_key_or_empty(own_encrypt_pk: Option<Seq<char>>) -> Seq<char> {
    match own_encrypt_pk {
        Some(own) => own,
        None => ""@,
    }
}

/// The peer that the members of a contact document make for the identity
/// whose encryption key is `own_encrypt_pk`, beside the peers it knows.
pub open spec fn contact_of_fields(
    name: Option<Seq<char>>,
    encrypt_pk: Option<Seq<char>>,
    sign_pk: Option<Seq<char>>,
    own_encrypt_pk: Option<Seq<char>>,
    existing: Seq<PeerView>,
) -> Result<PeerView, ImportError> {
    if name is None {
        Err(ImportError::MissingName)
    } else if encrypt_pk is None {
        Err(ImportError::MissingEncryptPk)
    } else if sign_pk is None {
        Err(ImportError::MissingSignPk)
    } else if !is_hex_text(encrypt_pk->0) {
        Err(ImportError::InvalidEncryptPk)
    } else if !is_hex_text(sign_pk->0) {
        Err(ImportError::InvalidSignPk)
    } else if own_encrypt_pk == encrypt_pk {
        Err(ImportError::OwnContact)
    } else if knows_key(existing, encrypt_pk->0) {
        Err(ImportError::AlreadyExists)
    } else {
        Ok(
            PeerView {
                name: name->0,
                encrypt_pk: encrypt_pk->0,
                sign_pk: sign_pk->0,
                queue_id: conversation_queue_id(own_key_or_empty(own_encrypt_pk), encrypt_pk->0),
            },
        )
    }
}

/// The peer that a contact document makes.
pub open spec fn import_spec(
    json: Seq<char>,
    own_encrypt_pk: Option<Seq<char>>,
    existing: Seq<PeerView>,
) -> Result<PeerView, ImportError> {
    match json_parsed(encode_utf8(json)) {
        None => Err(ImportError::InvalidJson),
        Some(document) => contact_of_fields(
            json_string_of(document, "name"@),
            json_string_of(document, "encrypt_pk"@),
            json_string_of(document, "sign_pk"@),
            own_encrypt_pk,
            existing,
        ),
    }
}

/// Two identities that import each other's contact derive the same queue,
/// each by itself.
pub proof fn lemma_both_sides_derive_one_queue(
    first: PeerView,
    second: PeerView,
    known_to_first: Seq<PeerView>,
    known_to_second: Seq<PeerView>,
)
    ensures
        contact_of_fields(
            Some(second.name),
            Some(second.encrypt_pk),
            Some(second.sign_pk),
            Some(first.encrypt_pk),
            known_to_first,
        ) matches Ok(at_first) ==> contact_of_fields(
            Some(first.name),
            Some(first.encrypt_pk),
            Some(first.sign_pk),
            Some(second.encrypt_pk),
            known_to_second,
        ) matches Ok(at_second) ==> at_first.queue_id == at_second.queue_id,
{
    crate::crypto::lemma_conversation_queue_id_symmetric(first.encrypt_pk, second.encrypt_pk);
}

/// Makes a peer of the members read from a contact document: both keys must
/// be well-formed hex, the encryption key must be neither the identity's own
/// nor that of a known peer, and the queue id is the one that the two
/// encryption keys share.
pub fn contact_from_fields(
    name: Option<String>,
    encrypt_pk: Option<String>,
    sign_pk: Option<String>,
    own_encrypt_pk: Option<&str>,
    existing: &Vec<Peer>,
) -> (r: Result<Peer, ImportError>)
    ensures
        peer_result_view(r) == contact_of_fields(
            text_view(name),
            text_view(encrypt_pk),
            text_view(sign_pk),
            text_of(own_encrypt_pk),
            existing.deep_view(),
        ),
{
    let name = match name {
        Some(name) => name,
        None => {
            return Err(ImportError::MissingName);
        },
    };
    let encrypt_pk = match encrypt_pk {
        Some(encrypt_pk) => encrypt_pk,
        None => {
            return Err(ImportError::MissingEncryptPk);
        },
    };
    let sign_pk = match sign_pk {
        Some(sign_pk) => sign_pk,
        None => {
            return Err(ImportError::MissingSignPk);
        },
    };
    if from_hex(encrypt_pk.as_str()).is_err() {
        return Err(ImportError::InvalidEncryptPk);
    }
    if from_hex(sign_pk.as_str()).is_err() {
        return Err(ImportError::InvalidSignPk);
    }
    let own = match own_encrypt_pk {
        Some(own) => {
            if str_equal(own, encrypt_pk.as_str()) {
                return Err(ImportError::OwnContact);
            }
            own
        },
        None => "",
    };
    if has_encrypt_pk(existing, encrypt_pk.as_str()) {
        return Err(ImportError::AlreadyExists);
    }
    let queue_id = match generate_conversation_queue_id(own, encrypt_pk.as_str()) {
        Ok(queue_id) => queue_id,
        Err(_) => {
            return Err(ImportError::InvalidEncryptPk);
        },
    };
    Ok(Peer { name, encrypt_pk, sign_pk, queue_id })
}

/// Reads a contact document and makes a peer of it.
pub fn import_contact(json: &str, own_encrypt_pk: Option<&str>, existing: &Vec<Peer>) -> (r: Result<
    Peer,
    ImportError,
>)
    ensures
        peer_result_view(r) == import_spec(json@, text_of(own_encrypt_pk), existing.deep_view()),
{
    let document = match json_parse(json.as_bytes()) {
        Some(document) => document,
        None => {
            return Err(ImportError::InvalidJson);
        },
    };
    let name = json_string_member(&document, "name");
    let encrypt_pk = json_string_member(&document, "encrypt_pk");
    let sign_pk = json_string_member(&document, "sign_pk");
    contact_from_fields(name, encrypt_pk, sign_pk, own_encrypt_pk, existing)
}

/// The name of the file that the contact of `name` is written to.
pub open spec fn contact_file_name(name: Seq<char>) -> Seq<char> {
    "contact-"@ + replaced(name, ' ', '-') + ".json"@
}

/// The members of an identity's contact document.
pub open spec fn contact_members(name: Seq<char>, keypair: Keypair) -> Seq<
    (Seq<char>, Seq<char>),
> {
    seq![
        ("name"@, name),
        ("encrypt_pk"@, hex_string(keypair.encrypt_pk@)),
        ("sign_pk"@, hex_string(keypair.sign_pk@)),
    ]
}

/// Whoever imports the document `json` reads in it the name and the two
/// keys of `keypair` as hex, whatever its own key and the peers it knows.
pub open spec fn imports_back(json: Seq<char>, name: Seq<char>, keypair: Keypair) -> bool {
    forall|own_encrypt_pk: Option<Seq<char>>, existing: Seq<PeerView>| #[trigger]
        import_spec(json, own_encrypt_pk, existing) == contact_of_fields(
            Some(name),
            Some(hex_string(keypair.encrypt_pk@)),
            Some(hex_string(keypair.sign_pk@)),
            own_encrypt_pk,
            existing,
        )
}

/// What the members of a contact document are read as.
proof fn lemma_contact_members(name: Seq<char>, keypair: Keypair)
    ensures
        string_members(contact_members(name, keypair)).contains_key("name"@),
        string_members(contact_members(name, keypair))["name"@] == name,
        string_members(contact_members(name, keypair)).contains_key("encrypt_pk"@),
        string_members(contact_members(name, keypair))["encrypt_pk"@] == hex_string(
            keypair.encrypt_pk@,
        ),
        string_members(contact_members(name, keypair)).contains_key("sign_pk"@),
        string_members(contact_members(name, keypair))["sign_pk"@] == hex_string(
            keypair.sign_pk@,
        ),
{
    reveal_strlit("name");
    reveal_strlit("encrypt_pk");
    reveal_strlit("sign_pk");
    assert("name"@.len() != "encrypt_pk"@.len());
    assert("name"@.len() != "sign_pk"@.len());
    assert("encrypt_pk"@.len() != "sign_pk"@.len());
    let three = contact_members(name, keypair);
    let two = seq![("name"@, name), ("encrypt_pk"@, hex_string(keypair.encrypt_pk@))];
    let one = seq![("name"@, name)];
    assert(three.drop_last() =~= two);
    assert(two.drop_last() =~= one);
    assert(one.drop_last() =~= Seq::<(Seq<char>, Seq<char>)>::empty());
    assert(string_members(one.drop_last()) == Map::<Seq<char>, Seq<char>>::empty());
    assert(string_members(one) == Map::<Seq<char>, Seq<char>>::empty().insert("name"@, name));
    assert(string_members(two) == string_members(one).insert(
        "encrypt_pk"@,
        hex_string(keypair.encrypt_pk@),
    ));
    assert(string_members(three) == string_members(two).insert(
        "sign_pk"@,
        hex_string(keypair.sign_pk@),
    ));
}

/// An exported contact can be imported: whoever has another encryption key
/// and does not know the exporter's yet gets a peer with the exported name
/// and keys, on the queue that the two encryption keys share.
pub proof fn lemma_exported_contact_is_importable(
    json: Seq<char>,
    name: Seq<char>,
    keypair: Keypair,
    own_encrypt_pk: Option<Seq<char>>,
    existing: Seq<PeerView>,
)
    requires
        imports_back(json, name, keypair),
        own_encrypt_pk != Some(hex_string(keypair.encrypt_pk@)),
        !knows_key(existing, hex_string(keypair.encrypt_pk@)),
    ensures
        import_spec(json, own_encrypt_pk, existing) == Ok::<PeerView, ImportError>(
            PeerView {
                name: name,
                encrypt_pk: hex_string(keypair.encrypt_pk@),
                sign_pk: hex_string(keypair.sign_pk@),
                queue_id: conversation_queue_id(
                    own_key_or_empty(own_encrypt_pk),
                    hex_string(keypair.encrypt_pk@),
                ),
            },
        ),
{
    crate::encoding::lemma_hex_round_trip(keypair.encrypt_pk@);
    crate::encoding::lemma_hex_round_trip(keypair.sign_pk@);
    assert(import_spec(json, own_encrypt_pk, existing) == contact_of_fields(
        Some(name),
        Some(hex_string(keypair.encrypt_pk@)),
        Some(hex_string(keypair.sign_pk@)),
        own_encrypt_pk,
        existing,
    ));
}

/// The contact document of an identity under a name, and the file it goes
/// to. The document can be imported: it reads back as the name and the keys.
pub fn export_contact(name: &str, keypair: &Keypair) -> (r: Option<ContactExport>)
    ensures
        r matches Some(export) && export.filename@ == contact_file_name(name@) && export.json@
            == json_object_pretty_text(contact_members(name@, *keypair)),
        r matches Some(export) && imports_back(export.json@, name@, *keypair),
{
    let mut members: Vec<(String, String)> = Vec::new();
    members.push(("name".to_owned(), name.to_owned()));
    members.push(("encrypt_pk".to_owned(), to_hex(keypair.encrypt_pk.as_slice())));
    members.push(("sign_pk".to_owned(), to_hex(keypair.sign_pk.as_slice())));
    proof {
        reveal_strlit("name");
        reveal_strlit("encrypt_pk");
        reveal_strlit("sign_pk");
        assert(members.deep_view() =~= contact_members(name@, *keypair));
        assert("name"@.len() != "encrypt_pk"@.len());
        assert("name"@.len() != "sign_pk"@.len());
        assert("encrypt_pk"@.len() != "sign_pk"@.len());
    }
    let json = json_encode_object_pretty(&members)?;
    proof {
        lemma_contact_members(name@, *keypair);
        assert forall|own_encrypt_pk: Option<Seq<char>>, existing: Seq<PeerView>| #[trigger]
            import_spec(json@, own_encrypt_pk, existing) == contact_of_fields(
                Some(name@),
                Some(hex_string(keypair.encrypt_pk@)),
                Some(hex_string(keypair.sign_pk@)),
                own_encrypt_pk,
                existing,
            ) by {
            let document = json_parsed(encode_utf8(json@))->0;
            assert(json_string_of(document, "name"@) == Some(name@));
            assert(json_string_of(document, "encrypt_pk"@) == Some(
                hex_string(keypair.encrypt_pk@),
            ));
            assert(json_string_of(document, "sign_pk"@) == Some(hex_string(keypair.sign_pk@)));
        }
    }
    Some(ContactExport { filename: contact_file(name), json })
}

/// The name of the file that the contact of `name` is written to: spaces
/// become dashes.
pub fn contact_file(name: &str) -> (r: String)
    ensures
        r@ == contact_file_name(name@),
{
    let mut filename = "contact-".to_owned();
    let dashed = replace_char(name, ' ', '-');
    filename.append(dashed.as_str());
    filename.append(".json");
    filename
}

/// The members of a message payload that are strings.
pub open spec fn payload_strings(content: Seq<char>, sender_id: Seq<char>) -> Seq<
    (Seq<char>, Seq<char>),
> {
    seq![("type"@, "text"@), ("content"@, content), ("sender_id"@, sender_id)]
}

/// The payload that goes into the envelope of a text message.
pub open spec fn payload_text(content: Seq<char>, timestamp: i64, sender_id: Seq<char>) -> Seq<u8> {
    json_object_text(payload_strings(content, sender_id), seq![("timestamp"@, timestamp)])
}

/// The local record of a message on its way out.
pub open spec fn sending_record(
    local_id: Seq<char>,
    queue_id: Seq<char>,
    content: Seq<char>,
    timestamp: i64,
) -> MessageView {
    MessageView {
        id: local_id,
        queue_id: queue_id,
        sender: "You"@,
        content: content,
        timestamp: timestamp,
        msg_type: "text"@,
        status: status_sending(),
        is_outbound: true,
    }
}

/// What `keypair` makes ready to send to the holder of `peer_encrypt_pk`, at
/// the given time, under the given local id, with the given nonce.
pub open spec fn outbound_spec(
    keypair: Keypair,
    queue_id: Seq<char>,
    plaintext: Seq<char>,
    peer_encrypt_pk: Seq<char>,
    timestamp: i64,
    local_id: Seq<char>,
    nonce: Seq<u8>,
) -> Result<OutboundView, SendError> {
    if !is_hex_text(peer_encrypt_pk) {
        Err(SendError::InvalidPeerKey)
    } else {
        match seal_spec(
            payload_text(plaintext, timestamp, hex_string(keypair.encrypt_pk@)),
            hex_bytes(peer_encrypt_pk),
            keypair,
            nonce,
        ) {
            Err(e) => Err(SendError::Seal(e)),
            Ok(envelope) => if !base64_fits(envelope.len()) {
                Err(SendError::TooLarge)
            } else {
                Ok(
                    OutboundView {
                        message: sending_record(local_id, queue_id, plaintext, timestamp),
                        encoded: base64_text(envelope),
                    },
                )
            },
        }
    }
}

/// The text in `encoded` is an envelope that every holder of the secret key
/// behind `peer_encrypt_pk`, but the sender, opens to the payload.
pub open spec fn reaches_recipient(
    encoded: Seq<char>,
    keypair: Keypair,
    plaintext: Seq<char>,
    peer_encrypt_pk: Seq<char>,
    timestamp: i64,
) -> bool {
    match base64_bytes(encoded) {
        Some(envelope) => opens_for_recipient(
            envelope,
            payload_text(plaintext, timestamp, hex_string(keypair.encrypt_pk@)),
            hex_bytes(peer_encrypt_pk),
            keypair.sign_pk@,
        ),
        None => false,
    }
}

/// The envelope that `keypair` seals around the payload of a text message.
pub open spec fn sealed_message(
    keypair: Keypair,
    plaintext: Seq<char>,
    peer_encrypt_pk: Seq<char>,
    timestamp: i64,
    nonce: Seq<u8>,
) -> Result<Seq<u8>, CryptoError> {
    seal_spec(
        payload_text(plaintext, timestamp, hex_string(keypair.encrypt_pk@)),
        hex_bytes(peer_encrypt_pk),
        keypair,
        nonce,
    )
}

/// The text `encoded` is the base64 of the sealed envelope: it decodes to
/// that envelope, whose parts stand where they belong and which, for a valid
/// sender, passes the recipient's two checks.
pub open spec fn posts_envelope(
    encoded: Seq<char>,
    keypair: Keypair,
    plaintext: Seq<char>,
    peer_encrypt_pk: Seq<char>,
    timestamp: i64,
    nonce: Seq<u8>,
) -> bool {
    let payload = payload_text(plaintext, timestamp, hex_string(keypair.encrypt_pk@));
    match sealed_message(keypair, plaintext, peer_encrypt_pk, timestamp, nonce) {
        Ok(envelope) => {
            &&& base64_bytes(encoded) == Some(envelope)
            &&& laid_out(envelope, keypair, nonce, payload.len())
            &&& checks_out(envelope, payload, hex_bytes(peer_encrypt_pk), keypair)
        },
        Err(_) => false,
    }
}

/// Texts of up to this many characters are sent on every machine.
pub const MAX_SURE_TEXT: usize = 100_000_000;

/// A text for which sending is owed: the identity's keys have their lengths,
/// the peer's key is the hex of 32 bytes, and the text is not huge.
pub open spec fn surely_sent(
    keypair: Keypair,
    plaintext: Seq<char>,
    peer_encrypt_pk: Seq<char>,
) -> bool {
    &&& keypair.well_formed()
    &&& is_hex_text(peer_encrypt_pk)
    &&& peer_encrypt_pk.len() == 2 * KEY_LEN
    &&& plaintext.len() <= MAX_SURE_TEXT
}

/// The most bytes that the payload of a text message takes.
proof fn lemma_payload_size(content: Seq<char>, sender_id: Seq<char>, timestamp: i64)
    ensures
        json_size_bound(payload_strings(content, sender_id), seq![("timestamp"@, timestamp)])
            == 242 + 6 * content.len() + 6 * sender_id.len(),
{
    reveal_strlit("type");
    reveal_strlit("text");
    reveal_strlit("content");
    reveal_strlit("sender_id");
    reveal_strlit("timestamp");
    let three = payload_strings(content, sender_id);
    let two = seq![("type"@, "text"@), ("content"@, content)];
    let one = seq![("type"@, "text"@)];
    assert(three.drop_last() =~= two);
    assert(two.drop_last() =~= one);
    assert(one.drop_last() =~= Seq::<(Seq<char>, Seq<char>)>::empty());
    assert(strings_size(one.drop_last()) == 0);
    assert(strings_size(one) == 54);
    assert(strings_size(two) == 54 + 48 + 6 * content.len());
    assert(strings_size(three) == 54 + 48 + 6 * content.len() + 60 + 6 * sender_id.len());
    let stamp = seq![("timestamp"@, timestamp)];
    assert(stamp.drop_last() =~= Seq::<(Seq<char>, i64)>::empty());
    assert(integers_size(stamp.drop_last()) == 0);
    assert(integers_size(stamp) == 78);
}

/// The record that the peer keeps of a text message that `keypair` sent.
pub open spec fn arrived_record(
    blob_id: Seq<char>,
    queue_id: Seq<char>,
    keypair: Keypair,
    plaintext: Seq<char>,
    timestamp: i64,
) -> MessageView {
    MessageView {
        id: blob_id,
        queue_id: queue_id,
        sender: hex_string(keypair.encrypt_pk@),
        content: plaintext,
        timestamp: normalized_timestamp(timestamp),
        msg_type: "text"@,
        status: status_delivered(),
        is_outbound: false,
    }
}

/// Whoever holds the secret key behind `peer_encrypt_pk`, but the sender,
/// and fetches `encoded` as a blob of a queue, gets the message that was
/// sent: the text, the time in seconds, and the sender's key as the sender.
pub open spec fn arrives_as_sent(
    encoded: Seq<char>,
    keypair: Keypair,
    plaintext: Seq<char>,
    peer_encrypt_pk: Seq<char>,
    timestamp: i64,
) -> bool {
    forall|
        blob_id: Seq<char>,
        queue_id: Seq<char>,
        local_sign_pk: Seq<u8>,
        local_encrypt_sk: Seq<u8>,
    |
        local_encrypt_sk.len() == KEY_LEN && hex_bytes(peer_encrypt_pk) == x25519_public(
            local_encrypt_sk,
        ) && local_sign_pk != keypair.sign_pk@ ==> #[trigger] process_spec(
            blob_id,
            encoded,
            queue_id,
            local_sign_pk,
            local_encrypt_sk,
        ) == Ok::<MessageView, ProcessError>(
            arrived_record(blob_id, queue_id, keypair, plaintext, timestamp),
        )
}

/// What the members of a text message's payload are read as.
proof fn lemma_payload_members(content: Seq<char>, sender_id: Seq<char>, timestamp: i64)
    ensures
        string_members(payload_strings(content, sender_id)).contains_key("content"@),
        string_members(payload_strings(content, sender_id))["content"@] == content,
        string_members(payload_strings(content, sender_id)).contains_key("sender_id"@),
        string_members(payload_strings(content, sender_id))["sender_id"@] == sender_id,
        string_members(payload_strings(content, sender_id)).contains_key("type"@),
        string_members(payload_strings(content, sender_id))["type"@] == "text"@,
        integer_members(seq![("timestamp"@, timestamp)]).contains_key("timestamp"@),
        integer_members(seq![("timestamp"@, timestamp)])["timestamp"@] == timestamp,
{
    reveal_strlit("type");
    reveal_strlit("content");
    reveal_strlit("sender_id");
    assert("type"@.len() != "content"@.len());
    assert("type"@.len() != "sender_id"@.len());
    assert("content"@.len() != "sender_id"@.len());
    let three = payload_strings(content, sender_id);
    let two = seq![("type"@, "text"@), ("content"@, content)];
    let one = seq![("type"@, "text"@)];
    assert(three.drop_last() =~= two);
    assert(two.drop_last() =~= one);
    assert(one.drop_last() =~= Seq::<(Seq<char>, Seq<char>)>::empty());
    assert(string_members(one.drop_last()) == Map::<Seq<char>, Seq<char>>::empty());
    assert(string_members(one) == Map::<Seq<char>, Seq<char>>::empty().insert("type"@, "text"@));
    assert(string_members(two) == string_members(one).insert("content"@, content));
    assert(string_members(three) == string_members(two).insert("sender_id"@, sender_id));
    let stamp = seq![("timestamp"@, timestamp)];
    assert(stamp.drop_last() =~= Seq::<(Seq<char>, i64)>::empty());
    assert(integer_members(stamp.drop_last()) == Map::<Seq<char>, i64>::empty());
    assert(integer_members(stamp) == Map::<Seq<char>, i64>::empty().insert(
        "timestamp"@,
        timestamp,
    ));
}

/// Makes a text message ready to send: builds the payload, seals it for the
/// peer, writes the envelope as base64, and makes the local record, which is
/// outbound and has the status `sending`. What the sender of a valid identity
/// makes ready, the peer receives as sent.
pub fn prepare_outbound(
    keypair: &Keypair,
    queue_id: &str,
    plaintext: &str,
    peer_encrypt_pk: &str,
    timestamp: i64,
    local_id: String,
    nonce: &[u8],
) -> (r: Result<Outbound, SendError>)
    ensures
        outbound_result_view(r) == outbound_spec(
            *keypair,
            queue_id@,
            plaintext@,
            peer_encrypt_pk@,
            timestamp,
            local_id@,
            nonce@,
        ),
        r matches Ok(outbound) ==> keypair.valid() ==> reaches_recipient(
            outbound.encoded@,
            *keypair,
            plaintext@,
            peer_encrypt_pk@,
            timestamp,
        ),
        r matches Ok(outbound) ==> keypair.valid() ==> arrives_as_sent(
            outbound.encoded@,
            *keypair,
            plaintext@,
            peer_encrypt_pk@,
            timestamp,
        ),
        r matches Ok(outbound) ==> posts_envelope(
            outbound.encoded@,
            *keypair,
            plaintext@,
            peer_encrypt_pk@,
            timestamp,
            nonce@,
        ),
        surely_sent(*keypair, plaintext@, peer_encrypt_pk@) && nonce@.len() == NONCE_LEN
            ==> r is Ok,
{
    let recipient = match from_hex(peer_encrypt_pk) {
        Ok(recipient) => recipient,
        Err(_) => {
            return Err(SendError::InvalidPeerKey);
        },
    };
    let mut strings: Vec<(String, String)> = Vec::new();
    strings.push(("type".to_owned(), "text".to_owned()));
    strings.push(("content".to_owned(), plaintext.to_owned()));
    strings.push(("sender_id".to_owned(), to_hex(keypair.encrypt_pk.as_slice())));
    let mut integers: Vec<(String, i64)> = Vec::new();
    integers.push(("timestamp".to_owned(), timestamp));
    proof {
        assert(strings.deep_view() =~= payload_strings(
            plaintext@,
            hex_string(keypair.encrypt_pk@),
        ));
        assert(integers.deep_view() =~= seq![("timestamp"@, timestamp)]);
        reveal_strlit("type");
        reveal_strlit("content");
        reveal_strlit("sender_id");
        reveal_strlit("timestamp");
        assert("type"@.len() != "content"@.len());
        assert("type"@.len() != "sender_id"@.len());
        assert("content"@.len() != "sender_id"@.len());
        assert("type"@.len() != "timestamp"@.len());
        assert("content"@.len() != "timestamp"@.len());
        assert("sender_id"@[0] != "timestamp"@[0]);
    }
    let payload = match json_encode_object(&strings, &integers) {
        Some(payload) => payload,
        None => {
            return Err(SendError::TooLarge);
        },
    };
    proof {
        lemma_payload_size(plaintext@, hex_string(keypair.encrypt_pk@), timestamp);
        crate::encoding::lemma_hex_string_shape(keypair.encrypt_pk@);
    }
    let envelope = match seal_envelope_with_nonce(
        payload.as_slice(),
        recipient.as_slice(),
        keypair,
        nonce,
    ) {
        Ok(envelope) => envelope,
        Err(e) => {
            return Err(SendError::Seal(e));
        },
    };
    if envelope.len() / 3 + 1 > usize::MAX / 4 {
        return Err(SendError::TooLarge);
    }
    let encoded = base64_encode(envelope.as_slice());
    proof {
        if keypair.valid() {
            let sender_id = hex_string(keypair.encrypt_pk@);
            lemma_payload_members(plaintext@, sender_id, timestamp);
            assert(payload_spec(payload@) == Ok::<PayloadView, PayloadError>(
                PayloadView {
                    msg_type: "text"@,
                    content: plaintext@,
                    timestamp: normalized_timestamp(timestamp),
                    sender_id,
                },
            ));
            assert forall|
                blob_id: Seq<char>,
                queue: Seq<char>,
                local_sign_pk: Seq<u8>,
                local_encrypt_sk: Seq<u8>,
            |
                local_encrypt_sk.len() == KEY_LEN && hex_bytes(peer_encrypt_pk@) == x25519_public(
                    local_encrypt_sk,
                ) && local_sign_pk != keypair.sign_pk@ implies #[trigger] process_spec(
                blob_id,
                encoded@,
                queue,
                local_sign_pk,
                local_encrypt_sk,
            ) == Ok::<MessageView, ProcessError>(
                arrived_record(blob_id, queue, *keypair, plaintext@, timestamp),
            ) by {
                assert(open_spec(envelope@, local_sign_pk, local_encrypt_sk) == Ok::<
                    Seq<u8>,
                    OpenError,
                >(payload@));
            }
        }
    }
    let message = Message {
        id: local_id,
        queue_id: queue_id.to_owned(),
        sender: "You".to_owned(),
        content: plaintext.to_owned(),
        timestamp,
        msg_type: "text".to_owned(),
        status: "sending".to_owned(),
        is_outbound: true,
    };
    Ok(Outbound { message, encoded })
}

/// The step of a send command for an agent that holds `keypair`, where the
/// preparation came to `prepared`.
pub open spec fn send_step_of(prepared: Result<OutboundView, SendError>) -> CommandStepView {
    match prepared {
        Ok(outbound) => CommandStepView::StoreOutbound { outbound },
        Err(e) => CommandStepView::Reply(error_events(e.text())),
    }
}

/// What a send command comes to: without an identity an error; with one, the
/// step of [`outbound_spec`] for the time at which the command was handled, a
/// fresh id and a fresh nonce.
pub open spec fn send_step_holds(
    step: CommandStepView,
    keypair: Option<Keypair>,
    queue_id: Seq<char>,
    plaintext: Seq<char>,
    peer_encrypt_pk: Seq<char>,
) -> bool {
    match keypair {
        None => step == CommandStepView::Reply(error_events("Keypair not loaded"@)),
        Some(keypair) => {
            &&& exists|timestamp: i64, local_id: Seq<char>, nonce: Seq<u8>|
                nonce.len() == NONCE_LEN && step == send_step_of(
                    #[trigger] outbound_spec(
                        keypair,
                        queue_id,
                        plaintext,
                        peer_encrypt_pk,
                        timestamp,
                        local_id,
                        nonce,
                    ),
                ) && posted_as_sealed(step, keypair, plaintext, peer_encrypt_pk, timestamp, nonce)
            &&& surely_sent(keypair, plaintext, peer_encrypt_pk) ==> step is StoreOutbound
            &&& step matches CommandStepView::StoreOutbound { outbound } ==> {
                &&& outbound.message.queue_id == queue_id
                &&& outbound.message.content == plaintext
                &&& outbound.message.status == status_sending()
                &&& outbound.message.is_outbound
            }
        },
    }
}

/// Where the step is to store a record, the text that is posted with it is
/// the sealed envelope of the message, and the peer receives what was sent.
pub open spec fn posted_as_sealed(
    step: CommandStepView,
    keypair: Keypair,
    plaintext: Seq<char>,
    peer_encrypt_pk: Seq<char>,
    timestamp: i64,
    nonce: Seq<u8>,
) -> bool {
    match step {
        CommandStepView::StoreOutbound { outbound } => {
            &&& posts_envelope(
                outbound.encoded,
                keypair,
                plaintext,
                peer_encrypt_pk,
                timestamp,
                nonce,
            )
            &&& keypair.valid() ==> arrives_as_sent(
                outbound.encoded,
                keypair,
                plaintext,
                peer_encrypt_pk,
                timestamp,
            )
        },
        _ => true,
    }
}

/// What an export command comes to.
pub open spec fn export_step_of(name: Seq<char>, keypair: Option<Keypair>) -> CommandStepView {
    match keypair {
        None => CommandStepView::Reply(error_events("Keypair not loaded"@)),
        Some(keypair) => CommandStepView::WriteContact {
            filename: contact_file_name(name),
            json: json_object_pretty_text(contact_members(name, keypair)),
        },
    }
}

/// The one event that reports `message` as a failure.
pub fn error_reply(message: String) -> (r: Vec<DaemonEvent>)
    ensures
        r.deep_view() == error_events(message@),
{
    let mut events: Vec<DaemonEvent> = Vec::new();
    events.push(DaemonEvent::Error { message });
    assert(events.deep_view() =~= error_events(message@));
    events
}

/// A text made of a prefix and a detail.
pub fn prefixed(prefix: &str, detail: &str) -> (r: String)
    ensures
        r@ == prefix@ + detail@,
{
    let mut text = prefix.to_owned();
    text.append(detail);
    text
}

/// Answers a request for the peers with what the store gave.
pub fn handle_load_peers(loaded: Result<Vec<Peer>, String>) -> (r: Vec<DaemonEvent>)
    ensures
        r.deep_view() == match loaded {
            Ok(peers) => seq![DaemonEventView::Peers { peers: peers.deep_view() }],
            Err(e) => error_events(e@),
        },
{
    match loaded {
        Ok(peers) => {
            let mut events: Vec<DaemonEvent> = Vec::new();
            let ghost view = peers.deep_view();
            events.push(DaemonEvent::Peers { peers });
            assert(events.deep_view() =~= seq![DaemonEventView::Peers { peers: view }]);
            events
        },
        Err(e) => error_reply(e),
    }
}

/// Answers a request for the messages of a queue with what the store gave.
pub fn handle_load_messages(queue_id: String, loaded: Result<Vec<Message>, String>) -> (r: Vec<
    DaemonEvent,
>)
    ensures
        r.deep_view() == match loaded {
            Ok(messages) => seq![
                DaemonEventView::Messages { queue_id: queue_id@, messages: messages.deep_view() },
            ],
            Err(e) => error_events(e@),
        },
{
    match loaded {
        Ok(messages) => {
            let mut events: Vec<DaemonEvent> = Vec::new();
            let ghost view = messages.deep_view();
            let ghost queue = queue_id@;
            events.push(DaemonEvent::Messages { queue_id, messages });
            assert(events.deep_view() =~= seq![
                DaemonEventView::Messages { queue_id: queue, messages: view },
            ]);
            events
        },
        Err(e) => error_reply(e),
    }
}

/// Makes a message ready to send at the present time, under a fresh id and
/// with a fresh nonce.
pub fn handle_send_message(
    queue_id: String,
    plaintext: String,
    peer_encrypt_pk: String,
    state: &IpcState,
) -> (r: CommandStep)
    ensures
        send_step_holds(r@, state.keypair, queue_id@, plaintext@, peer_encrypt_pk@),
{
    let keypair = match &state.keypair {
        Some(keypair) => keypair,
        None => {
            return CommandStep::Reply(error_reply("Keypair not loaded".to_owned()));
        },
    };
    let timestamp = match unix_time_secs() {
        Some(timestamp) => timestamp,
        None => 0,
    };
    let local_id = fresh_message_id();
    let nonce = random_nonce();
    let ghost id = local_id@;
    let prepared = prepare_outbound(
        keypair,
        queue_id.as_str(),
        plaintext.as_str(),
        peer_encrypt_pk.as_str(),
        timestamp,
        local_id,
        nonce.as_slice(),
    );
    let step = match prepared {
        Ok(outbound) => CommandStep::StoreOutbound { outbound },
        Err(e) => CommandStep::Reply(error_reply(e.message())),
    };
    proof {
        assert(step@ == send_step_of(
            outbound_spec(
                *keypair,
                queue_id@,
                plaintext@,
                peer_encrypt_pk@,
                timestamp,
                id,
                nonce@,
            ),
        ));
        assert(posted_as_sealed(
            step@,
            *keypair,
            plaintext@,
            peer_encrypt_pk@,
            timestamp,
            nonce@,
        ));
    }
    step
}

/// After the attempt to store an outbound record: the events for the
/// session, and whether the envelope is posted to the relay.
pub fn outbound_stored(saved: bool) -> (r: (Vec<DaemonEvent>, bool))
    ensures
        r.1 == saved,
        r.0.deep_view() == if saved {
            seq![DaemonEventView::MessageSent]
        } else {
            error_events("Failed to save message to DB"@)
        },
{
    if saved {
        let mut events: Vec<DaemonEvent> = Vec::new();
        events.push(DaemonEvent::MessageSent);
        assert(events.deep_view() =~= seq![DaemonEventView::MessageSent]);
        (events, true)
    } else {
        (error_reply("Failed to save message to DB".to_owned()), false)
    }
}

/// The status that an outbound record gets when the post to the relay ends.
pub open spec fn status_after_post(posted: bool) -> Seq<char> {
    if posted {
        status_sent()
    } else {
        status_failed()
    }
}

/// The status that an outbound record gets when the post to the relay ends:
/// `sent` where the relay took the envelope, `failed` where it did not.
pub fn post_finished(posted: bool) -> (r: String)
    ensures
        r@ == status_after_post(posted),
{
    if posted {
        "sent".to_owned()
    } else {
        "failed".to_owned()
    }
}

/// Makes a peer of a contact document, for an agent in `state` that knows
/// `existing`: the peer is to be saved, or the session is told why not.
pub fn handle_import_contact(json: String, state: &IpcState, existing: &Vec<Peer>) -> (r: Result<
    Peer,
    Vec<DaemonEvent>,
>)
    ensures
        match import_spec(json@, own_key_text(state.keypair), existing.deep_view()) {
            Ok(peer) => r matches Ok(p) && p@ == peer,
            Err(e) => r matches Err(events) && events.deep_view() == error_events(e.text()),
        },
{
    let imported = match &state.keypair {
        Some(keypair) => {
            let own = to_hex(keypair.encrypt_pk.as_slice());
            import_contact(json.as_str(), Some(own.as_str()), existing)
        },
        None => import_contact(json.as_str(), None, existing),
    };
    match imported {
        Ok(peer) => Ok(peer),
        Err(e) => Err(error_reply(e.message())),
    }
}

/// The hex text of an identity's encryption key, if there is an identity.
pub open spec fn own_key_text(keypair: Option<Keypair>) -> Option<Seq<char>> {
    match keypair {
        Some(keypair) => Some(hex_string(keypair.encrypt_pk@)),
        None => None,
    }
}

/// Answers an import with what saving the peer came to.
pub fn peer_saved(peer: Peer, saved: Result<(), String>) -> (r: Vec<DaemonEvent>)
    ensures
        r.deep_view() == match saved {
            Ok(_) => seq![DaemonEventView::ContactImported { peer: peer@ }],
            Err(e) => error_events("Save peer failed: "@ + e@),
        },
{
    match saved {
        Ok(_) => {
            let mut events: Vec<DaemonEvent> = Vec::new();
            let ghost view = peer@;
            events.push(DaemonEvent::ContactImported { peer });
            assert(events.deep_view() =~= seq![DaemonEventView::ContactImported { peer: view }]);
            events
        },
        Err(e) => error_reply(prefixed("Save peer failed: ", e.as_str())),
    }
}

/// Makes the contact file of the agent's identity under a name.
pub fn handle_export_contact(name: String, state: &IpcState) -> (r: CommandStep)
    ensures
        r@ == export_step_of(name@, state.keypair),
        r matches CommandStep::WriteContact { export } ==> state.keypair matches Some(keypair)
            && imports_back(export.json@, name@, keypair),
{
    let keypair = match &state.keypair {
        Some(keypair) => keypair,
        None => {
            return CommandStep::Reply(error_reply("Keypair not loaded".to_owned()));
        },
    };
    match export_contact(name.as_str(), keypair) {
        Some(export) => CommandStep::WriteContact { export },
        None => CommandStep::Reply(error_reply("Serialize".to_owned())),
    }
}

/// Answers an export with what writing the file came to. Where there was no
/// folder to write to, nothing was written and the export still counts.
pub fn contact_written(json: String, written: Result<(), String>) -> (r: Vec<DaemonEvent>)
    ensures
        r.deep_view() == match written {
            Ok(_) => seq![DaemonEventView::ContactExported { json: json@ }],
            Err(e) => error_events("Write file: "@ + e@),
        },
{
    match written {
        Ok(_) => {
            let mut events: Vec<DaemonEvent> = Vec::new();
            let ghost view = json@;
            events.push(DaemonEvent::ContactExported { json });
            assert(events.deep_view() =~= seq![DaemonEventView::ContactExported { json: view }]);
            events
        },
        Err(e) => error_reply(prefixed("Write file: ", e.as_str())),
    }
}

/// Answers a change of configuration with what saving it came to: nothing
/// where it was saved.
pub fn handle_update_config(saved: Result<(), String>) -> (r: Vec<DaemonEvent>)
    ensures
        r.deep_view() == match saved {
            Ok(_) => Seq::<DaemonEventView>::empty(),
            Err(e) => error_events("Save config: "@ + e@),
        },
{
    match saved {
        Ok(_) => {
            let events: Vec<DaemonEvent> = Vec::new();
            assert(events.deep_view() =~= Seq::<DaemonEventView>::empty());
            events
        },
        Err(e) => error_reply(prefixed("Save config: ", e.as_str())),
    }
}

/// What a command comes to, apart from a send, whose step depends on the
/// moment.
pub open spec fn command_step_holds(
    step: CommandStepView,
    cmd: TuiCommand,
    keypair: Option<Keypair>,
) -> bool {
    match cmd {
        TuiCommand::SendMessage { queue_id, plaintext, peer_encrypt_pk } => send_step_holds(
            step,
            keypair,
            queue_id@,
            plaintext@,
            peer_encrypt_pk@,
        ),
        TuiCommand::LoadMessages { queue_id } => step == CommandStepView::LoadMessages {
            queue_id: queue_id@,
        },
        TuiCommand::LoadPeers => step == CommandStepView::LoadPeers,
        TuiCommand::ImportContact { json } => step == CommandStepView::ImportContact {
            json: json@,
        },
        TuiCommand::ExportContact { name } => step == export_step_of(name@, keypair),
        TuiCommand::UpdateConfig { server_url, polling_interval_secs } => step
            == CommandStepView::SaveConfig {
            config: ConfigView { server_url: server_url@, polling_interval_secs },
        },
        TuiCommand::ResetPollingInterval => step == CommandStepView::Signal(
            IpcSignal::ResetPollingInterval,
        ),
    }
}

/// Decides what the agent does for a command of the session.
pub fn handle_command(cmd: TuiCommand, state: &IpcState) -> (r: CommandStep)
    ensures
        command_step_holds(r@, cmd, state.keypair),
{
    match cmd {
        TuiCommand::LoadPeers => CommandStep::LoadPeers,
        TuiCommand::LoadMessages { queue_id } => CommandStep::LoadMessages { queue_id },
        TuiCommand::SendMessage { queue_id, plaintext, peer_encrypt_pk } => handle_send_message(
            queue_id,
            plaintext,
            peer_encrypt_pk,
            state,
        ),
        TuiCommand::ImportContact { json } => CommandStep::ImportContact { json },
        TuiCommand::ExportContact { name } => handle_export_contact(name, state),
        TuiCommand::UpdateConfig { server_url, polling_interval_secs } => CommandStep::SaveConfig {
            config: Config { server_url, polling_interval_secs },
        },
        TuiCommand::ResetPollingInterval => CommandStep::Signal(IpcSignal::ResetPollingInterval),
    }
}

/// The record of one control line: the text and the newline that ends it.
pub fn frame_line(record: &str) -> (r: String)
    ensures
        r@ == record@.push('\n'),
{
    proof {
        reveal_strlit("\n");
    }
    let mut line = record.to_owned();
    line.append("\n");
    assert(line@ =~= record@.push('\n'));
    line
}

/// The place of the one session that the agent serves. It knows which
/// session holds it: the last connection wins, and the end of a session that
/// was replaced leaves the slot to the session that replaced it.
#[derive(Debug, Clone, Copy, PartialEq, Eq, Structural)]
pub struct SessionSlot {
    holder: Option<u64>,
    next: u64,
}

/// What the agent does when a session connects.
#[derive(Debug, Clone, PartialEq, Eq)]
pub struct SessionOpening {
    /// The number under which the session holds the slot.
    pub session: u64,
    /// The event that the new session is sent at once.
    pub first_event: DaemonEvent,
    /// The signal for the delivery loop.
    pub signal: IpcSignal,
}

/// The number of the session that connects after session `session`.
pub open spec fn session_after(session: u64) -> u64 {
    if session < u64::MAX {
        (session + 1) as u64
    } else {
        0
    }
}

impl SessionSlot {
    /// The number of the next session follows the holder's.
    #[verifier::type_invariant]
    pub closed spec fn numbered(self) -> bool {
        self.holder matches Some(session) ==> self.next == session_after(session)
    }

    /// The number that the next session to connect gets.
    pub closed spec fn upcoming(self) -> u64 {
        self.next
    }

    /// The slot after a session connected.
    pub closed spec fn after_attach(self) -> SessionSlot {
        SessionSlot { holder: Some(self.next), next: session_after(self.next) }
    }

    /// The slot after session `session` ended.
    pub closed spec fn after_detach(self, session: u64) -> SessionSlot {
        if self.holder == Some(session) {
            SessionSlot { holder: None, next: self.next }
        } else {
            self
        }
    }

    /// The session that holds the slot, if one does.
    pub closed spec fn holder(&self) -> Option<u64> {
        self.holder
    }

    /// Whether a session holds the slot.
    pub open spec fn attached(&self) -> bool {
        self.holder() is Some
    }

    /// The slot of an agent that no session has reached yet.
    pub fn new() -> (r: Self)
        ensures
            r.holder() is None,
    {
        SessionSlot { holder: None, next: 0 }
    }

    /// A session connected: it takes the slot, whoever held it, under a
    /// number that the holder did not have. The session is sent the current
    /// interval, and the delivery loop is told.
    pub fn attach(&mut self, state: &IpcState) -> (r: SessionOpening)
        ensures
            *final(self) == old(self).after_attach(),
            r.session == old(self).upcoming(),
            final(self).holder() == Some(r.session),
            old(self).holder() != Some(r.session),
            r.signal == IpcSignal::TuiConnected,
            r.first_event@ == (DaemonEventView::PollingInterval {
                secs: state.current_interval_secs,
            }),
    {
        proof {
            use_type_invariant(&*self);
        }
        let session = self.next;
        let next = if session < u64::MAX {
            session + 1
        } else {
            0
        };
        *self = SessionSlot { holder: Some(session), next };
        SessionOpening {
            session,
            first_event: DaemonEvent::PollingInterval { secs: state.current_interval_secs },
            signal: IpcSignal::TuiConnected,
        }
    }

    /// A session ended, by a close or by a failed read or write. Where it
    /// holds the slot, the slot is cleared and the delivery loop is told;
    /// where another session has taken the slot, nothing changes.
    pub fn detach(&mut self, session: u64) -> (r: Option<IpcSignal>)
        ensures
            *final(self) == old(self).after_detach(session),
            old(self).holder() == Some(session) ==> final(self).holder() is None && r == Some(
                IpcSignal::TuiDisconnected,
            ),
            old(self).holder() != Some(session) ==> *final(self) == *old(self) && r is None,
    {
        let held = match self.holder {
            Some(holder) => holder == session,
            None => false,
        };
        if held {
            let next = self.next;
            *self = SessionSlot { holder: None, next };
            Some(IpcSignal::TuiDisconnected)
        } else {
            None
        }
    }

    /// Whether a session is attached.
    pub fn is_tui_connected(&self) -> (r: bool)
        ensures
            r == self.attached(),
    {
        self.holder.is_some()
    }

    /// The event that tells an attached session of a new message; nothing
    /// where no session is attached.
    pub fn push_new_message(&self, message: Message) -> (r: Option<DaemonEvent>)
        ensures
            match r {
                Some(event) => self.attached() && event@ == (DaemonEventView::NewMessage {
                    message: message@,
                }),
                None => !self.attached(),
            },
    {
        if self.holder.is_some() {
            Some(DaemonEvent::NewMessage { message })
        } else {
            None
        }
    }

    /// The event that tells an attached session of the poll interval;
    /// nothing where no session is attached.
    pub fn push_polling_interval(&self, secs: u64) -> (r: Option<DaemonEvent>)
        ensures
            match r {
                Some(event) => self.attached() && event@ == (DaemonEventView::PollingInterval {
                    secs,
                }),
                None => !self.attached(),
            },
    {
        if self.holder.is_some() {
            Some(DaemonEvent::PollingInterval { secs })
        } else {
            None
        }
    }
}

/// The last connection wins: when a second session connects while the first
/// holds the slot, the end of the first changes nothing, the second stays
/// attached, and only the end of the second clears the slot.
pub proof fn lemma_last_connection_wins(slot: SessionSlot)
    requires
        slot.numbered(),
    ensures
        ({
            let first = slot.upcoming();
            let with_first = slot.after_attach();
            let second = with_first.upcoming();
            let with_second = with_first.after_attach();
            &&& with_first.holder() == Some(first)
            &&& with_second.holder() == Some(second)
            &&& first != second
            &&& with_second.after_detach(first) == with_second
            &&& with_second.after_detach(second).holder() is None
            &&& with_second.numbered()
        }),
{
}

/// The file `name` in the directory `dir`: the two joined by one slash,
/// unless the directory is empty or ends in a slash already.
pub open spec fn file_in(dir: Seq<char>, name: Seq<char>) -> Seq<char> {
    if dir.len() == 0 || "/"@.is_suffix_of(dir) {
        dir + name
    } else {
        dir + "/"@ + name
    }
}

/// The directory that stands in where the data directory is not known.
pub open spec fn fallback_dir() -> Seq<char> {
    "/tmp"@
}

/// A directory, or the fallback where there is none.
pub open spec fn dir_or_fallback(data_dir: Option<Seq<char>>) -> Seq<char> {
    match data_dir {
        Some(dir) => dir,
        None => fallback_dir(),
    }
}

/// The path of a file in a directory.
pub fn path_in(dir: &str, name: &str) -> (r: String)
    ensures
        r@ == file_in(dir@, name@),
{
    let mut path = dir.to_owned();
    if !(dir.unicode_len() == 0 || ends_with(dir, "/")) {
        path.append("/");
    }
    path.append(name);
    path
}

/// The address of the control channel on systems with sockets in the file
/// system: the file `trassenger.sock` in the data directory.
pub fn socket_path(data_dir: Option<&str>) -> (r: String)
    ensures
        r@ == file_in(dir_or_fallback(text_of(data_dir)), "trassenger.sock"@),
{
    match data_dir {
        Some(dir) => path_in(dir, "trassenger.sock"),
        None => path_in("/tmp", "trassenger.sock"),
    }
}

/// The file that holds the process id of the running agent.
pub fn pid_file_path(data_dir: Option<&str>) -> (r: String)
    ensures
        r@ == file_in(dir_or_fallback(text_of(data_dir)), "daemon.pid"@),
{
    match data_dir {
        Some(dir) => path_in(dir, "daemon.pid"),
        None => path_in("/tmp", "daemon.pid"),
    }
}

/// The address of the control channel on systems with named pipes.
pub fn pipe_name() -> (r: String)
    ensures
        r@ == "\\\\.\\pipe\\trassenger"@,
{
    "\\\\.\\pipe\\trassenger".to_owned()
}

} // verus!
