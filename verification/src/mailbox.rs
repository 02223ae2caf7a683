//! What the relay takes and gives: the addresses of a queue and of a blob in
//! it, the shapes of its replies, and when a reply counts as a failure.

use vstd::prelude::*;
use vstd::string::StringExecFns;
use crate::text::{decimal_digits, decimal_text};

verus! {

/// What a sender may say about a blob.
#[derive(Debug, Clone, PartialEq, Eq)]
pub struct MessageMeta {
    pub filename: Option<String>,
    pub size: Option<usize>,
}

/// A blob as the relay hands it out.
#[derive(Debug, Clone, PartialEq, Eq)]
pub struct ServerMessage {
    pub id: String,
    pub timestamp: i64,
    pub data: String,
    pub meta: MessageMeta,
}

/// The relay's answer to a fetch.
#[derive(Debug, Clone, PartialEq, Eq)]
pub struct GetMessagesResponse {
    pub messages: Vec<ServerMessage>,
}

/// The relay's answer to a post.
#[derive(Debug, Clone, PartialEq, Eq)]
pub struct PostMessageResponse {
    pub id: String,
    pub timestamp: i64,
    pub success: bool,
}

/// The relay's answer to a delete.
#[derive(Debug, Clone, PartialEq, Eq)]
pub struct DeleteMessageResponse {
    pub success: bool,
    pub deleted: String,
}

/// Why an exchange with the relay failed.
#[derive(Debug, Clone, PartialEq, Eq)]
pub enum TransportError {
    /// The relay answered with a status outside 200 to 299.
    Http { status: u16, body: String },
    /// The relay answered a post with `success: false`.
    PostRefused,
    /// The relay answered a delete with `success: false`.
    DeleteRefused,
}

impl TransportError {
    /// The text shown for the failure.
    pub open spec fn text(self) -> Seq<char> {
        match self {
            TransportError::Http { status, body } => "HTTP "@ + decimal_digits(status as nat)
                + ": "@ + body@,
            TransportError::PostRefused => "Server reported failure"@,
            TransportError::DeleteRefused => "Delete operation reported failure"@,
        }
    }

    /// The text as a string.
    pub fn message(&self) -> (r: String)
        ensures
            r@ == self.text(),
    {
        match self {
            TransportError::Http { status, body } => {
                let mut text = "HTTP ".to_owned();
                let digits = decimal_text(*status as u64);
                text.append(digits.as_str());
                text.append(": ");
                text.append(body.as_str());
                text
            },
            TransportError::PostRefused => "Server reported failure".to_owned(),
            TransportError::DeleteRefused => "Delete operation reported failure".to_owned(),
        }
    }
}

/// Path segment between the relay's address and a queue id.
pub open spec fn mailbox_segment() -> Seq<char> {
    "/mailbox/"@
}

/// Address of a queue: posts and fetches go there.
pub open spec fn queue_url_spec(base_url: Seq<char>, queue_id: Seq<char>) -> Seq<char> {
    base_url + mailbox_segment() + queue_id
}

/// Address of one blob of a queue: deletes go there.
pub open spec fn message_url_spec(
    base_url: Seq<char>,
    queue_id: Seq<char>,
    message_id: Seq<char>,
) -> Seq<char> {
    queue_url_spec(base_url, queue_id) + "/"@ + message_id
}

/// The status codes that count as success.
pub open spec fn is_success_status(status: u16) -> bool {
    200 <= status < 300
}

/// The address of a queue.
pub fn queue_url(base_url: &str, queue_id: &str) -> (r: String)
    ensures
        r@ == queue_url_spec(base_url@, queue_id@),
{
    let mut url = base_url.to_owned();
    url.append("/mailbox/");
    url.append(queue_id);
    url
}

/// The address of one blob of a queue.
pub fn message_url(base_url: &str, queue_id: &str, message_id: &str) -> (r: String)
    ensures
        r@ == message_url_spec(base_url@, queue_id@, message_id@),
{
    let mut url = queue_url(base_url, queue_id);
    url.append("/");
    url.append(message_id);
    url
}

/// Whether a status code lets the body count as an answer.
pub fn status_is_success(status: u16) -> (r: bool)
    ensures
        r == is_success_status(status),
{
    200 <= status && status < 300
}

/// What a post came to: the id that the relay gave the blob, unless the
/// relay reports a failure.
pub fn post_outcome(reply: PostMessageResponse) -> (r: Result<String, TransportError>)
    ensures
        match r {
            Ok(id) => reply.success && id@ == reply.id@,
            Err(e) => !reply.success && e is PostRefused,
        },
{
    if reply.success {
        Ok(reply.id)
    } else {
        Err(TransportError::PostRefused)
    }
}

/// What a delete came to.
pub fn delete_outcome(reply: DeleteMessageResponse) -> (r: Result<(), TransportError>)
    ensures
        match r {
            Ok(_) => reply.success,
            Err(e) => !reply.success && e is DeleteRefused,
        },
{
    if reply.success {
        Ok(())
    } else {
        Err(TransportError::DeleteRefused)
    }
}

} // verus!
