use trassenger::mailbox::{
    delete_outcome, message_url, post_outcome, queue_url, status_is_success,
    DeleteMessageResponse, GetMessagesResponse, MessageMeta, PostMessageResponse, ServerMessage,
    TransportError,
};
use trassenger::text::{bytes_equal, decimal_text, str_equal};

#[test]
fn relay_addresses() {
    assert_eq!(queue_url("https://relay.example", "abc"), "https://relay.example/mailbox/abc");
    assert_eq!(
        message_url("https://relay.example", "abc", "m-1"),
        "https://relay.example/mailbox/abc/m-1"
    );
    assert_eq!(queue_url("", ""), "/mailbox/");
}

#[test]
fn success_statuses() {
    assert!(status_is_success(200));
    assert!(status_is_success(204));
    assert!(status_is_success(299));
    assert!(!status_is_success(199));
    assert!(!status_is_success(300));
    assert!(!status_is_success(404));
    assert!(!status_is_success(500));
    assert!(!status_is_success(0));
}

#[test]
fn post_and_delete_outcomes() {
    let reply = |success| PostMessageResponse { id: "m-1".to_string(), timestamp: 5, success };
    assert_eq!(post_outcome(reply(true)), Ok("m-1".to_string()));
    assert_eq!(post_outcome(reply(false)), Err(TransportError::PostRefused));
    let reply = |success| DeleteMessageResponse { success, deleted: "m-1".to_string() };
    assert_eq!(delete_outcome(reply(true)), Ok(()));
    assert_eq!(delete_outcome(reply(false)), Err(TransportError::DeleteRefused));
}

#[test]
fn transport_error_texts() {
    assert_eq!(
        TransportError::Http { status: 404, body: "not found".to_string() }.message(),
        "HTTP 404: not found"
    );
    assert_eq!(
        TransportError::Http { status: 0, body: String::new() }.message(),
        "HTTP 0: "
    );
    assert_eq!(TransportError::PostRefused.message(), "Server reported failure");
    assert_eq!(TransportError::DeleteRefused.message(), "Delete operation reported failure");
}

#[test]
fn fetched_messages_keep_their_order() {
    let blob = |id: &str| ServerMessage {
        id: id.to_string(),
        timestamp: 1,
        data: "AA==".to_string(),
        meta: MessageMeta { filename: None, size: Some(1) },
    };
    let response = GetMessagesResponse { messages: vec![blob("a"), blob("b")] };
    assert_eq!(response.messages[0].id, "a");
    assert_eq!(response.messages[1].id, "b");
}

#[test]
fn numbers_as_decimal_text() {
    assert_eq!(decimal_text(0), "0");
    assert_eq!(decimal_text(7), "7");
    assert_eq!(decimal_text(10), "10");
    assert_eq!(decimal_text(1234567890), "1234567890");
    assert_eq!(decimal_text(u64::MAX), "18446744073709551615");
}

#[test]
fn texts_and_bytes_compare_by_content() {
    assert!(str_equal("abc", "abc"));
    assert!(!str_equal("abc", "abd"));
    assert!(!str_equal("abc", "ab"));
    assert!(str_equal("", ""));
    assert!(str_equal("grüße", "grüße"));
    assert!(!str_equal("grüße", "grusse"));
    assert!(bytes_equal(&[1, 2], &[1, 2]));
    assert!(!bytes_equal(&[1, 2], &[1, 3]));
    assert!(!bytes_equal(&[1, 2], &[1, 2, 3]));
    assert!(bytes_equal(&[], &[]));
}
