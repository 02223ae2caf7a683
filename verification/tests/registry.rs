use trassenger::registry::{has_encrypt_pk, save_peer, ConversationRegistry, DuplicateError};
use trassenger::storage::Peer;

fn peer(name: &str, key: &str, queue: &str) -> Peer {
    Peer {
        name: name.to_string(),
        encrypt_pk: key.to_string(),
        sign_pk: format!("{}-sign", key),
        queue_id: queue.to_string(),
    }
}

#[test]
fn registry_adds_and_lists() {
    let mut registry = ConversationRegistry::from_peers(Vec::new());
    assert!(registry.list().is_empty());
    assert_eq!(registry.add(peer("Bob", "aa", "q1"), Some("00")), Ok(()));
    assert_eq!(registry.add(peer("Carol", "bb", "q2"), Some("00")), Ok(()));
    assert_eq!(registry.list(), &vec![peer("Bob", "aa", "q1"), peer("Carol", "bb", "q2")]);
    assert_eq!(
        registry.into_peers(),
        vec![peer("Bob", "aa", "q1"), peer("Carol", "bb", "q2")]
    );
}

#[test]
fn registry_refuses_duplicates_and_the_own_key() {
    let mut registry = ConversationRegistry::from_peers(vec![peer("Bob", "aa", "q1")]);
    assert_eq!(
        registry.add(peer("Robert", "aa", "q1"), Some("00")),
        Err(DuplicateError::AlreadyKnown)
    );
    assert_eq!(
        registry.add(peer("Me", "00", "q0"), Some("00")),
        Err(DuplicateError::OwnIdentity)
    );
    assert_eq!(
        registry.add(peer("Bob", "aa", "q1"), Some("aa")),
        Err(DuplicateError::OwnIdentity)
    );
    assert_eq!(registry.list(), &vec![peer("Bob", "aa", "q1")]);
    assert_eq!(registry.add(peer("Zero", "00", "q0"), None), Ok(()));
    assert_eq!(registry.list().len(), 2);
}

#[test]
fn registry_keeps_a_peer_of_the_same_name() {
    let mut registry = ConversationRegistry::from_peers(vec![
        peer("Bob", "aa", "q1"),
        peer("Carol", "bb", "q2"),
    ]);
    assert_eq!(registry.add(peer("Bob", "cc", "q3"), Some("00")), Ok(()));
    assert_eq!(
        registry.list(),
        &vec![peer("Bob", "aa", "q1"), peer("Carol", "bb", "q2"), peer("Bob", "cc", "q3")]
    );
}

#[test]
fn registry_finds_by_queue() {
    let registry = ConversationRegistry::from_peers(vec![
        peer("Bob", "aa", "q1"),
        peer("Carol", "bb", "q2"),
        peer("Dave", "cc", "q2"),
    ]);
    assert_eq!(registry.find_by_queue("q1"), Some(&peer("Bob", "aa", "q1")));
    assert_eq!(registry.find_by_queue("q2"), Some(&peer("Carol", "bb", "q2")));
    assert_eq!(registry.find_by_queue("q3"), None);
    assert_eq!(registry.find_by_queue(""), None);
    assert_eq!(ConversationRegistry::from_peers(vec![]).find_by_queue("q1"), None);
}

#[test]
fn saving_a_peer_appends_it() {
    let saved = save_peer(
        vec![peer("Bob", "aa", "q1"), peer("Carol", "bb", "q2"), peer("Bob", "cc", "q3")],
        peer("Bob", "dd", "q4"),
    );
    assert_eq!(
        saved,
        vec![
            peer("Bob", "aa", "q1"),
            peer("Carol", "bb", "q2"),
            peer("Bob", "cc", "q3"),
            peer("Bob", "dd", "q4")
        ]
    );
    assert_eq!(save_peer(vec![], peer("Bob", "aa", "q1")), vec![peer("Bob", "aa", "q1")]);
}

#[test]
fn known_keys() {
    let peers = vec![peer("Bob", "aa", "q1"), peer("Carol", "bb", "q2")];
    assert!(has_encrypt_pk(&peers, "aa"));
    assert!(has_encrypt_pk(&peers, "bb"));
    assert!(!has_encrypt_pk(&peers, "AA"));
    assert!(!has_encrypt_pk(&peers, "a"));
    assert!(!has_encrypt_pk(&Vec::new(), "aa"));
}
