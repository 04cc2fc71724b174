use p2p_game_engine::document::{ContentHash, Entry};
use p2p_game_engine::endpoint::EndpointId;
use p2p_game_engine::room::events::{expected_content, ContentKind};
use p2p_game_engine::room::state::keys::{
    chat_key_for, find_last_part, has_prefix, is_key, key_for, KEY_APP_STATE, KEY_GAME_STATE,
    KEY_HOST_ID, PREFIX_ACTION, PREFIX_CHAT, PREFIX_JOIN, PREFIX_PEER, PREFIX_QUIT,
};
use p2p_game_engine::room::state::{classify, EntryKind, GameKey};

fn peer(seed: u8) -> EndpointId {
    let key = iroh::SecretKey::from_bytes(&[seed; 32]).public();
    EndpointId::from_bytes(*key.as_bytes()).unwrap()
}

fn entry(key: &[u8]) -> Entry {
    Entry::new(key.to_vec(), ContentHash::new([0u8; 32]))
}

#[test]
fn schema_words() {
    assert_eq!(KEY_APP_STATE, "app_state");
    assert_eq!(KEY_HOST_ID, "host_id");
    assert_eq!(KEY_GAME_STATE, "game_state");
    assert_eq!(PREFIX_JOIN, "join_request.");
    assert_eq!(PREFIX_QUIT, "quit_request.");
    assert_eq!(PREFIX_ACTION, "action.");
    assert_eq!(PREFIX_CHAT, "chat.");
    assert_eq!(PREFIX_PEER, "peer.");
}

#[test]
fn keys_are_spelled_from_word_and_identity() {
    let id = peer(1);
    let text = id.to_string();
    assert_eq!(key_for(PREFIX_JOIN, &id), format!("join_request.{text}").into_bytes());
    assert_eq!(key_for(PREFIX_QUIT, &id), format!("quit_request.{text}").into_bytes());
    assert_eq!(key_for(PREFIX_ACTION, &id), format!("action.{text}").into_bytes());
    assert_eq!(key_for(PREFIX_PEER, &id), format!("peer.{text}").into_bytes());
    assert_eq!(chat_key_for(0, &id), format!("chat.0.{text}").into_bytes());
    assert_eq!(
        chat_key_for(1700000000123, &id),
        format!("chat.1700000000123.{text}").into_bytes()
    );
}

#[test]
fn each_key_is_classified_as_what_it_was_spelled_for() {
    let id = peer(2);
    assert_eq!(classify(&entry(&key_for(PREFIX_JOIN, &id))), (EntryKind::Join(id), None));
    assert_eq!(classify(&entry(&key_for(PREFIX_QUIT, &id))), (EntryKind::QuitRequest(id), None));
    assert_eq!(
        classify(&entry(&key_for(PREFIX_ACTION, &id))),
        (EntryKind::ActionRequest(id), None)
    );
    assert_eq!(classify(&entry(&chat_key_for(42, &id))), (EntryKind::ChatMessage(id), None));
    assert_eq!(classify(&entry(&key_for(PREFIX_PEER, &id))), (EntryKind::PeerEntry, None));
    assert_eq!(classify(&entry(b"game_state")), (EntryKind::GameStateUpdate, None));
    assert_eq!(classify(&entry(b"app_state")), (EntryKind::AppStateUpdate, None));
    assert_eq!(classify(&entry(b"host_id")), (EntryKind::HostUpdate, None));
}

#[test]
fn other_keys_are_unknown() {
    assert_eq!(classify(&entry(b"")), (EntryKind::Unknown, None));
    assert_eq!(classify(&entry(b"players")), (EntryKind::Unknown, None));
    assert_eq!(classify(&entry(b"game_state2")), (EntryKind::Unknown, None));
    assert_eq!(classify(&entry(b"app_stat")), (EntryKind::Unknown, None));
    assert_eq!(classify(&entry(b"join_request")), (EntryKind::Unknown, None));
}

#[test]
fn a_key_with_an_unreadable_identity_is_unknown_with_an_error() {
    let (kind, error) = classify(&entry(b"join_request.nobody"));
    assert_eq!(kind, EntryKind::Unknown);
    assert!(error.unwrap().starts_with("Invalid EndpointId from key nobody: "));
    let (kind, error) = classify(&entry(b"action."));
    assert_eq!(kind, EntryKind::Unknown);
    assert!(error.unwrap().starts_with("Invalid EndpointId from key : "));
    let (kind, error) = classify(&entry(&[b'q', b'u', b'i', b't', b'_', b'r', b'e', b'q', b'u', b'e', b's', b't', b'.', 0xff]));
    assert_eq!(kind, EntryKind::Unknown);
    assert!(error.unwrap().starts_with("Invalid EndpointId from key \u{fffd}: "));
}

#[test]
fn key_questions_answer_for_their_own_kind_only() {
    let id = peer(3);
    let join = entry(&key_for(PREFIX_JOIN, &id));
    assert_eq!(join.is_join(), Some(Ok(id)));
    assert_eq!(join.is_action_request(), None);
    assert_eq!(join.is_chat_message(), None);
    assert_eq!(join.is_quit_request(), None);
    assert!(!join.is_peer_entry());
    assert!(!join.is_game_state_update());
    assert!(!join.is_app_state_update());
    assert!(!join.is_host_update());
    let action = entry(&key_for(PREFIX_ACTION, &id));
    assert_eq!(action.is_action_request(), Some(Ok(id)));
    assert_eq!(action.is_join(), None);
    let quit = entry(&key_for(PREFIX_QUIT, &id));
    assert_eq!(quit.is_quit_request(), Some(Ok(id)));
    let record = entry(&key_for(PREFIX_PEER, &id));
    assert!(record.is_peer_entry());
    assert!(entry(b"peer.").is_peer_entry());
    assert!(entry(b"game_state").is_game_state_update());
    assert!(entry(b"app_state").is_app_state_update());
    assert!(entry(b"host_id").is_host_update());
    assert!(!entry(b"host_id.").is_host_update());
}

#[test]
fn the_sender_of_a_chat_message_stands_behind_the_last_dot() {
    let id = peer(4);
    let text = id.to_string();
    let message = entry(&chat_key_for(1700000000123, &id));
    assert_eq!(message.is_chat_message(), Some(Ok(id)));
    let odd = entry(format!("chat.1.2.3.{text}").as_bytes());
    assert_eq!(odd.is_chat_message(), Some(Ok(id)));
    let bare = entry(format!("chat.{text}").as_bytes());
    assert_eq!(bare.is_chat_message(), Some(Ok(id)));
    let empty = entry(b"chat.17.");
    assert!(matches!(empty.is_chat_message(), Some(Err(_))));
}

#[test]
fn prefixes_and_last_parts() {
    assert!(has_prefix(b"peer.abc", "peer."));
    assert!(has_prefix(b"peer.", "peer."));
    assert!(!has_prefix(b"peer", "peer."));
    assert!(!has_prefix(b"pear.abc", "peer."));
    assert!(has_prefix(b"anything", ""));
    assert!(is_key(b"host_id", "host_id"));
    assert!(!is_key(b"host_id ", "host_id"));
    assert!(!is_key(b"host_i", "host_id"));
    assert!(has_prefix("zo\u{eb}.abc".as_bytes(), "zo\u{eb}."));
    assert!(!has_prefix("zoe.abc".as_bytes(), "zo\u{eb}."));
    assert!(!has_prefix(&[b'z', b'o', 0xc3], "zo\u{eb}"));
    assert!(is_key("zo\u{eb}".as_bytes(), "zo\u{eb}"));
    assert!(!is_key("zo\u{eb}".as_bytes(), "zo"));
    assert_eq!(
        key_for("zo\u{eb}.", &peer(1)),
        format!("zo\u{eb}.{}", peer(1).to_string()).into_bytes()
    );
    assert_eq!(find_last_part(b"chat.12.ab"), 8);
    assert_eq!(find_last_part(b"nodots"), 0);
    assert_eq!(find_last_part(b"end."), 4);
    assert_eq!(find_last_part(b""), 0);
}

#[test]
fn content_is_read_as_the_key_asks() {
    let id = peer(5);
    assert_eq!(expected_content(&entry(&key_for(PREFIX_JOIN, &id))), ContentKind::Profile);
    assert_eq!(expected_content(&entry(&key_for(PREFIX_ACTION, &id))), ContentKind::Action);
    assert_eq!(expected_content(&entry(&chat_key_for(1, &id))), ContentKind::Chat);
    assert_eq!(expected_content(&entry(&key_for(PREFIX_PEER, &id))), ContentKind::Unread);
    assert_eq!(expected_content(&entry(b"game_state")), ContentKind::GameState);
    assert_eq!(expected_content(&entry(b"app_state")), ContentKind::AppState);
    assert_eq!(expected_content(&entry(b"host_id")), ContentKind::HostId);
    assert_eq!(expected_content(&entry(&key_for(PREFIX_QUIT, &id))), ContentKind::Unread);
    assert_eq!(expected_content(&entry(b"else")), ContentKind::Unread);
}

#[test]
fn chat_keys_of_one_length_sort_by_time() {
    let a = peer(6);
    let b = peer(7);
    let times = [1700000000000u64, 1700000000001, 1700000000009, 1700000000010, 1799999999999];
    for (i, earlier) in times.iter().enumerate() {
        for later in &times[i + 1..] {
            assert!(chat_key_for(*earlier, &a) < chat_key_for(*later, &b));
            assert!(chat_key_for(*earlier, &b) < chat_key_for(*later, &a));
        }
    }
    assert!(chat_key_for(9, &a) > chat_key_for(10, &a));
}

#[test]
fn chat_keys_of_one_time_differ_by_sender() {
    let a = peer(8);
    let b = peer(9);
    assert_ne!(chat_key_for(1700000000000, &a), chat_key_for(1700000000000, &b));
}
