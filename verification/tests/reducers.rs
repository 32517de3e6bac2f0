use groupchat::model::{ChatDb, ChatError};

const ALICE: u64 = 11;
const BOB: u64 = 22;

fn db_with_connected(ids: &[u64]) -> ChatDb {
    let mut db = ChatDb::init();
    for &id in ids {
        db.identity_connected(id);
    }
    db
}

#[test]
fn init_is_empty() {
    let db = ChatDb::init();
    assert_eq!(db.users.len(), 0);
    assert_eq!(db.groupchats.len(), 0);
    assert_eq!(db.memberships.len(), 0);
    assert_eq!(db.messages.len(), 0);
}

#[test]
fn connect_inserts_unnamed_user_once() {
    let mut db = ChatDb::init();
    db.identity_connected(ALICE);
    assert_eq!(db.users.len(), 1);
    assert_eq!(db.users[0].identity, ALICE);
    assert_eq!(db.users[0].name, None);
    db.identity_connected(ALICE);
    assert_eq!(db.users.len(), 1, "reconnect of a known identity is a no-op");
}

#[test]
fn connect_then_disconnect_leaves_no_trace() {
    let mut db = db_with_connected(&[ALICE]);
    db.identity_disconnected(ALICE);
    assert!(db.users.iter().all(|u| u.identity != ALICE));
    assert!(db.memberships.iter().all(|m| m.identity != ALICE));
    assert_eq!(db.users.len(), 0);
}

#[test]
fn disconnect_removes_all_memberships_of_the_identity() {
    let mut db = db_with_connected(&[ALICE, BOB]);
    assert_eq!(db.create_groupchat(ALICE, "one".to_string()), Ok(()));
    assert_eq!(db.create_groupchat(ALICE, "two".to_string()), Ok(()));
    let (c1, c2) = (db.groupchats[0].id, db.groupchats[1].id);
    assert_eq!(db.join_groupchat(ALICE, c1), Ok(()));
    assert_eq!(db.join_groupchat(ALICE, c2), Ok(()));
    assert_eq!(db.join_groupchat(BOB, c1), Ok(()));
    db.identity_disconnected(ALICE);
    assert!(db.users.iter().all(|u| u.identity != ALICE));
    assert!(db.memberships.iter().all(|m| m.identity != ALICE));
    assert_eq!(db.memberships.len(), 1, "the other member's row survives");
    assert_eq!(db.memberships[0].identity, BOB);
    assert_eq!(db.groupchats.len(), 2, "rooms are never deleted");
}

#[test]
fn disconnect_without_connect_does_not_panic() {
    let mut db = ChatDb::init();
    db.identity_disconnected(ALICE);
    assert_eq!(db.users.len(), 0);
}

#[test]
fn join_twice_is_already_member_with_one_row() {
    let mut db = db_with_connected(&[ALICE]);
    assert_eq!(db.create_groupchat(ALICE, "room".to_string()), Ok(()));
    let chat = db.groupchats[0].id;
    assert_eq!(db.join_groupchat(ALICE, chat), Ok(()));
    assert_eq!(db.join_groupchat(ALICE, chat), Err(ChatError::AlreadyMember));
    let rows = db
        .memberships
        .iter()
        .filter(|m| m.identity == ALICE && m.groupchat_id == chat)
        .count();
    assert_eq!(rows, 1);
}

#[test]
fn join_requires_known_user_and_existing_chat() {
    let mut db = ChatDb::init();
    assert_eq!(db.join_groupchat(ALICE, 1), Err(ChatError::UnknownUser));
    db.identity_connected(ALICE);
    assert_eq!(db.join_groupchat(ALICE, 1), Err(ChatError::NotFound));
    assert_eq!(db.memberships.len(), 0);
}

#[test]
fn send_without_membership_is_forbidden_even_if_chat_exists() {
    let mut db = db_with_connected(&[ALICE, BOB]);
    assert_eq!(db.create_groupchat(ALICE, "room".to_string()), Ok(()));
    let chat = db.groupchats[0].id;
    assert_eq!(
        db.send_message(BOB, chat, "hello".to_string(), 1),
        Err(ChatError::Forbidden)
    );
    assert_eq!(db.messages.len(), 0);
}

#[test]
fn send_to_missing_chat_is_not_found() {
    let mut db = db_with_connected(&[ALICE]);
    assert_eq!(
        db.send_message(ALICE, 99, "hello".to_string(), 1),
        Err(ChatError::NotFound)
    );
    assert_eq!(db.messages.len(), 0);
}

#[test]
fn send_records_sender_timestamp_text_and_chat() {
    let mut db = db_with_connected(&[ALICE]);
    assert_eq!(db.create_groupchat(ALICE, "room".to_string()), Ok(()));
    let chat = db.groupchats[0].id;
    assert_eq!(db.join_groupchat(ALICE, chat), Ok(()));
    assert_eq!(db.send_message(ALICE, chat, "hello".to_string(), 42), Ok(()));
    assert_eq!(db.messages.len(), 1);
    assert_eq!(db.messages[0].sender, ALICE);
    assert_eq!(db.messages[0].sent, 42);
    assert_eq!(db.messages[0].text, "hello");
    assert_eq!(db.messages[0].groupchat_id, chat);
}

#[test]
fn rename_by_non_creator_is_forbidden() {
    let mut db = db_with_connected(&[ALICE, BOB]);
    assert_eq!(db.create_groupchat(ALICE, "mine".to_string()), Ok(()));
    let chat = db.groupchats[0].id;
    assert_eq!(
        db.set_group_chat_name(BOB, chat, "theirs".to_string()),
        Err(ChatError::Forbidden)
    );
    assert_eq!(db.groupchats[0].name, "mine");
}

#[test]
fn rename_by_creator_updates_only_the_name() {
    let mut db = db_with_connected(&[ALICE]);
    assert_eq!(db.create_groupchat(ALICE, "Room A".to_string()), Ok(()));
    let chat = db.groupchats[0].id;
    assert_eq!(db.set_group_chat_name(ALICE, chat, "Room B".to_string()), Ok(()));
    assert_eq!(db.groupchats.len(), 1);
    assert_eq!(db.groupchats[0].name, "Room B");
    assert_eq!(db.groupchats[0].id, chat);
    assert_eq!(db.groupchats[0].created_by, ALICE);
}

#[test]
fn rename_missing_chat_is_not_found() {
    let mut db = db_with_connected(&[ALICE]);
    assert_eq!(
        db.set_group_chat_name(ALICE, 7, "name".to_string()),
        Err(ChatError::NotFound)
    );
}

#[test]
fn empty_inputs_are_rejected_and_mutate_nothing() {
    let mut db = db_with_connected(&[ALICE]);
    assert_eq!(db.create_groupchat(ALICE, "room".to_string()), Ok(()));
    let chat = db.groupchats[0].id;
    assert_eq!(db.join_groupchat(ALICE, chat), Ok(()));

    assert_eq!(db.set_name(ALICE, "".to_string()), Err(ChatError::EmptyInput));
    assert_eq!(db.create_groupchat(ALICE, "".to_string()), Err(ChatError::EmptyInput));
    assert_eq!(
        db.send_message(ALICE, chat, "".to_string(), 1),
        Err(ChatError::EmptyInput)
    );
    assert_eq!(
        db.set_group_chat_name(ALICE, chat, "".to_string()),
        Err(ChatError::EmptyInput)
    );

    assert_eq!(db.users[0].name, None);
    assert_eq!(db.groupchats.len(), 1);
    assert_eq!(db.groupchats[0].name, "room");
    assert_eq!(db.messages.len(), 0);
}

#[test]
fn set_name_for_unknown_user_fails() {
    let mut db = ChatDb::init();
    assert_eq!(db.set_name(ALICE, "al".to_string()), Err(ChatError::UnknownUser));
    assert_eq!(db.users.len(), 0);
}

#[test]
fn set_name_updates_only_the_callers_row() {
    let mut db = db_with_connected(&[ALICE, BOB]);
    assert_eq!(db.set_name(ALICE, "al".to_string()), Ok(()));
    assert_eq!(db.users.len(), 2);
    assert_eq!(db.users[0].identity, ALICE);
    assert_eq!(db.users[0].name.as_deref(), Some("al"));
    assert_eq!(db.users[1].identity, BOB);
    assert_eq!(db.users[1].name, None);
}

#[test]
fn two_chats_may_share_a_name_but_not_an_id() {
    let mut db = db_with_connected(&[ALICE]);
    assert_eq!(db.create_groupchat(ALICE, "same".to_string()), Ok(()));
    assert_eq!(db.create_groupchat(ALICE, "same".to_string()), Ok(()));
    assert_eq!(db.groupchats.len(), 2);
    assert_eq!(db.groupchats[0].name, "same");
    assert_eq!(db.groupchats[1].name, "same");
    assert_ne!(db.groupchats[0].id, db.groupchats[1].id);
}

#[test]
fn two_member_scenario_keeps_insertion_order() {
    let mut db = ChatDb::init();
    db.identity_connected(ALICE);
    assert_eq!(db.create_groupchat(ALICE, "G".to_string()), Ok(()));
    let chat = db.groupchats[0].id;
    assert_eq!(db.join_groupchat(ALICE, chat), Ok(()));
    assert_eq!(db.send_message(ALICE, chat, "hi".to_string(), 1), Ok(()));

    db.identity_connected(BOB);
    assert_eq!(
        db.send_message(BOB, chat, "hello".to_string(), 2),
        Err(ChatError::Forbidden),
        "posting before joining is not-a-member"
    );
    assert_eq!(db.join_groupchat(BOB, chat), Ok(()));
    assert_eq!(db.send_message(BOB, chat, "hello".to_string(), 3), Ok(()));

    let in_chat: Vec<(&str, u64)> = db
        .messages
        .iter()
        .filter(|m| m.groupchat_id == chat)
        .map(|m| (m.text.as_str(), m.sender))
        .collect();
    assert_eq!(in_chat, vec![("hi", ALICE), ("hello", BOB)]);
}

#[test]
fn validate_name_passes_non_empty_through() {
    assert_eq!(groupchat::reducers::validate_name("x".to_string()), Ok("x".to_string()));
    assert_eq!(
        groupchat::reducers::validate_name("".to_string()),
        Err(ChatError::EmptyInput)
    );
}

#[test]
fn validate_message_passes_non_empty_through() {
    assert_eq!(
        groupchat::reducers::validate_message("hi".to_string()),
        Ok("hi".to_string())
    );
    assert_eq!(
        groupchat::reducers::validate_message("".to_string()),
        Err(ChatError::EmptyInput)
    );
}
