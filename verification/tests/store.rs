use pluely_db::migrations::{run_migrations, CHAT_HISTORY_SQL, SYSTEM_PROMPTS_SQL};
use pluely_db::queries::{
    append_message, create_system_prompt, delete_all_conversations, delete_conversation,
    delete_system_prompt, edit_system_prompt, list_conversation_summaries, list_system_prompts,
    load_conversation, rename_conversation, role_outcome, start_conversation,
};
use pluely_db::schema::{AttachedFiles, NewMessage, Role};
use pluely_db::sql::Store;
use pluely_db::DbError;
use rusqlite::Connection;

fn fresh() -> Store {
    let mut store = Store::new(Connection::open_in_memory().expect("open_in_memory"));
    run_migrations(&mut store).expect("migrations");
    store
}

fn blank() -> Store {
    Store::new(Connection::open_in_memory().unwrap())
}

/// Waits at least `ms` milliseconds of wall-clock time.
fn pause_ms(ms: u64) {
    let start = std::time::Instant::now();
    while start.elapsed() < std::time::Duration::from_millis(ms) {
        std::hint::spin_loop();
    }
}

fn count(store: &Store, sql: &str, key: &str) -> i64 {
    store.connection().query_row(sql, [key], |r| r.get(0)).unwrap()
}

const ONE_FILE: &str =
    r#"[{"id":"f1","name":"a.png","mime":"image/png","base64":"AAAA","size":4}]"#;

#[test]
fn start_then_append_then_load() {
    let mut conn = fresh();
    let cid = start_conversation(&mut conn, "hello there").unwrap();
    let m1 = append_message(
        &mut conn,
        &cid.id,
        &NewMessage {
            role: Role::User,
            content: "hi".into(),
            attached_files: Some(AttachedFiles { json: ONE_FILE.to_string(), count: 1 }),
        },
    )
    .unwrap();
    let m2 = append_message(
        &mut conn,
        &cid.id,
        &NewMessage {
            role: Role::Assistant,
            content: "hello!".into(),
            attached_files: None,
        },
    )
    .unwrap();

    let conv = load_conversation(&mut conn, &cid.id).unwrap().conversation;
    assert_eq!(conv.id, cid.id);
    assert_eq!(conv.title, "hello there");
    assert_eq!(conv.messages.len(), 2);
    assert_eq!(conv.messages[0].id, m1.id);
    assert_eq!(conv.messages[0].role, Role::User);
    assert_eq!(conv.messages[0].timestamp, m1.timestamp);
    let af: serde_json::Value =
        serde_json::from_str(conv.messages[0].attached_files.as_ref().unwrap()).unwrap();
    let af = af.as_array().unwrap();
    assert_eq!(af.len(), 1);
    assert_eq!(af[0]["id"], "f1");
    assert_eq!(af[0]["mime"], "image/png");
    assert_eq!(conv.messages[1].id, m2.id);
    assert_eq!(conv.messages[1].role, Role::Assistant);
    assert!(conv.messages[1].attached_files.is_none());
}

#[test]
fn list_summaries_orders_by_updated_at_desc() {
    let mut conn = fresh();
    let a = start_conversation(&mut conn, "a").unwrap();
    pause_ms(2);
    let b = start_conversation(&mut conn, "b").unwrap();
    pause_ms(2);
    let c = start_conversation(&mut conn, "c").unwrap();

    // Append to b -> should jump to top.
    pause_ms(2);
    append_message(
        &mut conn,
        &b.id,
        &NewMessage {
            role: Role::User,
            content: "bump".into(),
            attached_files: None,
        },
    )
    .unwrap();

    let s = list_conversation_summaries(&mut conn).unwrap();
    assert_eq!(s.len(), 3);
    assert_eq!(s[0].id, b.id);
    assert_eq!(s[0].message_count, 1);
    assert_eq!(s[1].id, c.id);
    assert_eq!(s[2].id, a.id);
}

#[test]
fn append_assigns_monotonic_timestamp() {
    let mut conn = fresh();
    let cid = start_conversation(&mut conn, "x").unwrap();
    let m1 = append_message(
        &mut conn,
        &cid.id,
        &NewMessage {
            role: Role::User,
            content: "1".into(),
            attached_files: None,
        },
    )
    .unwrap();
    let m2 = append_message(
        &mut conn,
        &cid.id,
        &NewMessage {
            role: Role::Assistant,
            content: "2".into(),
            attached_files: None,
        },
    )
    .unwrap();
    assert!(m2.timestamp > m1.timestamp);
}

#[test]
fn delete_cascades_messages() {
    let mut conn = fresh();
    let cid = start_conversation(&mut conn, "x").unwrap();
    append_message(
        &mut conn,
        &cid.id,
        &NewMessage {
            role: Role::User,
            content: "1".into(),
            attached_files: None,
        },
    )
    .unwrap();
    delete_conversation(&mut conn, &cid.id).unwrap();
    let n = count(
        &conn,
        "SELECT COUNT(*) FROM messages WHERE conversation_id = ?",
        &cid.id,
    );
    assert_eq!(n, 0);
}

#[test]
fn rename_unknown_errors() {
    let mut conn = fresh();
    let err = rename_conversation(&mut conn, "no-such-id", "anything").unwrap_err();
    assert!(matches!(err, DbError::ConversationNotFound(_)));
}

#[test]
fn edit_system_prompt_partial() {
    let mut conn = fresh();
    let p = create_system_prompt(&mut conn, "n1", "p1").unwrap();

    // name only
    pause_ms(1100);
    let p2 = edit_system_prompt(&mut conn, p.id, Some("n2"), None).unwrap();
    assert_eq!(p2.name, "n2");
    assert_eq!(p2.prompt, "p1");
    assert_ne!(p2.updated_at, p.updated_at);

    // prompt only
    let p3 = edit_system_prompt(&mut conn, p.id, None, Some("p3")).unwrap();
    assert_eq!(p3.name, "n2");
    assert_eq!(p3.prompt, "p3");

    // both
    let p4 = edit_system_prompt(&mut conn, p.id, Some("n4"), Some("p4")).unwrap();
    assert_eq!(p4.name, "n4");
    assert_eq!(p4.prompt, "p4");
}

#[test]
fn legacy_bridge() {
    let mut conn = blank();
    // The schema of the earlier migration tool: tables present, its
    // bookkeeping table present, user_version=0.
    conn.connection().execute_batch(SYSTEM_PROMPTS_SQL).unwrap();
    conn.connection().execute_batch(CHAT_HISTORY_SQL).unwrap();
    conn.connection().execute_batch(
        "CREATE TABLE _sqlx_migrations (version INTEGER PRIMARY KEY, description TEXT);",
    )
    .unwrap();
    conn.connection().execute_batch("INSERT INTO _sqlx_migrations (version, description) VALUES (1, 'x');")
        .unwrap();
    // Pre-existing data we want to keep.
    conn.connection().execute(
        "INSERT INTO conversations (id, title, created_at, updated_at) VALUES (?, ?, ?, ?)",
        ("pre-id", "pre", 1i64, 1i64),
    )
    .unwrap();

    assert_eq!(
        conn.connection().query_row::<i64, _, _>("PRAGMA user_version;", [], |r| r.get(0))
            .unwrap(),
        0
    );

    run_migrations(&mut conn).unwrap();

    let v: i64 = conn
        .connection()
        .query_row("PRAGMA user_version;", [], |r| r.get(0))
        .unwrap();
    assert_eq!(v, 2);

    let n: i64 = conn
        .connection()
        .query_row("SELECT COUNT(*) FROM conversations WHERE id='pre-id'", [], |r| {
            r.get(0)
        })
        .unwrap();
    assert_eq!(n, 1);
}

// -- further cases ---------------------------------------------------------

fn user_version(store: &Store) -> i64 {
    store.connection().query_row("PRAGMA user_version;", [], |r| r.get(0)).unwrap()
}

#[test]
fn migrations_run_twice_is_once() {
    let mut conn = blank();
    run_migrations(&mut conn).unwrap();
    assert_eq!(user_version(&conn), 2);
    let cid = start_conversation(&mut conn, "kept").unwrap();
    run_migrations(&mut conn).unwrap();
    assert_eq!(user_version(&conn), 2);
    assert_eq!(load_conversation(&mut conn, &cid.id).unwrap().conversation.title, "kept");
}

#[test]
fn migrations_continue_from_recorded_version() {
    let mut conn = blank();
    conn.connection().execute_batch(SYSTEM_PROMPTS_SQL).unwrap();
    conn.connection().execute_batch("PRAGMA user_version = 1;").unwrap();
    create_system_prompt(&mut conn, "kept", "text").unwrap();
    run_migrations(&mut conn).unwrap();
    assert_eq!(user_version(&conn), 2);
    assert_eq!(list_system_prompts(&mut conn).unwrap().len(), 1);
    start_conversation(&mut conn, "new table works").unwrap();
}

#[test]
fn blank_title_is_refused_and_title_is_trimmed() {
    let mut conn = fresh();
    let err = start_conversation(&mut conn, " \t\n ").unwrap_err();
    assert!(matches!(err, DbError::InvalidInput("conversation title is empty")));
    let cid = start_conversation(&mut conn, "  spaced out \u{3000}").unwrap();
    assert_eq!(load_conversation(&mut conn, &cid.id).unwrap().conversation.title, "spaced out");
    let err = rename_conversation(&mut conn, &cid.id, "   ").unwrap_err();
    assert!(matches!(err, DbError::InvalidInput("conversation title is empty")));
    rename_conversation(&mut conn, &cid.id, "  renamed  ").unwrap();
    assert_eq!(load_conversation(&mut conn, &cid.id).unwrap().conversation.title, "renamed");
}

#[test]
fn conversation_ids_are_hyphenated_uuids() {
    let mut conn = fresh();
    let a = start_conversation(&mut conn, "a").unwrap();
    let b = start_conversation(&mut conn, "b").unwrap();
    assert_ne!(a.id, b.id);
    for id in [&a.id, &b.id] {
        assert_eq!(id.len(), 36);
        for (i, ch) in id.chars().enumerate() {
            if i == 8 || i == 13 || i == 18 || i == 23 {
                assert_eq!(ch, '-');
            } else {
                assert!(ch.is_ascii_hexdigit() && !ch.is_ascii_uppercase());
            }
        }
    }
    let m = append_message(
        &mut conn,
        &a.id,
        &NewMessage { role: Role::System, content: "s".into(), attached_files: None },
    )
    .unwrap();
    assert_eq!(m.id.len(), 36);
    for id in [&a.id, &b.id, &m.id] {
        let chars: Vec<char> = id.chars().collect();
        assert_eq!(chars[14], '4');
        assert!(matches!(chars[19], '8' | '9' | 'a' | 'b'));
    }
}

#[test]
fn unknown_conversation_errors() {
    let mut conn = fresh();
    assert!(matches!(
        load_conversation(&mut conn, "nope").unwrap_err(),
        DbError::ConversationNotFound(ref s) if s == "nope"
    ));
    let err = append_message(
        &mut conn,
        "nope",
        &NewMessage { role: Role::User, content: "x".into(), attached_files: None },
    )
    .unwrap_err();
    assert!(matches!(err, DbError::ConversationNotFound(ref s) if s == "nope"));
    assert!(matches!(
        delete_conversation(&mut conn, "nope").unwrap_err(),
        DbError::ConversationNotFound(ref s) if s == "nope"
    ));
}

#[test]
fn empty_attachments_are_stored_as_null() {
    let mut conn = fresh();
    let cid = start_conversation(&mut conn, "files").unwrap();
    append_message(
        &mut conn,
        &cid.id,
        &NewMessage {
            role: Role::User,
            content: "a".into(),
            attached_files: Some(AttachedFiles { json: "[]".into(), count: 0 }),
        },
    )
    .unwrap();
    let nulls = count(
        &conn,
        "SELECT COUNT(*) FROM messages WHERE conversation_id = ? AND attached_files IS NULL",
        &cid.id,
    );
    assert_eq!(nulls, 1);
    conn.connection().execute(
        "INSERT INTO messages (id, conversation_id, role, content, timestamp, attached_files) \
         VALUES ('m-empty', ?, 'user', 'b', 1, '')",
        [cid.id.as_str()],
    )
    .unwrap();
    let conv = load_conversation(&mut conn, &cid.id).unwrap().conversation;
    assert_eq!(conv.messages.len(), 2);
    assert!(conv.messages.iter().all(|m| m.attached_files.is_none()));
}

#[test]
fn stored_role_out_of_range_is_reported() {
    let mut conn = fresh();
    let cid = start_conversation(&mut conn, "roles").unwrap();
    conn.connection().execute(
        "INSERT INTO messages (id, conversation_id, role, content, timestamp) \
         VALUES ('m-bad', ?, 'robot', 'beep', 1)",
        [cid.id.as_str()],
    )
    .unwrap();
    let read = load_conversation(&mut conn, &cid.id).unwrap();
    assert!(read.role_out_of_range);
    assert!(read.conversation.messages.is_empty());
    let err = role_outcome(&read).unwrap_err();
    assert!(matches!(err, DbError::InvalidInput("messages.role out of range")));
}

#[test]
fn messages_before_an_unknown_role_are_read() {
    let mut conn = fresh();
    let cid = start_conversation(&mut conn, "roles").unwrap();
    conn.connection().execute(
        "INSERT INTO messages (id, conversation_id, role, content, timestamp, attached_files) \
         VALUES ('m-1', ?, 'user', 'first', 1, 'not json'), \
                ('m-2', ?, 'robot', 'beep', 2, NULL), \
                ('m-3', ?, 'user', 'third', 3, NULL)",
        [cid.id.as_str(), cid.id.as_str(), cid.id.as_str()],
    )
    .unwrap();
    let read = load_conversation(&mut conn, &cid.id).unwrap();
    assert!(read.role_out_of_range);
    assert_eq!(read.conversation.messages.len(), 1);
    assert_eq!(read.conversation.messages[0].id, "m-1");
    assert_eq!(read.conversation.messages[0].attached_files.as_deref(), Some("not json"));
    assert!(role_outcome(&read).is_err());
}

#[test]
fn a_readable_conversation_has_no_role_error() {
    let mut conn = fresh();
    let cid = start_conversation(&mut conn, "fine").unwrap();
    let read = load_conversation(&mut conn, &cid.id).unwrap();
    assert!(!read.role_out_of_range);
    assert!(role_outcome(&read).is_ok());
}

#[test]
fn timestamps_move_past_future_messages() {
    let mut conn = fresh();
    let cid = start_conversation(&mut conn, "clock").unwrap();
    let future = i64::MAX - 10;
    conn.connection().execute(
        "INSERT INTO messages (id, conversation_id, role, content, timestamp) \
         VALUES ('m-future', ?, 'user', 'later', ?)",
        (cid.id.as_str(), future),
    )
    .unwrap();
    let m = append_message(
        &mut conn,
        &cid.id,
        &NewMessage { role: Role::Assistant, content: "next".into(), attached_files: None },
    )
    .unwrap();
    assert_eq!(m.timestamp, future + 1);
    let conv = load_conversation(&mut conn, &cid.id).unwrap().conversation;
    assert_eq!(conv.messages.last().unwrap().id, m.id);
}

#[test]
fn timestamp_overflow_is_refused() {
    let mut conn = fresh();
    let cid = start_conversation(&mut conn, "end of time").unwrap();
    conn.connection().execute(
        "INSERT INTO messages (id, conversation_id, role, content, timestamp) \
         VALUES ('m-max', ?, 'user', 'last', ?)",
        (cid.id.as_str(), i64::MAX),
    )
    .unwrap();
    let err = append_message(
        &mut conn,
        &cid.id,
        &NewMessage { role: Role::User, content: "x".into(), attached_files: None },
    )
    .unwrap_err();
    assert!(matches!(err, DbError::InvalidInput("message timestamp out of range")));
}

#[test]
fn delete_all_removes_everything() {
    let mut conn = fresh();
    let a = start_conversation(&mut conn, "a").unwrap();
    append_message(
        &mut conn,
        &a.id,
        &NewMessage { role: Role::User, content: "x".into(), attached_files: None },
    )
    .unwrap();
    start_conversation(&mut conn, "b").unwrap();
    delete_all_conversations(&mut conn).unwrap();
    assert!(list_conversation_summaries(&mut conn).unwrap().is_empty());
    let n: i64 = conn.connection().query_row("SELECT COUNT(*) FROM messages", [], |r| r.get(0)).unwrap();
    assert_eq!(n, 0);
}

#[test]
fn system_prompt_refusals() {
    let mut conn = fresh();
    assert!(matches!(
        create_system_prompt(&mut conn, " ", "p").unwrap_err(),
        DbError::InvalidInput("system prompt name is empty")
    ));
    assert!(matches!(
        create_system_prompt(&mut conn, " ", " ").unwrap_err(),
        DbError::InvalidInput("system prompt name is empty")
    ));
    assert!(matches!(
        create_system_prompt(&mut conn, "n", "\n").unwrap_err(),
        DbError::InvalidInput("system prompt text is empty")
    ));
    let p = create_system_prompt(&mut conn, "  name ", " text  ").unwrap();
    assert_eq!(p.name, "name");
    assert_eq!(p.prompt, "text");
    assert!(matches!(
        edit_system_prompt(&mut conn, p.id, None, None).unwrap_err(),
        DbError::InvalidInput("no fields to update")
    ));
    assert!(matches!(
        edit_system_prompt(&mut conn, p.id, Some(""), Some("x")).unwrap_err(),
        DbError::InvalidInput("system prompt name is empty")
    ));
    assert!(matches!(
        edit_system_prompt(&mut conn, p.id, Some("x"), Some(" ")).unwrap_err(),
        DbError::InvalidInput("system prompt text is empty")
    ));
    assert!(matches!(
        edit_system_prompt(&mut conn, p.id + 100, Some("x"), None).unwrap_err(),
        DbError::SystemPromptNotFound(id) if id == p.id + 100
    ));
    delete_system_prompt(&mut conn, p.id).unwrap();
    assert!(matches!(
        delete_system_prompt(&mut conn, p.id).unwrap_err(),
        DbError::SystemPromptNotFound(id) if id == p.id
    ));
    assert!(list_system_prompts(&mut conn).unwrap().is_empty());
}

#[test]
fn system_prompts_list_newest_first() {
    let mut conn = fresh();
    let old = create_system_prompt(&mut conn, "old", "o").unwrap();
    pause_ms(1100);
    let new = create_system_prompt(&mut conn, "new", "n").unwrap();
    let all = list_system_prompts(&mut conn).unwrap();
    assert_eq!(all.len(), 2);
    assert_eq!(all[0].id, new.id);
    assert_eq!(all[1].id, old.id);
}
