use pluely_db::decimal::push_decimal;
use pluely_db::migrations::{known_migrations, plan_migrations, user_version_sql, MigrationPlan};
use pluely_db::queries::{
    conversation_changed, decode_attached_files, encode_attached_files, message_from_columns,
    next_message_timestamp, system_prompt_changed, system_prompt_edit,
};
use pluely_db::schema::{AttachedFiles, Role};
use pluely_db::text::{required_text, trim};
use pluely_db::DbError;

#[test]
fn role_text_round_trip() {
    for r in [Role::User, Role::Assistant, Role::System] {
        assert_eq!(Role::from_str(r.as_str()), Some(r));
    }
    assert_eq!(Role::User.as_str(), "user");
    assert_eq!(Role::Assistant.as_str(), "assistant");
    assert_eq!(Role::System.as_str(), "system");
    assert_eq!(Role::from_str("User"), None);
    assert_eq!(Role::from_str("robot"), None);
    assert_eq!(Role::from_str(""), None);
}

#[test]
fn message_timestamp_rule() {
    assert_eq!(next_message_timestamp(100, None), Some(100));
    assert_eq!(next_message_timestamp(100, Some(100)), Some(101));
    assert_eq!(next_message_timestamp(50, Some(100)), Some(101));
    assert_eq!(next_message_timestamp(200, Some(100)), Some(200));
    assert_eq!(next_message_timestamp(-5, Some(i64::MAX - 1)), Some(i64::MAX));
    assert_eq!(next_message_timestamp(5, Some(i64::MAX)), None);
}

#[test]
fn user_version_statement_text() {
    assert_eq!(user_version_sql(2), "PRAGMA user_version = 2;");
    assert_eq!(user_version_sql(0), "PRAGMA user_version = 0;");
    assert_eq!(user_version_sql(1234567890), "PRAGMA user_version = 1234567890;");
    assert_eq!(user_version_sql(-15), "PRAGMA user_version = -15;");
    let mut s = String::from("v=");
    push_decimal(i64::MIN, &mut s);
    assert_eq!(s, format!("v={}", i64::MIN));
    let mut s = String::new();
    push_decimal(i64::MAX, &mut s);
    assert_eq!(s, i64::MAX.to_string());
}

fn positions(plan: MigrationPlan) -> Vec<usize> {
    match plan {
        MigrationPlan::Apply(ps) => ps,
        MigrationPlan::Stamp(v) => panic!("expected migrations to apply, got a stamp of {v}"),
    }
}

#[test]
fn migration_plans() {
    let ms = known_migrations();
    assert_eq!(ms.len(), 2);
    assert_eq!((ms[0].version, ms[1].version), (1, 2));
    assert!(matches!(plan_migrations(&ms, 0, true), MigrationPlan::Stamp(2)));
    assert_eq!(positions(plan_migrations(&ms, 0, false)), vec![0, 1]);
    assert_eq!(positions(plan_migrations(&ms, 1, false)), vec![1]);
    assert_eq!(positions(plan_migrations(&ms, 1, true)), vec![1]);
    assert!(positions(plan_migrations(&ms, 2, true)).is_empty());
    assert!(positions(plan_migrations(&ms, 7, false)).is_empty());
    assert!(matches!(plan_migrations(&Vec::new(), 0, true), MigrationPlan::Stamp(0)));
}

#[test]
fn required_text_rule() {
    assert_eq!(trim("  a b \t"), "a b");
    assert_eq!(trim("\u{2003}x\u{85}"), "x");
    assert_eq!(required_text(" ok ", "m").unwrap(), "ok");
    assert!(matches!(required_text(" \u{a0} ", "m"), Err(DbError::InvalidInput("m"))));
}

#[test]
fn attached_files_column_rule() {
    assert_eq!(decode_attached_files(None), None);
    assert_eq!(decode_attached_files(Some(String::new())), None);
    assert_eq!(decode_attached_files(Some("[]".into())), Some("[]".to_string()));
    assert_eq!(encode_attached_files(&None), None);
    let empty_list = AttachedFiles { json: "[]".into(), count: 0 };
    assert_eq!(encode_attached_files(&Some(empty_list)), None);
    let no_text = AttachedFiles { json: String::new(), count: 1 };
    assert_eq!(encode_attached_files(&Some(no_text)), None);
    let one = AttachedFiles { json: "[{\"id\":\"f\"}]".into(), count: 1 };
    let stored = encode_attached_files(&Some(one));
    assert_eq!(stored.as_deref(), Some("[{\"id\":\"f\"}]"));
    assert_eq!(decode_attached_files(stored), Some("[{\"id\":\"f\"}]".to_string()));
}

#[test]
fn message_columns_rule() {
    let m = message_from_columns("m".into(), "assistant".into(), "c".into(), 7, Some(String::new()))
        .unwrap();
    assert_eq!(m.role, Role::Assistant);
    assert_eq!((m.id.as_str(), m.content.as_str(), m.timestamp), ("m", "c", 7));
    assert!(m.attached_files.is_none());
    let err = message_from_columns("m".into(), "ASSISTANT".into(), "c".into(), 7, None).unwrap_err();
    assert!(matches!(err, DbError::InvalidInput("messages.role out of range")));
}

#[test]
fn changed_rows_rule() {
    assert!(conversation_changed(1, "c").is_ok());
    assert!(matches!(conversation_changed(0, "c"), Err(DbError::ConversationNotFound(ref s)) if s == "c"));
    assert!(system_prompt_changed(2, 9).is_ok());
    assert!(matches!(system_prompt_changed(0, 9), Err(DbError::SystemPromptNotFound(9))));
}

#[test]
fn system_prompt_edit_rule() {
    assert!(matches!(system_prompt_edit(None, None), Err(DbError::InvalidInput("no fields to update"))));
    assert!(matches!(
        system_prompt_edit(Some(" "), Some(" ")),
        Err(DbError::InvalidInput("system prompt name is empty"))
    ));
    assert!(matches!(
        system_prompt_edit(None, Some("")),
        Err(DbError::InvalidInput("system prompt text is empty"))
    ));
    let (n, p) = system_prompt_edit(Some(" n "), None).unwrap();
    assert_eq!(n.as_deref(), Some("n"));
    assert_eq!(p, None);
}
