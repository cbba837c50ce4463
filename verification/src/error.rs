//! The error type of the store.

use vstd::prelude::*;

verus! {

#[verifier::external_type_specification]
#[verifier::external_body]
pub struct ExSqliteError(rusqlite::Error);

#[verifier::external_type_specification]
#[verifier::external_body]
pub struct ExJsonError(serde_json::Error);

/// What a store operation can fail with.
#[derive(Debug)]
pub enum DbError {
    /// SQLite refused or failed a statement.
    Sqlite(rusqlite::Error),
    /// No conversation has the given id.
    ConversationNotFound(String),
    /// No system prompt has the given id.
    SystemPromptNotFound(i64),
    /// An argument, or a stored value, breaks a rule of the store.
    InvalidInput(&'static str),
    /// The attached files of a message are not valid JSON for a file list.
    AttachedFilesJson(serde_json::Error),
    /// The system clock reads a time before the Unix epoch.
    ClockBeforeEpoch,
}

} // verus!
