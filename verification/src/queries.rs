//! The store's operations on conversations, messages and system prompts.

use vstd::prelude::*;
use crate::error::DbError;
use crate::ids::{is_v4_uuid_text, new_id};
use crate::schema::{
    lemma_role_text_round_trip, parse_role, role_text, AppendedMessage, Conversation,
    AttachedFiles, ConversationId, ConversationRead, ConversationSummary, Message, NewMessage, Role,
    SystemPrompt,
};
use crate::sql::{
    column_view, no_rows_error, params_view, row_view, rows_fit, Column, ColumnKind, ColumnView,
    Exchange, ParamView, SqlParam, Store,
};
use crate::text::{is_blank, required_text, trimmed};

verus! {

// -- rules the operations apply to what they read and write --------------

/// A stored attached-files column as read: NULL (`None`) and empty text
/// both mean "no files".
pub open spec fn attached_column(raw: Option<Seq<char>>) -> Option<Seq<char>> {
    match raw {
        None => None,
        Some(s) => if s.len() == 0 {
            None
        } else {
            Some(s)
        },
    }
}

/// The attached-files column stored for a message's files: NULL when it
/// has none, when its file list is empty, or when there is no text; the
/// JSON text of the list otherwise.
pub open spec fn files_column(files: Option<AttachedFiles>) -> Option<Seq<char>> {
    match files {
        None => None,
        Some(f) => if f.count == 0 || f.json@.len() == 0 {
            None
        } else {
            Some(f.json@)
        },
    }
}

/// The view of an optional string.
pub open spec fn opt_view(s: Option<String>) -> Option<Seq<char>> {
    match s {
        None => None,
        Some(t) => Some(t@),
    }
}

/// The attached files of a message as read from its column: NULL and
/// empty text both mean "no files".
pub fn decode_attached_files(raw: Option<String>) -> (files: Option<String>)
    ensures
        opt_view(files) == attached_column(opt_view(raw)),
{
    match raw {
        None => None,
        Some(s) => if s.as_str().is_empty() {
            None
        } else {
            Some(s)
        },
    }
}

/// The attached-files column for a message to store: NULL when it has no
/// files or an empty file list, the JSON text of the list otherwise.
pub fn encode_attached_files(files: &Option<AttachedFiles>) -> (column: Option<String>)
    ensures
        opt_view(column) == files_column(*files),
{
    match files {
        None => None,
        Some(f) => if f.count == 0 || f.json.as_str().is_empty() {
            None
        } else {
            Some(f.json.clone())
        },
    }
}

/// Reading a message's attached files back gives what was stored for
/// them: the JSON text of a non-empty file list comes back unchanged, and
/// no files or an empty list come back as none.
pub proof fn lemma_attached_files_read_back(files: Option<AttachedFiles>)
    ensures
        attached_column(files_column(files)) == files_column(files),
        files_column(files) is None <==> (files is None || files->0.count == 0
            || files->0.json@.len() == 0),
{
}

/// The timestamp a new message gets: the clock reading `now`, but strictly
/// after `prev_max`, the newest timestamp already in the conversation.
pub open spec fn message_timestamp(now: i64, prev_max: Option<i64>) -> int {
    match prev_max {
        None => now as int,
        Some(p) => if now <= p {
            p + 1
        } else {
            now as int
        },
    }
}

/// `message_timestamp`, or `None` where it does not fit in an `i64` (the
/// newest timestamp is `i64::MAX`).
pub fn next_message_timestamp(now: i64, prev_max: Option<i64>) -> (ts: Option<i64>)
    ensures
        message_timestamp(now, prev_max) <= i64::MAX ==> ts == Some(
            message_timestamp(now, prev_max) as i64,
        ),
        message_timestamp(now, prev_max) > i64::MAX ==> ts is None,
{
    match prev_max {
        None => Some(now),
        Some(p) => if now <= p {
            if p == i64::MAX {
                None
            } else {
                Some(p + 1)
            }
        } else {
            Some(now)
        },
    }
}

/// A message's timestamp is strictly after every timestamp already in its
/// conversation and not before the clock reading, so ordering by timestamp
/// keeps the order of appends even within one millisecond.
pub proof fn lemma_message_timestamp_monotonic(now: i64, prev_max: Option<i64>)
    ensures
        message_timestamp(now, prev_max) >= now,
        prev_max matches Some(p) ==> message_timestamp(now, prev_max) > p,
        prev_max matches Some(p) ==> message_timestamp(now, prev_max) == if now > p {
            now as int
        } else {
            p + 1
        },
{
}

/// A stored message from its columns; its role text must name a role.
pub fn message_from_columns(
    id: String,
    role: String,
    content: String,
    timestamp: i64,
    attached: Option<String>,
) -> (m: Result<Message, DbError>)
    ensures
        parse_role(role@) is None ==> m == Err::<Message, DbError>(
            DbError::InvalidInput("messages.role out of range"),
        ),
        parse_role(role@) matches Some(r) ==> (m matches Ok(msg) && msg.id == id && msg.role == r
            && msg.content == content && msg.timestamp == timestamp && opt_view(msg.attached_files)
            == attached_column(opt_view(attached))),
{
    match Role::from_str(role.as_str()) {
        None => Err(DbError::InvalidInput("messages.role out of range")),
        Some(r) => Ok(
            Message {
                id,
                role: r,
                content,
                timestamp,
                attached_files: decode_attached_files(attached),
            },
        ),
    }
}

/// The outcome of a statement that must touch the conversation `id`: not
/// found when it changed no row.
pub fn conversation_changed(changed: usize, id: &str) -> (r: Result<(), DbError>)
    ensures
        changed == 0 ==> (r matches Err(DbError::ConversationNotFound(s)) && s@ == id@),
        changed != 0 ==> r == Ok::<(), DbError>(()),
{
    if changed == 0 {
        Err(DbError::ConversationNotFound(id.to_owned()))
    } else {
        Ok(())
    }
}

/// The outcome of a statement that must touch the system prompt `id`: not
/// found when it changed no row.
pub fn system_prompt_changed(changed: usize, id: i64) -> (r: Result<(), DbError>)
    ensures
        changed == 0 ==> r == Err::<(), DbError>(DbError::SystemPromptNotFound(id)),
        changed != 0 ==> r == Ok::<(), DbError>(()),
{
    if changed == 0 {
        Err(DbError::SystemPromptNotFound(id))
    } else {
        Ok(())
    }
}

/// The value bound for optional text: the text, or NULL.
pub fn text_or_null(s: Option<String>) -> (p: SqlParam)
    ensures
        s matches Some(t) ==> p == SqlParam::Text(t),
        s is None ==> p == SqlParam::Null,
{
    match s {
        Some(t) => SqlParam::Text(t),
        None => SqlParam::Null,
    }
}

/// The bound value for an optional text column.
pub open spec fn opt_text_param(s: Option<Seq<char>>) -> ParamView {
    match s {
        Some(t) => ParamView::Text(t),
        None => ParamView::Null,
    }
}

/// The values bound to `INSERT INTO conversations (id, title, created_at,
/// updated_at)`: the id, the (already trimmed) title, and `now` twice.
pub fn conversation_row_params(id: &String, title: &str, now: i64) -> (p: Vec<SqlParam>)
    ensures
        params_view(p@) == seq![
            ParamView::Text(id@),
            ParamView::Text(title@),
            ParamView::Integer(now),
            ParamView::Integer(now),
        ],
{
    let p = vec![
        SqlParam::Text(id.clone()),
        SqlParam::Text(title.to_owned()),
        SqlParam::Integer(now),
        SqlParam::Integer(now),
    ];
    assert(params_view(p@) =~= seq![
        ParamView::Text(id@),
        ParamView::Text(title@),
        ParamView::Integer(now),
        ParamView::Integer(now),
    ]);
    p
}

/// The values bound to `INSERT INTO messages (id, conversation_id, role,
/// content, timestamp, attached_files)`: the role as its stored text, and
/// the attached files as `encode_attached_files` frames them.
pub fn message_row_params(id: &String, conversation_id: &str, msg: &NewMessage, timestamp: i64) -> (p:
    Vec<SqlParam>)
    ensures
        params_view(p@) == seq![
            ParamView::Text(id@),
            ParamView::Text(conversation_id@),
            ParamView::Text(role_text(msg.role)),
            ParamView::Text(msg.content@),
            ParamView::Integer(timestamp),
            opt_text_param(files_column(msg.attached_files)),
        ],
{
    let attached = encode_attached_files(&msg.attached_files);
    let p = vec![
        SqlParam::Text(id.clone()),
        SqlParam::Text(conversation_id.to_owned()),
        SqlParam::Text(msg.role.as_str().to_owned()),
        SqlParam::Text(msg.content.clone()),
        SqlParam::Integer(timestamp),
        text_or_null(attached),
    ];
    assert(params_view(p@) =~= seq![
        ParamView::Text(id@),
        ParamView::Text(conversation_id@),
        ParamView::Text(role_text(msg.role)),
        ParamView::Text(msg.content@),
        ParamView::Integer(timestamp),
        opt_text_param(files_column(msg.attached_files)),
    ]);
    p
}

/// The values bound to `UPDATE system_prompts SET name = COALESCE(?, name),
/// prompt = COALESCE(?, prompt) WHERE id = ?`: NULL keeps a field.
pub fn system_prompt_update_params(id: i64, name: Option<String>, prompt: Option<String>) -> (p: Vec<
    SqlParam,
>)
    ensures
        params_view(p@) == seq![
            opt_text_param(opt_view(name)),
            opt_text_param(opt_view(prompt)),
            ParamView::Integer(id),
        ],
{
    let ghost (n0, p0) = (name, prompt);
    let p = vec![text_or_null(name), text_or_null(prompt), SqlParam::Integer(id)];
    assert(params_view(p@) =~= seq![
        opt_text_param(opt_view(n0)),
        opt_text_param(opt_view(p0)),
        ParamView::Integer(id),
    ]);
    p
}

// -- the statements ------------------------------------------------------

pub const SUMMARIES_SQL: &'static str = "SELECT c.id, c.title, c.created_at, c.updated_at, \
                COALESCE(COUNT(m.id), 0) AS message_count \
         FROM conversations c \
         LEFT JOIN messages m ON m.conversation_id = c.id \
         GROUP BY c.id \
         ORDER BY c.updated_at DESC";

pub const CONVERSATION_SQL: &'static str =
    "SELECT id, title, created_at, updated_at FROM conversations WHERE id = ?";

pub const MESSAGES_SQL: &'static str = "SELECT id, role, content, timestamp, attached_files \
         FROM messages WHERE conversation_id = ? ORDER BY timestamp ASC";

pub const INSERT_CONVERSATION_SQL: &'static str =
    "INSERT INTO conversations (id, title, created_at, updated_at) VALUES (?, ?, ?, ?)";

pub const CONVERSATION_COUNT_SQL: &'static str = "SELECT COUNT(*) FROM conversations WHERE id = ?";

pub const LATEST_MESSAGE_SQL: &'static str =
    "SELECT MAX(timestamp) FROM messages WHERE conversation_id = ?";

pub const INSERT_MESSAGE_SQL: &'static str =
    "INSERT INTO messages (id, conversation_id, role, content, timestamp, attached_files) \
         VALUES (?, ?, ?, ?, ?, ?)";

pub const RENAME_CONVERSATION_SQL: &'static str = "UPDATE conversations SET title = ? WHERE id = ?";

pub const DELETE_CONVERSATION_SQL: &'static str = "DELETE FROM conversations WHERE id = ?";

pub const DELETE_ALL_CONVERSATIONS_SQL: &'static str =
    "DELETE FROM messages; DELETE FROM conversations;";

pub const SYSTEM_PROMPTS_SQL: &'static str =
    "SELECT id, name, prompt, created_at, updated_at FROM system_prompts ORDER BY created_at DESC";

pub const SYSTEM_PROMPT_SQL: &'static str =
    "SELECT id, name, prompt, created_at, updated_at FROM system_prompts WHERE id = ?";

pub const INSERT_SYSTEM_PROMPT_SQL: &'static str =
    "INSERT INTO system_prompts (name, prompt) VALUES (?, ?) RETURNING id";

pub const UPDATE_SYSTEM_PROMPT_SQL: &'static str = "UPDATE system_prompts \
         SET name = COALESCE(?, name), prompt = COALESCE(?, prompt) \
         WHERE id = ?";

pub const DELETE_SYSTEM_PROMPT_SQL: &'static str = "DELETE FROM system_prompts WHERE id = ?";

// -- reading rows --------------------------------------------------------

pub open spec fn summary_shape() -> Seq<ColumnKind> {
    seq![ColumnKind::Text, ColumnKind::Text, ColumnKind::Integer, ColumnKind::Integer, ColumnKind::Integer]
}

pub open spec fn conversation_shape() -> Seq<ColumnKind> {
    seq![ColumnKind::Text, ColumnKind::Text, ColumnKind::Integer, ColumnKind::Integer]
}

pub open spec fn message_shape() -> Seq<ColumnKind> {
    seq![ColumnKind::Text, ColumnKind::Text, ColumnKind::Text, ColumnKind::Integer, ColumnKind::OptText]
}

pub open spec fn system_prompt_shape() -> Seq<ColumnKind> {
    seq![ColumnKind::Integer, ColumnKind::Text, ColumnKind::Text, ColumnKind::Integer, ColumnKind::Integer]
}

fn summary_kinds() -> (v: Vec<ColumnKind>)
    ensures
        v@ == summary_shape(),
{
    let v = vec![ColumnKind::Text, ColumnKind::Text, ColumnKind::Integer, ColumnKind::Integer, ColumnKind::Integer];
    assert(v@ =~= summary_shape());
    v
}

fn conversation_kinds() -> (v: Vec<ColumnKind>)
    ensures
        v@ == conversation_shape(),
{
    let v = vec![ColumnKind::Text, ColumnKind::Text, ColumnKind::Integer, ColumnKind::Integer];
    assert(v@ =~= conversation_shape());
    v
}

fn message_kinds() -> (v: Vec<ColumnKind>)
    ensures
        v@ == message_shape(),
{
    let v = vec![ColumnKind::Text, ColumnKind::Text, ColumnKind::Text, ColumnKind::Integer, ColumnKind::OptText];
    assert(v@ =~= message_shape());
    v
}

fn system_prompt_kinds() -> (v: Vec<ColumnKind>)
    ensures
        v@ == system_prompt_shape(),
{
    let v = vec![ColumnKind::Integer, ColumnKind::Text, ColumnKind::Text, ColumnKind::Integer, ColumnKind::Integer];
    assert(v@ =~= system_prompt_shape());
    v
}

pub(crate) fn integer_kinds() -> (v: Vec<ColumnKind>)
    ensures
        v@ == seq![ColumnKind::Integer],
{
    let v = vec![ColumnKind::Integer];
    assert(v@ =~= seq![ColumnKind::Integer]);
    v
}

fn opt_integer_kinds() -> (v: Vec<ColumnKind>)
    ensures
        v@ == seq![ColumnKind::OptInteger],
{
    let v = vec![ColumnKind::OptInteger];
    assert(v@ =~= seq![ColumnKind::OptInteger]);
    v
}

pub open spec fn text_of(c: ColumnView) -> Seq<char> {
    match c {
        ColumnView::Text(s) => s,
        _ => Seq::empty(),
    }
}

pub open spec fn integer_of(c: ColumnView) -> i64 {
    match c {
        ColumnView::Integer(i) => i,
        _ => 0,
    }
}

pub open spec fn opt_text_of(c: ColumnView) -> Option<Seq<char>> {
    match c {
        ColumnView::Text(s) => Some(s),
        _ => None,
    }
}

pub open spec fn opt_integer_of(c: ColumnView) -> Option<i64> {
    match c {
        ColumnView::Integer(i) => Some(i),
        _ => None,
    }
}

fn text_at(row: &Vec<Column>, i: usize) -> (s: String)
    requires
        i < row@.len(),
        row_view(row@)[i as int] is Text,
    ensures
        ColumnView::Text(s@) == row_view(row@)[i as int],
{
    match &row[i] {
        Column::Text(s) => s.clone(),
        _ => String::new(),
    }
}

fn integer_at(row: &Vec<Column>, i: usize) -> (n: i64)
    requires
        i < row@.len(),
        row_view(row@)[i as int] is Integer,
    ensures
        ColumnView::Integer(n) == row_view(row@)[i as int],
{
    match &row[i] {
        Column::Integer(n) => *n,
        _ => 0,
    }
}

fn opt_text_at(row: &Vec<Column>, i: usize) -> (s: Option<String>)
    requires
        i < row@.len(),
    ensures
        opt_view(s) == opt_text_of(row_view(row@)[i as int]),
{
    match &row[i] {
        Column::Text(s) => Some(s.clone()),
        _ => None,
    }
}

fn opt_integer_at(row: &Vec<Column>, i: usize) -> (n: Option<i64>)
    requires
        i < row@.len(),
    ensures
        n == opt_integer_of(row_view(row@)[i as int]),
{
    match &row[i] {
        Column::Integer(n) => Some(*n),
        _ => None,
    }
}

/// A summary is the record of a summary row.
pub open spec fn summary_matches(s: ConversationSummary, row: Seq<ColumnView>) -> bool {
    row == seq![
        ColumnView::Text(s.id@),
        ColumnView::Text(s.title@),
        ColumnView::Integer(s.created_at),
        ColumnView::Integer(s.updated_at),
        ColumnView::Integer(s.message_count),
    ]
}

/// A system prompt is the record of a prompt row.
pub open spec fn system_prompt_matches(p: SystemPrompt, row: Seq<ColumnView>) -> bool {
    row == seq![
        ColumnView::Integer(p.id),
        ColumnView::Text(p.name@),
        ColumnView::Text(p.prompt@),
        ColumnView::Integer(p.created_at),
        ColumnView::Integer(p.updated_at),
    ]
}

/// A message is the record of a message row: its role read from the role
/// text, its attached files framed by `attached_column`.
pub open spec fn message_matches(m: Message, row: Seq<ColumnView>) -> bool {
    &&& row.len() == 5
    &&& row[0] == ColumnView::Text(m.id@)
    &&& row[1] == ColumnView::Text(role_text(m.role))
    &&& row[2] == ColumnView::Text(m.content@)
    &&& row[3] == ColumnView::Integer(m.timestamp)
    &&& opt_view(m.attached_files) == attached_column(opt_text_of(row[4]))
}

/// The role text of a message row names a role.
pub open spec fn role_readable(row: Seq<ColumnView>) -> bool {
    parse_role(text_of(row[1])) is Some
}

/// The record of a summary row.
pub fn summary_from_row(row: &Vec<Column>) -> (s: ConversationSummary)
    requires
        crate::sql::row_fits(row_view(row@), summary_shape()),
    ensures
        summary_matches(s, row_view(row@)),
{
    let s = ConversationSummary {
        id: text_at(row, 0),
        title: text_at(row, 1),
        created_at: integer_at(row, 2),
        updated_at: integer_at(row, 3),
        message_count: integer_at(row, 4),
    };
    assert(row_view(row@) =~= seq![
        ColumnView::Text(s.id@),
        ColumnView::Text(s.title@),
        ColumnView::Integer(s.created_at),
        ColumnView::Integer(s.updated_at),
        ColumnView::Integer(s.message_count),
    ]);
    s
}

/// The record of a system prompt row.
pub fn system_prompt_from_row(row: &Vec<Column>) -> (p: SystemPrompt)
    requires
        crate::sql::row_fits(row_view(row@), system_prompt_shape()),
    ensures
        system_prompt_matches(p, row_view(row@)),
{
    let p = SystemPrompt {
        id: integer_at(row, 0),
        name: text_at(row, 1),
        prompt: text_at(row, 2),
        created_at: integer_at(row, 3),
        updated_at: integer_at(row, 4),
    };
    assert(row_view(row@) =~= seq![
        ColumnView::Integer(p.id),
        ColumnView::Text(p.name@),
        ColumnView::Text(p.prompt@),
        ColumnView::Integer(p.created_at),
        ColumnView::Integer(p.updated_at),
    ]);
    p
}

/// The records of summary rows, one per row, in order.
pub fn summaries_from_rows(rows: &Vec<Vec<Column>>) -> (v: Vec<ConversationSummary>)
    requires
        rows_fit(crate::sql::rows_view(rows@), summary_shape()),
    ensures
        v@.len() == rows@.len(),
        forall|i: int| 0 <= i < rows@.len() ==> summary_matches(#[trigger] v@[i], row_view(rows@[i]@)),
{
    let mut v: Vec<ConversationSummary> = Vec::new();
    for i in 0..rows.len()
        invariant
            rows_fit(crate::sql::rows_view(rows@), summary_shape()),
            v@.len() == i,
            forall|k: int| 0 <= k < i ==> summary_matches(#[trigger] v@[k], row_view(rows@[k]@)),
    {
        assert(crate::sql::rows_view(rows@)[i as int] == row_view(rows@[i as int]@));
        v.push(summary_from_row(&rows[i]));
    }
    v
}

/// The records of system prompt rows, one per row, in order.
pub fn system_prompts_from_rows(rows: &Vec<Vec<Column>>) -> (v: Vec<SystemPrompt>)
    requires
        rows_fit(crate::sql::rows_view(rows@), system_prompt_shape()),
    ensures
        v@.len() == rows@.len(),
        forall|i: int|
            0 <= i < rows@.len() ==> system_prompt_matches(#[trigger] v@[i], row_view(rows@[i]@)),
{
    let mut v: Vec<SystemPrompt> = Vec::new();
    for i in 0..rows.len()
        invariant
            rows_fit(crate::sql::rows_view(rows@), system_prompt_shape()),
            v@.len() == i,
            forall|k: int|
                0 <= k < i ==> system_prompt_matches(#[trigger] v@[k], row_view(rows@[k]@)),
    {
        assert(crate::sql::rows_view(rows@)[i as int] == row_view(rows@[i as int]@));
        v.push(system_prompt_from_row(&rows[i]));
    }
    v
}

/// `ms` are the messages of `rows`, one per row and in order, up to the
/// first row whose role text names no role; `stopped` tells whether there
/// is such a row.
pub open spec fn reads_messages(ms: Seq<Message>, stopped: bool, rows: Seq<Seq<ColumnView>>) -> bool {
    &&& ms.len() <= rows.len()
    &&& forall|i: int|
        0 <= i < ms.len() ==> role_readable(#[trigger] rows[i]) && message_matches(ms[i], rows[i])
    &&& stopped <==> ms.len() < rows.len()
    &&& stopped ==> !role_readable(rows[ms.len() as int])
}

/// The messages of message rows, one per row, in order, up to the first
/// row whose role text names no role; whether there is such a row.
pub fn messages_from_rows(rows: &Vec<Vec<Column>>) -> (r: (Vec<Message>, bool))
    requires
        rows_fit(crate::sql::rows_view(rows@), message_shape()),
    ensures
        reads_messages(r.0@, r.1, crate::sql::rows_view(rows@)),
{
    let ghost rvs = crate::sql::rows_view(rows@);
    let mut ms: Vec<Message> = Vec::new();
    for i in 0..rows.len()
        invariant
            rvs == crate::sql::rows_view(rows@),
            rows_fit(rvs, message_shape()),
            ms@.len() == i,
            i <= rows@.len(),
            forall|k: int|
                0 <= k < i ==> role_readable(#[trigger] rvs[k]) && message_matches(ms@[k], rvs[k]),
    {
        let row = &rows[i];
        let ghost rv = row_view(row@);
        assert(rvs[i as int] == rv);
        assert(crate::sql::row_fits(rv, message_shape()));
        match message_from_columns(
            text_at(row, 0),
            text_at(row, 1),
            text_at(row, 2),
            integer_at(row, 3),
            opt_text_at(row, 4),
        ) {
            Ok(m) => {
                proof {
                    lemma_role_text_round_trip(m.role, text_of(rv[1]));
                }
                ms.push(m);
            },
            Err(_) => {
                return (ms, true);
            },
        }
    }
    (ms, false)
}

/// The single integer a one-row query answers; SQLite's "no rows" error
/// when it answers none.
pub fn single_integer(rows: &Vec<Vec<Column>>) -> (r: Result<i64, DbError>)
    requires
        rows_fit(crate::sql::rows_view(rows@), seq![ColumnKind::Integer]),
    ensures
        rows@.len() == 0 ==> r matches Err(DbError::Sqlite(_)),
        rows@.len() > 0 ==> r == Ok::<i64, DbError>(integer_of(row_view(rows@[0]@)[0])),
{
    if rows.len() == 0 {
        Err(DbError::Sqlite(no_rows_error()))
    } else {
        assert(crate::sql::rows_view(rows@)[0] == row_view(rows@[0]@));
        Ok(integer_at(&rows[0], 0))
    }
}

/// The single integer or NULL a one-row query answers; SQLite's "no rows"
/// error when it answers none.
pub fn single_opt_integer(rows: &Vec<Vec<Column>>) -> (r: Result<Option<i64>, DbError>)
    requires
        rows_fit(crate::sql::rows_view(rows@), seq![ColumnKind::OptInteger]),
    ensures
        rows@.len() == 0 ==> r matches Err(DbError::Sqlite(_)),
        rows@.len() > 0 ==> r == Ok::<Option<i64>, DbError>(
            opt_integer_of(row_view(rows@[0]@)[0]),
        ),
{
    if rows.len() == 0 {
        Err(DbError::Sqlite(no_rows_error()))
    } else {
        assert(crate::sql::rows_view(rows@)[0] == row_view(rows@[0]@));
        Ok(opt_integer_at(&rows[0], 0))
    }
}

/// The checked new values of an edit: each given field trimmed, `None` for
/// a field to keep. A blank name, then a blank text, is refused, and so is
/// an edit that gives neither field.
pub fn system_prompt_edit(name: Option<&str>, prompt: Option<&str>) -> (r: Result<
    (Option<String>, Option<String>),
    DbError,
>)
    ensures
        name matches Some(n) && is_blank(n@) ==> r == Err::<(Option<String>, Option<String>), DbError>(
            DbError::InvalidInput("system prompt name is empty"),
        ),
        !(name matches Some(n) && is_blank(n@)) && (prompt matches Some(p) && is_blank(p@)) ==> r
            == Err::<(Option<String>, Option<String>), DbError>(
            DbError::InvalidInput("system prompt text is empty"),
        ),
        name is None && prompt is None ==> r == Err::<(Option<String>, Option<String>), DbError>(
            DbError::InvalidInput("no fields to update"),
        ),
        !(name matches Some(n) && is_blank(n@)) && !(prompt matches Some(p) && is_blank(p@)) && !(
        name is None && prompt is None) ==> (r matches Ok((n2, p2)) && opt_view(n2) == trimmed_opt(
            name,
        ) && opt_view(p2) == trimmed_opt(prompt)),
{
    let name = match name {
        Some(s) => {
            let t = required_text(s, "system prompt name is empty")?;
            Some(t.to_owned())
        },
        None => None,
    };
    let prompt = match prompt {
        Some(s) => {
            let t = required_text(s, "system prompt text is empty")?;
            Some(t.to_owned())
        },
        None => None,
    };
    if name.is_none() && prompt.is_none() {
        return Err(DbError::InvalidInput("no fields to update"));
    }
    Ok((name, prompt))
}

/// The trimmed text of an optional field.
pub open spec fn trimmed_opt(s: Option<&str>) -> Option<Seq<char>> {
    match s {
        None => None,
        Some(t) => Some(trimmed(t@)),
    }
}

// -- what the operations send and answer --------------------------------

/// The journal `after` continues `before`.
pub open spec fn extends(before: Seq<Exchange>, after: Seq<Exchange>) -> bool {
    &&& before.len() <= after.len()
    &&& after.subrange(0, before.len() as int) == before
}

/// The exchanges added to the journal between `before` and `after`.
pub open spec fn added(before: Seq<Exchange>, after: Seq<Exchange>) -> Seq<Exchange> {
    after.subrange(before.len() as int, after.len() as int)
}

pub(crate) proof fn lemma_added_one(j: Seq<Exchange>, e: Exchange)
    ensures
        extends(j, j.push(e)),
        added(j, j.push(e)) == seq![e],
{
    assert(j.push(e).subrange(0, j.len() as int) =~= j);
    assert(added(j, j.push(e)) =~= seq![e]);
}

pub(crate) proof fn lemma_added_two(j: Seq<Exchange>, e1: Exchange, e2: Exchange)
    ensures
        extends(j, j.push(e1).push(e2)),
        added(j, j.push(e1).push(e2)) == seq![e1, e2],
{
    assert(j.push(e1).push(e2).subrange(0, j.len() as int) =~= j);
    assert(added(j, j.push(e1).push(e2)) =~= seq![e1, e2]);
}

pub(crate) proof fn lemma_added_three(j: Seq<Exchange>, e1: Exchange, e2: Exchange, e3: Exchange)
    ensures
        extends(j, j.push(e1).push(e2).push(e3)),
        added(j, j.push(e1).push(e2).push(e3)) == seq![e1, e2, e3],
{
    assert(j.push(e1).push(e2).push(e3).subrange(0, j.len() as int) =~= j);
    assert(added(j, j.push(e1).push(e2).push(e3)) =~= seq![e1, e2, e3]);
}

pub(crate) proof fn lemma_added_four(j: Seq<Exchange>, e1: Exchange, e2: Exchange, e3: Exchange, e4: Exchange)
    ensures
        extends(j, j.push(e1).push(e2).push(e3).push(e4)),
        added(j, j.push(e1).push(e2).push(e3).push(e4)) == seq![e1, e2, e3, e4],
{
    assert(j.push(e1).push(e2).push(e3).push(e4).subrange(0, j.len() as int) =~= j);
    assert(added(j, j.push(e1).push(e2).push(e3).push(e4)) =~= seq![e1, e2, e3, e4]);
}

/// A statement that must touch the conversation `id`: its failure is an
/// SQLite error, no changed row is "not found", anything else success.
pub open spec fn conversation_outcome(changed: Option<usize>, id: Seq<char>, r: Result<(), DbError>) -> bool {
    match changed {
        None => r matches Err(DbError::Sqlite(_)),
        Some(n) => if n == 0 {
            r matches Err(DbError::ConversationNotFound(s)) && s@ == id
        } else {
            r == Ok::<(), DbError>(())
        },
    }
}

/// As `conversation_outcome`, for the system prompt `id`.
pub open spec fn system_prompt_outcome(changed: Option<usize>, id: i64, r: Result<(), DbError>) -> bool {
    match changed {
        None => r matches Err(DbError::Sqlite(_)),
        Some(n) => if n == 0 {
            r == Err::<(), DbError>(DbError::SystemPromptNotFound(id))
        } else {
            r == Ok::<(), DbError>(())
        },
    }
}

/// Listing conversations: the summary query, answered with one summary
/// per row, in SQLite's order.
pub open spec fn lists_summaries(d: Seq<Exchange>, r: Result<Vec<ConversationSummary>, DbError>) -> bool {
    &&& d.len() == 1
    &&& match d[0] {
        Exchange::Query { sql, params, rows } => {
            &&& sql == SUMMARIES_SQL@
            &&& params == Seq::<ParamView>::empty()
            &&& match rows {
                None => r matches Err(DbError::Sqlite(_)),
                Some(rows) => (r matches Ok(v) && v@.len() == rows.len() && forall|i: int|
                    0 <= i < rows.len() ==> summary_matches(#[trigger] v@[i], rows[i])),
            }
        },
        _ => false,
    }
}

/// Loading the conversation `id`: its row, then (when there is one) the
/// rows of its messages, in timestamp order.
pub open spec fn loads_conversation(id: Seq<char>, d: Seq<Exchange>, r: Result<ConversationRead, DbError>) -> bool {
    &&& d.len() >= 1
    &&& match d[0] {
        Exchange::Query { sql, params, rows } => {
            &&& sql == CONVERSATION_SQL@
            &&& params == seq![ParamView::Text(id)]
            &&& match rows {
                None => d.len() == 1 && r matches Err(DbError::Sqlite(_)),
                Some(heads) => if heads.len() == 0 {
                    d.len() == 1 && (r matches Err(DbError::ConversationNotFound(s)) && s@ == id)
                } else {
                    loads_messages(heads[0], d, r)
                },
            }
        },
        _ => false,
    }
}

/// The second half of loading a conversation whose row is `head`: its
/// fields copied, and its messages read up to the first row whose role
/// names no role.
pub open spec fn loads_messages(head: Seq<ColumnView>, d: Seq<Exchange>, r: Result<ConversationRead, DbError>) -> bool {
    &&& d.len() == 2
    &&& match d[1] {
        Exchange::Query { sql, params, rows } => {
            &&& sql == MESSAGES_SQL@
            &&& params == seq![ParamView::Text(text_of(head[0]))]
            &&& match rows {
                None => r matches Err(DbError::Sqlite(_)),
                Some(rows) => r matches Ok(c) && head == seq![
                    ColumnView::Text(c.conversation.id@),
                    ColumnView::Text(c.conversation.title@),
                    ColumnView::Integer(c.conversation.created_at),
                    ColumnView::Integer(c.conversation.updated_at),
                ] && reads_messages(c.conversation.messages@, c.role_out_of_range, rows),
            }
        },
        _ => false,
    }
}

/// Starting a conversation titled `title`: a blank title is refused before
/// anything is sent; otherwise the clock is read, a reading before the
/// epoch is refused, and any other reading `now` goes into one insert of a
/// fresh id, the trimmed title and `now` twice, whose id and time are what
/// is returned.
pub open spec fn starts_conversation(title: Seq<char>, d: Seq<Exchange>, r: Result<ConversationId, DbError>) -> bool {
    if is_blank(title) {
        d.len() == 0 && r == Err::<ConversationId, DbError>(
            DbError::InvalidInput("conversation title is empty"),
        )
    } else {
        &&& d.len() >= 1
        &&& match d[0] {
            Exchange::Clock { millis } => match millis {
                None => d.len() == 1 && r == Err::<ConversationId, DbError>(DbError::ClockBeforeEpoch),
                Some(now) => d.len() == 2 && match d[1] {
                    Exchange::Execute { sql, params, changed } => {
                        &&& sql == INSERT_CONVERSATION_SQL@
                        &&& params.len() == 4
                        &&& params[0] matches ParamView::Text(id) && is_v4_uuid_text(id)
                        &&& params[1] == ParamView::Text(trimmed(title))
                        &&& params[2] == ParamView::Integer(now)
                        &&& params[3] == ParamView::Integer(now)
                        &&& match changed {
                            None => r matches Err(DbError::Sqlite(_)),
                            Some(_) => (r matches Ok(c) && params[0] == ParamView::Text(c.id@)
                                && c.created_at == now),
                        }
                    },
                    _ => false,
                },
            },
            _ => false,
        }
    }
}

/// Appending `msg` to the conversation `cid`: the conversation is counted,
/// its newest timestamp read, and the message inserted under a fresh id
/// with a timestamp past that newest one.
pub open spec fn appends_message(cid: Seq<char>, msg: NewMessage, d: Seq<Exchange>, r: Result<AppendedMessage, DbError>) -> bool {
    &&& d.len() >= 1
    &&& match d[0] {
        Exchange::Query { sql, params, rows } => {
            &&& sql == CONVERSATION_COUNT_SQL@
            &&& params == seq![ParamView::Text(cid)]
            &&& match rows {
                None => d.len() == 1 && r matches Err(DbError::Sqlite(_)),
                Some(counts) => if counts.len() == 0 {
                    d.len() == 1 && r matches Err(DbError::Sqlite(_))
                } else if integer_of(counts[0][0]) == 0 {
                    d.len() == 1 && (r matches Err(DbError::ConversationNotFound(s)) && s@ == cid)
                } else {
                    appends_to_existing(cid, msg, d, r)
                },
            }
        },
        _ => false,
    }
}

pub open spec fn appends_to_existing(cid: Seq<char>, msg: NewMessage, d: Seq<Exchange>, r: Result<AppendedMessage, DbError>) -> bool {
    &&& d.len() >= 2
    &&& match d[1] {
        Exchange::Query { sql, params, rows } => {
            &&& sql == LATEST_MESSAGE_SQL@
            &&& params == seq![ParamView::Text(cid)]
            &&& match rows {
                None => d.len() == 2 && r matches Err(DbError::Sqlite(_)),
                Some(latest) => if latest.len() == 0 {
                    d.len() == 2 && r matches Err(DbError::Sqlite(_))
                } else {
                    inserts_message(cid, msg, opt_integer_of(latest[0][0]), d, r)
                },
            }
        },
        _ => false,
    }
}

/// The clock is read; a reading before the epoch is refused, and for any
/// other reading `now` the message is stored with the timestamp
/// `message_timestamp(now, prev_max)`, refused when that does not fit in
/// an `i64`.
pub open spec fn inserts_message(cid: Seq<char>, msg: NewMessage, prev_max: Option<i64>, d: Seq<Exchange>, r: Result<AppendedMessage, DbError>) -> bool {
    &&& d.len() >= 3
    &&& match d[2] {
        Exchange::Clock { millis } => match millis {
            None => d.len() == 3 && r == Err::<AppendedMessage, DbError>(DbError::ClockBeforeEpoch),
            Some(now) => if message_timestamp(now, prev_max) > i64::MAX {
                d.len() == 3 && r == Err::<AppendedMessage, DbError>(
                    DbError::InvalidInput("message timestamp out of range"),
                )
            } else {
                d.len() == 4 && stores_message(cid, msg, message_timestamp(now, prev_max) as i64, d[3], r)
            },
        },
        _ => false,
    }
}

/// The insert of `msg` into the conversation `cid` under a fresh id, with
/// the timestamp `ts`; the id and `ts` are what is returned.
pub open spec fn stores_message(cid: Seq<char>, msg: NewMessage, ts: i64, e: Exchange, r: Result<AppendedMessage, DbError>) -> bool {
    match e {
        Exchange::Execute { sql, params, changed } => {
            &&& sql == INSERT_MESSAGE_SQL@
            &&& params.len() == 6
            &&& params[0] matches ParamView::Text(id) && is_v4_uuid_text(id)
            &&& params[1] == ParamView::Text(cid)
            &&& params[2] == ParamView::Text(role_text(msg.role))
            &&& params[3] == ParamView::Text(msg.content@)
            &&& params[4] == ParamView::Integer(ts)
            &&& params[5] == opt_text_param(files_column(msg.attached_files))
            &&& match changed {
                None => r matches Err(DbError::Sqlite(_)),
                Some(_) => (r matches Ok(m) && params[0] == ParamView::Text(m.id@) && m.timestamp == ts),
            }
        },
        _ => false,
    }
}

/// Renaming the conversation `id` to `title`.
pub open spec fn renames_conversation(id: Seq<char>, title: Seq<char>, d: Seq<Exchange>, r: Result<(), DbError>) -> bool {
    if is_blank(title) {
        d.len() == 0 && r == Err::<(), DbError>(DbError::InvalidInput("conversation title is empty"))
    } else {
        d.len() == 1 && match d[0] {
            Exchange::Execute { sql, params, changed } => {
                &&& sql == RENAME_CONVERSATION_SQL@
                &&& params == seq![ParamView::Text(trimmed(title)), ParamView::Text(id)]
                &&& conversation_outcome(changed, id, r)
            },
            _ => false,
        }
    }
}

/// Deleting the conversation `id`.
pub open spec fn deletes_conversation(id: Seq<char>, d: Seq<Exchange>, r: Result<(), DbError>) -> bool {
    d.len() == 1 && match d[0] {
        Exchange::Execute { sql, params, changed } => {
            &&& sql == DELETE_CONVERSATION_SQL@
            &&& params == seq![ParamView::Text(id)]
            &&& conversation_outcome(changed, id, r)
        },
        _ => false,
    }
}

/// Deleting every message and conversation in one transaction.
pub open spec fn deletes_all_conversations(d: Seq<Exchange>, r: Result<(), DbError>) -> bool {
    d.len() == 1 && match d[0] {
        Exchange::Transaction { batches, ok } => {
            &&& batches == seq![DELETE_ALL_CONVERSATIONS_SQL@]
            &&& if ok {
                r == Ok::<(), DbError>(())
            } else {
                r matches Err(DbError::Sqlite(_))
            }
        },
        _ => false,
    }
}

/// Listing system prompts: the prompt query, answered with one prompt per
/// row, in SQLite's order.
pub open spec fn lists_system_prompts(d: Seq<Exchange>, r: Result<Vec<SystemPrompt>, DbError>) -> bool {
    &&& d.len() == 1
    &&& match d[0] {
        Exchange::Query { sql, params, rows } => {
            &&& sql == SYSTEM_PROMPTS_SQL@
            &&& params == Seq::<ParamView>::empty()
            &&& match rows {
                None => r matches Err(DbError::Sqlite(_)),
                Some(rows) => (r matches Ok(v) && v@.len() == rows.len() && forall|i: int|
                    0 <= i < rows.len() ==> system_prompt_matches(#[trigger] v@[i], rows[i])),
            }
        },
        _ => false,
    }
}

/// Reading the system prompt `id`: its row, or "not found" without one.
pub open spec fn fetches_system_prompt(id: i64, e: Exchange, r: Result<SystemPrompt, DbError>) -> bool {
    match e {
        Exchange::Query { sql, params, rows } => {
            &&& sql == SYSTEM_PROMPT_SQL@
            &&& params == seq![ParamView::Integer(id)]
            &&& match rows {
                None => r matches Err(DbError::Sqlite(_)),
                Some(rows) => if rows.len() == 0 {
                    r == Err::<SystemPrompt, DbError>(DbError::SystemPromptNotFound(id))
                } else {
                    r matches Ok(p) && system_prompt_matches(p, rows[0])
                },
            }
        },
        _ => false,
    }
}

/// Creating a system prompt: a blank name, then a blank text, is refused
/// before anything is sent; otherwise the trimmed values are inserted, and
/// the new row is read back by the rowid SQLite answers for that insert.
pub open spec fn creates_system_prompt(name: Seq<char>, prompt: Seq<char>, d: Seq<Exchange>, r: Result<SystemPrompt, DbError>) -> bool {
    if is_blank(name) {
        d.len() == 0 && r == Err::<SystemPrompt, DbError>(
            DbError::InvalidInput("system prompt name is empty"),
        )
    } else if is_blank(prompt) {
        d.len() == 0 && r == Err::<SystemPrompt, DbError>(
            DbError::InvalidInput("system prompt text is empty"),
        )
    } else {
        d.len() >= 1 && match d[0] {
            Exchange::Query { sql, params, rows } => {
                &&& sql == INSERT_SYSTEM_PROMPT_SQL@
                &&& params == seq![ParamView::Text(trimmed(name)), ParamView::Text(trimmed(prompt))]
                &&& match rows {
                    None => d.len() == 1 && r matches Err(DbError::Sqlite(_)),
                    Some(ids) => if ids.len() == 0 {
                        d.len() == 1 && r matches Err(DbError::Sqlite(_))
                    } else {
                        d.len() == 2 && fetches_system_prompt(integer_of(ids[0][0]), d[1], r)
                    },
                }
            },
            _ => false,
        }
    }
}

/// A given field that is blank.
pub open spec fn blank_given(s: Option<&str>) -> bool {
    match s {
        Some(t) => is_blank(t@),
        None => false,
    }
}

/// Editing the system prompt `id`: the refusals come before anything is
/// sent; otherwise the update binds each given field trimmed (NULL keeps
/// a field), and the row is read back when the update touched it.
pub open spec fn edits_system_prompt(id: i64, name: Option<&str>, prompt: Option<&str>, d: Seq<Exchange>, r: Result<SystemPrompt, DbError>) -> bool {
    if blank_given(name) {
        d.len() == 0 && r == Err::<SystemPrompt, DbError>(
            DbError::InvalidInput("system prompt name is empty"),
        )
    } else if blank_given(prompt) {
        d.len() == 0 && r == Err::<SystemPrompt, DbError>(
            DbError::InvalidInput("system prompt text is empty"),
        )
    } else if name is None && prompt is None {
        d.len() == 0 && r == Err::<SystemPrompt, DbError>(DbError::InvalidInput("no fields to update"))
    } else {
        d.len() >= 1 && match d[0] {
            Exchange::Execute { sql, params, changed } => {
                &&& sql == UPDATE_SYSTEM_PROMPT_SQL@
                &&& params == seq![
                    opt_text_param(trimmed_opt(name)),
                    opt_text_param(trimmed_opt(prompt)),
                    ParamView::Integer(id),
                ]
                &&& match changed {
                    None => d.len() == 1 && r matches Err(DbError::Sqlite(_)),
                    Some(n) => if n == 0 {
                        d.len() == 1 && r == Err::<SystemPrompt, DbError>(
                            DbError::SystemPromptNotFound(id),
                        )
                    } else {
                        d.len() == 2 && fetches_system_prompt(id, d[1], r)
                    },
                }
            },
            _ => false,
        }
    }
}

/// Deleting the system prompt `id`.
pub open spec fn deletes_system_prompt(id: i64, d: Seq<Exchange>, r: Result<(), DbError>) -> bool {
    d.len() == 1 && match d[0] {
        Exchange::Execute { sql, params, changed } => {
            &&& sql == DELETE_SYSTEM_PROMPT_SQL@
            &&& params == seq![ParamView::Integer(id)]
            &&& system_prompt_outcome(changed, id, r)
        },
        _ => false,
    }
}

// -- conversations -------------------------------------------------------

/// Every conversation with the number of its messages, the most recently
/// updated first.
pub fn list_conversation_summaries(store: &mut Store) -> (r: Result<Vec<ConversationSummary>, DbError>)
    ensures
        extends(old(store).journal(), final(store).journal()),
        lists_summaries(added(old(store).journal(), final(store).journal()), r),
{
    let ghost j0 = store.journal();
    let params: Vec<SqlParam> = Vec::new();
    assert(params_view(params@) =~= Seq::<ParamView>::empty());
    let answer = store.query_rows(SUMMARIES_SQL, params, &summary_kinds());
    proof {
        lemma_added_one(j0, store.journal().last());
    }
    match answer {
        Err(e) => Err(DbError::Sqlite(e)),
        Ok(rows) => Ok(summaries_from_rows(&rows)),
    }
}

/// Deletes the conversation `id`; its messages go with it (the schema's
/// `ON DELETE CASCADE`, with foreign keys on). An id that no conversation
/// has gives `ConversationNotFound`.
pub fn delete_conversation(store: &mut Store, id: &str) -> (r: Result<(), DbError>)
    ensures
        extends(old(store).journal(), final(store).journal()),
        deletes_conversation(id@, added(old(store).journal(), final(store).journal()), r),
{
    let ghost j0 = store.journal();
    let params = vec![SqlParam::Text(id.to_owned())];
    assert(params_view(params@) =~= seq![ParamView::Text(id@)]);
    let answer = store.execute(DELETE_CONVERSATION_SQL, params);
    proof {
        lemma_added_one(j0, store.journal().last());
    }
    match answer {
        Err(e) => Err(DbError::Sqlite(e)),
        Ok(n) => conversation_changed(n, id),
    }
}

/// Deletes every message and every conversation, in one transaction.
pub fn delete_all_conversations(store: &mut Store) -> (r: Result<(), DbError>)
    ensures
        extends(old(store).journal(), final(store).journal()),
        deletes_all_conversations(added(old(store).journal(), final(store).journal()), r),
{
    let ghost j0 = store.journal();
    let batches = vec![DELETE_ALL_CONVERSATIONS_SQL];
    assert(crate::sql::strs_view(batches@) =~= seq![DELETE_ALL_CONVERSATIONS_SQL@]);
    let answer = store.batches_in_transaction(&batches);
    proof {
        lemma_added_one(j0, store.journal().last());
    }
    match answer {
        Err(e) => Err(DbError::Sqlite(e)),
        Ok(()) => Ok(()),
    }
}

/// The conversation `id` with its messages in timestamp order, up to the
/// first one whose stored role names no role (see `ConversationRead`).
/// Fails with `ConversationNotFound(id)` when there is none. The caller
/// decodes the attached files of the messages read, in order, before it
/// reports an unknown role with `role_outcome`, so the first failing
/// message decides the error, its role checked before its files.
pub fn load_conversation(store: &mut Store, id: &str) -> (r: Result<ConversationRead, DbError>)
    ensures
        extends(old(store).journal(), final(store).journal()),
        loads_conversation(id@, added(old(store).journal(), final(store).journal()), r),
{
    let ghost j0 = store.journal();
    let params = vec![SqlParam::Text(id.to_owned())];
    assert(params_view(params@) =~= seq![ParamView::Text(id@)]);
    let heads = match store.query_rows(CONVERSATION_SQL, params, &conversation_kinds()) {
        Err(e) => {
            proof {
                lemma_added_one(j0, store.journal().last());
            }
            return Err(DbError::Sqlite(e));
        },
        Ok(heads) => heads,
    };
    let ghost j1 = store.journal();
    if heads.len() == 0 {
        proof {
            lemma_added_one(j0, store.journal().last());
        }
        return Err(DbError::ConversationNotFound(id.to_owned()));
    }
    let head = &heads[0];
    let ghost hv = row_view(head@);
    assert(crate::sql::rows_view(heads@)[0] == hv);
    let conv_id = text_at(head, 0);
    let title = text_at(head, 1);
    let created_at = integer_at(head, 2);
    let updated_at = integer_at(head, 3);
    let params = vec![SqlParam::Text(conv_id.clone())];
    assert(params_view(params@) =~= seq![ParamView::Text(conv_id@)]);
    let answer = store.query_rows(MESSAGES_SQL, params, &message_kinds());
    proof {
        lemma_added_two(j0, j1.last(), store.journal().last());
        assert(hv =~= seq![
            ColumnView::Text(conv_id@),
            ColumnView::Text(title@),
            ColumnView::Integer(created_at),
            ColumnView::Integer(updated_at),
        ]);
    }
    let rows = match answer {
        Err(e) => {
            return Err(DbError::Sqlite(e));
        },
        Ok(rows) => rows,
    };
    let (messages, role_out_of_range) = messages_from_rows(&rows);
    Ok(
        ConversationRead {
            conversation: Conversation { id: conv_id, title, created_at, updated_at, messages },
            role_out_of_range,
        },
    )
}

/// The outcome of a conversation read once the attached files of its
/// messages are decoded: the unknown stored role, if there was one.
pub fn role_outcome(read: &ConversationRead) -> (r: Result<(), DbError>)
    ensures
        read.role_out_of_range ==> r == Err::<(), DbError>(
            DbError::InvalidInput("messages.role out of range"),
        ),
        !read.role_out_of_range ==> r == Ok::<(), DbError>(()),
{
    if read.role_out_of_range {
        Err(DbError::InvalidInput("messages.role out of range"))
    } else {
        Ok(())
    }
}

/// Starts a conversation titled with the trimmed `title`, created and
/// updated now, under a fresh id. A blank title is refused.
pub fn start_conversation(store: &mut Store, title: &str) -> (r: Result<ConversationId, DbError>)
    ensures
        extends(old(store).journal(), final(store).journal()),
        starts_conversation(title@, added(old(store).journal(), final(store).journal()), r),
{
    let ghost j0 = store.journal();
    proof {
        assert(j0.subrange(0, j0.len() as int) =~= j0);
        assert(added(j0, j0) =~= Seq::<Exchange>::empty());
    }
    let title = required_text(title, "conversation title is empty")?;
    let id = new_id();
    let clock = store.read_clock();
    let ghost j1 = store.journal();
    proof {
        lemma_added_one(j0, j1.last());
    }
    let now = match clock {
        Some(t) => t,
        None => {
            return Err(DbError::ClockBeforeEpoch);
        },
    };
    let params = conversation_row_params(&id, title, now);
    let answer = store.execute(INSERT_CONVERSATION_SQL, params);
    proof {
        lemma_added_two(j0, j1.last(), store.journal().last());
    }
    match answer {
        Err(e) => Err(DbError::Sqlite(e)),
        Ok(_) => Ok(ConversationId { id, created_at: now }),
    }
}

/// Appends `msg` to the conversation `conversation_id` under a fresh id.
/// Its timestamp is the clock reading, moved past the newest timestamp in
/// the conversation (`next_message_timestamp`).
pub fn append_message(store: &mut Store, conversation_id: &str, msg: &NewMessage) -> (r: Result<
    AppendedMessage,
    DbError,
>)
    ensures
        extends(old(store).journal(), final(store).journal()),
        appends_message(
            conversation_id@,
            *msg,
            added(old(store).journal(), final(store).journal()),
            r,
        ),
{
    let ghost j0 = store.journal();
    let params = vec![SqlParam::Text(conversation_id.to_owned())];
    assert(params_view(params@) =~= seq![ParamView::Text(conversation_id@)]);
    let counts = match store.query_rows(CONVERSATION_COUNT_SQL, params, &integer_kinds()) {
        Err(e) => {
            proof {
                lemma_added_one(j0, store.journal().last());
            }
            return Err(DbError::Sqlite(e));
        },
        Ok(rows) => rows,
    };
    let ghost j1 = store.journal();
    proof {
        lemma_added_one(j0, j1.last());
    }
    let exists = single_integer(&counts)?;
    if exists == 0 {
        return Err(DbError::ConversationNotFound(conversation_id.to_owned()));
    }
    let params = vec![SqlParam::Text(conversation_id.to_owned())];
    assert(params_view(params@) =~= seq![ParamView::Text(conversation_id@)]);
    let latest = store.query_rows(LATEST_MESSAGE_SQL, params, &opt_integer_kinds());
    let ghost j2 = store.journal();
    proof {
        lemma_added_two(j0, j1.last(), j2.last());
    }
    let latest = match latest {
        Err(e) => {
            return Err(DbError::Sqlite(e));
        },
        Ok(rows) => rows,
    };
    let prev_max = single_opt_integer(&latest)?;
    let clock = store.read_clock();
    let ghost j3 = store.journal();
    proof {
        lemma_added_three(j0, j1.last(), j2.last(), j3.last());
    }
    let now = match clock {
        Some(t) => t,
        None => {
            return Err(DbError::ClockBeforeEpoch);
        },
    };
    let ts = match next_message_timestamp(now, prev_max) {
        Some(t) => t,
        None => {
            assert(message_timestamp(now, prev_max) > i64::MAX);
            return Err(DbError::InvalidInput("message timestamp out of range"));
        },
    };
    assert(ts == message_timestamp(now, prev_max));
    let id = new_id();
    let params = message_row_params(&id, conversation_id, msg, ts);
    let answer = store.execute(INSERT_MESSAGE_SQL, params);
    proof {
        lemma_added_four(j0, j1.last(), j2.last(), j3.last(), store.journal().last());
    }
    match answer {
        Err(e) => Err(DbError::Sqlite(e)),
        Ok(_) => Ok(AppendedMessage { id, timestamp: ts }),
    }
}

/// Renames the conversation `id` to the trimmed `title`. A blank title is
/// refused; an id that no conversation has gives `ConversationNotFound`.
pub fn rename_conversation(store: &mut Store, id: &str, title: &str) -> (r: Result<(), DbError>)
    ensures
        extends(old(store).journal(), final(store).journal()),
        renames_conversation(id@, title@, added(old(store).journal(), final(store).journal()), r),
{
    let ghost j0 = store.journal();
    proof {
        assert(j0.subrange(0, j0.len() as int) =~= j0);
        assert(added(j0, j0) =~= Seq::<Exchange>::empty());
    }
    let title = required_text(title, "conversation title is empty")?;
    let params = vec![SqlParam::Text(title.to_owned()), SqlParam::Text(id.to_owned())];
    assert(params_view(params@) =~= seq![ParamView::Text(title@), ParamView::Text(id@)]);
    let answer = store.execute(RENAME_CONVERSATION_SQL, params);
    proof {
        lemma_added_one(j0, store.journal().last());
    }
    match answer {
        Err(e) => Err(DbError::Sqlite(e)),
        Ok(n) => conversation_changed(n, id),
    }
}

// -- system prompts ------------------------------------------------------

/// Every system prompt, the most recently created first.
pub fn list_system_prompts(store: &mut Store) -> (r: Result<Vec<SystemPrompt>, DbError>)
    ensures
        extends(old(store).journal(), final(store).journal()),
        lists_system_prompts(added(old(store).journal(), final(store).journal()), r),
{
    let ghost j0 = store.journal();
    let params: Vec<SqlParam> = Vec::new();
    assert(params_view(params@) =~= Seq::<ParamView>::empty());
    let answer = store.query_rows(SYSTEM_PROMPTS_SQL, params, &system_prompt_kinds());
    proof {
        lemma_added_one(j0, store.journal().last());
    }
    match answer {
        Err(e) => Err(DbError::Sqlite(e)),
        Ok(rows) => Ok(system_prompts_from_rows(&rows)),
    }
}

/// Deletes the system prompt `id`; an id that no prompt has gives
/// `SystemPromptNotFound(id)`.
pub fn delete_system_prompt(store: &mut Store, id: i64) -> (r: Result<(), DbError>)
    ensures
        extends(old(store).journal(), final(store).journal()),
        deletes_system_prompt(id, added(old(store).journal(), final(store).journal()), r),
{
    let ghost j0 = store.journal();
    let params = vec![SqlParam::Integer(id)];
    assert(params_view(params@) =~= seq![ParamView::Integer(id)]);
    let answer = store.execute(DELETE_SYSTEM_PROMPT_SQL, params);
    proof {
        lemma_added_one(j0, store.journal().last());
    }
    match answer {
        Err(e) => Err(DbError::Sqlite(e)),
        Ok(n) => system_prompt_changed(n, id),
    }
}

/// The system prompt `id` as stored; `SystemPromptNotFound(id)` when there
/// is none.
fn fetch_system_prompt(store: &mut Store, id: i64) -> (r: Result<SystemPrompt, DbError>)
    ensures
        final(store).journal().len() == old(store).journal().len() + 1,
        final(store).journal().drop_last() == old(store).journal(),
        fetches_system_prompt(id, final(store).journal().last(), r),
{
    let params = vec![SqlParam::Integer(id)];
    assert(params_view(params@) =~= seq![ParamView::Integer(id)]);
    let answer = store.query_rows(SYSTEM_PROMPT_SQL, params, &system_prompt_kinds());
    match answer {
        Err(e) => Err(DbError::Sqlite(e)),
        Ok(rows) => if rows.len() == 0 {
            Err(DbError::SystemPromptNotFound(id))
        } else {
            assert(crate::sql::rows_view(rows@)[0] == row_view(rows@[0]@));
            Ok(system_prompt_from_row(&rows[0]))
        },
    }
}

/// Stores a system prompt with the trimmed `name` and `prompt` and returns
/// it as stored. A blank name, then a blank text, is refused.
pub fn create_system_prompt(store: &mut Store, name: &str, prompt: &str) -> (r: Result<
    SystemPrompt,
    DbError,
>)
    ensures
        extends(old(store).journal(), final(store).journal()),
        creates_system_prompt(name@, prompt@, added(old(store).journal(), final(store).journal()), r),
{
    let ghost j0 = store.journal();
    proof {
        assert(j0.subrange(0, j0.len() as int) =~= j0);
        assert(added(j0, j0) =~= Seq::<Exchange>::empty());
    }
    let name = required_text(name, "system prompt name is empty")?;
    let prompt = required_text(prompt, "system prompt text is empty")?;
    let params = vec![SqlParam::Text(name.to_owned()), SqlParam::Text(prompt.to_owned())];
    assert(params_view(params@) =~= seq![ParamView::Text(name@), ParamView::Text(prompt@)]);
    let answer = store.query_rows(INSERT_SYSTEM_PROMPT_SQL, params, &integer_kinds());
    let ghost j1 = store.journal();
    proof {
        lemma_added_one(j0, j1.last());
    }
    let ids = match answer {
        Err(e) => {
            return Err(DbError::Sqlite(e));
        },
        Ok(ids) => ids,
    };
    let id = single_integer(&ids)?;
    let r = fetch_system_prompt(store, id);
    proof {
        assert(store.journal() == j1.push(store.journal().last()));
        lemma_added_two(j0, j1.last(), store.journal().last());
    }
    r
}

/// Sets the given fields of the system prompt `id` (trimmed; the others
/// keep their values) and returns it as stored. The refusals of
/// `system_prompt_edit` come first; an id that no prompt has gives
/// `SystemPromptNotFound(id)`.
pub fn edit_system_prompt(
    store: &mut Store,
    id: i64,
    name: Option<&str>,
    prompt: Option<&str>,
) -> (r: Result<SystemPrompt, DbError>)
    ensures
        extends(old(store).journal(), final(store).journal()),
        edits_system_prompt(id, name, prompt, added(old(store).journal(), final(store).journal()), r),
{
    let ghost j0 = store.journal();
    proof {
        assert(j0.subrange(0, j0.len() as int) =~= j0);
        assert(added(j0, j0) =~= Seq::<Exchange>::empty());
    }
    let (new_name, new_prompt) = system_prompt_edit(name, prompt)?;
    let params = system_prompt_update_params(id, new_name, new_prompt);
    let answer = store.execute(UPDATE_SYSTEM_PROMPT_SQL, params);
    let ghost j1 = store.journal();
    proof {
        lemma_added_one(j0, j1.last());
    }
    let n = match answer {
        Err(e) => {
            return Err(DbError::Sqlite(e));
        },
        Ok(n) => n,
    };
    system_prompt_changed(n, id)?;
    let r = fetch_system_prompt(store, id);
    proof {
        assert(store.journal() == j1.push(store.journal().last()));
        lemma_added_two(j0, j1.last(), store.journal().last());
    }
    r
}

// -- laws ----------------------------------------------------------------

/// The newest timestamp SQLite answered for the conversation when a
/// message was appended to it (`None` for a conversation without
/// messages).
pub open spec fn newest_answered(d: Seq<Exchange>) -> Option<i64> {
    match d[1] {
        Exchange::Query { rows, .. } => match rows {
            Some(latest) => if latest.len() > 0 {
                opt_integer_of(latest[0][0])
            } else {
                None
            },
            None => None,
        },
        _ => None,
    }
}

/// An appended message's timestamp is the later of the clock reading taken
/// in that call and one past the newest timestamp already there: never
/// before the clock, always after the newest message, and equal to one of
/// the two. So with the clock past the newest message it is the clock
/// reading itself.
pub proof fn lemma_appended_timestamp(
    cid: Seq<char>,
    msg: NewMessage,
    d: Seq<Exchange>,
    r: Result<AppendedMessage, DbError>,
)
    requires
        appends_message(cid, msg, d, r),
    ensures
        r matches Ok(m) ==> {
            &&& d.len() == 4
            &&& d[2] matches Exchange::Clock { millis: Some(now) }
            &&& m.timestamp >= now
            &&& (newest_answered(d) matches Some(p) ==> m.timestamp > p)
            &&& (m.timestamp == now || newest_answered(d) == Some((m.timestamp - 1) as i64))
            &&& (newest_answered(d) matches Some(p) && now > p ==> m.timestamp == now)
        },
{
    if let Ok(m) = r {
        if let Exchange::Query { rows: Some(latest), .. } = d[1] {
            let prev = opt_integer_of(latest[0][0]);
            if let Exchange::Clock { millis: Some(now) } = d[2] {
                lemma_message_timestamp_monotonic(now, prev);
            }
        }
    }
}

/// `e` is the insert of a conversation titled `title`.
pub open spec fn inserts_conversation_row(title: Seq<char>, e: Exchange) -> bool {
    match e {
        Exchange::Execute { sql, params, .. } => sql == INSERT_CONVERSATION_SQL@ && params.len() == 4
            && params[1] == ParamView::Text(title),
        _ => false,
    }
}

/// Starting a conversation is refused for the clock only when the clock
/// read before the epoch (and the title is not blank); with any other
/// reading the insert is sent, and a started conversation is created at
/// the clock reading, under the trimmed title.
pub proof fn lemma_start_refuses_only_a_clock_before_epoch(
    title: Seq<char>,
    d: Seq<Exchange>,
    r: Result<ConversationId, DbError>,
)
    requires
        starts_conversation(title, d, r),
    ensures
        r == Err::<ConversationId, DbError>(DbError::ClockBeforeEpoch) <==> (!is_blank(title)
            && d[0] == (Exchange::Clock { millis: None })),
        (!is_blank(title) && (d[0] matches Exchange::Clock { millis: Some(_) })) ==> (d.len() == 2
            && inserts_conversation_row(trimmed(title), d[1])),
        r matches Ok(c) ==> d[0] == (Exchange::Clock { millis: Some(c.created_at) }),
{
}

/// `e` is the insert of a system prompt named `name` with the text
/// `prompt`, answered with a rowid.
pub open spec fn prompt_insert_answered(name: Seq<char>, prompt: Seq<char>, e: Exchange) -> bool {
    match e {
        Exchange::Query { sql, params, rows } => {
            &&& sql == INSERT_SYSTEM_PROMPT_SQL@
            &&& params == seq![ParamView::Text(name), ParamView::Text(prompt)]
            &&& rows matches Some(ids) && ids.len() > 0
        },
        _ => false,
    }
}

/// `e` is the read of the system prompt with rowid `id`.
pub open spec fn fetches_by_id(id: i64, e: Exchange) -> bool {
    match e {
        Exchange::Query { sql, params, .. } => sql == SYSTEM_PROMPT_SQL@ && params == seq![
            ParamView::Integer(id),
        ],
        _ => false,
    }
}

/// The rowid an insert was answered with.
pub open spec fn inserted_rowid(e: Exchange) -> i64 {
    match e {
        Exchange::Query { rows: Some(ids), .. } => integer_of(ids[0][0]),
        _ => 0,
    }
}

/// A created system prompt is read back by the rowid SQLite answered for
/// the insert of the trimmed name and text made in the same call.
pub proof fn lemma_created_prompt_is_read_by_its_insert_rowid(
    name: Seq<char>,
    prompt: Seq<char>,
    d: Seq<Exchange>,
    r: Result<SystemPrompt, DbError>,
)
    requires
        creates_system_prompt(name, prompt, d, r),
    ensures
        r is Ok ==> (d.len() == 2 && prompt_insert_answered(trimmed(name), trimmed(prompt), d[0])
            && fetches_by_id(inserted_rowid(d[0]), d[1])),
{
}

} // verus!
