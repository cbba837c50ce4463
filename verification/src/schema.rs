//! The records the store reads and writes.

use vstd::prelude::*;
use crate::text::same_text;

verus! {

/// Who wrote a message.
#[derive(Debug, Clone, Copy, PartialEq, Eq, Structural)]
pub enum Role {
    User,
    Assistant,
    System,
}

/// The text a role is stored as.
pub open spec fn role_text(r: Role) -> Seq<char> {
    match r {
        Role::User => seq!['u', 's', 'e', 'r'],
        Role::Assistant => seq!['a', 's', 's', 'i', 's', 't', 'a', 'n', 't'],
        Role::System => seq!['s', 'y', 's', 't', 'e', 'm'],
    }
}

/// The role stored as `s`, if any.
pub open spec fn parse_role(s: Seq<char>) -> Option<Role> {
    if s == role_text(Role::User) {
        Some(Role::User)
    } else if s == role_text(Role::Assistant) {
        Some(Role::Assistant)
    } else if s == role_text(Role::System) {
        Some(Role::System)
    } else {
        None
    }
}

impl Role {
    /// The text this role is stored as.
    pub fn as_str(&self) -> (s: &'static str)
        ensures
            s@ == role_text(*self),
    {
        match self {
            Role::User => {
                proof {
                    reveal_strlit("user");
                }
                "user"
            },
            Role::Assistant => {
                proof {
                    reveal_strlit("assistant");
                }
                "assistant"
            },
            Role::System => {
                proof {
                    reveal_strlit("system");
                }
                "system"
            },
        }
    }

    /// The role stored as `s`; `None` for any other text.
    pub fn from_str(s: &str) -> (r: Option<Role>)
        ensures
            r == parse_role(s@),
    {
        proof {
            reveal_strlit("user");
            reveal_strlit("assistant");
            reveal_strlit("system");
            assert("user"@ =~= role_text(Role::User));
            assert("assistant"@ =~= role_text(Role::Assistant));
            assert("system"@ =~= role_text(Role::System));
        }
        if same_text(s, "user") {
            Some(Role::User)
        } else if same_text(s, "assistant") {
            Some(Role::Assistant)
        } else if same_text(s, "system") {
            Some(Role::System)
        } else {
            None
        }
    }
}

/// Reading back the text a role is stored as gives the role again, and a
/// text that reads as a role is exactly that role's text.
pub proof fn lemma_role_text_round_trip(r: Role, s: Seq<char>)
    ensures
        parse_role(role_text(r)) == Some(r),
        parse_role(s) == Some(r) ==> s == role_text(r),
{
    assert(role_text(Role::User)[0] != role_text(Role::Assistant)[0]);
    assert(role_text(Role::User)[0] != role_text(Role::System)[0]);
    assert(role_text(Role::Assistant).len() != role_text(Role::System).len());
}

/// A conversation as listed, with the number of its messages.
#[derive(Debug)]
pub struct ConversationSummary {
    pub id: String,
    pub title: String,
    pub created_at: i64,
    pub updated_at: i64,
    pub message_count: i64,
}

/// A stored message. `attached_files` holds the JSON text of the files
/// attached to it, `None` when it has none.
#[derive(Debug)]
pub struct Message {
    pub id: String,
    pub role: Role,
    pub content: String,
    pub timestamp: i64,
    pub attached_files: Option<String>,
}

/// A conversation with its messages in timestamp order.
#[derive(Debug)]
pub struct Conversation {
    pub id: String,
    pub title: String,
    pub created_at: i64,
    pub updated_at: i64,
    pub messages: Vec<Message>,
}

/// A conversation as read. `conversation.messages` holds the messages in
/// timestamp order up to the first one whose stored role names no role;
/// `role_out_of_range` tells whether there is such a message.
#[derive(Debug)]
pub struct ConversationRead {
    pub conversation: Conversation,
    pub role_out_of_range: bool,
}

/// The id and creation time of a conversation just started.
#[derive(Debug)]
pub struct ConversationId {
    pub id: String,
    pub created_at: i64,
}

/// The files attached to a message to append: the JSON text of the file
/// list and the number of files in it.
#[derive(Debug)]
pub struct AttachedFiles {
    pub json: String,
    pub count: usize,
}

/// A message to append, with the files attached to it (`None` when it has
/// none).
#[derive(Debug)]
pub struct NewMessage {
    pub role: Role,
    pub content: String,
    pub attached_files: Option<AttachedFiles>,
}

/// The id and timestamp the store gave an appended message.
#[derive(Debug)]
pub struct AppendedMessage {
    pub id: String,
    pub timestamp: i64,
}

/// A stored system prompt.
#[derive(Debug)]
pub struct SystemPrompt {
    pub id: i64,
    pub name: String,
    pub prompt: String,
    pub created_at: i64,
    pub updated_at: i64,
}

} // verus!
