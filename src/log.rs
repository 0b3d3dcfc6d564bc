//! The conversation log: an append-only, ordered sequence of messages per
//! trip, and what its rows read back as.
use vstd::prelude::*;
use crate::text::same_text;

verus! {

/// Who sent a message.
#[derive(Clone, Copy, Debug, PartialEq, Eq, Structural)]
pub enum Role {
    User,
    Assistant,
}

/// The label under which a role is stored.
pub open spec fn role_label(r: Role) -> Seq<char> {
    match r {
        Role::User => seq!['U', 's', 'e', 'r'],
        Role::Assistant => seq!['A', 'I'],
    }
}

/// The role stored under `label`, if any.
pub open spec fn role_of_label(label: Seq<char>) -> Option<Role> {
    if label == role_label(Role::User) {
        Some(Role::User)
    } else if label == role_label(Role::Assistant) {
        Some(Role::Assistant)
    } else {
        None
    }
}

impl Role {
    /// The label under which this role is stored.
    pub fn label(&self) -> (r: String)
        ensures
            r@ == role_label(*self),
    {
        let s = match self {
            Role::User => "User",
            Role::Assistant => "AI",
        };
        proof {
            reveal_strlit("User");
            reveal_strlit("AI");
        }
        let r = String::from_str(s);
        assert(r@ =~= role_label(*self));
        r
    }

    /// The role that a stored label names.
    pub fn from_label(label: &str) -> (r: Option<Role>)
        ensures
            r == role_of_label(label@),
    {
        proof {
            reveal_strlit("User");
            reveal_strlit("AI");
        }
        assert("User"@ =~= role_label(Role::User));
        assert("AI"@ =~= role_label(Role::Assistant));
        if same_text(label, "User") {
            Some(Role::User)
        } else if same_text(label, "AI") {
            Some(Role::Assistant)
        } else {
            None
        }
    }
}

/// One message of a trip's conversation.
pub struct Message {
    pub text: String,
    pub role: Role,
    pub created_at: String,
}

impl Clone for Message {
    fn clone(&self) -> (r: Self)
        ensures
            r == *self,
    {
        Message { text: self.text.clone(), role: self.role, created_at: self.created_at.clone() }
    }
}

/// A stored row as read back: message text, role label and creation time,
/// each of which may be absent.
pub type StoredRow = (Option<String>, Option<String>, Option<String>);

/// The message that a stored row holds, if it is complete and its role is
/// known.
pub open spec fn message_of_row(row: StoredRow) -> Option<Message> {
    match row {
        (Some(t), Some(l), Some(c)) => match role_of_label(l@) {
            Some(role) => Some(Message { text: t, role, created_at: c }),
            None => None,
        },
        _ => None,
    }
}

/// The messages of `rows`, in their order, leaving out the rows that hold
/// none.
pub open spec fn messages_of_rows(rows: Seq<StoredRow>) -> Seq<Message>
    decreases rows.len(),
{
    if rows.len() == 0 {
        Seq::empty()
    } else {
        let init = messages_of_rows(rows.drop_last());
        match message_of_row(rows.last()) {
            Some(m) => init.push(m),
            None => init,
        }
    }
}

/// Reads the messages out of stored rows, keeping the store's order.
pub fn messages_from_rows(rows: &Vec<StoredRow>) -> (r: Vec<Message>)
    ensures
        r@ == messages_of_rows(rows@),
{
    let mut out: Vec<Message> = Vec::new();
    let mut i: usize = 0;
    while i < rows.len()
        invariant
            i <= rows@.len(),
            out@ == messages_of_rows(rows@.subrange(0, i as int)),
        decreases rows@.len() - i,
    {
        assert(rows@.subrange(0, i + 1).drop_last() =~= rows@.subrange(0, i as int));
        match &rows[i] {
            (Some(t), Some(l), Some(c)) => {
                match Role::from_label(l.as_str()) {
                    Some(role) => out.push(
                        Message { text: t.clone(), role, created_at: c.clone() },
                    ),
                    None => {},
                }
            },
            _ => {},
        }
        i = i + 1;
    }
    assert(rows@.subrange(0, rows@.len() as int) =~= rows@);
    out
}

/// The messages of one trip, in the order in which they were appended.
pub struct ConversationLog {
    pub messages: Vec<Message>,
}

/// The log's contents after appending `added`, one message after another.
pub open spec fn appended_all(start: Seq<Message>, added: Seq<Message>) -> Seq<Message>
    decreases added.len(),
{
    if added.len() == 0 {
        start
    } else {
        appended_all(start, added.drop_last()).push(added.last())
    }
}

impl ConversationLog {
    pub fn new() -> (r: Self)
        ensures
            r.messages@.len() == 0,
    {
        ConversationLog { messages: Vec::new() }
    }

    /// Appends one message after all those already in the log.
    pub fn append(&mut self, m: Message)
        ensures
            final(self).messages@ == old(self).messages@.push(m),
    {
        self.messages.push(m);
    }

    /// Whether any message has been appended.
    pub fn has_messages(&self) -> (r: bool)
        ensures
            r == (self.messages@.len() > 0),
    {
        self.messages.len() > 0
    }

    /// The messages, in append order.
    pub fn list(&self) -> (r: Vec<Message>)
        ensures
            r@ == self.messages@,
    {
        let mut out: Vec<Message> = Vec::new();
        let mut i: usize = 0;
        while i < self.messages.len()
            invariant
                i <= self.messages@.len(),
                out@ == self.messages@.subrange(0, i as int),
            decreases self.messages@.len() - i,
        {
            out.push(self.messages[i].clone());
            assert(out@ =~= self.messages@.subrange(0, i + 1));
            i = i + 1;
        }
        assert(out@ =~= self.messages@);
        out
    }
}

/// Listing the log after a run of appends gives back what was there before,
/// then every appended message in the order of the appends; reads between
/// the appends change nothing, as `list` and `has_messages` take the log by
/// shared reference.
pub proof fn lemma_list_keeps_append_order(start: Seq<Message>, added: Seq<Message>)
    ensures
        appended_all(start, added) == start + added,
    decreases added.len(),
{
    if added.len() > 0 {
        lemma_list_keeps_append_order(start, added.drop_last());
        assert(start + added =~= (start + added.drop_last()).push(added.last()));
    }
}

/// Why a write to the log store did not take.
pub enum WriteError {
    /// The store reported a failure, with its message where it gave one.
    Rejected(Option<String>),
    /// The store returned no result for the statement.
    NoResult,
}

/// Judges a single-statement write by the store's first result: whether it
/// succeeded, and the error message that came with it.
pub fn write_outcome(first: Option<(bool, Option<String>)>) -> (r: Result<(), WriteError>)
    ensures
        match first {
            Some((true, _)) => r is Ok,
            Some((false, msg)) => r == Err::<(), WriteError>(WriteError::Rejected(msg)),
            None => r == Err::<(), WriteError>(WriteError::NoResult),
        },
{
    match first {
        Some((true, _)) => Ok(()),
        Some((false, msg)) => Err(WriteError::Rejected(msg)),
        None => Err(WriteError::NoResult),
    }
}

/// A message as the row it is reported as: text, role label, creation time.
pub open spec fn row_view(m: Message) -> (Seq<char>, Seq<char>, Seq<char>) {
    (m.text@, role_label(m.role), m.created_at@)
}

pub open spec fn rows_view(ms: Seq<Message>) -> Seq<(Seq<char>, Seq<char>, Seq<char>)> {
    ms.map_values(|m: Message| row_view(m))
}

/// The JSON text that serde_json writes for a list of rows of three strings.
pub uninterp spec fn json_of_rows(rows: Seq<(Seq<char>, Seq<char>, Seq<char>)>) -> Seq<char>;

#[verifier::external_type_specification]
#[verifier::external_body]
pub struct ExJsonError(serde_json::Error);

/// Relies on serde_json::to_string: the JSON text of a list of string
/// triples, a function of the strings alone. It fails only where a
/// `Serialize` impl fails or a map has keys that are not strings, neither of
/// which can happen for strings written into a `Vec<u8>`.
#[verifier::external_body]
fn rows_to_json(rows: &Vec<(String, String, String)>) -> (r: Result<String, serde_json::Error>)
    ensures
        r is Ok,
        r is Ok ==> r->Ok_0@ == json_of_rows(
            rows@.map_values(|t: (String, String, String)| (t.0@, t.1@, t.2@)),
        ),
{
    serde_json::to_string(rows)
}

/// The body of a history read: the sentinel text when the trip has no
/// messages, else the messages as a JSON list of (text, role, time) rows in
/// their order.
pub fn history_body(messages: &Vec<Message>) -> (r: String)
    ensures
        messages@.len() == 0 ==> r@ == "No messages yet"@,
        messages@.len() > 0 ==> r@ == json_of_rows(rows_view(messages@)),
{
    if messages.len() == 0 {
        return String::from_str("No messages yet");
    }
    let mut rows: Vec<(String, String, String)> = Vec::new();
    let mut i: usize = 0;
    while i < messages.len()
        invariant
            i <= messages@.len(),
            rows@.len() == i,
            forall|j: int|
                0 <= j < i ==> (#[trigger] rows@[j]).0@ == messages@[j].text@ && rows@[j].1@
                    == role_label(messages@[j].role) && rows@[j].2@ == messages@[j].created_at@,
        decreases messages@.len() - i,
    {
        let m = &messages[i];
        rows.push((m.text.clone(), m.role.label(), m.created_at.clone()));
        i = i + 1;
    }
    let encoded = rows_to_json(&rows);
    assert(rows@.map_values(|t: (String, String, String)| (t.0@, t.1@, t.2@)) =~= rows_view(
        messages@,
    ));
    match encoded {
        Ok(body) => body,
        // `rows_to_json` never fails on string rows.
        Err(_) => String::new(),
    }
}

} // verus!
