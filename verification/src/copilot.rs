//! Assistant chat sessions and their messages.

use vstd::prelude::*;
use crate::text::chars_of;

verus! {

/// The role of a message's author.
#[derive(Clone, Copy, PartialEq, Eq, Structural, Debug)]
pub enum MessageRole {
    /// User message.
    User,
    /// Assistant response.
    Assistant,
    /// System message.
    System,
}

/// How a role is shown to people.
pub open spec fn role_display(r: MessageRole) -> Seq<char> {
    match r {
        MessageRole::User => "User"@,
        MessageRole::Assistant => "Copilot"@,
        MessageRole::System => "System"@,
    }
}

/// How a role is stored.
pub open spec fn role_text(r: MessageRole) -> Seq<char> {
    match r {
        MessageRole::User => "user"@,
        MessageRole::Assistant => "assistant"@,
        MessageRole::System => "system"@,
    }
}

impl MessageRole {
    /// How the role is shown to people.
    pub fn display_name(&self) -> (s: &'static str)
        ensures
            s@ == role_display(*self),
    {
        match self {
            MessageRole::User => "User",
            MessageRole::Assistant => "Copilot",
            MessageRole::System => "System",
        }
    }

    /// How the role is stored.
    pub fn stored_name(&self) -> (s: String)
        ensures
            s@ == role_text(*self),
    {
        match self {
            MessageRole::User => String::from_str("user"),
            MessageRole::Assistant => String::from_str("assistant"),
            MessageRole::System => String::from_str("system"),
        }
    }
}

/// The number of bytes UTF-8 spends on a character.
pub open spec fn utf8_width(c: char) -> nat {
    if (c as u32) < 0x80 {
        1
    } else if (c as u32) < 0x800 {
        2
    } else if (c as u32) < 0x10000 {
        3
    } else {
        4
    }
}

/// The number of bytes of a text in UTF-8.
pub open spec fn utf8_len(s: Seq<char>) -> nat
    decreases s.len(),
{
    if s.len() == 0 {
        0
    } else {
        utf8_len(s.drop_last()) + utf8_width(s.last())
    }
}

proof fn lemma_utf8_len_prefix(s: Seq<char>, k: int)
    requires
        0 <= k <= s.len(),
    ensures
        utf8_len(s.take(k)) <= utf8_len(s),
    decreases s.len() - k,
{
    if k < s.len() {
        lemma_utf8_len_prefix(s, k + 1);
        assert(s.take(k + 1).drop_last() =~= s.take(k));
    } else {
        assert(s.take(k) =~= s);
    }
}

fn utf8_width_exec(c: char) -> (w: usize)
    ensures
        w == utf8_width(c),
{
    let v = c as u32;
    if v < 0x80 {
        1
    } else if v < 0x800 {
        2
    } else if v < 0x10000 {
        3
    } else {
        4
    }
}

/// A message in a chat session. Times are milliseconds since the Unix epoch.
#[derive(Debug)]
pub struct ChatMessage {
    /// Who wrote it.
    pub role: MessageRole,
    /// What it says.
    pub content: String,
    /// When it was written.
    pub timestamp: i64,
    /// The agent it was addressed to, if any.
    pub agent: Option<String>,
}

impl ChatMessage {
    /// A user message.
    pub fn user(content: String, timestamp: i64) -> (m: ChatMessage)
        ensures
            m == (ChatMessage { role: MessageRole::User, content, timestamp, agent: None }),
    {
        ChatMessage { role: MessageRole::User, content, timestamp, agent: None }
    }

    /// An assistant message.
    pub fn assistant(content: String, timestamp: i64) -> (m: ChatMessage)
        ensures
            m == (ChatMessage { role: MessageRole::Assistant, content, timestamp, agent: None }),
    {
        ChatMessage { role: MessageRole::Assistant, content, timestamp, agent: None }
    }

    /// The same message, addressed to an agent.
    pub fn with_agent(self, agent: String) -> (m: ChatMessage)
        ensures
            m == (ChatMessage { agent: Some(agent), ..self }),
    {
        let mut s = self;
        s.agent = Some(agent);
        s
    }

    /// The length of the content in bytes of UTF-8.
    pub fn content_len(&self) -> (n: usize)
        requires
            utf8_len(self.content@) <= usize::MAX,
        ensures
            n == utf8_len(self.content@),
    {
        let cs = chars_of(self.content.as_str());
        let mut n: usize = 0;
        let mut i: usize = 0;
        while i < cs.len()
            invariant
                i <= cs@.len(),
                cs@ == self.content@,
                n == utf8_len(cs@.take(i as int)),
                utf8_len(self.content@) <= usize::MAX,
            decreases cs@.len() - i,
        {
            assert(cs@.take(i + 1).drop_last() =~= cs@.take(i as int));
            proof {
                lemma_utf8_len_prefix(cs@, i + 1);
            }
            n = n + utf8_width_exec(cs[i]);
            i = i + 1;
        }
        assert(cs@.take(i as int) =~= cs@);
        n
    }

    /// Whether the message names an agent.
    pub fn has_agent(&self) -> (b: bool)
        ensures
            b == self.agent is Some,
    {
        self.agent.is_some()
    }
}

/// A chat session.
#[derive(Debug)]
pub struct ChatSession {
    /// Session identifier.
    pub id: String,
    /// Workspace the session belongs to.
    pub workspace_id: String,
    /// When the session began.
    pub created_at: i64,
    /// When the session last changed.
    pub updated_at: i64,
    /// The messages, in order.
    pub messages: Vec<ChatMessage>,
}

/// The messages of a given role, in order.
pub open spec fn of_role(ms: Seq<ChatMessage>, r: MessageRole) -> Seq<ChatMessage> {
    ms.filter(|m: ChatMessage| m.role == r)
}

impl ChatSession {
    /// An empty session begun at `timestamp`.
    pub fn new(id: String, workspace_id: String, timestamp: i64) -> (s: ChatSession)
        ensures
            s.id == id,
            s.workspace_id == workspace_id,
            s.created_at == timestamp,
            s.updated_at == timestamp,
            s.messages@.len() == 0,
    {
        ChatSession { id, workspace_id, created_at: timestamp, updated_at: timestamp, messages: Vec::new() }
    }

    /// Append a message; the session is updated at the message's time.
    pub fn add_message(&mut self, message: ChatMessage)
        ensures
            final(self).messages@ == old(self).messages@.push(message),
            final(self).updated_at == message.timestamp,
            final(self).created_at == old(self).created_at,
            final(self).id == old(self).id,
            final(self).workspace_id == old(self).workspace_id,
    {
        self.updated_at = message.timestamp;
        self.messages.push(message);
    }

    /// The number of messages.
    pub fn message_count(&self) -> (n: usize)
        ensures
            n == self.messages@.len(),
    {
        self.messages.len()
    }

    /// Whether the session has no message.
    pub fn is_empty(&self) -> (b: bool)
        ensures
            b == (self.messages@.len() == 0),
    {
        self.messages.len() == 0
    }

    fn messages_of_role(&self, role: MessageRole) -> (r: Vec<&ChatMessage>)
        ensures
            r@.map_values(|m: &ChatMessage| *m) == of_role(self.messages@, role),
    {
        let mut r: Vec<&ChatMessage> = Vec::new();
        let mut i: usize = 0;
        while i < self.messages.len()
            invariant
                i <= self.messages@.len(),
                r@.map_values(|m: &ChatMessage| *m) == of_role(self.messages@.take(i as int), role),
            decreases self.messages@.len() - i,
        {
            let m = &self.messages[i];
            proof {
                assert(self.messages@.take(i + 1) =~= self.messages@.take(i as int).push(*m));
                self.messages@.take(i as int).lemma_filter_push(*m, |m: ChatMessage| m.role == role);
            }
            if m.role == role {
                r.push(m);
            }
            assert(r@.map_values(|m: &ChatMessage| *m) =~= of_role(self.messages@.take(i + 1), role));
            i = i + 1;
        }
        assert(self.messages@.take(i as int) =~= self.messages@);
        r
    }

    /// The user's messages, in order.
    pub fn user_messages(&self) -> (r: Vec<&ChatMessage>)
        ensures
            r@.map_values(|m: &ChatMessage| *m) == of_role(self.messages@, MessageRole::User),
    {
        self.messages_of_role(MessageRole::User)
    }

    /// The assistant's messages, in order.
    pub fn assistant_messages(&self) -> (r: Vec<&ChatMessage>)
        ensures
            r@.map_values(|m: &ChatMessage| *m) == of_role(self.messages@, MessageRole::Assistant),
    {
        self.messages_of_role(MessageRole::Assistant)
    }
}

// ---------------------------------------------------------------------------
// Sessions from the requests of a session file
// ---------------------------------------------------------------------------

/// A request as a session file records it: what the user wrote, the parts
/// of the reply, and when it was made.
#[derive(Debug)]
pub struct SessionRequest {
    /// The user's text, if any.
    pub message: Option<String>,
    /// The reply's parts; a part without text is `None`.
    pub response_parts: Vec<Option<String>>,
    /// When the request was made, if recorded.
    pub timestamp: Option<i64>,
}

/// A message as a value: its role, its text and its time.
pub open spec fn message_view(m: ChatMessage) -> (MessageRole, Seq<char>, i64) {
    (m.role, m.content@, m.timestamp)
}

/// The texts of the reply parts, one after another.
pub open spec fn joined_parts(ps: Seq<Option<String>>) -> Seq<char>
    decreases ps.len(),
{
    if ps.len() == 0 {
        Seq::empty()
    } else {
        joined_parts(ps.drop_last()) + match ps.last() {
            Some(t) => t@,
            None => Seq::empty(),
        }
    }
}

/// The time of a request: its own, else the session's creation time.
pub open spec fn request_time(r: SessionRequest, created: i64) -> i64 {
    match r.timestamp {
        Some(t) => t,
        None => created,
    }
}

/// The messages a request gives: the user's text, when there is one, then
/// the joined reply, when it is not empty; both at the request's time.
pub open spec fn request_messages(r: SessionRequest, created: i64) -> Seq<(MessageRole, Seq<char>, i64)> {
    let at = request_time(r, created);
    let reply = joined_parts(r.response_parts@);
    (match r.message {
        Some(m) => seq![(MessageRole::User, m@, at)],
        None => Seq::empty(),
    }) + (if reply.len() > 0 {
        seq![(MessageRole::Assistant, reply, at)]
    } else {
        Seq::empty()
    })
}

/// The messages of a list of requests, in order.
pub open spec fn requests_messages(rs: Seq<SessionRequest>, created: i64) -> Seq<(MessageRole, Seq<char>, i64)>
    decreases rs.len(),
{
    if rs.len() == 0 {
        Seq::empty()
    } else {
        requests_messages(rs.drop_last(), created) + request_messages(rs.last(), created)
    }
}

/// The reply parts' texts joined.
fn join_parts(parts: &Vec<Option<String>>) -> (t: String)
    ensures
        t@ == joined_parts(parts@),
{
    let mut t = String::new();
    let mut i: usize = 0;
    assert(parts@.take(0) =~= Seq::<Option<String>>::empty());
    while i < parts.len()
        invariant
            i <= parts@.len(),
            t@ == joined_parts(parts@.take(i as int)),
        decreases parts@.len() - i,
    {
        assert(parts@.take(i + 1).drop_last() =~= parts@.take(i as int));
        match &parts[i] {
            Some(p) => t.append(p.as_str()),
            None => {},
        }
        assert(t@ =~= joined_parts(parts@.take(i + 1)));
        i = i + 1;
    }
    assert(parts@.take(i as int) =~= parts@);
    t
}

/// The session a session file describes: for each request in order, the
/// user's text and the joined reply (when not empty), at the request's
/// time or else the session's creation time.
pub fn session_from_requests(
    id: String,
    workspace_id: String,
    created: i64,
    requests: &Vec<SessionRequest>,
) -> (s: ChatSession)
    ensures
        s.id == id,
        s.workspace_id == workspace_id,
        s.created_at == created,
        s.messages@.map_values(|m: ChatMessage| message_view(m)) == requests_messages(requests@, created),
        forall|k: int| 0 <= k < s.messages@.len() ==> (#[trigger] s.messages@[k]).agent is None,
        s.updated_at == if s.messages@.len() == 0 {
            created
        } else {
            s.messages@.last().timestamp
        },
{
    let mut s = ChatSession::new(id, workspace_id, created);
    let ghost id0 = s.id;
    let ghost ws0 = s.workspace_id;
    let mut i: usize = 0;
    assert(requests@.take(0) =~= Seq::<SessionRequest>::empty());
    assert(s.messages@.map_values(|m: ChatMessage| message_view(m)) =~= Seq::<(MessageRole, Seq<char>, i64)>::empty());
    while i < requests.len()
        invariant
            i <= requests@.len(),
            s.id == id0,
            s.workspace_id == ws0,
            s.created_at == created,
            s.messages@.map_values(|m: ChatMessage| message_view(m)) == requests_messages(requests@.take(i as int), created),
            forall|k: int| 0 <= k < s.messages@.len() ==> (#[trigger] s.messages@[k]).agent is None,
            s.updated_at == if s.messages@.len() == 0 {
                created
            } else {
                s.messages@.last().timestamp
            },
        decreases requests@.len() - i,
    {
        let r = &requests[i];
        let at = match r.timestamp {
            Some(t) => t,
            None => created,
        };
        let ghost before = s.messages@.map_values(|m: ChatMessage| message_view(m));
        let ghost user_part: Seq<(MessageRole, Seq<char>, i64)> = match requests@[i as int].message {
            Some(m) => seq![(MessageRole::User, m@, at)],
            None => Seq::empty(),
        };
        match &r.message {
            Some(m) => {
                let msg = ChatMessage::user(String::from_str(m.as_str()), at);
                s.add_message(msg);
                assert(s.messages@.map_values(|m: ChatMessage| message_view(m)) =~= before + user_part);
            },
            None => {
                assert(s.messages@.map_values(|m: ChatMessage| message_view(m)) =~= before + user_part);
            },
        }
        let reply = join_parts(&r.response_parts);
        let ghost mid = s.messages@.map_values(|m: ChatMessage| message_view(m));
        if reply.as_str().unicode_len() > 0 {
            let ghost rv = reply@;
            s.add_message(ChatMessage::assistant(reply, at));
            assert(s.messages@.map_values(|m: ChatMessage| message_view(m)) =~= mid.push(
                (MessageRole::Assistant, rv, at),
            ));
        }
        assert(requests@.take(i + 1).drop_last() =~= requests@.take(i as int));
        assert(requests@.take(i + 1).last() == *r);
        assert(s.messages@.map_values(|m: ChatMessage| message_view(m)) =~= requests_messages(
            requests@.take(i + 1),
            created,
        ));
        i = i + 1;
    }
    assert(requests@.take(i as int) =~= requests@);
    s
}

} // verus!
