//! Live chat: the messages that go over a connection, what is done with one
//! that comes in, and who is connected.
use vstd::prelude::*;
use crate::errors::AppError;
use crate::errors::ErrorView;
use crate::lex::str_eq;
use crate::models::Message;
use crate::text::concat2;
use crate::text::owned;

verus! {

/// A message from the server to a client.
#[derive(Debug, Clone)]
pub enum WsMessageType {
    Message {
        id: String,
        match_id: Option<String>,
        sender_id: String,
        receiver_id: String,
        content: String,
        created_at: String,
    },
    Typing { match_id: String, user_id: String, is_typing: bool },
    MessageRead { message_id: String, match_id: String },
    Error { message: String },
    Ping,
    Pong,
}

/// A message from a client to the server.
#[derive(Debug)]
pub enum ClientMessage {
    SendMessage { match_id: String, receiver_id: String, content: String },
    Typing { match_id: String, is_typing: bool },
    MarkRead { message_id: String },
    Ping,
}

/// What is done with a message of a client.
#[derive(Debug)]
pub enum ClientPlan {
    /// Store the message; then hand it to the receiver, if connected. If it
    /// cannot be stored, tell the sender and hand nothing on.
    Deliver { message: Message, receiver_id: String },
    /// Tell the other user of the match that this one is typing, or has
    /// stopped.
    RelayTyping { match_id: String, is_typing: bool },
    /// Mark the message as read.
    MarkRead { message_id: String },
    /// Nothing: the message only keeps the connection alive.
    Nothing,
}

/// Says what is done with a message that `user_id` sent. A chat message is
/// made here, under a new identifier and with the time of the call.
pub fn plan_client_message(msg: ClientMessage, user_id: &str) -> (plan: ClientPlan)
    ensures
        match msg {
            ClientMessage::SendMessage { match_id, receiver_id, content } => plan matches ClientPlan::Deliver {
                message,
                receiver_id: to,
            } && to == receiver_id && message.match_id == match_id && message.sender_id@
                == user_id@ && message.content == content && message.read_at is None,
            ClientMessage::Typing { match_id, is_typing } => plan matches ClientPlan::RelayTyping {
                match_id: m,
                is_typing: t,
            } && m == match_id && t == is_typing,
            ClientMessage::MarkRead { message_id } => plan matches ClientPlan::MarkRead {
                message_id: m,
            } && m == message_id,
            ClientMessage::Ping => plan is Nothing,
        },
{
    match msg {
        ClientMessage::SendMessage { match_id, receiver_id, content } => {
            let message = Message::new(match_id, owned(user_id), content);
            ClientPlan::Deliver { message, receiver_id }
        },
        ClientMessage::Typing { match_id, is_typing } => ClientPlan::RelayTyping {
            match_id,
            is_typing,
        },
        ClientMessage::MarkRead { message_id } => ClientPlan::MarkRead { message_id },
        ClientMessage::Ping => ClientPlan::Nothing,
    }
}

/// A stored chat message as it is handed to its receiver. `created_at` is
/// the time of the message as text.
pub fn outgoing_message(message: &Message, receiver_id: &str, created_at: String) -> (out:
    WsMessageType)
    ensures
        out matches WsMessageType::Message {
            id,
            match_id,
            sender_id,
            receiver_id: to,
            content,
            created_at: at,
        } && id == message.id && match_id == Some(message.match_id) && sender_id
            == message.sender_id && to@ == receiver_id@ && content == message.content && at
            == created_at,
{
    WsMessageType::Message {
        id: message.id.clone(),
        match_id: Some(message.match_id.clone()),
        sender_id: message.sender_id.clone(),
        receiver_id: owned(receiver_id),
        content: message.content.clone(),
        created_at,
    }
}

/// What the sender is told when a message could not be stored.
pub fn send_failed_notice() -> (out: WsMessageType)
    ensures
        out matches WsMessageType::Error { message } && message@ == "Failed to send message"@,
{
    WsMessageType::Error { message: owned("Failed to send message") }
}

/// What the other user of a match is told when `user_id` types.
pub fn typing_notice(match_id: String, user_id: &str, is_typing: bool) -> (out: WsMessageType)
    ensures
        out matches WsMessageType::Typing { match_id: m, user_id: u, is_typing: t } && m
            == match_id && u@ == user_id@ && t == is_typing,
{
    WsMessageType::Typing { match_id, user_id: owned(user_id), is_typing }
}

/// What a caller is told when a message could not be put on a connection.
pub fn channel_failed(reason: &str) -> (e: AppError)
    ensures
        e@ == ErrorView::Internal("Failed to send WebSocket message: "@ + reason@),
{
    AppError::Internal(concat2("Failed to send WebSocket message: ", reason))
}

/// The user at the other end of a match of `user1_id` and `user2_id`, as
/// `current_user_id` sees it: the second if the current user is the first,
/// else the first.
pub fn other_user_in_match(user1_id: String, user2_id: String, current_user_id: &str) -> (other:
    String)
    ensures
        other == if user1_id@ == current_user_id@ {
            user2_id
        } else {
            user1_id
        },
{
    if str_eq(user1_id.as_str(), current_user_id) {
        user2_id
    } else {
        user1_id
    }
}

/// The place of a user among the connections.
pub open spec fn place_of<T>(entries: Seq<(String, T)>, user_id: Seq<char>) -> Option<int>
    decreases entries.len(),
{
    if entries.len() == 0 {
        None
    } else if entries.last().0@ == user_id {
        match place_of(entries.drop_last(), user_id) {
            Some(i) => Some(i),
            None => Some(entries.len() - 1),
        }
    } else {
        place_of(entries.drop_last(), user_id)
    }
}

/// No user has two connections.
pub open spec fn one_each<T>(entries: Seq<(String, T)>) -> bool {
    forall|i: int, j: int|
        0 <= i < j < entries.len() ==> (#[trigger] entries[i]).0@ != (#[trigger] entries[j]).0@
}

/// The place that `place_of` gives bears the user, and no place before it does.
pub proof fn lemma_place_of<T>(entries: Seq<(String, T)>, user_id: Seq<char>)
    ensures
        match place_of(entries, user_id) {
            Some(i) => 0 <= i < entries.len() && entries[i].0@ == user_id && forall|j: int|
                0 <= j < i ==> (#[trigger] entries[j]).0@ != user_id,
            None => forall|j: int| 0 <= j < entries.len() ==> (#[trigger] entries[j]).0@ != user_id,
        },
    decreases entries.len(),
{
    if entries.len() > 0 {
        lemma_place_of(entries.drop_last(), user_id);
        assert forall|j: int| 0 <= j < entries.len() - 1 implies entries.drop_last()[j]
            == entries[j] by {}
        match place_of(entries.drop_last(), user_id) {
            Some(i) => {
                assert(entries.drop_last()[i] == entries[i]);
                assert forall|j: int| 0 <= j < i implies (#[trigger] entries[j]).0@ != user_id by {
                    assert(entries.drop_last()[j] == entries[j]);
                }
            },
            None => {
                assert forall|j: int| 0 <= j < entries.len() - 1 implies (#[trigger] entries[j]).0@
                    != user_id by {
                    assert(entries.drop_last()[j] == entries[j]);
                }
            },
        }
    }
}

/// Who is connected: the connection of each user that has one. `T` is what
/// messages to a user are handed to.
pub struct ConnectionRegistry<T> {
    connections: Vec<(String, T)>,
}

impl<T> ConnectionRegistry<T> {
    /// No user has two connections. A new registry is so, and registering
    /// and unregistering keep it so.
    pub closed spec fn wf(&self) -> bool {
        one_each(self.connections@)
    }

    /// The connections, in the order in which the users first connected.
    pub closed spec fn entries(&self) -> Seq<(String, T)> {
        self.connections@
    }

    /// The user has a connection.
    pub open spec fn spec_is_online(&self, user_id: Seq<char>) -> bool {
        place_of(self.entries(), user_id) is Some
    }

    /// A registry without connections.
    pub fn new() -> (registry: Self)
        ensures
            registry.wf(),
            registry.entries().len() == 0,
    {
        Self { connections: Vec::new() }
    }

    fn find(&self, user_id: &str) -> (place: Option<usize>)
        ensures
            match place {
                Some(i) => place_of(self.entries(), user_id@) == Some(i as int) && i
                    < self.entries().len(),
                None => place_of(self.entries(), user_id@) is None,
            },
    {
        let mut i: usize = 0;
        while i < self.connections.len()
            invariant
                i <= self.connections@.len(),
                forall|j: int| 0 <= j < i ==> (#[trigger] self.connections@[j]).0@ != user_id@,
            decreases self.connections@.len() - i,
        {
            if str_eq(self.connections[i].0.as_str(), user_id) {
                proof {
                    lemma_place_of(self.connections@, user_id@);
                    assert(self.connections@[i as int].0@ == user_id@);
                }
                return Some(i);
            }
            i += 1;
        }
        proof {
            lemma_place_of(self.connections@, user_id@);
        }
        None
    }

    /// Notes the connection of a user. A user who was connected before has
    /// the new connection in place of the old one.
    pub fn register_connection(&mut self, user_id: String, tx: T)
        requires
            old(self).wf(),
        ensures
            final(self).wf(),
            match place_of(old(self).entries(), user_id@) {
                Some(i) => final(self).entries() == old(self).entries().update(i, (user_id, tx)),
                None => final(self).entries() == old(self).entries().push((user_id, tx)),
            },
            final(self).spec_is_online(user_id@),
    {
        proof {
            lemma_place_of(self.connections@, user_id@);
        }
        let ghost before = self.connections@;
        match self.find(user_id.as_str()) {
            Some(i) => {
                self.connections.set(i, (user_id, tx));
                proof {
                    assert forall|a: int, b: int|
                        0 <= a < b < self.connections@.len() implies (
                    #[trigger] self.connections@[a]).0@ != (#[trigger] self.connections@[b]).0@ by {
                        assert(before[a].0@ != before[b].0@);
                    }
                    lemma_place_of(self.connections@, user_id@);
                    assert(self.connections@[i as int].0@ == user_id@);
                }
            },
            None => {
                self.connections.push((user_id, tx));
                proof {
                    assert forall|a: int, b: int|
                        0 <= a < b < self.connections@.len() implies (
                    #[trigger] self.connections@[a]).0@ != (#[trigger] self.connections@[b]).0@ by {
                        if b < before.len() {
                            assert(before[a].0@ != before[b].0@);
                        } else {
                            assert(before[a].0@ != user_id@);
                        }
                    }
                    lemma_place_of(self.connections@, user_id@);
                    assert(self.connections@[before.len() as int].0@ == user_id@);
                }
            },
        }
    }

    /// Forgets the connection of a user, if there is one.
    pub fn unregister_connection(&mut self, user_id: &str)
        requires
            old(self).wf(),
        ensures
            final(self).wf(),
            match place_of(old(self).entries(), user_id@) {
                Some(i) => final(self).entries() == old(self).entries().remove(i),
                None => final(self).entries() == old(self).entries(),
            },
            !final(self).spec_is_online(user_id@),
    {
        proof {
            lemma_place_of(self.connections@, user_id@);
        }
        let ghost before = self.connections@;
        match self.find(user_id) {
            Some(i) => {
                let _ = self.connections.remove(i);
                proof {
                    assert forall|a: int, b: int|
                        0 <= a < b < self.connections@.len() implies (
                    #[trigger] self.connections@[a]).0@ != (#[trigger] self.connections@[b]).0@ by {
                        let x = if a < i { a } else { a + 1 };
                        let y = if b < i { b } else { b + 1 };
                        assert(before[x].0@ != before[y].0@);
                    }
                    assert forall|j: int| 0 <= j < self.connections@.len() implies (
                    #[trigger] self.connections@[j]).0@ != user_id@ by {
                        let x = if j < i { j } else { j + 1 };
                        assert(before[x].0@ != before[i as int].0@);
                    }
                    lemma_place_of(self.connections@, user_id@);
                }
            },
            None => {},
        }
    }

    /// The connection of a user, if there is one.
    pub fn connection_of(&self, user_id: &str) -> (tx: Option<&T>)
        ensures
            match place_of(self.entries(), user_id@) {
                Some(i) => tx == Some(&self.entries()[i].1),
                None => tx is None,
            },
    {
        match self.find(user_id) {
            Some(i) => Some(&self.connections[i].1),
            None => None,
        }
    }

    /// Whether a user is connected.
    pub fn is_user_online(&self, user_id: &str) -> (online: bool)
        ensures
            online == self.spec_is_online(user_id@),
    {
        self.find(user_id).is_some()
    }

    /// How many users are connected.
    pub fn connection_count(&self) -> (count: usize)
        ensures
            count == self.entries().len(),
    {
        self.connections.len()
    }
}

} // verus!
