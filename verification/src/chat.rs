//! The chat on top of the broadcast layer: what a chat message holds, how it
//! is printed, and the command that ends the chat.

use vstd::prelude::*;

use crate::node::message::MessagePayload;
use crate::node::node_id::{hex_lower, LocalNodeId};
use crate::text::{push_str, str_eq, string_of, trim_text, trimmed};
use crate::time::{rfc3339_utc, rfc3339_utc_text, Timestamp};

verus! {

/// Who wrote a chat message.
#[derive(Clone, Copy, Debug, PartialEq, Eq)]
pub enum UserType {
    User(LocalNodeId),
    System,
}

/// How a writer is named: the first five characters of its id, or `System`.
pub open spec fn user_text(u: UserType) -> Seq<char> {
    match u {
        UserType::User(id) => hex_lower(id@).take(5),
        UserType::System => "System"@,
    }
}

impl UserType {
    /// The name of the writer as printed.
    pub fn display_text(&self) -> (s: String)
        ensures
            s@ == user_text(*self),
    {
        match self {
            UserType::User(id) => id.short(),
            UserType::System => string_of("System"),
        }
    }
}

/// The printed form of a message: `writer [time] => content`.
pub open spec fn chat_line(user: UserType, time_text: Seq<char>, content: Seq<char>) -> Seq<char> {
    user_text(user) + " ["@ + time_text + "] => "@ + content
}

/// A chat message: when, what and who.
#[derive(Clone, Debug)]
pub struct ChatMessage {
    time: Timestamp,
    content: String,
    user: UserType,
}

impl MessagePayload for ChatMessage {

}

impl ChatMessage {
    pub closed spec fn time_view(&self) -> Timestamp {
        self.time
    }

    pub closed spec fn content_view(&self) -> Seq<char> {
        self.content@
    }

    pub closed spec fn user_view(&self) -> UserType {
        self.user
    }

    /// A message written at `time`.
    pub fn new(time: Timestamp, content: String, user: UserType) -> (m: ChatMessage)
        ensures
            m.time_view() == time,
            m.content_view() == content@,
            m.user_view() == user,
    {
        ChatMessage { time, content, user }
    }

    pub fn get_time(&self) -> (t: Timestamp)
        ensures
            t == self.time_view(),
    {
        self.time
    }

    pub fn get_user(&self) -> (u: &UserType)
        ensures
            *u == self.user_view(),
    {
        &self.user
    }

    pub fn get_content(&self) -> (c: &str)
        ensures
            c@ == self.content_view(),
    {
        self.content.as_str()
    }

    /// Whether the message asks the node to leave the chat: its content is `quit`.
    pub fn is_quit(&self) -> (q: bool)
        ensures
            q == (self.content_view() == "quit"@),
    {
        str_eq(self.content.as_str(), "quit")
    }

    /// The printed form of the message, the time in UTC (empty when chrono
    /// cannot write the instant).
    pub fn to_display_string(&self) -> (s: String)
        ensures
            s@ == chat_line(
                self.user_view(),
                match rfc3339_utc_text(self.time_view().secs, self.time_view().nanos) {
                    Some(t) => t,
                    None => Seq::<char>::empty(),
                },
                self.content_view(),
            ),
    {
        let mut s = self.user.display_text();
        push_str(&mut s, " [");
        match rfc3339_utc(self.time) {
            Some(t) => push_str(&mut s, t.as_str()),
            None => {},
        }
        push_str(&mut s, "] => ");
        push_str(&mut s, self.content.as_str());
        proof {
            if rfc3339_utc_text(self.time.secs, self.time.nanos) is None {
                assert(user_text(self.user) + " ["@ + Seq::<char>::empty() =~= user_text(self.user) + " ["@);
            }
        }
        s
    }

    /// The message of a line typed by the local user `user` at `time`: the
    /// line without its leading and trailing white space.
    pub fn from_input_line(time: Timestamp, line: &str, user: LocalNodeId) -> (m: ChatMessage)
        ensures
            m.time_view() == time,
            m.content_view() == trimmed(line@),
            m.user_view() == UserType::User(user),
    {
        ChatMessage { time, content: trim_text(line), user: UserType::User(user) }
    }

    /// The line printed when the message is delivered: `# MESSAGE: ` and the
    /// printed form of the message.
    pub fn delivery_line(&self) -> (s: String)
        ensures
            s@ == "# MESSAGE: "@ + chat_line(
                self.user_view(),
                match rfc3339_utc_text(self.time_view().secs, self.time_view().nanos) {
                    Some(t) => t,
                    None => Seq::<char>::empty(),
                },
                self.content_view(),
            ),
    {
        let mut s = string_of("# MESSAGE: ");
        let line = self.to_display_string();
        push_str(&mut s, line.as_str());
        s
    }
}

} // verus!
