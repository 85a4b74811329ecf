//! The chat history sent to the language model: a bounded list of
//! (role, content) messages.

use vstd::prelude::*;

use crate::text::{copy_string, string_of};

verus! {

/// Messages beyond this many are dropped from the front before a new one is added.
pub const HISTORY_LIMIT: usize = 50;

/// The history after adding a message: when it holds more than
/// `HISTORY_LIMIT` messages the oldest one is dropped first, then the new
/// message goes at the end.
pub open spec fn appended(h: Seq<(Seq<char>, Seq<char>)>, role: Seq<char>, content: Seq<char>) -> Seq<(Seq<char>, Seq<char>)> {
    (if h.len() > HISTORY_LIMIT {
        h.drop_first()
    } else {
        h
    }).push((role, content))
}

/// One message of the history.
#[derive(Debug, Clone)]
pub struct GptMessageToSend {
    role: String,
    content: String,
}

impl GptMessageToSend {
    pub closed spec fn pair(&self) -> (Seq<char>, Seq<char>) {
        (self.role@, self.content@)
    }

    /// The author of the message: `user`, `assistant` or `system`.
    pub fn role(&self) -> (r: &str)
        ensures
            r@ == self.pair().0,
    {
        self.role.as_str()
    }

    pub fn content(&self) -> (c: &str)
        ensures
            c@ == self.pair().1,
    {
        self.content.as_str()
    }

    fn copy(&self) -> (m: GptMessageToSend)
        ensures
            m.pair() == self.pair(),
    {
        GptMessageToSend { role: copy_string(&self.role), content: copy_string(&self.content) }
    }
}

/// The messages of a conversation, oldest first.
#[derive(Debug, Clone)]
pub struct GptMessageToSends {
    messages: Vec<GptMessageToSend>,
}

impl Default for GptMessageToSends {
    fn default() -> (h: GptMessageToSends)
        ensures
            h@ == Seq::<(Seq<char>, Seq<char>)>::empty(),
    {
        let h = GptMessageToSends { messages: Vec::new() };
        assert(h@ =~= Seq::<(Seq<char>, Seq<char>)>::empty());
        h
    }
}

impl View for GptMessageToSends {
    type V = Seq<(Seq<char>, Seq<char>)>;

    closed spec fn view(&self) -> Seq<(Seq<char>, Seq<char>)> {
        self.messages@.map_values(|m: GptMessageToSend| m.pair())
    }
}

impl GptMessageToSends {
    /// The messages, oldest first.
    pub fn messages(&self) -> (r: &Vec<GptMessageToSend>)
        ensures
            r@.map_values(|m: GptMessageToSend| m.pair()) == self@,
    {
        &self.messages
    }

    fn add_msg(&mut self, role: &str, content: String)
        ensures
            final(self)@ == appended(old(self)@, role@, content@),
    {
        let ghost before = self@;
        if self.messages.len() > HISTORY_LIMIT {
            self.messages.remove(0);
            assert(self@ =~= before.drop_first());
        }
        let ghost mid = self@;
        let m = GptMessageToSend { role: string_of(role), content };
        self.messages.push(m);
        assert(self@ =~= mid.push((role@, content@)));
    }

    /// Adds a message of the user.
    pub fn add_user_msg(&mut self, content: String)
        ensures
            final(self)@ == appended(old(self)@, "user"@, content@),
    {
        self.add_msg("user", content);
    }

    /// Adds a reply of the model.
    pub fn add_assistant_msg(&mut self, content: String)
        ensures
            final(self)@ == appended(old(self)@, "assistant"@, content@),
    {
        self.add_msg("assistant", content);
    }

    /// Adds an instruction to the model.
    pub fn add_system_msg(&mut self, content: String)
        ensures
            final(self)@ == appended(old(self)@, "system"@, content@),
    {
        self.add_msg("system", content);
    }

    /// A copy of the history.
    pub fn copy(&self) -> (h: GptMessageToSends)
        ensures
            h@ == self@,
    {
        let mut messages: Vec<GptMessageToSend> = Vec::new();
        let mut i: usize = 0;
        while i < self.messages.len()
            invariant
                i <= self.messages@.len(),
                messages@.map_values(|m: GptMessageToSend| m.pair()) == self@.take(i as int),
            decreases self.messages@.len() - i,
        {
            let m = self.messages[i].copy();
            let ghost before = messages@;
            messages.push(m);
            assert(messages@.map_values(|m: GptMessageToSend| m.pair()) =~= before.map_values(|m: GptMessageToSend| m.pair()).push(m.pair()));
            assert(self@.take(i + 1) =~= self@.take(i as int).push(self@[i as int]));
            i = i + 1;
        }
        assert(self@.take(self.messages@.len() as int) =~= self@);
        GptMessageToSends { messages }
    }
}

/// The history never grows beyond one more than `HISTORY_LIMIT` messages, the
/// newest message is always last, and nothing is dropped while the history
/// holds at most `HISTORY_LIMIT` messages.
pub proof fn law_history_bounded(h: Seq<(Seq<char>, Seq<char>)>, role: Seq<char>, content: Seq<char>)
    requires
        h.len() <= HISTORY_LIMIT + 1,
    ensures
        appended(h, role, content).len() <= HISTORY_LIMIT + 1,
        appended(h, role, content).last() == (role, content),
        h.len() <= HISTORY_LIMIT ==> appended(h, role, content).drop_last() == h,
{
    assert(h.len() <= HISTORY_LIMIT ==> appended(h, role, content).drop_last() =~= h);
}

} // verus!
