//! Settings of the DeepSeek model and the per-user conversation histories.

use vstd::prelude::*;

use crate::assoc::{assoc_map, keys_unique, lemma_assoc_key_position, lemma_assoc_lookup, lemma_assoc_push, lemma_assoc_update};
use crate::gpt::common::{appended, GptMessageToSends};
use crate::text::{
    chars_from, chars_of, copy_string, decimal, has_prefix, lines_of, push_str, starts_with, str_eq, string_from_chars, string_of, text_lines,
    u64_to_decimal, views,
};

verus! {

/// Where and how to reach the model.
#[derive(Debug, Default, Clone)]
pub struct DeepSeekV3 {
    token: String,
    url: String,
    model: String,
}

impl DeepSeekV3 {
    pub closed spec fn token_view(&self) -> Seq<char> {
        self.token@
    }

    pub closed spec fn url_view(&self) -> Seq<char> {
        self.url@
    }

    pub closed spec fn model_view(&self) -> Seq<char> {
        self.model@
    }

    pub fn new(token: String, url: String, model: String) -> (d: DeepSeekV3)
        ensures
            d.token_view() == token@,
            d.url_view() == url@,
            d.model_view() == model@,
    {
        DeepSeekV3 { token, url, model }
    }

    pub fn token(&self) -> (r: &str)
        ensures
            r@ == self.token_view(),
    {
        self.token.as_str()
    }

    pub fn url(&self) -> (r: &str)
        ensures
            r@ == self.url_view(),
    {
        self.url.as_str()
    }

    pub fn model(&self) -> (r: &str)
        ensures
            r@ == self.model_view(),
    {
        self.model.as_str()
    }
}

/// The instruction that starts every conversation.
pub open spec fn system_prompt() -> Seq<char> {
    "你个一个聊天机器人，不使用markdown格式"@
}

/// The history of a user when a new input arrives: the existing one, or a new
/// one that starts with the system prompt.
pub open spec fn history_before_input(cache: Map<Seq<char>, Seq<(Seq<char>, Seq<char>)>>, user: Seq<char>) -> Seq<(Seq<char>, Seq<char>)> {
    if cache.contains_key(user) {
        cache[user]
    } else {
        appended(Seq::empty(), "system"@, system_prompt())
    }
}

/// The conversations with the model, one per user.
#[derive(Debug)]
pub struct ChatCache {
    entries: Vec<(String, GptMessageToSends)>,
}

impl View for ChatCache {
    type V = Map<Seq<char>, Seq<(Seq<char>, Seq<char>)>>;

    closed spec fn view(&self) -> Map<Seq<char>, Seq<(Seq<char>, Seq<char>)>> {
        assoc_map(self.pairs())
    }
}

impl ChatCache {
    closed spec fn pairs(&self) -> Seq<(Seq<char>, Seq<(Seq<char>, Seq<char>)>)> {
        self.entries@.map_values(|e: (String, GptMessageToSends)| (e.0@, e.1@))
    }

    /// No user occurs twice.
    pub closed spec fn wf(&self) -> bool {
        keys_unique(self.pairs())
    }

    /// No conversation yet.
    pub fn new() -> (c: ChatCache)
        ensures
            c.wf(),
            c@ == Map::<Seq<char>, Seq<(Seq<char>, Seq<char>)>>::empty(),
    {
        let c = ChatCache { entries: Vec::new() };
        assert(c@ =~= Map::<Seq<char>, Seq<(Seq<char>, Seq<char>)>>::empty());
        c
    }

    fn position(&self, user: &str) -> (r: Option<usize>)
        requires
            self.wf(),
        ensures
            match r {
                Some(i) => i < self.entries@.len() && self.pairs()[i as int].0 == user@,
                None => !self@.contains_key(user@),
            },
    {
        let mut i: usize = 0;
        while i < self.entries.len()
            invariant
                i <= self.entries@.len(),
                forall|j: int| 0 <= j < i ==> self.pairs()[j].0 != user@,
            decreases self.entries@.len() - i,
        {
            if str_eq(self.entries[i].0.as_str(), user) {
                return Some(i);
            }
            i = i + 1;
        }
        proof {
            if self@.contains_key(user@) {
                let j = lemma_assoc_key_position(self.pairs(), user@);
                assert(self.pairs()[j].0 != user@);
            }
        }
        None
    }

    /// Adds the input of `user` to the user's conversation (started with the
    /// system prompt if there was none) and gives the conversation to send.
    pub fn prepare_chat(&mut self, user: &str, input: String) -> (body: GptMessageToSends)
        requires
            old(self).wf(),
        ensures
            final(self).wf(),
            body@ == appended(history_before_input(old(self)@, user@), "user"@, input@),
            final(self)@ == old(self)@.insert(user@, body@),
    {
        proof {
            reveal_strlit("你个一个聊天机器人，不使用markdown格式");
        }
        match self.position(user) {
            Some(i) => {
                let ghost before = self.pairs();
                proof {
                    lemma_assoc_lookup(before, i as int);
                }
                let mut entry = self.entries.remove(i);
                entry.1.add_user_msg(input);
                let body = entry.1.copy();
                let ghost key = entry.0@;
                let ghost value = entry.1@;
                self.entries.insert(i, entry);
                proof {
                    assert(self.pairs() =~= before.update(i as int, (before[i as int].0, value)));
                    lemma_assoc_update(before, i as int, value);
                }
                body
            },
            None => {
                let mut h = GptMessageToSends::default();
                h.add_system_msg(string_of("你个一个聊天机器人，不使用markdown格式"));
                h.add_user_msg(input);
                let body = h.copy();
                let ghost before = self.pairs();
                let ghost value = h@;
                self.entries.push((string_of(user), h));
                proof {
                    assert(self.pairs() =~= before.push((user@, value)));
                    lemma_assoc_push(before, user@, value);
                }
                body
            },
        }
    }

    /// Adds the model's reply to the conversation of `user`; nothing changes
    /// when the user has no conversation.
    pub fn record_reply(&mut self, user: &str, reply: String)
        requires
            old(self).wf(),
        ensures
            final(self).wf(),
            final(self)@ == (if old(self)@.contains_key(user@) {
                old(self)@.insert(user@, appended(old(self)@[user@], "assistant"@, reply@))
            } else {
                old(self)@
            }),
    {
        match self.position(user) {
            Some(i) => {
                let ghost before = self.pairs();
                proof {
                    lemma_assoc_lookup(before, i as int);
                }
                let mut entry = self.entries.remove(i);
                entry.1.add_assistant_msg(reply);
                let ghost value = entry.1@;
                self.entries.insert(i, entry);
                proof {
                    assert(self.pairs() =~= before.update(i as int, (before[i as int].0, value)));
                    lemma_assoc_update(before, i as int, value);
                }
            },
            None => {},
        }
    }

    /// The conversation of `user`, if any.
    pub fn history(&self, user: &str) -> (h: Option<GptMessageToSends>)
        requires
            self.wf(),
        ensures
            match h {
                Some(h) => self@.contains_key(user@) && h@ == self@[user@],
                None => !self@.contains_key(user@),
            },
    {
        match self.position(user) {
            Some(i) => {
                proof {
                    lemma_assoc_lookup(self.pairs(), i as int);
                }
                Some(self.entries[i].1.copy())
            },
            None => None,
        }
    }
}

/// What the reply reader takes from one JSON event of the model's stream:
/// `choices[0].delta.content` as text, whether `choices[0].finish_reason` is
/// null, `choices[0].finish_reason` as text, and `usage.total_tokens` as a
/// number.
#[derive(Debug, Clone)]
pub struct SseChunkFields {
    pub content: Option<String>,
    pub finish_reason_is_null: bool,
    pub finish_reason: Option<String>,
    pub total_tokens: Option<u64>,
}

/// The view of the fields of one event.
pub open spec fn fields_view(f: SseChunkFields) -> (Option<Seq<char>>, bool, Option<Seq<char>>, Option<u64>) {
    (
        match f.content {
            Some(c) => Some(c@),
            None => None,
        },
        f.finish_reason_is_null,
        match f.finish_reason {
            Some(r) => Some(r@),
            None => None,
        },
        f.total_tokens,
    )
}

/// The fields of a JSON event as `serde_json` reads them; `None` when the
/// text is not JSON.
pub uninterp spec fn sse_json_fields(json: Seq<char>) -> Option<(Option<Seq<char>>, bool, Option<Seq<char>>, Option<u64>)>;

/// The text that `String::from_utf8_lossy` makes of some bytes.
pub uninterp spec fn utf8_lossy(bytes: Seq<u8>) -> Seq<char>;

/// `serde_json::from_str::<Value>` of an event, and the fields that the reply
/// reader picks from the value.
#[verifier::external_body]
fn parse_sse_json(json: &str) -> (r: Option<SseChunkFields>)
    ensures
        match r {
            Some(f) => sse_json_fields(json@) == Some(fields_view(f)),
            None => sse_json_fields(json@) is None,
        },
{
    let v: serde_json::Value = serde_json::from_str(json).ok()?;
    let reason = &v["choices"][0]["finish_reason"];
    Some(SseChunkFields {
        content: v["choices"][0]["delta"]["content"].as_str().map(str::to_string),
        finish_reason_is_null: reason.is_null(),
        finish_reason: reason.as_str().map(str::to_string),
        total_tokens: v["usage"]["total_tokens"].as_u64(),
    })
}

/// `String::from_utf8_lossy`: valid UTF-8 reads as the text it encodes.
#[verifier::external_body]
fn from_utf8_lossy(bytes: &[u8]) -> (s: String)
    ensures
        s@ == utf8_lossy(bytes@),
        vstd::utf8::valid_utf8(bytes@) ==> s@ == vstd::utf8::decode_utf8(bytes@),
{
    String::from_utf8_lossy(bytes).into_owned()
}

/// The closing words of a reply: a line break and `[ finish: REASON, total token: N ]`.
pub open spec fn finish_words(reason: Seq<char>, total: u64) -> Seq<Seq<char>> {
    seq!["\n"@, "[ finish: "@ + reason + ", total token: "@ + decimal(total as nat) + " ]"@]
}

/// The words that one event gives: its content, then the closing words when
/// its finish reason is not null. `None` when the finish reason is not null
/// but is not text or the token count is missing: the reply cannot be read.
pub open spec fn event_words(f: (Option<Seq<char>>, bool, Option<Seq<char>>, Option<u64>)) -> Option<Seq<Seq<char>>> {
    let content = match f.0 {
        Some(c) => seq![c],
        None => Seq::<Seq<char>>::empty(),
    };
    if f.1 {
        Some(content)
    } else {
        match (f.2, f.3) {
            (Some(reason), Some(total)) => Some(content + finish_words(reason, total)),
            _ => None,
        }
    }
}

/// The words that one line of the stream gives. Lines that do not start with
/// `data: `, empty events, the `[DONE]` marker and events that are not JSON
/// give none.
pub open spec fn line_words(line: Seq<char>) -> Option<Seq<Seq<char>>> {
    if !has_prefix(line, "data: "@) {
        Some(Seq::empty())
    } else {
        let json = line.skip(6);
        if json.len() == 0 || json == "[DONE]"@ {
            Some(Seq::empty())
        } else {
            match sse_json_fields(json) {
                Some(f) => event_words(f),
                None => Some(Seq::empty()),
            }
        }
    }
}

/// The words of the first `n` lines, in order; `None` when one of them cannot be read.
pub open spec fn lines_words(lines: Seq<Seq<char>>, n: int) -> Option<Seq<Seq<char>>>
    decreases n,
{
    if n <= 0 {
        Some(Seq::empty())
    } else {
        match lines_words(lines, n - 1) {
            Some(w) => match line_words(lines[n - 1]) {
                Some(v) => Some(w + v),
                None => None,
            },
            None => None,
        }
    }
}

/// The words that a piece of the model's event stream gives.
pub open spec fn stream_words(text: Seq<char>) -> Option<Seq<Seq<char>>> {
    lines_words(text_lines(text), text_lines(text).len() as int)
}

/// The words of one event's fields.
pub fn words_of_event(f: &SseChunkFields) -> (r: Option<Vec<String>>)
    ensures
        match r {
            Some(w) => event_words(fields_view(*f)) == Some(views(w@)),
            None => event_words(fields_view(*f)) is None,
        },
{
    let mut words: Vec<String> = Vec::new();
    if let Some(c) = &f.content {
        words.push(copy_string(c));
    }
    if f.finish_reason_is_null {
        assert(views(words@) =~= event_words(fields_view(*f))->0);
        return Some(words);
    }
    match (&f.finish_reason, f.total_tokens) {
        (Some(reason), Some(total)) => {
            let ghost before = views(words@);
            words.push(string_of("\n"));
            let mut closing = string_of("[ finish: ");
            push_str(&mut closing, reason.as_str());
            push_str(&mut closing, ", total token: ");
            let digits = u64_to_decimal(total);
            push_str(&mut closing, digits.as_str());
            push_str(&mut closing, " ]");
            words.push(closing);
            assert(views(words@) =~= before + finish_words(reason@, total));
            Some(words)
        },
        _ => None,
    }
}

/// The words that one line of the event stream gives.
fn words_of_line(line: &Vec<char>) -> (r: Option<Vec<String>>)
    ensures
        match r {
            Some(w) => line_words(line@) == Some(views(w@)),
            None => line_words(line@) is None,
        },
{
    let prefix = chars_of("data: ");
    proof {
        reveal_strlit("data: ");
        reveal_strlit("[DONE]");
    }
    if !starts_with(line, &prefix) {
        let w: Vec<String> = Vec::new();
        assert(views(w@) =~= Seq::<Seq<char>>::empty());
        return Some(w);
    }
    let json_chars = chars_from(line, 6);
    let json = string_from_chars(json_chars.as_slice());
    if json_chars.len() == 0 || str_eq(json.as_str(), "[DONE]") {
        let w: Vec<String> = Vec::new();
        assert(views(w@) =~= Seq::<Seq<char>>::empty());
        return Some(w);
    }
    match parse_sse_json(json.as_str()) {
        Some(f) => words_of_event(&f),
        None => {
            let w: Vec<String> = Vec::new();
            assert(views(w@) =~= Seq::<Seq<char>>::empty());
            Some(w)
        },
    }
}

/// The words that a piece of the model's event stream gives, in order:
/// `None` where a finished event lacks its reason or token count (the reply
/// cannot be read then).
pub fn stream_text_words(text: &str) -> (r: Option<Vec<String>>)
    ensures
        match r {
            Some(w) => stream_words(text@) == Some(views(w@)),
            None => stream_words(text@) is None,
        },
{
    let lines = lines_of(text);
    let ghost ls = text_lines(text@);
    let mut words: Vec<String> = Vec::new();
    let mut i: usize = 0;
    while i < lines.len()
        invariant
            ls == text_lines(text@),
            lines@.map_values(|l: Vec<char>| l@) == ls,
            i <= lines@.len(),
            lines_words(ls, i as int) == Some(views(words@)),
        decreases lines@.len() - i,
    {
        assert(ls[i as int] == lines@[i as int]@);
        match words_of_line(&lines[i]) {
            Some(mut w) => {
                let ghost before = views(words@);
                let ghost add = views(w@);
                words.append(&mut w);
                assert(views(words@) =~= before + add);
            },
            None => {
                proof {
                    assert(line_words(ls[i as int]) is None);
                    assert(lines_words(ls, i as int + 1) is None);
                    lemma_lines_words_none(ls, i as int + 1, ls.len() as int);
                }
                return None;
            },
        }
        i = i + 1;
    }
    Some(words)
}

proof fn lemma_lines_words_none(lines: Seq<Seq<char>>, a: int, b: int)
    requires
        a <= b,
        lines_words(lines, a) is None,
    ensures
        lines_words(lines, b) is None,
    decreases b - a,
{
    if a < b {
        lemma_lines_words_none(lines, a, b - 1);
    }
}

/// The words that a chunk of bytes of the model's event stream gives (read as
/// UTF-8, invalid sequences replaced); `None` where the stream reader fails.
pub fn stream_chunk_words(chunk: &[u8]) -> (r: Option<Vec<String>>)
    ensures
        match r {
            Some(w) => stream_words(utf8_lossy(chunk@)) == Some(views(w@)),
            None => stream_words(utf8_lossy(chunk@)) is None,
        },
{
    let text = from_utf8_lossy(chunk);
    stream_text_words(text.as_str())
}

} // verus!
