//! Chat messages as the screen shows them, and the scrollable list of them.

use vstd::prelude::*;

use crate::model::{AutoScrollableViewModel, ScrollbarModel, ViewModelFmt};
use crate::text::{join_strings, join_with, lemma_split_newline_nonempty, push_str, split_newline, split_on_newline, views};
use crate::time::{rfc3339_secs, rfc3339_text, Timestamp};

verus! {

/// Who wrote a message: a user (by id) or the system.
#[derive(Clone, Debug)]
pub enum UserType {
    User(String),
    System,
}

/// The view of an optional string.
pub open spec fn opt_view(o: Option<String>) -> Option<Seq<char>> {
    match o {
        Some(s) => Some(s@),
        None => None,
    }
}

/// The view of an optional list of strings.
pub open spec fn opt_views(o: Option<Vec<String>>) -> Option<Seq<Seq<char>>> {
    match o {
        Some(v) => Some(views(v@)),
        None => None,
    }
}

/// The lines that show a message: the content split at newlines, the first
/// line preceded by the time in brackets.
pub open spec fn message_lines(content: Seq<char>, time_text: Seq<char>) -> Seq<Seq<char>> {
    let pieces = split_newline(content);
    Seq::new(
        pieces.len(),
        |i: int|
            if i == 0 {
                "("@ + time_text + "): "@ + pieces[0]
            } else {
                pieces[i]
            },
    )
}

/// The relay route as shown after a message: ` [a -> b -> c]`.
pub open spec fn relay_text(route: Option<Seq<Seq<char>>>) -> Option<Seq<char>> {
    match route {
        Some(r) => Some(" ["@ + join_with(r, " -> "@) + "]"@),
        None => None,
    }
}

/// The scroll position one line further down: it wraps to zero at the
/// largest position, as an atomic counter does.
pub open spec fn scrolled_down(p: usize) -> usize {
    if p == usize::MAX {
        0
    } else {
        (p + 1) as usize
    }
}

/// The scroll position one line further up, stopping at the top.
pub open spec fn scrolled_up(p: usize) -> usize {
    if p <= 1 {
        0
    } else {
        (p - 1) as usize
    }
}

/// The time text of a message: its instant at the offset it is shown at,
/// empty when chrono cannot write it.
pub open spec fn message_time_text(time: Timestamp, offset_secs: i32) -> Seq<char> {
    match rfc3339_text(time.secs, offset_secs) {
        Some(t) => t,
        None => Seq::<char>::empty(),
    }
}

/// A chat message, with the offset east of UTC at which its time is shown.
#[derive(Clone, Debug)]
pub struct Message {
    time: Timestamp,
    offset_secs: i32,
    content: String,
    user: UserType,
    relay_route: Option<Vec<String>>,
}

impl Message {
    pub closed spec fn time_view(&self) -> Timestamp {
        self.time
    }

    pub closed spec fn offset_view(&self) -> i32 {
        self.offset_secs
    }

    pub closed spec fn content_view(&self) -> Seq<char> {
        self.content@
    }

    pub closed spec fn user_view(&self) -> UserType {
        self.user
    }

    pub closed spec fn route_view(&self) -> Option<Seq<Seq<char>>> {
        opt_views(self.relay_route)
    }

    /// A message written at `time`, shown at `offset_secs` seconds east of
    /// UTC: the one local offset of the screen that shows it.
    pub fn new(time: Timestamp, offset_secs: i32, content: String, user: UserType, relay_route: Option<Vec<String>>) -> (m: Message)
        ensures
            m.time_view() == time,
            m.offset_view() == offset_secs,
            m.content_view() == content@,
            m.user_view() == user,
            m.route_view() == opt_views(relay_route),
    {
        Message { time, offset_secs, content, user, relay_route }
    }

    pub fn get_time(&self) -> (t: Timestamp)
        ensures
            t == self.time_view(),
    {
        self.time
    }

    pub fn get_relay_route(&self) -> (r: &Option<Vec<String>>)
        ensures
            opt_views(*r) == self.route_view(),
    {
        &self.relay_route
    }

    /// Replaces the relay route, but only with a route that has at least one hop.
    pub fn set_relay_route(&mut self, relay_route: Option<Vec<String>>)
        ensures
            final(self).route_view() == (if relay_route matches Some(r) && r@.len() > 0 {
                opt_views(relay_route)
            } else {
                old(self).route_view()
            }),
            final(self).time_view() == old(self).time_view(),
            final(self).offset_view() == old(self).offset_view(),
            final(self).content_view() == old(self).content_view(),
            final(self).user_view() == old(self).user_view(),
    {
        if let Some(relay_route) = relay_route {
            if relay_route.len() > 0 {
                self.relay_route = Some(relay_route);
            }
        }
    }

    pub fn get_user(&self) -> (u: &UserType)
        ensures
            *u == self.user_view(),
    {
        &self.user
    }

    pub fn get_content(&self) -> (c: &str)
        ensures
            c@ == self.content_view(),
    {
        self.content.as_str()
    }

    /// The lines of the message with the time shown as `time_text`, and the
    /// relay route text if there is a route.
    pub fn formart_with_time(&self, time_text: &str) -> (r: (Vec<String>, Option<String>))
        ensures
            views(r.0@) == message_lines(self.content_view(), time_text@),
            opt_view(r.1) == relay_text(self.route_view()),
            r.0@.len() >= 1,
    {
        let relay_route_msg = match &self.relay_route {
            Some(route) => {
                let mut s = String::new();
                push_str(&mut s, " [");
                let joined = join_strings(route, " -> ");
                push_str(&mut s, joined.as_str());
                push_str(&mut s, "]");
                Some(s)
            },
            None => None,
        };
        let pieces = split_on_newline(self.content.as_str());
        proof {
            lemma_split_newline_nonempty(self.content@);
        }
        let mut contents: Vec<String> = Vec::new();
        let mut i: usize = 0;
        while i < pieces.len()
            invariant
                i <= pieces@.len(),
                views(pieces@) == split_newline(self.content@),
                pieces@.len() >= 1,
                views(contents@) == message_lines(self.content@, time_text@).take(i as int),
            decreases pieces@.len() - i,
        {
            let ghost before = contents@;
            if i == 0 {
                let mut line = String::new();
                push_str(&mut line, "(");
                push_str(&mut line, time_text);
                push_str(&mut line, "): ");
                push_str(&mut line, pieces[0].as_str());
                contents.push(line);
            } else {
                contents.push(pieces[i].clone());
            }
            proof {
                assert(views(contents@) =~= views(before).push(contents@[i as int]@));
                assert(views(contents@) =~= message_lines(self.content@, time_text@).take(i + 1));
            }
            i = i + 1;
        }
        assert(message_lines(self.content@, time_text@).take(pieces@.len() as int) =~= message_lines(self.content@, time_text@));
        (contents, relay_route_msg)
    }
}

impl ViewModelFmt for Message {
    /// The content split at newlines, the first line preceded by the time of
    /// the message at its offset, and the relay route after the last line.
    open spec fn shown(&self) -> (Seq<Seq<char>>, Option<Seq<char>>) {
        (
            message_lines(self.content_view(), message_time_text(self.time_view(), self.offset_view())),
            relay_text(self.route_view()),
        )
    }

    /// The lines of the message, the time shown at the message's offset.
    fn formart(&self) -> (r: (Vec<String>, Option<String>))
        ensures
            views(r.0@) == message_lines(self.content_view(), message_time_text(self.time_view(), self.offset_view())),
            opt_view(r.1) == relay_text(self.route_view()),
    {
        let time_text = match rfc3339_secs(self.time.secs, self.offset_secs) {
            Some(t) => t,
            None => String::new(),
        };
        self.formart_with_time(time_text.as_str())
    }
}

/// The message list of the chat screen with its scroll position.
#[derive(Clone, Debug)]
pub struct MessageViewModel {
    myself_id: String,
    messages: Vec<Message>,
    vertical_scroll_state: ScrollbarModel,
    vertical_scroll: usize,
    vertical_scroll_at_end: bool,
}

impl MessageViewModel {
    pub closed spec fn myself_view(&self) -> Seq<char> {
        self.myself_id@
    }

    pub closed spec fn messages_view(&self) -> Seq<Message> {
        self.messages@
    }

    pub closed spec fn scrollbar_view(&self) -> ScrollbarModel {
        self.vertical_scroll_state
    }

    /// An empty list of user `myself_id`, scrolled to the top.
    pub fn new(myself_id: String) -> (m: MessageViewModel)
        ensures
            m.myself_view() == myself_id@,
            m.messages_view() == Seq::<Message>::empty(),
            m.scroll_pos() == 0,
            !m.at_end(),
            m.scrollbar_view() == (ScrollbarModel { content_length: 0, position: 0 }),
    {
        MessageViewModel {
            myself_id,
            messages: Vec::new(),
            vertical_scroll_state: ScrollbarModel { content_length: 0, position: 0 },
            vertical_scroll: 0,
            vertical_scroll_at_end: false,
        }
    }

    pub fn get_myself_id(&self) -> (r: &str)
        ensures
            r@ == self.myself_view(),
    {
        self.myself_id.as_str()
    }

    /// Appends a message at the end of the list.
    pub fn add_msg(&mut self, msg: Message)
        ensures
            final(self).messages_view() == old(self).messages_view().push(msg),
            final(self).scroll_pos() == old(self).scroll_pos(),
            final(self).at_end() == old(self).at_end(),
            final(self).scrollbar_view() == old(self).scrollbar_view(),
            final(self).myself_view() == old(self).myself_view(),
    {
        self.messages.push(msg);
    }

    /// Scrolls one line down (wrapping at the largest position, as an atomic
    /// counter does) and stops following the end of the list.
    pub fn vertical_scroll_down(&mut self)
        ensures
            final(self).scroll_pos() == scrolled_down(old(self).scroll_pos()),
            final(self).scrollbar_view().position == final(self).scroll_pos(),
            final(self).scrollbar_view().content_length == old(self).scrollbar_view().content_length,
            !final(self).at_end(),
            final(self).messages_view() == old(self).messages_view(),
            final(self).myself_view() == old(self).myself_view(),
    {
        self.vertical_scroll = self.vertical_scroll.wrapping_add(1);
        self.vertical_scroll_state.position = self.vertical_scroll;
        self.vertical_scroll_at_end = false;
    }

    /// Scrolls one line up, stopping at the top, and stops following the end
    /// of the list.
    pub fn vertical_scroll_up(&mut self)
        ensures
            final(self).scroll_pos() == scrolled_up(old(self).scroll_pos()),
            final(self).scrollbar_view().position == final(self).scroll_pos(),
            final(self).scrollbar_view().content_length == old(self).scrollbar_view().content_length,
            !final(self).at_end(),
            final(self).messages_view() == old(self).messages_view(),
            final(self).myself_view() == old(self).myself_view(),
    {
        if self.vertical_scroll <= 1 {
            self.vertical_scroll = 0;
        } else {
            self.vertical_scroll = self.vertical_scroll - 1;
        }
        self.vertical_scroll_state.position = self.vertical_scroll;
        self.vertical_scroll_at_end = false;
    }

    /// Records how many lines the content has, for the scroll bar.
    pub fn set_vertical_scroll_content_len(&mut self, len: usize)
        ensures
            final(self).scrollbar_view() == (ScrollbarModel { content_length: len, ..old(self).scrollbar_view() }),
            final(self).scroll_pos() == old(self).scroll_pos(),
            final(self).at_end() == old(self).at_end(),
            final(self).messages_view() == old(self).messages_view(),
            final(self).myself_view() == old(self).myself_view(),
    {
        self.vertical_scroll_state.content_length = len;
    }

    /// The state of the scroll bar.
    pub fn get_vertical_scroll_state(&self) -> (s: ScrollbarModel)
        ensures
            s == self.scrollbar_view(),
    {
        self.vertical_scroll_state
    }
}

impl AutoScrollableViewModel for MessageViewModel {
    type Msg = Message;

    closed spec fn scroll_pos(&self) -> usize {
        self.vertical_scroll
    }

    closed spec fn scrollbar_pos(&self) -> usize {
        self.vertical_scroll_state.position
    }

    closed spec fn at_end(&self) -> bool {
        self.vertical_scroll_at_end
    }

    closed spec fn msgs(&self) -> Seq<Message> {
        self.messages@
    }

    fn get_inner_msgs(&self) -> (r: &Vec<Message>)
    {
        &self.messages
    }

    fn get_vertical_scroll(&self) -> (p: usize)
    {
        self.vertical_scroll
    }

    fn vertical_scroll_to_end(&mut self)
    {
        self.vertical_scroll_at_end = true;
    }

    fn get_vertical_scroll_at_end(&self) -> (b: bool)
    {
        self.vertical_scroll_at_end
    }

    fn reset_vertical_scroll_at_end(&mut self)
    {
        self.vertical_scroll_at_end = false;
    }

    fn vertical_scroll_to(&mut self, pos: usize)
    {
        self.vertical_scroll = pos;
        self.vertical_scroll_state.position = pos;
    }
}

/// Scrolling down one line and then up one line comes back to the same
/// position, unless the position was at its maximum.
pub proof fn law_scroll_down_then_up(p: usize)
    requires
        p < usize::MAX,
    ensures
        scrolled_up(scrolled_down(p)) == p,
{
}

} // verus!
