//! Log lines shown in the side panel of the chat screen.

use vstd::prelude::*;

use crate::model::{AutoScrollableViewModel, ScrollbarModel, ViewModelFmt};
use crate::text::{push_str, views};
use crate::time::{local_offset_secs, now, rfc3339_secs, rfc3339_text, Timestamp};

verus! {

/// The severity of a log line.
#[derive(Clone, Copy, Debug, PartialEq, Eq, Structural)]
pub enum LogLevel {
    Error,
    Warn,
    Info,
    Debug,
    Trace,
}

/// The name of a level as the `log` crate writes it.
pub open spec fn level_name(l: LogLevel) -> Seq<char> {
    match l {
        LogLevel::Error => "ERROR"@,
        LogLevel::Warn => "WARN"@,
        LogLevel::Info => "INFO"@,
        LogLevel::Debug => "DEBUG"@,
        LogLevel::Trace => "TRACE"@,
    }
}

impl LogLevel {
    /// The name of the level: `ERROR`, `WARN`, `INFO`, `DEBUG` or `TRACE`.
    pub fn as_str(&self) -> (s: &'static str)
        ensures
            s@ == level_name(*self),
    {
        match self {
            LogLevel::Error => "ERROR",
            LogLevel::Warn => "WARN",
            LogLevel::Info => "INFO",
            LogLevel::Debug => "DEBUG",
            LogLevel::Trace => "TRACE",
        }
    }
}

/// The time text of a log line: its instant at the offset it was taken in,
/// empty when chrono cannot write it.
pub open spec fn log_time_text(time: Timestamp, offset_secs: i32) -> Seq<char> {
    match rfc3339_text(time.secs, offset_secs) {
        Some(t) => t,
        None => Seq::<char>::empty(),
    }
}

/// The text of a log line: `[time LEVEL] content`.
pub open spec fn log_line(time_text: Seq<char>, level: LogLevel, content: Seq<char>) -> Seq<char> {
    "["@ + time_text + " "@ + level_name(level) + "] "@ + content
}

/// One log line.
#[derive(Debug, Clone)]
pub struct Log {
    time: Timestamp,
    offset_secs: i32,
    level: LogLevel,
    content: String,
}

impl Log {
    pub closed spec fn time_view(&self) -> Timestamp {
        self.time
    }

    pub closed spec fn offset_view(&self) -> i32 {
        self.offset_secs
    }

    pub closed spec fn level_view(&self) -> LogLevel {
        self.level
    }

    pub closed spec fn content_view(&self) -> Seq<char> {
        self.content@
    }

    /// A log line taken now, in the local time zone.
    pub fn new(level: LogLevel, content: String) -> (l: Log)
        ensures
            l.level_view() == level,
            l.content_view() == content@,
    {
        Log { time: now(), offset_secs: local_offset_secs(), level, content }
    }

    /// A log line taken at `time`, seen at `offset_secs` seconds east of UTC.
    pub fn at(time: Timestamp, offset_secs: i32, level: LogLevel, content: String) -> (l: Log)
        ensures
            l.time_view() == time,
            l.offset_view() == offset_secs,
            l.level_view() == level,
            l.content_view() == content@,
    {
        Log { time, offset_secs, level, content }
    }

    pub fn level(&self) -> (l: LogLevel)
        ensures
            l == self.level_view(),
    {
        self.level
    }

    pub fn content(&self) -> (c: &str)
        ensures
            c@ == self.content_view(),
    {
        self.content.as_str()
    }

    /// The time of the line as RFC 3339 text.
    pub fn time_text(&self) -> (t: String)
        ensures
            t@ == log_time_text(self.time_view(), self.offset_view()),
    {
        match rfc3339_secs(self.time.secs, self.offset_secs) {
            Some(t) => t,
            None => String::new(),
        }
    }
}

impl ViewModelFmt for Log {
    /// One line, `[time LEVEL] content`, and no extra text.
    open spec fn shown(&self) -> (Seq<Seq<char>>, Option<Seq<char>>) {
        (seq![log_line(log_time_text(self.time_view(), self.offset_view()), self.level_view(), self.content_view())], None)
    }

    /// One line, `[time LEVEL] content`, and no extra text.
    fn formart(&self) -> (r: (Vec<String>, Option<String>))
        ensures
            views(r.0@) == seq![log_line(log_time_text(self.time_view(), self.offset_view()), self.level_view(), self.content_view())],
            r.1 is None,
    {
        let mut line = String::new();
        push_str(&mut line, "[");
        let t = self.time_text();
        push_str(&mut line, t.as_str());
        push_str(&mut line, " ");
        push_str(&mut line, self.level.as_str());
        push_str(&mut line, "] ");
        push_str(&mut line, self.content.as_str());
        let mut lines: Vec<String> = Vec::new();
        lines.push(line);
        assert(views(lines@) =~= seq![line@]);
        (lines, None)
    }
}

/// The log panel: its lines and its scroll position.
#[derive(Debug, Clone)]
pub struct LogViewModel {
    logs: Vec<Log>,
    vertical_scroll_state: ScrollbarModel,
    vertical_scroll: usize,
    vertical_scroll_at_end: bool,
}

impl Default for LogViewModel {
    fn default() -> (m: LogViewModel)
        ensures
            m.logs_view() == Seq::<Log>::empty(),
            m.scroll_pos() == 0,
            !m.at_end(),
            m.scrollbar_view() == (ScrollbarModel { content_length: 0, position: 0 }),
    {
        LogViewModel {
            logs: Vec::new(),
            vertical_scroll_state: ScrollbarModel { content_length: 0, position: 0 },
            vertical_scroll: 0,
            vertical_scroll_at_end: false,
        }
    }
}

impl LogViewModel {
    pub closed spec fn logs_view(&self) -> Seq<Log> {
        self.logs@
    }

    pub closed spec fn scrollbar_view(&self) -> ScrollbarModel {
        self.vertical_scroll_state
    }

    pub fn get_logs(&self) -> (r: &Vec<Log>)
        ensures
            r@ == self.logs_view(),
    {
        &self.logs
    }

    /// Appends a line at the end of the panel.
    pub fn add_log(&mut self, log: Log)
        ensures
            final(self).logs_view() == old(self).logs_view().push(log),
            final(self).scroll_pos() == old(self).scroll_pos(),
            final(self).at_end() == old(self).at_end(),
            final(self).scrollbar_view() == old(self).scrollbar_view(),
    {
        self.logs.push(log);
    }

    /// Records how many lines the content has, for the scroll bar.
    pub fn set_vertical_scroll_content_len(&mut self, len: usize)
        ensures
            final(self).scrollbar_view() == (ScrollbarModel { content_length: len, ..old(self).scrollbar_view() }),
            final(self).scroll_pos() == old(self).scroll_pos(),
            final(self).at_end() == old(self).at_end(),
            final(self).logs_view() == old(self).logs_view(),
    {
        self.vertical_scroll_state.content_length = len;
    }

    /// The state of the scroll bar.
    pub fn get_vertical_scroll_state(&self) -> (s: ScrollbarModel)
        ensures
            s == self.scrollbar_view(),
    {
        self.vertical_scroll_state
    }
}

impl AutoScrollableViewModel for LogViewModel {
    type Msg = Log;

    closed spec fn scroll_pos(&self) -> usize {
        self.vertical_scroll
    }

    closed spec fn scrollbar_pos(&self) -> usize {
        self.vertical_scroll_state.position
    }

    closed spec fn at_end(&self) -> bool {
        self.vertical_scroll_at_end
    }

    closed spec fn msgs(&self) -> Seq<Log> {
        self.logs@
    }

    fn get_inner_msgs(&self) -> (r: &Vec<Log>)
    {
        &self.logs
    }

    fn get_vertical_scroll(&self) -> (p: usize)
    {
        self.vertical_scroll
    }

    fn vertical_scroll_to_end(&mut self)
    {
        self.vertical_scroll_at_end = true;
    }

    fn get_vertical_scroll_at_end(&self) -> (b: bool)
    {
        self.vertical_scroll_at_end
    }

    fn reset_vertical_scroll_at_end(&mut self)
    {
        self.vertical_scroll_at_end = false;
    }

    fn vertical_scroll_to(&mut self, pos: usize)
    {
        self.vertical_scroll = pos;
        self.vertical_scroll_state.position = pos;
    }
}

} // verus!
