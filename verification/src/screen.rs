//! What the chat screen draws: the styled lines of the message list, of the
//! log panel and of the input line's title, and where the cursor stands. The
//! terminal library only paints them.

use vstd::prelude::*;
use vstd::string::StringSliceAdditionalSpecFns;
use vstd::utf8::{decode_utf8, encode_utf8, is_char_boundary};

use crate::model::input_view_model::{min_nat, InputMode, InputViewModel};
use crate::model::log_view_model::{level_name, log_time_text, Log, LogLevel, LogViewModel};
use crate::model::message_view_model::{opt_view, Message, MessageViewModel, UserType};
use crate::model::{AutoScrollableViewModel, ViewModelFmt};
use crate::text::{chars_of, copy_string, str_eq, string_from_chars, string_of, views};
use crate::view::{display_width, formatted_views, shown_all, str_width};

verus! {

/// A colour of the chat screen's text.
#[derive(Clone, Copy, Debug, PartialEq, Eq, Structural)]
pub enum TextColor {
    Red,
    Yellow,
    Green,
    Blue,
    Cyan,
    Gray,
    LightGreen,
}

/// A piece of a line: its text, its colour (the default one when `None`),
/// and whether it is bold.
#[derive(Clone, Debug, PartialEq, Eq)]
pub struct StyledSpan {
    pub text: String,
    pub color: Option<TextColor>,
    pub bold: bool,
}

/// The view of a span.
pub open spec fn span_view(s: StyledSpan) -> (Seq<char>, Option<TextColor>, bool) {
    (s.text@, s.color, s.bold)
}

/// The view of a line of spans.
pub open spec fn line_view(l: Seq<StyledSpan>) -> Seq<(Seq<char>, Option<TextColor>, bool)> {
    l.map_values(|s: StyledSpan| span_view(s))
}

/// The view of a list of lines.
pub open spec fn lines_view(v: Seq<Vec<StyledSpan>>) -> Seq<Seq<(Seq<char>, Option<TextColor>, bool)>> {
    v.map_values(|l: Vec<StyledSpan>| line_view(l@))
}

/// A span of plain text in the default colour.
fn plain(text: &str) -> (s: StyledSpan)
    ensures
        span_view(s) == (text@, None::<TextColor>, false),
{
    StyledSpan { text: string_of(text), color: None, bold: false }
}

/// A bold span of `text` in `color`.
fn bold(text: &str, color: TextColor) -> (s: StyledSpan)
    ensures
        span_view(s) == (text@, Some(color), true),
{
    StyledSpan { text: string_of(text), color: Some(color), bold: true }
}

/// Appends a span to a line.
fn push_span(line: &mut Vec<StyledSpan>, s: StyledSpan)
    ensures
        line_view(final(line)@) == line_view(old(line)@).push(span_view(s)),
{
    let ghost before = line@;
    line.push(s);
    assert(line_view(line@) =~= line_view(before).push(span_view(s)));
}

/// Appends a line to a list of lines.
fn push_line(lines: &mut Vec<Vec<StyledSpan>>, l: Vec<StyledSpan>)
    ensures
        lines_view(final(lines)@) == lines_view(old(lines)@).push(line_view(l@)),
{
    let ghost before = lines@;
    lines.push(l);
    assert(lines_view(lines@) =~= lines_view(before).push(line_view(l@)));
}

/// The characters of the first five bytes of a user id, as the screen shows
/// the writer of a message.
pub open spec fn id_prefix(id: Seq<char>) -> Seq<char> {
    decode_utf8(encode_utf8(id).subrange(0, 5))
}

/// The writer of a message can be shown: a user id's first five bytes end at
/// a character boundary (the screen cuts the id there, and panics otherwise).
pub open spec fn writer_shown(user: UserType) -> bool {
    match user {
        UserType::User(id) => is_char_boundary(encode_utf8(id@), 5),
        UserType::System => true,
    }
}

/// The span that names the writer of a message in front of its first line:
/// a user by the start of its id, in cyan for the local user `me` and in
/// yellow for others; the system as `SYSTEM` in light green.
pub open spec fn writer_span(user: UserType, me: Seq<char>) -> (Seq<char>, Option<TextColor>, bool) {
    match user {
        UserType::User(id) => (
            id_prefix(id@),
            Some(
                if id@ == me {
                    TextColor::Cyan
                } else {
                    TextColor::Yellow
                },
            ),
            false,
        ),
        UserType::System => ("SYSTEM"@, Some(TextColor::LightGreen), false),
    }
}

/// The screen lines of one message shown as `lines` and `relay`: each line in
/// gray, the first one after the writer, the last one followed by the relay
/// route in green.
pub open spec fn message_screen_lines(
    user: UserType,
    me: Seq<char>,
    lines: Seq<Seq<char>>,
    relay: Option<Seq<char>>,
) -> Seq<Seq<(Seq<char>, Option<TextColor>, bool)>> {
    Seq::new(
        lines.len(),
        |i: int|
            (if i == 0 {
                seq![writer_span(user, me)]
            } else {
                Seq::empty()
            }) + seq![(lines[i], Some(TextColor::Gray), false)] + (if i == lines.len() - 1 && relay is Some {
                seq![(relay->0, Some(TextColor::Green), false)]
            } else {
                Seq::empty()
            }),
    )
}

/// The span that names the writer of a message.
fn writer_of(user: &UserType, me: &str) -> (s: StyledSpan)
    requires
        writer_shown(*user),
    ensures
        span_view(s) == writer_span(*user, me@),
{
    match user {
        UserType::User(id) => {
            let (head, _) = id.as_str().split_at(5);
            let text = string_of(head);
            proof {
                vstd::utf8::encode_utf8_decode_utf8(head@);
                assert(head.spec_bytes() == encode_utf8(head@));
            }
            let color = if str_eq(id.as_str(), me) {
                TextColor::Cyan
            } else {
                TextColor::Yellow
            };
            StyledSpan { text, color: Some(color), bold: false }
        },
        UserType::System => {
            proof {
                reveal_strlit("SYSTEM");
            }
            plain_colored("SYSTEM", TextColor::LightGreen)
        },
    }
}

/// A span of `text` in `color`, not bold.
fn plain_colored(text: &str, color: TextColor) -> (s: StyledSpan)
    ensures
        span_view(s) == (text@, Some(color), false),
{
    StyledSpan { text: string_of(text), color: Some(color), bold: false }
}

/// The screen lines of one message written by `user` and shown as
/// `formatted`, for the local user `me`.
pub fn message_screen(me: &str, user: &UserType, formatted: &(Vec<String>, Option<String>)) -> (lines: Vec<Vec<StyledSpan>>)
    requires
        writer_shown(*user),
        formatted.0@.len() >= 1,
    ensures
        lines_view(lines@) == message_screen_lines(*user, me@, views(formatted.0@), opt_view(formatted.1)),
{
    let ghost target = message_screen_lines(*user, me@, views(formatted.0@), opt_view(formatted.1));
    let n = formatted.0.len();
    let mut lines: Vec<Vec<StyledSpan>> = Vec::new();
    let mut i: usize = 0;
    while i < n
        invariant
            n == formatted.0@.len(),
            n >= 1,
            i <= n,
            writer_shown(*user),
            target == message_screen_lines(*user, me@, views(formatted.0@), opt_view(formatted.1)),
            lines_view(lines@) == target.take(i as int),
        decreases n - i,
    {
        let mut line: Vec<StyledSpan> = Vec::new();
        if i == 0 {
            let w = writer_of(user, me);
            push_span(&mut line, w);
        }
        push_span(&mut line, StyledSpan { text: copy_string(&formatted.0[i]), color: Some(TextColor::Gray), bold: false });
        if i == n - 1 {
            match &formatted.1 {
                Some(relay) => {
                    push_span(&mut line, StyledSpan { text: copy_string(relay), color: Some(TextColor::Green), bold: false });
                },
                None => {},
            }
        }
        assert(line_view(line@) =~= target[i as int]);
        push_line(&mut lines, line);
        assert(lines_view(lines@) =~= target.take(i + 1));
        i = i + 1;
    }
    assert(target.take(n as int) =~= target);
    lines
}

/// The screen lines of the first `n` messages, shown as `f`.
pub open spec fn all_screen_lines(
    me: Seq<char>,
    msgs: Seq<Message>,
    f: Seq<(Seq<Seq<char>>, Option<Seq<char>>)>,
    n: int,
) -> Seq<Seq<(Seq<char>, Option<TextColor>, bool)>>
    decreases n,
{
    if n <= 0 {
        Seq::empty()
    } else {
        all_screen_lines(me, msgs, f, n - 1) + message_screen_lines(msgs[n - 1].user_view(), me, f[n - 1].0, f[n - 1].1)
    }
}

/// The screen lines of the message list: each message's lines in order, each
/// message as its `formart` shows it. Every writer must be one that can be
/// shown.
pub fn message_list_screen(vm: &MessageViewModel) -> (lines: Vec<Vec<StyledSpan>>)
    requires
        forall|i: int| 0 <= i < vm.msgs().len() ==> writer_shown(#[trigger] vm.msgs()[i].user_view()),
    ensures
        lines_view(lines@) == all_screen_lines(vm.myself_view(), vm.msgs(), shown_all(vm.msgs()), vm.msgs().len() as int),
{
    let msgs = vm.get_inner_msgs();
    let me = vm.get_myself_id();
    let mut formatted: Vec<(Vec<String>, Option<String>)> = Vec::new();
    let mut lines: Vec<Vec<StyledSpan>> = Vec::new();
    let mut i: usize = 0;
    while i < msgs.len()
        invariant
            msgs@ == vm.msgs(),
            me@ == vm.myself_view(),
            i <= msgs@.len(),
            formatted@.len() == i,
            forall|j: int| 0 <= j < msgs@.len() ==> writer_shown(#[trigger] msgs@[j].user_view()),
            formatted_views(formatted@) == shown_all(msgs@).take(i as int),
            lines_view(lines@) == all_screen_lines(me@, msgs@, formatted_views(formatted@), i as int),
        decreases msgs@.len() - i,
    {
        let m = msgs[i].formart();
        let user = msgs[i].get_user();
        assert(writer_shown(msgs@[i as int].user_view()));
        let mut more = message_screen(me, user, &m);
        let ghost before_f = formatted_views(formatted@);
        let ghost before_l = lines_view(lines@);
        let ghost added = lines_view(more@);
        lines.append(&mut more);
        formatted.push(m);
        proof {
            let fv = formatted_views(formatted@);
            assert(fv =~= before_f.push((views(m.0@), opt_view(m.1))));
            assert(fv =~= shown_all(msgs@).take(i + 1));
            assert forall|k: int| 0 <= k <= i implies all_screen_lines(me@, msgs@, fv, k) == all_screen_lines(
                me@,
                msgs@,
                before_f,
                k,
            ) by {
                lemma_screen_lines_prefix(me@, msgs@, fv, before_f, k);
            }
            assert(lines_view(lines@) =~= before_l + added);
        }
        i = i + 1;
    }
    proof {
        let f = formatted_views(formatted@);
        assert(f =~= shown_all(msgs@).take(msgs@.len() as int));
        lemma_screen_lines_prefix(me@, msgs@, shown_all(msgs@), f, msgs@.len() as int);
    }
    lines
}

/// The screen lines of the first `k` messages only read what the first `k`
/// formatted messages say.
proof fn lemma_screen_lines_prefix(
    me: Seq<char>,
    msgs: Seq<Message>,
    f: Seq<(Seq<Seq<char>>, Option<Seq<char>>)>,
    g: Seq<(Seq<Seq<char>>, Option<Seq<char>>)>,
    k: int,
)
    requires
        0 <= k <= g.len(),
        g.len() <= f.len(),
        forall|j: int| 0 <= j < g.len() ==> f[j] == g[j],
    ensures
        all_screen_lines(me, msgs, f, k) == all_screen_lines(me, msgs, g, k),
    decreases k,
{
    if k > 0 {
        lemma_screen_lines_prefix(me, msgs, f, g, k - 1);
    }
}

/// The colour of a log level on screen.
pub open spec fn level_color(l: LogLevel) -> TextColor {
    match l {
        LogLevel::Error => TextColor::Red,
        LogLevel::Warn => TextColor::Yellow,
        LogLevel::Info => TextColor::Green,
        LogLevel::Debug => TextColor::Blue,
        LogLevel::Trace => TextColor::Cyan,
    }
}

/// The screen line of a log entry: `[time LEVEL] content`, the level bold in
/// its colour.
pub open spec fn log_spans(l: Log) -> Seq<(Seq<char>, Option<TextColor>, bool)> {
    seq![
        ("["@, None, false),
        (log_time_text(l.time_view(), l.offset_view()), None, false),
        (" "@, None, false),
        (level_name(l.level_view()), Some(level_color(l.level_view())), true),
        ("]"@, None, false),
        (" "@, None, false),
        (l.content_view(), None, false),
    ]
}

/// The screen line of a log entry.
pub fn log_screen_line(l: &Log) -> (line: Vec<StyledSpan>)
    ensures
        line_view(line@) == log_spans(*l),
{
    let mut line: Vec<StyledSpan> = Vec::new();
    push_span(&mut line, plain("["));
    push_span(&mut line, StyledSpan { text: l.time_text(), color: None, bold: false });
    push_span(&mut line, plain(" "));
    let level = l.level();
    let color = match level {
        LogLevel::Error => TextColor::Red,
        LogLevel::Warn => TextColor::Yellow,
        LogLevel::Info => TextColor::Green,
        LogLevel::Debug => TextColor::Blue,
        LogLevel::Trace => TextColor::Cyan,
    };
    push_span(&mut line, bold(level.as_str(), color));
    push_span(&mut line, plain("]"));
    push_span(&mut line, plain(" "));
    push_span(&mut line, plain(l.content()));
    assert(line_view(line@) =~= log_spans(*l));
    line
}

/// The screen lines of the log panel: one line per entry, in order.
pub fn log_list_screen(vm: &LogViewModel) -> (lines: Vec<Vec<StyledSpan>>)
    ensures
        lines_view(lines@) == vm.msgs().map_values(|l: Log| log_spans(l)),
{
    let logs = vm.get_inner_msgs();
    let mut lines: Vec<Vec<StyledSpan>> = Vec::new();
    let mut i: usize = 0;
    while i < logs.len()
        invariant
            logs@ == vm.msgs(),
            i <= logs@.len(),
            lines_view(lines@) == logs@.take(i as int).map_values(|l: Log| log_spans(l)),
        decreases logs@.len() - i,
    {
        let line = log_screen_line(&logs[i]);
        push_line(&mut lines, line);
        assert(lines_view(lines@) =~= logs@.take(i + 1).map_values(|l: Log| log_spans(l)));
        i = i + 1;
    }
    assert(logs@.take(logs@.len() as int) =~= logs@);
    lines
}

/// The title of the input line: how to leave or start editing in normal
/// mode, how to stop editing or send in editing mode.
pub open spec fn help_spans(mode: InputMode) -> Seq<(Seq<char>, Option<TextColor>, bool)> {
    match mode {
        InputMode::Normal => seq![
            ("Press "@, None, false),
            ("q"@, Some(TextColor::Red), true),
            (" to exit, "@, None, false),
            ("e"@, Some(TextColor::Green), true),
            (" to start editing."@, None, false),
        ],
        InputMode::Editing => seq![
            ("Press "@, None, false),
            ("Esc"@, Some(TextColor::Red), true),
            (" to stop editing, "@, None, false),
            ("Enter"@, Some(TextColor::Green), true),
            (" to send the message"@, None, false),
        ],
    }
}

/// The title of the input line in `mode`.
pub fn input_help(mode: InputMode) -> (line: Vec<StyledSpan>)
    ensures
        line_view(line@) == help_spans(mode),
{
    let mut line: Vec<StyledSpan> = Vec::new();
    match mode {
        InputMode::Normal => {
            push_span(&mut line, plain("Press "));
            push_span(&mut line, bold("q", TextColor::Red));
            push_span(&mut line, plain(" to exit, "));
            push_span(&mut line, bold("e", TextColor::Green));
            push_span(&mut line, plain(" to start editing."));
        },
        InputMode::Editing => {
            push_span(&mut line, plain("Press "));
            push_span(&mut line, bold("Esc", TextColor::Red));
            push_span(&mut line, plain(" to stop editing, "));
            push_span(&mut line, bold("Enter", TextColor::Green));
            push_span(&mut line, plain(" to send the message"));
        },
    }
    assert(line_view(line@) =~= help_spans(mode));
    line
}

/// The colour of the input text: gray in normal mode, blue while editing.
pub fn input_color(mode: InputMode) -> (c: TextColor)
    ensures
        c == (match mode {
            InputMode::Normal => TextColor::Gray,
            InputMode::Editing => TextColor::Blue,
        }),
{
    match mode {
        InputMode::Normal => TextColor::Gray,
        InputMode::Editing => TextColor::Blue,
    }
}

/// The columns taken by the text left of the cursor: the cursor stands that
/// far right of the input box's inner edge.
pub fn cursor_width(vm: &InputViewModel) -> (w: usize)
    ensures
        w == display_width(vm.input@.take(min_nat(vm.character_index as nat, vm.input@.len()) as int)),
{
    let chars = chars_of(vm.input.as_str());
    let k = if vm.character_index <= chars.len() {
        vm.character_index
    } else {
        chars.len()
    };
    let mut head: Vec<char> = Vec::new();
    let mut i: usize = 0;
    while i < k
        invariant
            k <= chars@.len(),
            chars@ == vm.input@,
            i <= k,
            head@ == chars@.take(i as int),
        decreases k - i,
    {
        head.push(chars[i]);
        assert(chars@.take(i as int).push(chars@[i as int]) =~= chars@.take(i + 1));
        i = i + 1;
    }
    let text = string_from_chars(head.as_slice());
    str_width(text.as_str())
}

} // verus!
