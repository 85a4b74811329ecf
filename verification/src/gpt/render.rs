//! Terminal rendering of the model's Markdown replies: which node kinds are
//! drawn, indentation, list numbering and text spacing. The drawing itself
//! (colours, printing) is done by the program around this library.

use vstd::prelude::*;

use crate::model::message_view_model::opt_view;
use crate::text::{char_is_whitespace, is_white_space, chars_of, copy_string, decimal, join_strings, join_with, push_char, push_str, string_from_chars, string_of, u64_to_decimal, views};

verus! {

/// The Markdown node kinds that are drawn.
#[derive(Clone, Copy, Debug, PartialEq, Eq, Structural)]
pub enum NodeKind {
    Root,
    Heading,
    Paragraph,
    Text,
    List,
    ListItem,
    Strong,
    Unsupported,
}

/// The kind of a node by its `type` field (`None` when it has none).
pub open spec fn node_kind(node_type: Option<Seq<char>>) -> NodeKind {
    match node_type {
        Some(t) => if t == "root"@ {
            NodeKind::Root
        } else if t == "heading"@ {
            NodeKind::Heading
        } else if t == "paragraph"@ {
            NodeKind::Paragraph
        } else if t == "text"@ {
            NodeKind::Text
        } else if t == "list"@ {
            NodeKind::List
        } else if t == "listItem"@ {
            NodeKind::ListItem
        } else if t == "strong"@ {
            NodeKind::Strong
        } else {
            NodeKind::Unsupported
        },
        None => NodeKind::Unsupported,
    }
}

impl NodeKind {
    /// The kind of a node by its `type` field.
    pub fn of(node_type: Option<&str>) -> (k: NodeKind)
        ensures
            k == node_kind(match node_type {
                Some(t) => Some(t@),
                None => None,
            }),
    {
        match node_type {
            None => NodeKind::Unsupported,
            Some(t) => if crate::text::str_eq(t, "root") {
                NodeKind::Root
            } else if crate::text::str_eq(t, "heading") {
                NodeKind::Heading
            } else if crate::text::str_eq(t, "paragraph") {
                NodeKind::Paragraph
            } else if crate::text::str_eq(t, "text") {
                NodeKind::Text
            } else if crate::text::str_eq(t, "list") {
                NodeKind::List
            } else if crate::text::str_eq(t, "listItem") {
                NodeKind::ListItem
            } else if crate::text::str_eq(t, "strong") {
                NodeKind::Strong
            } else {
                NodeKind::Unsupported
            },
        }
    }
}

/// `level` times two spaces.
pub open spec fn indent_text(level: nat) -> Seq<char> {
    Seq::new(2 * level, |i: int| ' ')
}

/// Two spaces per indentation level.
pub fn get_indent(level: usize) -> (s: String)
    ensures
        s@ == indent_text(level as nat),
{
    let mut s = String::new();
    let mut i: usize = 0;
    while i < level
        invariant
            i <= level,
            s@ == indent_text(i as nat),
        decreases level - i,
    {
        push_char(&mut s, ' ');
        push_char(&mut s, ' ');
        assert(s@ =~= indent_text((i + 1) as nat));
        i = i + 1;
    }
    s
}

/// The colour of a list marker or a check box.
#[derive(Clone, Copy, Debug, PartialEq, Eq, Structural)]
pub enum MarkColor {
    Cyan,
    Yellow,
    Green,
    Red,
}

/// A number right-aligned in two columns (`{:2}`).
pub open spec fn pad2(digits: Seq<char>) -> Seq<char> {
    if digits.len() < 2 {
        seq![' '] + digits
    } else {
        digits
    }
}

/// The marker of a list item: its number (two columns, then `. `) in yellow
/// in an ordered list, a bullet in cyan otherwise.
pub open spec fn item_marker(index: nat, ordered: bool) -> (Seq<char>, MarkColor) {
    if ordered {
        (pad2(decimal(index)) + ". "@, MarkColor::Yellow)
    } else {
        ("\u{2022} "@, MarkColor::Cyan)
    }
}

/// The check box of a task list item, and its colour.
pub open spec fn checkbox(checked: bool) -> (Seq<char>, MarkColor) {
    if checked {
        ("\u{f046}  "@, MarkColor::Green)
    } else {
        ("\u{f096}  "@, MarkColor::Red)
    }
}

/// The check box of a task list item, and its colour.
pub fn checkbox_mark(checked: bool) -> (r: (String, MarkColor))
    ensures
        (r.0@, r.1) == checkbox(checked),
{
    if checked {
        (string_of("\u{f046}  "), MarkColor::Green)
    } else {
        (string_of("\u{f096}  "), MarkColor::Red)
    }
}

/// Where the renderer is within nested lists: for each open list the number
/// of items seen so far and whether it is ordered, and how deep item content
/// is indented.
#[derive(Clone, Debug, Default)]
pub struct RenderState {
    list_stack: Vec<usize>,
    ordered_list_stack: Vec<bool>,
    content_indent_level: usize,
}

impl View for RenderState {
    type V = (Seq<usize>, Seq<bool>, usize);

    open spec fn view(&self) -> (Seq<usize>, Seq<bool>, usize) {
        (self.counts(), self.ordered(), self.level())
    }
}

impl RenderState {
    pub closed spec fn counts(&self) -> Seq<usize> {
        self.list_stack@
    }

    pub closed spec fn ordered(&self) -> Seq<bool> {
        self.ordered_list_stack@
    }

    pub closed spec fn level(&self) -> usize {
        self.content_indent_level
    }

    /// Outside any list, without indentation.
    pub fn new() -> (r: RenderState)
        ensures
            r.counts() == Seq::<usize>::empty(),
            r.ordered() == Seq::<bool>::empty(),
            r.level() == 0,
    {
        RenderState { list_stack: Vec::new(), ordered_list_stack: Vec::new(), content_indent_level: 0 }
    }

    /// The indentation of the current content.
    pub fn indent(&self) -> (s: String)
        ensures
            s@ == indent_text(self.level() as nat),
    {
        get_indent(self.content_indent_level)
    }

    /// What goes before a paragraph: the indentation, unless the paragraph is
    /// inside a list item (whose marker already stands before it).
    pub fn paragraph_prefix(&self) -> (s: String)
        ensures
            s@ == (if self.counts().len() == 0 {
                indent_text(self.level() as nat)
            } else {
                Seq::<char>::empty()
            }),
    {
        if self.list_stack.len() == 0 {
            self.indent()
        } else {
            String::new()
        }
    }

    /// Enters a list.
    pub fn begin_list(&mut self, ordered: bool)
        ensures
            final(self).counts() == old(self).counts().push(0),
            final(self).ordered() == old(self).ordered().push(ordered),
            final(self).level() == old(self).level(),
    {
        self.list_stack.push(0);
        self.ordered_list_stack.push(ordered);
    }

    /// Leaves the innermost list.
    pub fn end_list(&mut self)
        ensures
            final(self).counts() == (if old(self).counts().len() > 0 {
                old(self).counts().drop_last()
            } else {
                old(self).counts()
            }),
            final(self).ordered() == (if old(self).ordered().len() > 0 {
                old(self).ordered().drop_last()
            } else {
                old(self).ordered()
            }),
            final(self).level() == old(self).level(),
    {
        self.list_stack.pop();
        self.ordered_list_stack.pop();
    }

    /// Counts one more item in the innermost list and gives the item's marker
    /// and its colour. Outside any list the marker is a bullet.
    pub fn list_item_marker(&mut self) -> (r: (String, MarkColor))
        requires
            old(self).counts().len() > 0 ==> old(self).counts().last() < usize::MAX,
        ensures
            final(self).level() == old(self).level(),
            final(self).ordered() == old(self).ordered(),
            old(self).counts().len() == 0 ==> final(self).counts() == old(self).counts() && (r.0@, r.1) == item_marker(0, false),
            old(self).counts().len() > 0 ==> {
                let n = old(self).counts().len() - 1;
                let index = (old(self).counts()[n] + 1) as usize;
                &&& final(self).counts() == old(self).counts().update(n, index)
                &&& (r.0@, r.1) == item_marker(
                    index as nat,
                    old(self).ordered().len() > 0 && old(self).ordered().last(),
                )
            },
    {
        proof {
            reveal_strlit("\u{2022} ");
            reveal_strlit(". ");
        }
        let n = self.list_stack.len();
        if n == 0 {
            return (string_of("\u{2022} "), MarkColor::Cyan);
        }
        let index = self.list_stack[n - 1] + 1;
        self.list_stack.set(n - 1, index);
        let m = self.ordered_list_stack.len();
        let ordered = m > 0 && self.ordered_list_stack[m - 1];
        if ordered {
            let digits = u64_to_decimal(index as u64);
            let mut s = String::new();
            if index < 10 {
                push_char(&mut s, ' ');
            }
            push_str(&mut s, digits.as_str());
            push_str(&mut s, ". ");
            proof {
                lemma_decimal_one_digit(index as nat);
            }
            (s, MarkColor::Yellow)
        } else {
            (string_of("\u{2022} "), MarkColor::Cyan)
        }
    }

    /// Indents the content of a list item one level deeper.
    pub fn begin_item_content(&mut self)
        requires
            old(self).level() < usize::MAX,
        ensures
            final(self).level() == old(self).level() + 1,
            final(self).counts() == old(self).counts(),
            final(self).ordered() == old(self).ordered(),
    {
        self.content_indent_level = self.content_indent_level + 1;
    }

    /// Ends the content of a list item: one level less indentation.
    pub fn end_item_content(&mut self)
        requires
            old(self).level() > 0,
        ensures
            final(self).level() == old(self).level() - 1,
            final(self).counts() == old(self).counts(),
            final(self).ordered() == old(self).ordered(),
    {
        self.content_indent_level = self.content_indent_level - 1;
    }
}

/// The decimal text of a number has one character exactly when the number is
/// below ten, and only ASCII digits, so its byte length is its length.
proof fn lemma_decimal_one_digit(n: nat)
    ensures
        (decimal(n).len() < 2) == (n < 10),
        decimal(n).len() >= 1,
    decreases n,
{
    if n >= 10 {
        lemma_decimal_one_digit(n / 10);
    }
}

/// The words found so far in a text and the word being read at its end.
pub open spec fn words_state(s: Seq<char>) -> (Seq<Seq<char>>, Seq<char>)
    decreases s.len(),
{
    if s.len() == 0 {
        (Seq::empty(), Seq::empty())
    } else {
        let (ws, cur) = words_state(s.drop_last());
        let c = s.last();
        if is_white_space(c) {
            if cur.len() > 0 {
                (ws.push(cur), Seq::empty())
            } else {
                (ws, Seq::empty())
            }
        } else {
            (ws, cur.push(c))
        }
    }
}

/// The words of a text: its runs of characters that are not white space
/// (`str::split_whitespace`).
pub open spec fn words(s: Seq<char>) -> Seq<Seq<char>> {
    let (ws, cur) = words_state(s);
    if cur.len() > 0 {
        ws.push(cur)
    } else {
        ws
    }
}

/// A text as it is drawn: its words, one space between each two.
pub fn normalize_text(text: &str) -> (s: String)
    ensures
        s@ == join_with(words(text@), " "@),
{
    let chars = chars_of(text);
    let mut ws: Vec<String> = Vec::new();
    let mut cur: Vec<char> = Vec::new();
    let mut i: usize = 0;
    assert(chars@.take(0) =~= Seq::<char>::empty());
    while i < chars.len()
        invariant
            i <= chars@.len(),
            chars@ == text@,
            words_state(chars@.take(i as int)) == (views(ws@), cur@),
        decreases chars@.len() - i,
    {
        let c = chars[i];
        assert(chars@.take(i + 1).drop_last() =~= chars@.take(i as int));
        if char_is_whitespace(c) {
            if cur.len() > 0 {
                let w = string_from_chars(cur.as_slice());
                let ghost before = views(ws@);
                ws.push(w);
                assert(views(ws@) =~= before.push(cur@));
            }
            cur = Vec::new();
        } else {
            cur.push(c);
        }
        i = i + 1;
    }
    assert(chars@.take(chars@.len() as int) =~= chars@);
    if cur.len() > 0 {
        let w = string_from_chars(cur.as_slice());
        let ghost before = views(ws@);
        ws.push(w);
        assert(views(ws@) =~= before.push(cur@));
    }
    join_strings(&ws, " ")
}

/// A Markdown node as the renderer reads it from the parser's JSON tree: its
/// `type`, `value` and `ordered`, `checked` fields when they are text or
/// booleans, and its `children` when they are an array.
#[derive(Debug)]
pub struct MdNode {
    pub node_type: Option<String>,
    pub value: Option<String>,
    pub ordered: Option<bool>,
    pub checked: Option<bool>,
    pub children: Option<Vec<MdNode>>,
}

/// The number of nodes of a tree.
pub open spec fn md_size(n: MdNode) -> nat
    decreases n, 0int,
{
    match n.children {
        Some(v) => {
            proof {
                assert(decreases_to!(n => v@));
            }
            1 + seq_size(v@, 0)
        },
        None => 1,
    }
}

/// The number of nodes of the trees `s[i..]`.
pub open spec fn seq_size(s: Seq<MdNode>, i: int) -> nat
    decreases s, s.len() - i,
{
    if 0 <= i < s.len() {
        md_size(s[i]) + seq_size(s, i + 1)
    } else {
        0
    }
}

/// A style the renderer sets on the terminal.
#[derive(Clone, Copy, Debug, PartialEq, Eq, Structural)]
pub enum TermStyle {
    /// Cyan, bold and italic: headings.
    Heading,
    /// A foreground colour: list markers and check boxes.
    Fg(MarkColor),
    /// Bold: strong text.
    Bold,
}

/// A command to the terminal: print a text, set a style, reset the style,
/// or report a node kind that is not drawn (by its `type`, if it is text).
#[derive(Clone, Debug, PartialEq, Eq)]
pub enum TermCmd<S> {
    Print(S),
    SetStyle(TermStyle),
    Reset,
    Unsupported(Option<S>),
}

/// The view of a command.
pub open spec fn cmd_view(c: TermCmd<String>) -> TermCmd<Seq<char>> {
    match c {
        TermCmd::Print(s) => TermCmd::Print(s@),
        TermCmd::SetStyle(t) => TermCmd::SetStyle(t),
        TermCmd::Reset => TermCmd::Reset,
        TermCmd::Unsupported(o) => TermCmd::Unsupported(opt_view(o)),
    }
}

/// The view of a list of commands.
pub open spec fn cmds_view(v: Seq<TermCmd<String>>) -> Seq<TermCmd<Seq<char>>> {
    v.map_values(|c: TermCmd<String>| cmd_view(c))
}

/// The renderer's state after a list item begins: the item is counted in the
/// innermost list, and its marker is chosen (see [`RenderState::list_item_marker`]).
pub open spec fn item_state(st: (Seq<usize>, Seq<bool>, usize)) -> ((Seq<usize>, Seq<bool>, usize), (Seq<char>, MarkColor)) {
    if st.0.len() == 0 {
        (st, item_marker(0, false))
    } else {
        let n = st.0.len() - 1;
        let index = (st.0[n] + 1) as usize;
        ((st.0.update(n, index), st.1, st.2), item_marker(index as nat, st.1.len() > 0 && st.1.last()))
    }
}

/// The commands that draw the check box of a task list item.
pub open spec fn checkbox_cmds(checked: Option<bool>) -> Seq<TermCmd<Seq<char>>> {
    match checked {
        Some(c) => seq![TermCmd::SetStyle(TermStyle::Fg(checkbox(c).1)), TermCmd::Print(checkbox(c).0), TermCmd::Reset],
        None => Seq::empty(),
    }
}

/// The text of a text node as it is drawn: its words, one space apart.
pub open spec fn text_of(value: Option<String>) -> Seq<char> {
    match value {
        Some(v) => join_with(words(v@), " "@),
        None => Seq::empty(),
    }
}

/// The commands that draw a node from renderer state `st` (innermost list
/// last: item counts, whether each list is ordered, indentation level), and
/// the state after it. Roots draw their children; headings their children in
/// the heading style, then a line break; paragraphs their children after the
/// indentation (outside lists) and then a line break; text its words; lists
/// their children as a new innermost list; list items the indentation, their
/// marker, their check box and their children one level deeper; strong text
/// its children in bold. Other nodes are reported as not drawn.
pub open spec fn render_node_spec(n: MdNode, st: (Seq<usize>, Seq<bool>, usize)) -> (Seq<TermCmd<Seq<char>>>, (Seq<usize>, Seq<bool>, usize))
    decreases n, 1int,
{
    match node_kind(opt_view(n.node_type)) {
        NodeKind::Root => render_children_spec(n, st),
        NodeKind::Heading => {
            let (c, st1) = render_children_spec(n, st);
            (seq![TermCmd::SetStyle(TermStyle::Heading)] + c + seq![TermCmd::Reset, TermCmd::Print("\n"@)], st1)
        },
        NodeKind::Paragraph => {
            let pre = if st.0.len() == 0 {
                seq![TermCmd::Print(indent_text(st.2 as nat))]
            } else {
                Seq::empty()
            };
            let (c, st1) = render_children_spec(n, st);
            (pre + c + seq![TermCmd::Print("\n"@)], st1)
        },
        NodeKind::Text => (seq![TermCmd::Print(text_of(n.value))], st),
        NodeKind::List => {
            let ordered = match n.ordered {
                Some(b) => b,
                None => false,
            };
            let (c, st1) = render_children_spec(n, (st.0.push(0), st.1.push(ordered), st.2));
            (
                c,
                (
                    if st1.0.len() > 0 { st1.0.drop_last() } else { st1.0 },
                    if st1.1.len() > 0 { st1.1.drop_last() } else { st1.1 },
                    st1.2,
                ),
            )
        },
        NodeKind::ListItem => {
            let (st1, mark) = item_state(st);
            let (c, st2) = render_children_spec(n, (st1.0, st1.1, (st1.2 + 1) as usize));
            (
                seq![
                    TermCmd::Print(indent_text(st.2 as nat)),
                    TermCmd::SetStyle(TermStyle::Fg(mark.1)),
                    TermCmd::Print(mark.0),
                    TermCmd::Reset,
                ] + checkbox_cmds(n.checked) + c,
                (st2.0, st2.1, (st2.2 - 1) as usize),
            )
        },
        NodeKind::Strong => {
            let (c, st1) = render_children_spec(n, st);
            (seq![TermCmd::SetStyle(TermStyle::Bold)] + c + seq![TermCmd::Reset], st1)
        },
        NodeKind::Unsupported => (seq![TermCmd::Unsupported(opt_view(n.node_type))], st),
    }
}

/// The commands that draw the children of a node, in order.
pub open spec fn render_children_spec(n: MdNode, st: (Seq<usize>, Seq<bool>, usize)) -> (Seq<TermCmd<Seq<char>>>, (Seq<usize>, Seq<bool>, usize))
    decreases n, 0int,
{
    match n.children {
        Some(v) => {
            proof {
                assert(decreases_to!(n => v@));
            }
            render_seq_spec(v@, 0, st)
        },
        None => (Seq::empty(), st),
    }
}

/// The commands that draw the nodes `s[i..]`, in order.
pub open spec fn render_seq_spec(s: Seq<MdNode>, i: int, st: (Seq<usize>, Seq<bool>, usize)) -> (Seq<TermCmd<Seq<char>>>, (Seq<usize>, Seq<bool>, usize))
    decreases s, s.len() - i,
{
    if 0 <= i < s.len() {
        let (c1, st1) = render_node_spec(s[i], st);
        let (c2, st2) = render_seq_spec(s, i + 1, st1);
        (c1 + c2, st2)
    } else {
        (Seq::empty(), st)
    }
}

/// The renderer's state after drawing keeps the open lists, their kinds and
/// the indentation; only the item count of the innermost list may move.
pub open spec fn keeps_open_lists(s: (Seq<usize>, Seq<bool>, usize), r: (Seq<usize>, Seq<bool>, usize)) -> bool {
    &&& r.1 == s.1
    &&& r.2 == s.2
    &&& r.0.len() == s.0.len()
    &&& forall|j: int| 0 <= j < s.0.len() - 1 ==> #[trigger] r.0[j] == s.0[j]
}

/// Two renderer states that a node is drawn the same from: the same
/// indentation, and the same innermost list (whether there is one, its item
/// count, and whether it is ordered); the lists around it may differ.
pub open spec fn same_innermost(s: (Seq<usize>, Seq<bool>, usize), t: (Seq<usize>, Seq<bool>, usize)) -> bool {
    &&& s.2 == t.2
    &&& (s.0.len() == 0) == (t.0.len() == 0)
    &&& s.0.len() > 0 ==> s.0.last() == t.0.last()
    &&& (s.1.len() > 0 && s.1.last()) == (t.1.len() > 0 && t.1.last())
}

proof fn lemma_keep_node(n: MdNode, s: (Seq<usize>, Seq<bool>, usize))
    requires
        s.2 + md_size(n) <= usize::MAX,
    ensures
        keeps_open_lists(s, render_node_spec(n, s).1),
    decreases n, 1int,
{
    match node_kind(opt_view(n.node_type)) {
        NodeKind::Root | NodeKind::Heading | NodeKind::Paragraph | NodeKind::Strong => {
            lemma_keep_children(n, s);
        },
        NodeKind::List => {
            let b = match n.ordered {
                Some(b) => b,
                None => false,
            };
            let s1 = (s.0.push(0), s.1.push(b), s.2);
            lemma_keep_children(n, s1);
            let r1 = render_children_spec(n, s1).1;
            assert(r1.0.drop_last() =~= s.0);
            assert(r1.1.drop_last() =~= s.1);
        },
        NodeKind::ListItem => {
            let (st1, mark) = item_state(s);
            let s1 = (st1.0, st1.1, (st1.2 + 1) as usize);
            lemma_keep_children(n, s1);
        },
        _ => {},
    }
}

proof fn lemma_keep_children(n: MdNode, s: (Seq<usize>, Seq<bool>, usize))
    requires
        s.2 + md_size(n) - 1 <= usize::MAX,
    ensures
        keeps_open_lists(s, render_children_spec(n, s).1),
    decreases n, 0int,
{
    match n.children {
        Some(v) => {
            assert(decreases_to!(n => v@));
            lemma_keep_seq(v@, 0, s);
        },
        None => {},
    }
}

proof fn lemma_keep_seq(v: Seq<MdNode>, i: int, s: (Seq<usize>, Seq<bool>, usize))
    requires
        s.2 + seq_size(v, i) <= usize::MAX,
    ensures
        keeps_open_lists(s, render_seq_spec(v, i, s).1),
    decreases v, v.len() - i,
{
    if 0 <= i < v.len() {
        lemma_keep_node(v[i], s);
        let s1 = render_node_spec(v[i], s).1;
        lemma_keep_seq(v, i + 1, s1);
    }
}

proof fn lemma_same_node(n: MdNode, s: (Seq<usize>, Seq<bool>, usize), t: (Seq<usize>, Seq<bool>, usize))
    requires
        same_innermost(s, t),
        s.2 + md_size(n) <= usize::MAX,
    ensures
        render_node_spec(n, s).0 == render_node_spec(n, t).0,
        same_innermost(render_node_spec(n, s).1, render_node_spec(n, t).1),
    decreases n, 1int,
{
    match node_kind(opt_view(n.node_type)) {
        NodeKind::Root | NodeKind::Heading | NodeKind::Paragraph | NodeKind::Strong => {
            lemma_same_children(n, s, t);
        },
        NodeKind::List => {
            let b = match n.ordered {
                Some(b) => b,
                None => false,
            };
            let s1 = (s.0.push(0), s.1.push(b), s.2);
            let t1 = (t.0.push(0), t.1.push(b), t.2);
            lemma_same_children(n, s1, t1);
            lemma_keep_children(n, s1);
            lemma_keep_children(n, t1);
            let r1 = render_children_spec(n, s1).1;
            let q1 = render_children_spec(n, t1).1;
            assert(r1.0.drop_last() =~= s.0);
            assert(r1.1.drop_last() =~= s.1);
            assert(q1.0.drop_last() =~= t.0);
            assert(q1.1.drop_last() =~= t.1);
        },
        NodeKind::ListItem => {
            let (s1, ms) = item_state(s);
            let (t1, mt) = item_state(t);
            let s2 = (s1.0, s1.1, (s1.2 + 1) as usize);
            let t2 = (t1.0, t1.1, (t1.2 + 1) as usize);
            lemma_same_children(n, s2, t2);
        },
        _ => {},
    }
}

proof fn lemma_same_children(n: MdNode, s: (Seq<usize>, Seq<bool>, usize), t: (Seq<usize>, Seq<bool>, usize))
    requires
        same_innermost(s, t),
        s.2 + md_size(n) - 1 <= usize::MAX,
    ensures
        render_children_spec(n, s).0 == render_children_spec(n, t).0,
        same_innermost(render_children_spec(n, s).1, render_children_spec(n, t).1),
    decreases n, 0int,
{
    match n.children {
        Some(v) => {
            assert(decreases_to!(n => v@));
            lemma_same_seq(v@, 0, s, t);
        },
        None => {},
    }
}

proof fn lemma_same_seq(v: Seq<MdNode>, i: int, s: (Seq<usize>, Seq<bool>, usize), t: (Seq<usize>, Seq<bool>, usize))
    requires
        same_innermost(s, t),
        s.2 + seq_size(v, i) <= usize::MAX,
    ensures
        render_seq_spec(v, i, s).0 == render_seq_spec(v, i, t).0,
        same_innermost(render_seq_spec(v, i, s).1, render_seq_spec(v, i, t).1),
    decreases v, v.len() - i,
{
    if 0 <= i < v.len() {
        lemma_same_node(v[i], s, t);
        lemma_keep_node(v[i], s);
        let s1 = render_node_spec(v[i], s).1;
        let t1 = render_node_spec(v[i], t).1;
        lemma_same_seq(v, i + 1, s1, t1);
    }
}

/// Drawing a node keeps the lists that are open around it, their kinds and
/// the indentation: only the item count of the innermost list may move. A
/// list node leaves the state exactly as it found it.
pub proof fn law_drawing_keeps_open_lists(n: MdNode, s: (Seq<usize>, Seq<bool>, usize))
    requires
        s.2 + md_size(n) <= usize::MAX,
    ensures
        render_node_spec(n, s).1.1 == s.1,
        render_node_spec(n, s).1.2 == s.2,
        render_node_spec(n, s).1.0.len() == s.0.len(),
        forall|j: int| 0 <= j < s.0.len() - 1 ==> #[trigger] render_node_spec(n, s).1.0[j] == s.0[j],
        node_kind(opt_view(n.node_type)) == NodeKind::List ==> render_node_spec(n, s).1 == s,
{
    lemma_keep_node(n, s);
    if node_kind(opt_view(n.node_type)) == NodeKind::List {
        let b = match n.ordered {
            Some(b) => b,
            None => false,
        };
        let s1 = (s.0.push(0), s.1.push(b), s.2);
        lemma_keep_children(n, s1);
        let r1 = render_children_spec(n, s1).1;
        assert(r1.0.drop_last() =~= s.0);
        assert(r1.1.drop_last() =~= s.1);
    }
}

/// How a list is drawn does not depend on the lists around it: from any two
/// states with the same indentation, whatever lists (ordered or not) enclose
/// it, a list node gives the same commands. Its own `ordered` field alone
/// decides the kind of its items.
pub proof fn law_list_ignores_enclosing_lists(
    n: MdNode,
    s: (Seq<usize>, Seq<bool>, usize),
    t: (Seq<usize>, Seq<bool>, usize),
)
    requires
        node_kind(opt_view(n.node_type)) == NodeKind::List,
        s.2 == t.2,
        s.2 + md_size(n) <= usize::MAX,
    ensures
        render_node_spec(n, s).0 == render_node_spec(n, t).0,
{
    let b = match n.ordered {
        Some(b) => b,
        None => false,
    };
    lemma_same_children(n, (s.0.push(0), s.1.push(b), s.2), (t.0.push(0), t.1.push(b), t.2));
}

/// A list item drawn inside a list starts with the indentation and its
/// marker: a cyan bullet `• ` when the innermost list is not ordered, and
/// its number (one more than the items counted so far) in yellow when it is.
pub proof fn law_item_marker(n: MdNode, s: (Seq<usize>, Seq<bool>, usize))
    requires
        node_kind(opt_view(n.node_type)) == NodeKind::ListItem,
        s.0.len() > 0,
        s.1.len() > 0,
        s.0.last() < usize::MAX,
    ensures
        render_node_spec(n, s).0.take(4) == seq![
            TermCmd::Print(indent_text(s.2 as nat)),
            TermCmd::SetStyle(TermStyle::Fg(if s.1.last() { MarkColor::Yellow } else { MarkColor::Cyan })),
            TermCmd::Print(if s.1.last() { pad2(decimal((s.0.last() + 1) as nat)) + ". "@ } else { "\u{2022} "@ }),
            TermCmd::Reset,
        ],
{
    let (st1, mark) = item_state(s);
    let (c, st2) = render_children_spec(n, (st1.0, st1.1, (st1.2 + 1) as usize));
    let head = seq![
        TermCmd::Print(indent_text(s.2 as nat)),
        TermCmd::SetStyle(TermStyle::Fg(mark.1)),
        TermCmd::Print(mark.0),
        TermCmd::Reset,
    ];
    assert(render_node_spec(n, s).0 == head + checkbox_cmds(n.checked) + c);
    assert((head + checkbox_cmds(n.checked) + c).take(4) =~= head);
}

/// The first item of a list is drawn with the list's own first marker:
/// ` 1. ` in yellow for an ordered list, a cyan bullet `• ` for any other,
/// whatever lists enclose it.
pub proof fn law_list_first_marker(n: MdNode, s: (Seq<usize>, Seq<bool>, usize))
    requires
        node_kind(opt_view(n.node_type)) == NodeKind::List,
        n.children matches Some(v) && v@.len() > 0 && node_kind(opt_view(v@[0].node_type)) == NodeKind::ListItem,
    ensures
        render_node_spec(n, s).0.take(4) == seq![
            TermCmd::Print(indent_text(s.2 as nat)),
            TermCmd::SetStyle(TermStyle::Fg(if n.ordered == Some(true) { MarkColor::Yellow } else { MarkColor::Cyan })),
            TermCmd::Print(if n.ordered == Some(true) { " 1. "@ } else { "\u{2022} "@ }),
            TermCmd::Reset,
        ],
{
    let v = n.children->0;
    let b = match n.ordered {
        Some(b) => b,
        None => false,
    };
    let s1 = (s.0.push(0), s.1.push(b), s.2);
    assert(decreases_to!(n => v@));
    let (c1, r1) = render_node_spec(v@[0], s1);
    let (c2, r2) = render_seq_spec(v@, 1, r1);
    assert(render_seq_spec(v@, 0, s1).0 == c1 + c2);
    law_item_marker(v@[0], s1);
    assert(decimal(1) =~= seq!['1']);
    assert(pad2(decimal(1)) + ". "@ =~= " 1. "@) by {
        reveal_strlit(". ");
        reveal_strlit(" 1. ");
    }
    assert(c1.len() >= 4);
    assert((c1 + c2).take(4) =~= c1.take(4));
}

/// The number of nodes below a node.
pub open spec fn kids_size(n: MdNode) -> nat {
    match n.children {
        Some(v) => seq_size(v@, 0),
        None => 0,
    }
}

/// No counter and no indentation level of the state can overflow while `k`
/// more nodes are drawn.
pub open spec fn render_fits(st: (Seq<usize>, Seq<bool>, usize), k: int) -> bool {
    &&& forall|j: int| 0 <= j < st.0.len() ==> #[trigger] st.0[j] + k <= usize::MAX
    &&& st.2 + k <= usize::MAX
}

/// The list counters `b` are the counters `a`, each raised by at most `k`.
pub open spec fn counts_grow_within(a: Seq<usize>, b: Seq<usize>, k: int) -> bool {
    &&& b.len() == a.len()
    &&& forall|j: int| 0 <= j < a.len() ==> a[j] <= #[trigger] b[j] <= a[j] + k
}

/// The tree sizes of a list shrink from the front.
proof fn lemma_seq_size_step(s: Seq<MdNode>, i: int)
    requires
        0 <= i < s.len(),
    ensures
        seq_size(s, i) == md_size(s[i]) + seq_size(s, i + 1),
{
}

/// Appends one command.
fn emit(out: &mut Vec<TermCmd<String>>, c: TermCmd<String>)
    ensures
        cmds_view(final(out)@) == cmds_view(old(out)@).push(cmd_view(c)),
{
    let ghost before = out@;
    out.push(c);
    assert(cmds_view(out@) =~= cmds_view(before).push(cmd_view(c)));
}

/// Appends the commands that draw the children of `n`, in order.
fn render_children(n: &MdNode, st: &mut RenderState, out: &mut Vec<TermCmd<String>>)
    requires
        render_fits(old(st)@, kids_size(*n) as int),
    ensures
        cmds_view(final(out)@) == cmds_view(old(out)@) + render_children_spec(*n, old(st)@).0,
        final(st)@ == render_children_spec(*n, old(st)@).1,
        counts_grow_within(old(st)@.0, final(st)@.0, kids_size(*n) as int),
        final(st)@.1 == old(st)@.1,
        final(st)@.2 == old(st)@.2,
    decreases md_size(*n), 0nat,
{
    match &n.children {
        None => {
            assert(cmds_view(out@) =~= cmds_view(out@) + Seq::<TermCmd<Seq<char>>>::empty());
        },
        Some(v) => {
            let ghost st0 = st@;
            let ghost o0 = cmds_view(out@);
            let mut i: usize = 0;
            assert(o0 + render_seq_spec(v@, 0, st0).0 == cmds_view(out@) + render_seq_spec(v@, 0, st@).0);
            while i < v.len()
                invariant
                    i <= v@.len(),
                    n.children == Some(*v),
                    md_size(*n) == 1 + seq_size(v@, 0),
                    kids_size(*n) == seq_size(v@, 0),
                    o0 + render_seq_spec(v@, 0, st0).0 == cmds_view(out@) + render_seq_spec(v@, i as int, st@).0,
                    render_seq_spec(v@, 0, st0).1 == render_seq_spec(v@, i as int, st@).1,
                    counts_grow_within(st0.0, st@.0, seq_size(v@, 0) - seq_size(v@, i as int)),
                    st@.1 == st0.1,
                    st@.2 == st0.2,
                    render_fits(st@, seq_size(v@, i as int) as int),
                    seq_size(v@, 0) >= seq_size(v@, i as int),
                decreases v@.len() - i,
            {
                proof {
                    lemma_seq_size_step(v@, i as int);
                }
                let ghost sb = st@;
                let ghost ob = cmds_view(out@);
                render_node(&v[i], st, out);
                proof {
                    let (c1, st1) = render_node_spec(v@[i as int], sb);
                    let (c2, st2) = render_seq_spec(v@, i + 1, st1);
                    assert(render_seq_spec(v@, i as int, sb) == (c1 + c2, st2));
                    assert(ob + (c1 + c2) =~= (ob + c1) + c2);
                    assert forall|j: int| 0 <= j < st@.0.len() implies #[trigger] st@.0[j] + seq_size(v@, i + 1) <= usize::MAX by {
                        assert(sb.0[j] <= st@.0[j]);
                    }
                    assert forall|j: int| 0 <= j < st0.0.len() implies st0.0[j] <= #[trigger] st@.0[j] <= st0.0[j] + (seq_size(v@, 0) - seq_size(v@, i + 1)) by {
                        assert(sb.0[j] <= st@.0[j]);
                    }
                }
                i = i + 1;
            }
            assert(render_seq_spec(v@, v@.len() as int, st@).0 =~= Seq::<TermCmd<Seq<char>>>::empty());
            assert(o0 + render_seq_spec(v@, 0, st0).0 =~= cmds_view(out@));
        },
    }
}

/// `o1` and `st1` are the commands and the state after drawing `n` from state
/// `st0` after the commands `o0`; the counters grew by at most the size of the
/// tree, and the list kinds and the indentation are back as they were.
pub open spec fn rendered(
    n: MdNode,
    st0: (Seq<usize>, Seq<bool>, usize),
    st1: (Seq<usize>, Seq<bool>, usize),
    o0: Seq<TermCmd<Seq<char>>>,
    o1: Seq<TermCmd<Seq<char>>>,
) -> bool {
    &&& o1 == o0 + render_node_spec(n, st0).0
    &&& st1 == render_node_spec(n, st0).1
    &&& counts_grow_within(st0.0, st1.0, md_size(n) as int)
    &&& st1.1 == st0.1
    &&& st1.2 == st0.2
}

/// Draws a heading.
fn render_heading(n: &MdNode, st: &mut RenderState, out: &mut Vec<TermCmd<String>>)
    requires
        node_kind(opt_view(n.node_type)) == NodeKind::Heading,
        render_fits(old(st)@, md_size(*n) as int),
    ensures
        rendered(*n, old(st)@, final(st)@, cmds_view(old(out)@), cmds_view(final(out)@)),
    decreases md_size(*n), 1nat,
{
    let ghost st0 = st@;
    let ghost o0 = cmds_view(out@);
    proof {
        reveal_strlit("\n");
    }
    emit(out, TermCmd::SetStyle(TermStyle::Heading));
    render_children(n, st, out);
    emit(out, TermCmd::Reset);
    emit(out, TermCmd::Print(string_of("\n")));
    let ghost c = render_children_spec(*n, st0).0;
    assert(cmds_view(out@) =~= o0 + (seq![TermCmd::SetStyle(TermStyle::Heading)] + c + seq![TermCmd::Reset, TermCmd::Print("\n"@)]));
}

/// Draws a paragraph.
fn render_paragraph(n: &MdNode, st: &mut RenderState, out: &mut Vec<TermCmd<String>>)
    requires
        node_kind(opt_view(n.node_type)) == NodeKind::Paragraph,
        render_fits(old(st)@, md_size(*n) as int),
    ensures
        rendered(*n, old(st)@, final(st)@, cmds_view(old(out)@), cmds_view(final(out)@)),
    decreases md_size(*n), 1nat,
{
    let ghost st0 = st@;
    let ghost o0 = cmds_view(out@);
    proof {
        reveal_strlit("\n");
    }
    if st.list_stack.len() == 0 {
        let indent = st.indent();
        emit(out, TermCmd::Print(indent));
    }
    let ghost o1 = cmds_view(out@);
    render_children(n, st, out);
    emit(out, TermCmd::Print(string_of("\n")));
    let ghost c = render_children_spec(*n, st0).0;
    let ghost pre = if st0.0.len() == 0 {
        seq![TermCmd::Print(indent_text(st0.2 as nat))]
    } else {
        Seq::empty()
    };
    assert(o1 =~= o0 + pre);
    assert(cmds_view(out@) =~= o0 + (pre + c + seq![TermCmd::Print("\n"@)]));
}

/// Draws a text: its words, one space apart.
fn render_text(n: &MdNode, out: &mut Vec<TermCmd<String>>)
    ensures
        cmds_view(final(out)@) == cmds_view(old(out)@) + seq![TermCmd::Print(text_of(n.value))],
{
    let empty = String::new();
    let text = match &n.value {
        Some(v) => normalize_text(v.as_str()),
        None => normalize_text(empty.as_str()),
    };
    proof {
        if n.value is None {
            assert(words(empty@) =~= Seq::<Seq<char>>::empty());
            assert(join_with(Seq::<Seq<char>>::empty(), " "@) =~= Seq::<char>::empty());
        }
    }
    let ghost o0 = cmds_view(out@);
    emit(out, TermCmd::Print(text));
    assert(cmds_view(out@) =~= o0 + seq![TermCmd::Print(text_of(n.value))]);
}

/// Draws a list: its items as a new innermost list.
fn render_list(n: &MdNode, st: &mut RenderState, out: &mut Vec<TermCmd<String>>)
    requires
        node_kind(opt_view(n.node_type)) == NodeKind::List,
        render_fits(old(st)@, md_size(*n) as int),
    ensures
        rendered(*n, old(st)@, final(st)@, cmds_view(old(out)@), cmds_view(final(out)@)),
    decreases md_size(*n), 1nat,
{
    let ghost st0 = st@;
    let ghost o0 = cmds_view(out@);
    assert(md_size(*n) == 1 + kids_size(*n));
    let ordered = match n.ordered {
        Some(b) => b,
        None => false,
    };
    st.begin_list(ordered);
    assert forall|j: int| 0 <= j < st@.0.len() implies #[trigger] st@.0[j] + kids_size(*n) <= usize::MAX by {
        if j < st0.0.len() {
            assert(st@.0[j] == st0.0[j]);
        }
    }
    render_children(n, st, out);
    let ghost st1 = st@;
    st.end_list();
    assert(st@.1 =~= st0.1);
    assert(st@.0.len() == st0.0.len());
    assert(st@ == render_node_spec(*n, st0).1);
    assert(cmds_view(out@) =~= o0 + render_node_spec(*n, st0).0);
    assert forall|j: int| 0 <= j < st0.0.len() implies st0.0[j] <= #[trigger] st@.0[j] <= st0.0[j] + md_size(*n) by {}
}

/// Draws a list item: the indentation, the item's marker and check box, and
/// its content one level deeper.
fn render_list_item(n: &MdNode, st: &mut RenderState, out: &mut Vec<TermCmd<String>>)
    requires
        node_kind(opt_view(n.node_type)) == NodeKind::ListItem,
        render_fits(old(st)@, md_size(*n) as int),
    ensures
        rendered(*n, old(st)@, final(st)@, cmds_view(old(out)@), cmds_view(final(out)@)),
    decreases md_size(*n), 1nat,
{
    let ghost st0 = st@;
    let ghost o0 = cmds_view(out@);
    assert(md_size(*n) == 1 + kids_size(*n));
    let indent = st.indent();
    proof {
        if st@.0.len() > 0 {
            assert(st@.0[st@.0.len() - 1] + md_size(*n) <= usize::MAX);
        }
    }
    let (marker, color) = st.list_item_marker();
    emit(out, TermCmd::Print(indent));
    emit(out, TermCmd::SetStyle(TermStyle::Fg(color)));
    emit(out, TermCmd::Print(marker));
    emit(out, TermCmd::Reset);
    match n.checked {
        Some(c) => {
            let (mark, mark_color) = checkbox_mark(c);
            emit(out, TermCmd::SetStyle(TermStyle::Fg(mark_color)));
            emit(out, TermCmd::Print(mark));
            emit(out, TermCmd::Reset);
        },
        None => {},
    }
    let ghost st1 = st@;
    let ghost o1 = cmds_view(out@);
    proof {
        let (s1, mark) = item_state(st0);
        assert(s1 == st1);
        assert(o1 =~= o0 + (seq![
            TermCmd::Print(indent_text(st0.2 as nat)),
            TermCmd::SetStyle(TermStyle::Fg(mark.1)),
            TermCmd::Print(mark.0),
            TermCmd::Reset,
        ] + checkbox_cmds(n.checked)));
    }
    st.begin_item_content();
    assert forall|j: int| 0 <= j < st@.0.len() implies #[trigger] st@.0[j] + kids_size(*n) <= usize::MAX by {
        assert(st@.0[j] <= st0.0[j] + 1);
    }
    render_children(n, st, out);
    st.end_item_content();
    proof {
        assert(cmds_view(out@) =~= o0 + render_node_spec(*n, st0).0);
        assert forall|j: int| 0 <= j < st0.0.len() implies st0.0[j] <= #[trigger] st@.0[j] <= st0.0[j] + md_size(*n) by {
            assert(st1.0[j] <= st0.0[j] + 1);
        }
    }
}

/// Draws strong text: its children in bold.
fn render_strong(n: &MdNode, st: &mut RenderState, out: &mut Vec<TermCmd<String>>)
    requires
        node_kind(opt_view(n.node_type)) == NodeKind::Strong,
        render_fits(old(st)@, md_size(*n) as int),
    ensures
        rendered(*n, old(st)@, final(st)@, cmds_view(old(out)@), cmds_view(final(out)@)),
    decreases md_size(*n), 1nat,
{
    let ghost st0 = st@;
    let ghost o0 = cmds_view(out@);
    emit(out, TermCmd::SetStyle(TermStyle::Bold));
    render_children(n, st, out);
    emit(out, TermCmd::Reset);
    let ghost c = render_children_spec(*n, st0).0;
    assert(cmds_view(out@) =~= o0 + (seq![TermCmd::SetStyle(TermStyle::Bold)] + c + seq![TermCmd::Reset]));
}

/// Appends the commands that draw `n` from the renderer state `st`, and moves
/// `st` on (see [`render_node_spec`]). The state must leave room for the
/// node's counters and indentation.
pub fn render_node(n: &MdNode, st: &mut RenderState, out: &mut Vec<TermCmd<String>>)
    requires
        render_fits(old(st)@, md_size(*n) as int),
    ensures
        rendered(*n, old(st)@, final(st)@, cmds_view(old(out)@), cmds_view(final(out)@)),
    decreases md_size(*n), 2nat,
{
    let ghost st0 = st@;
    let ghost o0 = cmds_view(out@);
    let kind = NodeKind::of(
        match &n.node_type {
            Some(t) => Some(t.as_str()),
            None => None,
        },
    );
    assert(kind == node_kind(opt_view(n.node_type)));
    match kind {
        NodeKind::Root => {
            assert(md_size(*n) == 1 + kids_size(*n));
            render_children(n, st, out);
        },
        NodeKind::Heading => render_heading(n, st, out),
        NodeKind::Paragraph => render_paragraph(n, st, out),
        NodeKind::Text => render_text(n, out),
        NodeKind::List => render_list(n, st, out),
        NodeKind::ListItem => render_list_item(n, st, out),
        NodeKind::Strong => render_strong(n, st, out),
        NodeKind::Unsupported => {
            let t = match &n.node_type {
                Some(t) => Some(copy_string(t)),
                None => None,
            };
            emit(out, TermCmd::Unsupported(t));
            assert(cmds_view(out@) =~= o0 + seq![TermCmd::Unsupported(opt_view(n.node_type))]);
        },
    }
}

/// The number of nodes of a tree; `None` when it exceeds `usize::MAX`.
pub fn md_count(n: &MdNode) -> (r: Option<usize>)
    ensures
        match r {
            Some(c) => c == md_size(*n),
            None => md_size(*n) > usize::MAX,
        },
    decreases md_size(*n),
{
    match &n.children {
        None => Some(1),
        Some(v) => {
            let mut total: usize = 0;
            let mut i: usize = 0;
            while i < v.len()
                invariant
                    i <= v@.len(),
                    n.children == Some(*v),
                    md_size(*n) == 1 + seq_size(v@, 0),
                    total + seq_size(v@, i as int) == seq_size(v@, 0),
                decreases v@.len() - i,
            {
                proof {
                    lemma_seq_size_step(v@, i as int);
                }
                match md_count(&v[i]) {
                    None => {
                        return None;
                    },
                    Some(c) => match total.checked_add(c) {
                        None => {
                            return None;
                        },
                        Some(t) => {
                            total = t;
                        },
                    },
                }
                i = i + 1;
            }
            total.checked_add(1)
        },
    }
}

/// The terminal commands that draw a Markdown tree, starting outside any list
/// and without indentation; `None` when the tree has more than `usize::MAX`
/// nodes, so that a list counter might not fit.
pub fn render_markdown(root: &MdNode) -> (r: Option<Vec<TermCmd<String>>>)
    ensures
        match r {
            Some(cmds) => md_size(*root) <= usize::MAX && cmds_view(cmds@) == render_node_spec(
                *root,
                (Seq::empty(), Seq::empty(), 0usize),
            ).0,
            None => md_size(*root) > usize::MAX,
        },
{
    match md_count(root) {
        None => None,
        Some(_) => {
            let mut st = RenderState::new();
            let mut out: Vec<TermCmd<String>> = Vec::new();
            assert(st@ == (Seq::<usize>::empty(), Seq::<bool>::empty(), 0usize));
            render_node(root, &mut st, &mut out);
            assert(cmds_view(out@) =~= Seq::<TermCmd<Seq<char>>>::empty() + render_node_spec(*root, (Seq::empty(), Seq::empty(), 0usize)).0);
            Some(out)
        },
    }
}

} // verus!
