//! Layout rules of the chat screen: how many terminal lines a list of
//! messages takes, and where to scroll so that the newest line stays visible.

use vstd::prelude::*;

use crate::model::{AutoScrollableViewModel, ViewModelFmt};
use crate::text::views;
use crate::model::message_view_model::opt_view;

verus! {

/// The number of terminal columns that a text takes
/// (`unicode_width::UnicodeWidthStr::width`).
pub uninterp spec fn display_width(s: Seq<char>) -> usize;

/// `unicode_width::UnicodeWidthStr::width`.
#[verifier::external_body]
pub(crate) fn str_width(s: &str) -> (w: usize)
    ensures
        w == display_width(s@),
{
    unicode_width::UnicodeWidthStr::width(s)
}

/// Terminal lines for a text of `cols` columns in a box `width` columns wide:
/// `cols / width` rounded up. A box of width zero takes no line for an empty
/// text and the largest count for any other.
pub open spec fn lines_for(cols: nat, width: nat) -> nat {
    if width == 0 {
        if cols == 0 {
            0
        } else {
            usize::MAX as nat
        }
    } else {
        ((cols + width - 1) as nat / width) as nat
    }
}

/// Columns of line `i` of a formatted message: its width (an empty line
/// counts one column), plus the extra text after the last line.
pub open spec fn line_cols(contents: Seq<Seq<char>>, ext: Option<Seq<char>>, i: int) -> nat {
    (if contents[i].len() == 0 {
        1nat
    } else {
        0nat
    }) + display_width(contents[i]) as nat + (if i == contents.len() - 1 && ext is Some {
        display_width(ext->0) as nat
    } else {
        0nat
    })
}

/// Terminal lines of the first `n` lines of a formatted message.
pub open spec fn message_lines_upto(width: nat, contents: Seq<Seq<char>>, ext: Option<Seq<char>>, n: int) -> nat
    decreases n,
{
    if n <= 0 {
        0
    } else {
        message_lines_upto(width, contents, ext, n - 1) + lines_for(line_cols(contents, ext, n - 1), width)
    }
}

/// Terminal lines of a formatted message.
pub open spec fn message_line_count(width: nat, m: (Seq<Seq<char>>, Option<Seq<char>>)) -> nat {
    message_lines_upto(width, m.0, m.1, m.0.len() as int)
}

/// Terminal lines of the first `n` formatted messages.
pub open spec fn total_lines_upto(width: nat, msgs: Seq<(Seq<Seq<char>>, Option<Seq<char>>)>, n: int) -> nat
    decreases n,
{
    if n <= 0 {
        0
    } else {
        total_lines_upto(width, msgs, n - 1) + message_line_count(width, msgs[n - 1])
    }
}

/// Terminal lines of a list of formatted messages.
pub open spec fn total_lines(width: nat, msgs: Seq<(Seq<Seq<char>>, Option<Seq<char>>)>) -> nat {
    total_lines_upto(width, msgs, msgs.len() as int)
}

/// Every line of every message has a column count that fits in `usize`.
pub open spec fn columns_fit(msgs: Seq<(Seq<Seq<char>>, Option<Seq<char>>)>) -> bool {
    forall|j: int, i: int|
        0 <= j < msgs.len() && 0 <= i < msgs[j].0.len() ==> #[trigger] line_cols(msgs[j].0, msgs[j].1, i) <= usize::MAX
}

/// The view of formatted messages.
pub open spec fn formatted_views(v: Seq<(Vec<String>, Option<String>)>) -> Seq<(Seq<Seq<char>>, Option<Seq<char>>)> {
    v.map_values(|m: (Vec<String>, Option<String>)| (views(m.0@), opt_view(m.1)))
}

proof fn lemma_upto_mono(width: nat, contents: Seq<Seq<char>>, ext: Option<Seq<char>>, a: int, b: int)
    requires
        a <= b,
    ensures
        message_lines_upto(width, contents, ext, a) <= message_lines_upto(width, contents, ext, b),
    decreases b - a,
{
    if a < b {
        lemma_upto_mono(width, contents, ext, a, b - 1);
    }
}

proof fn lemma_total_mono(width: nat, msgs: Seq<(Seq<Seq<char>>, Option<Seq<char>>)>, a: int, b: int)
    requires
        a <= b,
    ensures
        total_lines_upto(width, msgs, a) <= total_lines_upto(width, msgs, b),
    decreases b - a,
{
    if a < b {
        lemma_total_mono(width, msgs, a, b - 1);
    }
}

/// Terminal lines of one formatted message, `None` when a count does not fit in `usize`.
fn count_message_lines(width: usize, contents: &Vec<String>, ext: &Option<String>) -> (r: Option<usize>)
    ensures
        match r {
            Some(n) => n == message_lines_upto(width as nat, views(contents@), opt_view(*ext), contents@.len() as int)
                && forall|i: int| 0 <= i < contents@.len() ==> #[trigger] line_cols(views(contents@), opt_view(*ext), i) <= usize::MAX,
            None => !(forall|i: int| 0 <= i < contents@.len() ==> #[trigger] line_cols(views(contents@), opt_view(*ext), i) <= usize::MAX)
                || message_lines_upto(width as nat, views(contents@), opt_view(*ext), contents@.len() as int) > usize::MAX,
        },
{
    let ghost cs = views(contents@);
    let ghost ex = opt_view(*ext);
    let mut lines: usize = 0;
    let mut i: usize = 0;
    while i < contents.len()
        invariant
            cs == views(contents@),
            ex == opt_view(*ext),
            i <= contents@.len(),
            lines == message_lines_upto(width as nat, cs, ex, i as int),
            forall|k: int| 0 <= k < i ==> #[trigger] line_cols(cs, ex, k) <= usize::MAX,
        decreases contents@.len() - i,
    {
        let content = &contents[i];
        let mut cols: usize = 0;
        if content.as_str().is_empty() {
            cols = 1;
        }
        let w = str_width(content.as_str());
        let mut total_cols = match cols.checked_add(w) {
            Some(c) => c,
            None => {
                proof {
                    assert(line_cols(cs, ex, i as int) > usize::MAX);
                }
                return None;
            },
        };
        if i == contents.len() - 1 {
            if let Some(e) = ext {
                let ew = str_width(e.as_str());
                total_cols = match total_cols.checked_add(ew) {
                    Some(c) => c,
                    None => {
                        proof {
                            assert(line_cols(cs, ex, i as int) > usize::MAX);
                        }
                        return None;
                    },
                };
            }
        }
        assert(total_cols == line_cols(cs, ex, i as int));
        let n = if width == 0 {
            if total_cols == 0 {
                0
            } else {
                usize::MAX
            }
        } else if total_cols == 0 {
            0
        } else {
            (total_cols - 1) / width + 1
        };
        proof {
            if width > 0 && total_cols > 0 {
                let c = total_cols as int;
                let w = width as int;
                assert((c - 1) / w + 1 == (c + w - 1) / w) by (nonlinear_arith)
                    requires
                        w > 0,
                        c >= 1,
                {
                    vstd::arithmetic::div_mod::lemma_div_plus_one(c - 1, w);
                }
            }
            if width > 0 && total_cols == 0 {
                let w = width as int;
                assert((w - 1) / w == 0) by (nonlinear_arith)
                    requires
                        w > 0,
                ;
            }
            assert(n == lines_for(total_cols as nat, width as nat));
        }
        lines = match lines.checked_add(n) {
            Some(l) => l,
            None => {
                proof {
                    lemma_upto_mono(width as nat, cs, ex, i + 1, contents@.len() as int);
                }
                return None;
            },
        };
        i = i + 1;
    }
    Some(lines)
}

/// Terminal lines of a list of formatted messages in a box `width` columns
/// wide; `None` exactly when a column count or the total does not fit in `usize`.
pub fn count_formatted_lines(width: usize, formatted: &Vec<(Vec<String>, Option<String>)>) -> (r: Option<usize>)
    ensures
        match r {
            Some(n) => columns_fit(formatted_views(formatted@)) && n == total_lines(width as nat, formatted_views(formatted@)),
            None => !columns_fit(formatted_views(formatted@)) || total_lines(width as nat, formatted_views(formatted@)) > usize::MAX,
        },
{
    let ghost ms = formatted_views(formatted@);
    let mut lines: usize = 0;
    let mut j: usize = 0;
    while j < formatted.len()
        invariant
            ms == formatted_views(formatted@),
            j <= formatted@.len(),
            lines == total_lines_upto(width as nat, ms, j as int),
            forall|a: int, i: int| 0 <= a < j && 0 <= i < ms[a].0.len() ==> #[trigger] line_cols(ms[a].0, ms[a].1, i) <= usize::MAX,
        decreases formatted@.len() - j,
    {
        let m = &formatted[j];
        assert(ms[j as int] == (views(m.0@), opt_view(m.1)));
        match count_message_lines(width, &m.0, &m.1) {
            Some(n) => {
                match lines.checked_add(n) {
                    Some(l) => {
                        lines = l;
                    },
                    None => {
                        proof {
                            lemma_total_mono(width as nat, ms, j + 1, ms.len() as int);
                        }
                        return None;
                    },
                }
            },
            None => {
                proof {
                    if forall|i: int| 0 <= i < m.0@.len() ==> #[trigger] line_cols(views(m.0@), opt_view(m.1), i) <= usize::MAX {
                        lemma_total_mono(width as nat, ms, j + 1, ms.len() as int);
                    } else {
                        assert(!columns_fit(ms));
                    }
                }
                return None;
            },
        }
        j = j + 1;
    }
    Some(lines)
}

/// How items are shown, one after the other.
pub open spec fn shown_all<T: ViewModelFmt>(msgs: Seq<T>) -> Seq<(Seq<Seq<char>>, Option<Seq<char>>)> {
    msgs.map_values(|m: T| m.shown())
}

/// The line count of formatted items in a box `width` columns wide, or the
/// largest `usize` where a column count or the total does not fit in `usize`.
pub open spec fn counted_lines(width: nat, f: Seq<(Seq<Seq<char>>, Option<Seq<char>>)>) -> nat {
    if columns_fit(f) && total_lines(width, f) <= usize::MAX {
        total_lines(width, f)
    } else {
        usize::MAX as nat
    }
}

/// Terminal lines that the items of a list take in a box `width` columns wide
/// (each item as `formart` shows it). A count beyond `usize` is given as the
/// largest `usize`.
pub fn calculate_message_lines<T: ViewModelFmt>(width: usize, message_list: &Vec<T>) -> (lines: usize)
    ensures
        lines == counted_lines(width as nat, shown_all(message_list@)),
{
    let mut formatted: Vec<(Vec<String>, Option<String>)> = Vec::new();
    let mut i: usize = 0;
    while i < message_list.len()
        invariant
            i <= message_list@.len(),
            formatted_views(formatted@) == shown_all(message_list@).take(i as int),
        decreases message_list@.len() - i,
    {
        let m = message_list[i].formart();
        let ghost before = formatted@;
        formatted.push(m);
        proof {
            assert(formatted_views(formatted@) =~= formatted_views(before).push((views(m.0@), opt_view(m.1))));
            assert(formatted_views(formatted@) =~= shown_all(message_list@).take(i + 1));
        }
        i = i + 1;
    }
    assert(shown_all(message_list@).take(message_list@.len() as int) =~= shown_all(message_list@));
    match count_formatted_lines(width, &formatted) {
        Some(n) => n,
        None => usize::MAX,
    }
}

proof fn lemma_total_upto_prefix(width: nat, f: Seq<(Seq<Seq<char>>, Option<Seq<char>>)>, g: Seq<(Seq<Seq<char>>, Option<Seq<char>>)>, n: int)
    requires
        0 <= n <= f.len(),
        f.len() <= g.len(),
        forall|j: int| 0 <= j < f.len() ==> f[j] == g[j],
    ensures
        total_lines_upto(width, f, n) == total_lines_upto(width, g, n),
    decreases n,
{
    if n > 0 {
        lemma_total_upto_prefix(width, f, g, n - 1);
    }
}

proof fn lemma_total_concat(width: nat, f: Seq<(Seq<Seq<char>>, Option<Seq<char>>)>, g: Seq<(Seq<Seq<char>>, Option<Seq<char>>)>, n: int)
    requires
        0 <= n <= g.len(),
    ensures
        total_lines_upto(width, f + g, f.len() + n) == total_lines(width, f) + total_lines_upto(width, g, n),
    decreases n,
{
    if n == 0 {
        lemma_total_upto_prefix(width, f, f + g, f.len() as int);
    } else {
        lemma_total_concat(width, f, g, n - 1);
        assert((f + g)[f.len() + n - 1] == g[n - 1]);
    }
}

/// The line count of two lists one after the other is the sum of their
/// counts (and of no list, zero), and the columns of the joined list fit
/// exactly when those of both lists do.
pub proof fn law_line_count_concat<T: ViewModelFmt>(width: nat, a: Seq<T>, b: Seq<T>)
    ensures
        total_lines(width, shown_all(a + b)) == total_lines(width, shown_all(a)) + total_lines(width, shown_all(b)),
        columns_fit(shown_all(a + b)) == (columns_fit(shown_all(a)) && columns_fit(shown_all(b))),
        total_lines(width, shown_all(Seq::<T>::empty())) == 0,
{
    let fa = shown_all(a);
    let fb = shown_all(b);
    assert(shown_all(a + b) =~= fa + fb);
    lemma_total_concat(width, fa, fb, fb.len() as int);
    let fab = fa + fb;
    if columns_fit(fa) && columns_fit(fb) {
        assert forall|j: int, i: int| 0 <= j < fab.len() && 0 <= i < fab[j].0.len() implies #[trigger] line_cols(
            fab[j].0,
            fab[j].1,
            i,
        ) <= usize::MAX by {
            if j < fa.len() {
                assert(fab[j] == fa[j]);
            } else {
                assert(fab[j] == fb[j - fa.len()]);
                assert(line_cols(fb[j - fa.len()].0, fb[j - fa.len()].1, i) <= usize::MAX);
            }
        }
    }
    if columns_fit(fab) {
        assert forall|j: int, i: int| 0 <= j < fa.len() && 0 <= i < fa[j].0.len() implies #[trigger] line_cols(
            fa[j].0,
            fa[j].1,
            i,
        ) <= usize::MAX by {
            assert(fab[j] == fa[j]);
        }
        assert forall|j: int, i: int| 0 <= j < fb.len() && 0 <= i < fb[j].0.len() implies #[trigger] line_cols(
            fb[j].0,
            fb[j].1,
            i,
        ) <= usize::MAX by {
            assert(fab[j + fa.len()] == fb[j]);
            assert(line_cols(fab[j + fa.len()].0, fab[j + fa.len()].1, i) <= usize::MAX);
        }
    }
}

/// Where to scroll a box `area_height` lines high and `area_width` columns
/// wide (two of each go to its border) that shows `line_count` lines: to the
/// first position that shows the last line, when the box follows the end,
/// the content overflows the box, and the current position is above that.
/// `None` means that the position stays.
pub open spec fn scroll_target(area_height: u16, curr_pos: usize, at_end: bool, line_count: nat) -> Option<nat> {
    let height: nat = if area_height >= 2 {
        (area_height - 2) as nat
    } else {
        0
    };
    if at_end && line_count > height && curr_pos < line_count - height {
        Some((line_count - height) as nat)
    } else {
        None
    }
}

/// The scroll position for a box that shows `line_count` lines; `None` when
/// the position stays.
pub fn scroll_position(area_height: u16, curr_pos: usize, at_end: bool, line_count: usize) -> (r: Option<usize>)
    ensures
        match r {
            Some(p) => scroll_target(area_height, curr_pos, at_end, line_count as nat) == Some(p as nat),
            None => scroll_target(area_height, curr_pos, at_end, line_count as nat) is None,
        },
{
    let height: usize = (area_height as usize).saturating_sub(2);
    let mut new_pos: usize = 0;
    if line_count > height && curr_pos < line_count - height {
        new_pos = line_count - height;
    }
    if new_pos > 0 && at_end {
        Some(new_pos)
    } else {
        None
    }
}

/// The inner width of a box `area_width` columns wide (two go to its border).
pub open spec fn inner_width(area_width: u16) -> nat {
    if area_width >= 2 {
        (area_width - 2) as nat
    } else {
        0
    }
}

/// Scrolls a list that follows its end so that its last line stays visible
/// in a box of `area_height` by `area_width` cells. Nothing changes for a box
/// without area or a list without items; otherwise the position becomes
/// `scroll_target` of the line count that `calculate_message_lines` gives.
pub fn adjust_scroll_pos<V: AutoScrollableViewModel>(state: &mut V, area_height: u16, area_width: u16)
    ensures
        final(state).msgs() == old(state).msgs(),
        final(state).at_end() == old(state).at_end(),
        (area_height == 0 || area_width == 0 || old(state).msgs().len() == 0) ==> final(state).scroll_pos() == old(state).scroll_pos()
            && final(state).scrollbar_pos() == old(state).scrollbar_pos(),
        (area_height != 0 && area_width != 0 && old(state).msgs().len() != 0) ==> final(state).scroll_pos() as nat == (
            match scroll_target(
                area_height,
                old(state).scroll_pos(),
                old(state).at_end(),
                counted_lines(inner_width(area_width), shown_all(old(state).msgs())),
            ) {
                Some(p) => p,
                None => old(state).scroll_pos() as nat,
            }),
        (area_height != 0 && area_width != 0 && old(state).msgs().len() != 0) ==> final(state).scrollbar_pos() as nat == (
            match scroll_target(
                area_height,
                old(state).scroll_pos(),
                old(state).at_end(),
                counted_lines(inner_width(area_width), shown_all(old(state).msgs())),
            ) {
                Some(p) => p,
                None => old(state).scrollbar_pos() as nat,
            }),
{
    if area_height == 0 || area_width == 0 {
        return;
    }
    let curr_pos = state.get_vertical_scroll();
    let empty = state.get_inner_msgs().len() == 0;
    if !empty {
        let width: usize = (area_width as usize).saturating_sub(2);
        let line_count = calculate_message_lines(width, state.get_inner_msgs());
        let at_end = state.get_vertical_scroll_at_end();
        if let Some(pos) = scroll_position(area_height, curr_pos, at_end, line_count) {
            state.vertical_scroll_to(pos);
        }
    }
}

} // verus!
