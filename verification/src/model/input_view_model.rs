//! The input line of the chat screen: the text being typed and the cursor,
//! counted in characters.

use vstd::prelude::*;

use crate::model::message_view_model::{Message, UserType};
use crate::text::{copy_string, char_len_utf8, chars_of, lemma_encode_utf8_take_le, lemma_encode_utf8_take_step, string_from_chars};

verus! {

/// Whether the user is typing into the input line.
#[derive(Clone, Copy, Debug, PartialEq, Eq, Structural)]
pub enum InputMode {
    Normal,
    Editing,
}

impl Default for InputMode {
    fn default() -> (m: InputMode)
        ensures
            m == InputMode::Normal,
    {
        InputMode::Normal
    }
}

/// `min(a, b)`.
pub open spec fn min_nat(a: nat, b: nat) -> nat {
    if a <= b {
        a
    } else {
        b
    }
}

/// `pos + 1`, staying at the maximum.
pub open spec fn saturating_inc(pos: usize) -> nat {
    if pos == usize::MAX {
        pos as nat
    } else {
        (pos + 1) as nat
    }
}

/// `pos - 1`, staying at zero.
pub open spec fn saturating_dec(pos: usize) -> nat {
    if pos == 0 {
        0
    } else {
        (pos - 1) as nat
    }
}

/// Text and cursor after typing `c` at cursor `ci`: the character goes in
/// before the character under the cursor (at the end when the cursor is past
/// it), and the cursor moves one to the right.
pub open spec fn entered(s: Seq<char>, ci: usize, c: char) -> (Seq<char>, nat) {
    let k = min_nat(ci as nat, s.len());
    let s2 = s.take(k as int).push(c) + s.skip(k as int);
    (s2, min_nat(saturating_inc(ci), s2.len()))
}

/// Text and cursor after deleting the character left of cursor `ci`: nothing
/// changes at the leftmost position; otherwise the characters before position
/// `ci - 1` and from position `ci` on are kept, and the cursor moves one left.
pub open spec fn deleted(s: Seq<char>, ci: usize) -> (Seq<char>, nat) {
    if ci == 0 {
        (s, 0)
    } else {
        let s2 = s.take(min_nat((ci - 1) as nat, s.len()) as int) + s.skip(min_nat(ci as nat, s.len()) as int);
        (s2, min_nat((ci - 1) as nat, s2.len()))
    }
}

/// The state of the input line.
#[derive(Clone, Debug)]
pub struct InputViewModel {
    pub myself_id: String,
    pub input: String,
    pub input_mode: InputMode,
    pub character_index: usize,
}

impl Default for InputViewModel {
    fn default() -> (m: InputViewModel)
        ensures
            m.myself_view() == Seq::<char>::empty(),
            m.input@ == Seq::<char>::empty(),
            m.input_mode == InputMode::Normal,
            m.character_index == 0,
    {
        InputViewModel {
            myself_id: String::new(),
            input: String::new(),
            input_mode: InputMode::Normal,
            character_index: 0,
        }
    }
}

impl InputViewModel {
    /// The id of the local user.
    pub open spec fn myself_view(&self) -> Seq<char> {
        self.myself_id@
    }

    /// An empty input line of user `myself_id`.
    pub fn new(myself_id: String) -> (m: InputViewModel)
        ensures
            m.myself_view() == myself_id@,
            m.input@ == Seq::<char>::empty(),
            m.input_mode == InputMode::Normal,
            m.character_index == 0,
    {
        InputViewModel {
            myself_id,
            input: String::new(),
            input_mode: InputMode::Normal,
            character_index: 0,
        }
    }

    pub fn get_myself_id(&self) -> (r: &str)
        ensures
            r@ == self.myself_view(),
    {
        self.myself_id.as_str()
    }

    /// Moves the cursor one character left, staying at zero.
    pub fn move_cursor_left(&mut self)
        ensures
            final(self).character_index == min_nat(saturating_dec(old(self).character_index), old(self).input@.len()),
            final(self).input@ == old(self).input@,
            final(self).input_mode == old(self).input_mode,
            final(self).myself_view() == old(self).myself_view(),
    {
        let cursor_moved_left = self.character_index.saturating_sub(1);
        self.character_index = self.clamp_cursor(cursor_moved_left);
    }

    /// Moves the cursor one character right, staying at the end of the text.
    pub fn move_cursor_right(&mut self)
        ensures
            final(self).character_index == min_nat(saturating_inc(old(self).character_index), old(self).input@.len()),
            final(self).input@ == old(self).input@,
            final(self).input_mode == old(self).input_mode,
            final(self).myself_view() == old(self).myself_view(),
    {
        let cursor_moved_right = self.character_index.saturating_add(1);
        self.character_index = self.clamp_cursor(cursor_moved_right);
    }

    /// Inserts `new_char` at the cursor and moves the cursor past it.
    pub fn enter_char(&mut self, new_char: char)
        ensures
            (final(self).input@, final(self).character_index as nat) == entered(old(self).input@, old(self).character_index, new_char),
            final(self).input_mode == old(self).input_mode,
            final(self).myself_view() == old(self).myself_view(),
    {
        let mut chars = chars_of(self.input.as_str());
        let k = if self.character_index <= chars.len() {
            self.character_index
        } else {
            chars.len()
        };
        let ghost s = chars@;
        chars.insert(k, new_char);
        assert(chars@ =~= s.take(k as int).push(new_char) + s.skip(k as int));
        self.input = string_from_chars(chars.as_slice());
        self.move_cursor_right();
    }

    /// The byte offset in `input` of the character under the cursor (the length
    /// of `input` when the cursor is past its end).
    pub fn byte_index(&self) -> (r: usize)
        requires
            vstd::utf8::encode_utf8(self.input@).len() <= usize::MAX,
        ensures
            r == vstd::utf8::encode_utf8(self.input@.take(min_nat(self.character_index as nat, self.input@.len()) as int)).len(),
    {
        let chars = chars_of(self.input.as_str());
        let k = if self.character_index <= chars.len() {
            self.character_index
        } else {
            chars.len()
        };
        let mut offset: usize = 0;
        let mut i: usize = 0;
        while i < k
            invariant
                k <= chars@.len(),
                chars@ == self.input@,
                i <= k,
                vstd::utf8::encode_utf8(self.input@).len() <= usize::MAX,
                offset == vstd::utf8::encode_utf8(chars@.take(i as int)).len(),
            decreases k - i,
        {
            proof {
                lemma_encode_utf8_take_step(chars@, i as int);
                lemma_encode_utf8_take_le(chars@, i + 1);
            }
            offset = offset + char_len_utf8(chars[i]);
            i = i + 1;
        }
        offset
    }

    /// Deletes the character left of the cursor and moves the cursor left.
    pub fn delete_char(&mut self)
        ensures
            (final(self).input@, final(self).character_index as nat) == deleted(old(self).input@, old(self).character_index),
            final(self).input_mode == old(self).input_mode,
            final(self).myself_view() == old(self).myself_view(),
    {
        let is_not_cursor_leftmost = self.character_index != 0;
        if is_not_cursor_leftmost {
            let current_index = self.character_index;
            let from_left_to_current_index = current_index - 1;
            let chars = chars_of(self.input.as_str());
            let ghost s = chars@;
            let mut kept: Vec<char> = Vec::new();
            let mut i: usize = 0;
            while i < chars.len() && i < from_left_to_current_index
                invariant
                    i <= chars@.len(),
                    i <= from_left_to_current_index,
                    kept@ == s.take(i as int),
                    chars@ == s,
                decreases chars@.len() - i,
            {
                kept.push(chars[i]);
                assert(s.take(i as int).push(s[i as int]) =~= s.take(i + 1));
                i = i + 1;
            }
            assert(kept@ == s.take(min_nat(from_left_to_current_index as nat, s.len()) as int));
            let ghost before = kept@;
            let mut j: usize = current_index;
            while j < chars.len()
                invariant
                    current_index <= j || chars@.len() <= j,
                    kept@ == before + s.subrange(min_nat(current_index as nat, s.len()) as int, if j < s.len() { j as int } else { s.len() as int }),
                    chars@ == s,
                decreases chars@.len() - j,
            {
                kept.push(chars[j]);
                assert(s.subrange(min_nat(current_index as nat, s.len()) as int, j as int).push(s[j as int])
                    =~= s.subrange(min_nat(current_index as nat, s.len()) as int, j + 1));
                j = j + 1;
            }
            assert(s.subrange(min_nat(current_index as nat, s.len()) as int, s.len() as int) =~= s.skip(min_nat(current_index as nat, s.len()) as int));
            self.input = string_from_chars(kept.as_slice());
            self.move_cursor_left();
        }
    }

    /// `new_cursor_pos`, limited to the number of characters of the input.
    pub fn clamp_cursor(&self, new_cursor_pos: usize) -> (r: usize)
        ensures
            r == min_nat(new_cursor_pos as nat, self.input@.len()),
    {
        let count = chars_of(self.input.as_str()).len();
        if new_cursor_pos <= count {
            new_cursor_pos
        } else {
            count
        }
    }

    /// Makes a message of the text typed so far, written now by the local
    /// user and shown at the local offset `offset_secs`, and empties the
    /// input line.
    pub fn submit_message(&mut self, offset_secs: i32) -> (m: Message)
        ensures
            m.content_view() == old(self).input@,
            m.offset_view() == offset_secs,
            m.user_view() matches UserType::User(id) && id@ == old(self).myself_view(),
            m.route_view() is None,
            final(self).input@ == Seq::<char>::empty(),
            final(self).character_index == 0,
            final(self).input_mode == old(self).input_mode,
            final(self).myself_view() == old(self).myself_view(),
    {
        let msg = Message::new(crate::time::now(), offset_secs, copy_string(&self.input), UserType::User(copy_string(&self.myself_id)), None);
        self.input = String::new();
        self.reset_cursor();
        msg
    }

    /// Moves the cursor to the start of the line.
    pub fn reset_cursor(&mut self)
        ensures
            final(self).character_index == 0,
            final(self).input@ == old(self).input@,
            final(self).input_mode == old(self).input_mode,
            final(self).myself_view() == old(self).myself_view(),
    {
        self.character_index = 0;
    }
}

/// Deleting right after typing a character gives back the text and the
/// cursor that were there before, whenever the cursor was within the text.
pub proof fn law_delete_undoes_enter(s: Seq<char>, ci: usize, c: char)
    requires
        ci <= s.len(),
        ci < usize::MAX,
    ensures
        ({
            let (s1, ci1) = entered(s, ci, c);
            ci1 <= usize::MAX && deleted(s1, ci1 as usize) == (s, ci as nat)
        }),
{
    let (s1, ci1) = entered(s, ci, c);
    assert(ci1 == ci + 1);
    let (s2, ci2) = deleted(s1, ci1 as usize);
    assert(s1.take(ci as int) =~= s.take(ci as int));
    assert(s1.skip(ci + 1) =~= s.skip(ci as int));
    assert(s2 =~= s);
}

/// The cursor never passes the end of the text once it is within it: typing
/// and deleting keep it between zero and the number of characters.
pub proof fn law_cursor_within_text(s: Seq<char>, ci: usize, c: char)
    requires
        ci <= s.len(),
    ensures
        entered(s, ci, c).1 <= entered(s, ci, c).0.len(),
        deleted(s, ci).1 <= deleted(s, ci).0.len(),
{
}

} // verus!
