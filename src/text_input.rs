//! A single-line text field: its characters and a cursor between them.
use vstd::prelude::*;
use crate::text::{is_space, is_whitespace, chars_of, string_of};

verus! {

/// Position reached from `pos` by stepping left over whitespace.
pub open spec fn back_over_spaces(s: Seq<char>, pos: int) -> int
    decreases pos,
{
    if pos > 0 && pos <= s.len() && is_space(s[pos - 1]) {
        back_over_spaces(s, pos - 1)
    } else {
        pos
    }
}

/// Position reached from `pos` by stepping left over non-whitespace.
pub open spec fn back_over_word(s: Seq<char>, pos: int) -> int
    decreases pos,
{
    if pos > 0 && pos <= s.len() && !is_space(s[pos - 1]) {
        back_over_word(s, pos - 1)
    } else {
        pos
    }
}

/// Position reached from `pos` by stepping right over whitespace.
pub open spec fn fwd_over_spaces(s: Seq<char>, pos: int) -> int
    decreases s.len() - pos,
{
    if 0 <= pos < s.len() && is_space(s[pos]) {
        fwd_over_spaces(s, pos + 1)
    } else {
        pos
    }
}

/// Position reached from `pos` by stepping right over non-whitespace.
pub open spec fn fwd_over_word(s: Seq<char>, pos: int) -> int
    decreases s.len() - pos,
{
    if 0 <= pos < s.len() && !is_space(s[pos]) {
        fwd_over_word(s, pos + 1)
    } else {
        pos
    }
}

/// Start of the word before `pos`: skip whitespace, then the word.
pub open spec fn prev_word_start(s: Seq<char>, pos: int) -> int {
    back_over_word(s, back_over_spaces(s, pos))
}

/// End of the word after `pos`: skip whitespace, then the word.
pub open spec fn next_word_end(s: Seq<char>, pos: int) -> int {
    fwd_over_word(s, fwd_over_spaces(s, pos))
}

/// Start of the next word after `pos`: skip the word, then whitespace.
pub open spec fn next_word_start(s: Seq<char>, pos: int) -> int {
    fwd_over_spaces(s, fwd_over_word(s, pos))
}

proof fn lemma_back_bounds(s: Seq<char>, pos: int)
    requires
        0 <= pos <= s.len(),
    ensures
        0 <= back_over_spaces(s, pos) <= pos,
        0 <= back_over_word(s, pos) <= pos,
        0 <= prev_word_start(s, pos) <= pos,
    decreases pos,
{
    if pos > 0 {
        lemma_back_bounds(s, pos - 1);
    }
    let b = back_over_spaces(s, pos);
    lemma_back_word_bounds(s, b);
}

proof fn lemma_back_word_bounds(s: Seq<char>, pos: int)
    requires
        0 <= pos <= s.len(),
    ensures
        0 <= back_over_word(s, pos) <= pos,
    decreases pos,
{
    if pos > 0 {
        lemma_back_word_bounds(s, pos - 1);
    }
}

proof fn lemma_fwd_bounds(s: Seq<char>, pos: int)
    requires
        0 <= pos <= s.len(),
    ensures
        pos <= fwd_over_spaces(s, pos) <= s.len(),
        pos <= fwd_over_word(s, pos) <= s.len(),
    decreases s.len() - pos,
{
    if pos < s.len() {
        lemma_fwd_bounds(s, pos + 1);
    }
}

/// Steps left from `pos` over whitespace.
fn skip_back_spaces(s: &Vec<char>, pos: usize) -> (r: usize)
    requires
        pos <= s.len(),
    ensures
        r == back_over_spaces(s@, pos as int),
{
    let mut p = pos;
    while p > 0 && is_whitespace(s[p - 1])
        invariant
            p <= pos <= s.len(),
            back_over_spaces(s@, p as int) == back_over_spaces(s@, pos as int),
        decreases p,
    {
        p = p - 1;
    }
    p
}

/// Steps left from `pos` over non-whitespace.
fn skip_back_word(s: &Vec<char>, pos: usize) -> (r: usize)
    requires
        pos <= s.len(),
    ensures
        r == back_over_word(s@, pos as int),
{
    let mut p = pos;
    while p > 0 && !is_whitespace(s[p - 1])
        invariant
            p <= pos <= s.len(),
            back_over_word(s@, p as int) == back_over_word(s@, pos as int),
        decreases p,
    {
        p = p - 1;
    }
    p
}

/// Steps right from `pos` over whitespace.
fn skip_fwd_spaces(s: &Vec<char>, pos: usize) -> (r: usize)
    requires
        pos <= s.len(),
    ensures
        r == fwd_over_spaces(s@, pos as int),
{
    let mut p = pos;
    while p < s.len() && is_whitespace(s[p])
        invariant
            pos <= p <= s.len(),
            fwd_over_spaces(s@, p as int) == fwd_over_spaces(s@, pos as int),
        decreases s.len() - p,
    {
        p = p + 1;
    }
    p
}

/// Steps right from `pos` over non-whitespace.
fn skip_fwd_word(s: &Vec<char>, pos: usize) -> (r: usize)
    requires
        pos <= s.len(),
    ensures
        r == fwd_over_word(s@, pos as int),
{
    let mut p = pos;
    while p < s.len() && !is_whitespace(s[p])
        invariant
            pos <= p <= s.len(),
            fwd_over_word(s@, p as int) == fwd_over_word(s@, pos as int),
        decreases s.len() - p,
    {
        p = p + 1;
    }
    p
}

/// `s[..lo]` followed by `s[hi..]`.
fn cut(s: &Vec<char>, lo: usize, hi: usize) -> (r: Vec<char>)
    requires
        lo <= hi <= s.len(),
    ensures
        r@ == s@.subrange(0, lo as int) + s@.subrange(hi as int, s@.len() as int),
{
    let mut r: Vec<char> = Vec::new();
    let mut i: usize = 0;
    while i < lo
        invariant
            i <= lo <= hi <= s.len(),
            r@ == s@.subrange(0, i as int),
        decreases lo - i,
    {
        r.push(s[i]);
        i = i + 1;
    }
    let mut j: usize = hi;
    while j < s.len()
        invariant
            lo <= hi <= j <= s.len(),
            r@ == s@.subrange(0, lo as int) + s@.subrange(hi as int, j as int),
        decreases s.len() - j,
    {
        r.push(s[j]);
        assert(s@.subrange(hi as int, j + 1) == s@.subrange(hi as int, j as int).push(s@[j as int]));
        j = j + 1;
    }
    r
}

/// A copy of `s`.
fn copy_chars(s: &Vec<char>) -> (r: Vec<char>)
    ensures
        r@ == s@,
{
    let mut r: Vec<char> = Vec::new();
    let mut i: usize = 0;
    while i < s.len()
        invariant
            i <= s.len(),
            r@ == s@.subrange(0, i as int),
        decreases s.len() - i,
    {
        r.push(s[i]);
        i = i + 1;
    }
    r
}

/// A text field with a cursor counted in characters.
#[derive(Debug)]
pub struct TextInput {
    text: Vec<char>,
    cursor: usize,
}

impl TextInput {
    #[verifier::type_invariant]
    spec fn inv(&self) -> bool {
        self.cursor <= self.text.len()
    }

    /// The characters of the field.
    pub closed spec fn text_view(&self) -> Seq<char> {
        self.text@
    }

    /// The cursor position, between 0 and the number of characters.
    pub closed spec fn cursor_view(&self) -> int {
        self.cursor as int
    }

    /// An empty field.
    pub fn new() -> (r: TextInput)
        ensures
            r.text_view() == Seq::<char>::empty(),
            r.cursor_view() == 0,
    {
        TextInput { text: Vec::new(), cursor: 0 }
    }

    /// A field holding `text`, with the cursor at its end.
    pub fn with_text(text: String) -> (r: TextInput)
        ensures
            r.text_view() == text@,
            r.cursor_view() == text@.len(),
    {
        let chars = chars_of(text.as_str());
        let n = chars.len();
        TextInput { text: chars, cursor: n }
    }

    /// The text of the field.
    pub fn text(&self) -> (r: String)
        ensures
            r@ == self.text_view(),
    {
        string_of(&self.text)
    }

    /// The cursor position.
    pub fn cursor(&self) -> (r: usize)
        ensures
            r == self.cursor_view(),
            r <= self.text_view().len(),
    {
        proof {
            use_type_invariant(self);
        }
        self.cursor
    }

    /// Replaces the text and puts the cursor at its end.
    pub fn set_text(&mut self, text: String)
        ensures
            final(self).text_view() == text@,
            final(self).cursor_view() == text@.len(),
    {
        let chars = chars_of(text.as_str());
        let n = chars.len();
        *self = TextInput { text: chars, cursor: n };
    }

    /// Empties the field.
    pub fn clear(&mut self)
        ensures
            final(self).text_view() == Seq::<char>::empty(),
            final(self).cursor_view() == 0,
    {
        *self = TextInput { text: Vec::new(), cursor: 0 };
    }

    /// Whether the field is empty.
    pub fn is_empty(&self) -> (r: bool)
        ensures
            r == (self.text_view().len() == 0),
    {
        self.text.len() == 0
    }

    /// Inserts `c` at the cursor and moves the cursor past it.
    pub fn insert_char(&mut self, c: char)
        ensures
            final(self).text_view() == old(self).text_view().insert(old(self).cursor_view(), c),
            final(self).cursor_view() == old(self).cursor_view() + 1,
    {
        proof {
            use_type_invariant(&*self);
        }
        let at = self.cursor;
        let mut text = copy_chars(&self.text);
        text.insert(at, c);
        let n = text.len();
        assert(at < n);
        let cursor = at + 1;
        *self = TextInput { text, cursor };
    }

    /// Inserts `s` at the cursor and moves the cursor past it.
    pub fn insert_str(&mut self, s: &str)
        ensures
            final(self).text_view() == old(self).text_view().subrange(0, old(self).cursor_view()) + s@
                + old(self).text_view().subrange(old(self).cursor_view(), old(self).text_view().len() as int),
            final(self).cursor_view() == old(self).cursor_view() + s@.len(),
    {
        proof {
            use_type_invariant(&*self);
        }
        let add = chars_of(s);
        let ghost t0 = self.text@;
        let ghost c0 = self.cursor as int;
        let mut i: usize = 0;
        while i < add.len()
            invariant
                i <= add.len(),
                c0 + i == self.cursor,
                self.text@ == t0.subrange(0, c0) + add@.subrange(0, i as int) + t0.subrange(c0, t0.len() as int),
                0 <= c0 <= t0.len(),
            decreases add.len() - i,
        {
            proof {
                use_type_invariant(&*self);
            }
            let ghost before = self.text@;
            self.insert_char(add[i]);
            assert(add@.subrange(0, i + 1) == add@.subrange(0, i as int).push(add@[i as int]));
            assert(self.text@ =~= t0.subrange(0, c0) + add@.subrange(0, i + 1) + t0.subrange(c0, t0.len() as int));
            i = i + 1;
        }
        assert(add@.subrange(0, add@.len() as int) == add@);
    }

    /// Deletes the character before the cursor (backspace).
    pub fn remove_previous_char(&mut self)
        ensures
            old(self).cursor_view() > 0 ==> final(self).text_view() == old(self).text_view().remove(
                old(self).cursor_view() - 1,
            ) && final(self).cursor_view() == old(self).cursor_view() - 1,
            old(self).cursor_view() <= 0 ==> *final(self) == *old(self),
    {
        proof {
            use_type_invariant(&*self);
        }
        if self.cursor > 0 {
            let at = self.cursor - 1;
            let text = cut(&self.text, at, at + 1);
            assert(text@ =~= self.text@.remove(at as int));
            *self = TextInput { text, cursor: at };
        }
    }

    /// Deletes the character at the cursor (delete).
    pub fn remove_next_char(&mut self)
        ensures
            old(self).cursor_view() < old(self).text_view().len() ==> final(self).text_view() == old(
                self,
            ).text_view().remove(old(self).cursor_view()),
            final(self).cursor_view() == old(self).cursor_view(),
            old(self).cursor_view() >= old(self).text_view().len() ==> *final(self) == *old(self),
    {
        proof {
            use_type_invariant(&*self);
        }
        if self.cursor < self.text.len() {
            let at = self.cursor;
            let text = cut(&self.text, at, at + 1);
            assert(text@ =~= self.text@.remove(at as int));
            *self = TextInput { text, cursor: at };
        }
    }

    /// Deletes the word before the cursor, with the whitespace between it and
    /// the cursor, and moves the cursor to where the word began.
    pub fn delete_previous_word(&mut self)
        ensures
            ({
                let s = old(self).text_view();
                let c = old(self).cursor_view();
                let p = prev_word_start(s, c);
                &&& final(self).text_view() == s.subrange(0, p) + s.subrange(c, s.len() as int)
                &&& final(self).cursor_view() == p
            }),
    {
        proof {
            use_type_invariant(&*self);
            lemma_back_bounds(self.text@, self.cursor as int);
        }
        let c = self.cursor;
        let b = skip_back_spaces(&self.text, c);
        proof {
            lemma_back_word_bounds(self.text@, b as int);
        }
        let p = skip_back_word(&self.text, b);
        let text = cut(&self.text, p, c);
        *self = TextInput { text, cursor: p };
    }

    /// Deletes from the cursor to the end of the next word, whitespace
    /// before it included; the cursor stays.
    pub fn delete_next_word(&mut self)
        ensures
            ({
                let s = old(self).text_view();
                let c = old(self).cursor_view();
                let e = next_word_end(s, c);
                &&& final(self).text_view() == s.subrange(0, c) + s.subrange(e, s.len() as int)
                &&& final(self).cursor_view() == c
            }),
    {
        proof {
            use_type_invariant(&*self);
            lemma_fwd_bounds(self.text@, self.cursor as int);
        }
        let c = self.cursor;
        let a = skip_fwd_spaces(&self.text, c);
        proof {
            lemma_fwd_bounds(self.text@, a as int);
        }
        let e = skip_fwd_word(&self.text, a);
        let text = cut(&self.text, c, e);
        *self = TextInput { text, cursor: c };
    }

    /// Moves the cursor to the start of the word before it (Ctrl+Left).
    pub fn move_cursor_to_previous_word(&mut self)
        ensures
            final(self).text_view() == old(self).text_view(),
            final(self).cursor_view() == prev_word_start(old(self).text_view(), old(self).cursor_view()),
    {
        proof {
            use_type_invariant(&*self);
            lemma_back_bounds(self.text@, self.cursor as int);
        }
        let b = skip_back_spaces(&self.text, self.cursor);
        proof {
            lemma_back_word_bounds(self.text@, b as int);
        }
        let p = skip_back_word(&self.text, b);
        self.cursor = p;
    }

    /// Moves the cursor past the current word and the whitespace after it
    /// (Ctrl+Right).
    pub fn move_cursor_to_next_word(&mut self)
        ensures
            final(self).text_view() == old(self).text_view(),
            final(self).cursor_view() == next_word_start(old(self).text_view(), old(self).cursor_view()),
    {
        proof {
            use_type_invariant(&*self);
            lemma_fwd_bounds(self.text@, self.cursor as int);
        }
        let a = skip_fwd_word(&self.text, self.cursor);
        proof {
            lemma_fwd_bounds(self.text@, a as int);
        }
        let p = skip_fwd_spaces(&self.text, a);
        self.cursor = p;
    }

    /// Moves the cursor one character left, stopping at the start.
    pub fn move_cursor_left(&mut self)
        ensures
            final(self).text_view() == old(self).text_view(),
            final(self).cursor_view() == if old(self).cursor_view() > 0 {
                old(self).cursor_view() - 1
            } else {
                0
            },
    {
        proof {
            use_type_invariant(&*self);
        }
        if self.cursor > 0 {
            self.cursor = self.cursor - 1;
        }
    }

    /// Moves the cursor one character right, stopping at the end.
    pub fn move_cursor_right(&mut self)
        ensures
            final(self).text_view() == old(self).text_view(),
            final(self).cursor_view() == if old(self).cursor_view() < old(self).text_view().len() {
                old(self).cursor_view() + 1
            } else {
                old(self).text_view().len() as int
            },
    {
        proof {
            use_type_invariant(&*self);
        }
        if self.cursor < self.text.len() {
            self.cursor = self.cursor + 1;
        }
    }

    /// Puts the cursor at `position`, clamped to the end of the text.
    pub fn set_cursor(&mut self, position: usize)
        ensures
            final(self).text_view() == old(self).text_view(),
            final(self).cursor_view() == if position <= old(self).text_view().len() {
                position as int
            } else {
                old(self).text_view().len() as int
            },
    {
        if position <= self.text.len() {
            self.cursor = position;
        } else {
            self.cursor = self.text.len();
        }
    }
}

impl Clone for TextInput {
    fn clone(&self) -> (r: TextInput)
        ensures
            r.text_view() == self.text_view(),
            r.cursor_view() == self.cursor_view(),
    {
        proof {
            use_type_invariant(self);
        }
        TextInput { text: copy_chars(&self.text), cursor: self.cursor }
    }
}

impl Default for TextInput {
    fn default() -> (r: TextInput)
        ensures
            r.text_view() == Seq::<char>::empty(),
            r.cursor_view() == 0,
    {
        TextInput::new()
    }
}

} // verus!
