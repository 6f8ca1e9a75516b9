//! A bounded buffer of output lines with a scroll position counted from the
//! bottom (0 = following the newest line).
use vstd::prelude::*;

verus! {

/// Default number of lines kept.
pub const DEFAULT_MAX_LINES: usize = 10000;

/// Lines as character sequences.
pub open spec fn lines_view(lines: Seq<String>) -> Seq<Seq<char>> {
    lines.map_values(|s: String| s@)
}

/// The last `max` entries of `all` (all of them when there are fewer).
pub open spec fn keep_last(all: Seq<Seq<char>>, max: int) -> Seq<Seq<char>> {
    if all.len() > max {
        all.subrange(all.len() - max, all.len() as int)
    } else {
        all
    }
}

/// Rows of the display area that hold lines: two rows go to the borders.
pub open spec fn rows_for(area_height: int) -> int {
    if area_height >= 2 {
        area_height - 2
    } else {
        0
    }
}

/// First visible line for `total` lines scrolled `scroll` up from the bottom.
pub open spec fn window_start(total: int, scroll: int, area_height: int) -> int {
    let visible = rows_for(area_height);
    if total >= visible + scroll {
        total - visible - scroll
    } else {
        0
    }
}

/// One past the last visible line.
pub open spec fn window_end(total: int, scroll: int, area_height: int) -> int {
    let start = window_start(total, scroll, area_height);
    let visible = rows_for(area_height);
    if start + visible < total {
        start + visible
    } else {
        total
    }
}

/// The text shown when there is no line yet.
pub open spec fn placeholder_view() -> Seq<char> {
    "[No output yet]"@
}

/// The lines visible in a display area of `area_height` rows: a placeholder
/// line when there is no line at all, nothing when the area has no row for
/// lines, otherwise the window ending `scroll` lines above the newest line.
pub open spec fn visible_spec(lines: Seq<Seq<char>>, scroll: int, area_height: int) -> Seq<Seq<char>> {
    if lines.len() == 0 {
        seq![placeholder_view()]
    } else if rows_for(area_height) == 0 {
        Seq::empty()
    } else {
        lines.subrange(
            window_start(lines.len() as int, scroll, area_height),
            window_end(lines.len() as int, scroll, area_height),
        )
    }
}

/// Largest scroll position for `total` lines.
pub open spec fn max_scroll(total: int) -> int {
    if total >= 1 {
        total - 1
    } else {
        0
    }
}

/// Scroll position after scrolling up by `n`.
pub open spec fn scroll_up_spec(scroll: int, n: int, total: int) -> int {
    if scroll + n < max_scroll(total) {
        scroll + n
    } else {
        max_scroll(total)
    }
}

/// Scroll position after scrolling down by `n`.
pub open spec fn scroll_down_spec(scroll: int, n: int) -> int {
    if scroll >= n {
        scroll - n
    } else {
        0
    }
}

/// Scroll position after a new line arrives: a view scrolled up moves one
/// line closer to the bottom; one at the bottom stays there.
pub open spec fn after_push_scroll(scroll: int) -> int {
    if scroll > 0 {
        scroll - 1
    } else {
        0
    }
}

/// Scroll state for a status display.
#[derive(Clone, Copy, PartialEq, Eq, Structural, Debug)]
pub struct ScrollInfo {
    pub total_lines: usize,
    pub scroll_position: usize,
    pub at_bottom: bool,
    pub at_top: bool,
}

/// The scroll state of `total` lines at `scroll` in an area of `area_height`.
pub open spec fn scroll_info_spec(total: int, scroll: int, area_height: int) -> ScrollInfo {
    let visible = rows_for(area_height);
    ScrollInfo {
        total_lines: total as usize,
        scroll_position: scroll as usize,
        at_bottom: scroll == 0,
        at_top: scroll >= (if total >= visible { total - visible } else { 0 }),
    }
}

/// The placeholder line.
pub(crate) fn placeholder() -> (r: String)
    ensures
        r@ == placeholder_view(),
{
    String::from_str("[No output yet]")
}

/// The visible lines of `lines`.
pub(crate) fn visible_lines(lines: &Vec<String>, scroll: usize, area_height: usize) -> (r: Vec<String>)
    ensures
        lines_view(r@) == visible_spec(lines_view(lines@), scroll as int, area_height as int),
{
    let ghost lv = lines_view(lines@);
    if lines.len() == 0 {
        let mut r: Vec<String> = Vec::new();
        r.push(placeholder());
        assert(lines_view(r@) =~= seq![placeholder_view()]);
        return r;
    }
    let visible = area_height.saturating_sub(2);
    if visible == 0 {
        let r: Vec<String> = Vec::new();
        assert(lines_view(r@) =~= Seq::<Seq<char>>::empty());
        return r;
    }
    let total = lines.len();
    let start = total.saturating_sub(visible.saturating_add(scroll));
    let end = if start + visible < total {
        start + visible
    } else {
        total
    };
    let mut r: Vec<String> = Vec::new();
    let mut i = start;
    while i < end
        invariant
            start <= i <= end <= total,
            total == lines.len(),
            lines_view(r@) == lines_view(lines@).subrange(start as int, i as int),
        decreases end - i,
    {
        let line: String = lines[i].clone();
        assert(line@ == lines@[i as int]@);
        let ghost before = r@;
        r.push(line);
        assert(r@ == before.push(line));
        assert(lines_view(r@) =~= lines_view(before).push(line@));
        assert(lines_view(lines@)[i as int] == lines@[i as int]@);
        assert(lines_view(lines@).subrange(start as int, i + 1) =~= lines_view(lines@).subrange(start as int, i as int).push(lines_view(lines@)[i as int]));
        i = i + 1;
    }
    r
}

/// Drops the oldest lines until at most `max` remain.
pub(crate) fn keep_newest(lines: &mut Vec<String>, max: usize)
    ensures
        lines_view(final(lines)@) == keep_last(lines_view(old(lines)@), max as int),
{
    let ghost all = lines_view(lines@);
    while lines.len() > max
        invariant
            lines@.len() >= max ==> lines_view(lines@) == all.subrange(all.len() - lines@.len(), all.len() as int),
            lines@.len() < max ==> lines_view(lines@) == all,
            lines@.len() <= all.len(),
            all == lines_view(old(lines)@),
        decreases lines.len(),
    {
        let ghost before = lines@;
        lines.remove(0);
        assert(lines_view(lines@) =~= lines_view(before).subrange(1, before.len() as int));
    }
    proof {
        if all.len() <= max {
            assert(all.subrange(0, all.len() as int) =~= all);
        }
    }
}

/// A bounded, scrollable buffer of output lines.
#[derive(Clone, Debug)]
pub struct OutputBuffer {
    lines: Vec<String>,
    scroll_position: usize,
    max_lines: usize,
}

impl OutputBuffer {
    /// The stored lines, oldest first.
    pub closed spec fn lines_spec(&self) -> Seq<Seq<char>> {
        lines_view(self.lines@)
    }

    /// Lines scrolled up from the bottom.
    pub closed spec fn scroll_spec(&self) -> int {
        self.scroll_position as int
    }

    /// Most lines kept.
    pub closed spec fn max_lines_spec(&self) -> int {
        self.max_lines as int
    }

    /// An empty buffer keeping the default number of lines.
    pub fn new() -> (r: OutputBuffer)
        ensures
            r.lines_spec().len() == 0,
            r.scroll_spec() == 0,
            r.max_lines_spec() == DEFAULT_MAX_LINES,
    {
        OutputBuffer::with_capacity(DEFAULT_MAX_LINES)
    }

    /// An empty buffer keeping at most `max_lines` lines.
    pub fn with_capacity(max_lines: usize) -> (r: OutputBuffer)
        ensures
            r.lines_spec().len() == 0,
            r.scroll_spec() == 0,
            r.max_lines_spec() == max_lines,
    {
        let r = OutputBuffer { lines: Vec::new(), scroll_position: 0, max_lines };
        assert(r.lines_spec() =~= Seq::<Seq<char>>::empty());
        r
    }

    /// Appends a line, dropping the oldest beyond the capacity; a view
    /// scrolled up moves one line toward the bottom.
    pub fn push_line(&mut self, line: String)
        ensures
            final(self).lines_spec() == keep_last(old(self).lines_spec().push(line@), old(self).max_lines_spec()),
            final(self).scroll_spec() == after_push_scroll(old(self).scroll_spec()),
            final(self).max_lines_spec() == old(self).max_lines_spec(),
    {
        let ghost before = self.lines@;
        self.lines.push(line);
        assert(lines_view(self.lines@) =~= lines_view(before).push(line@));
        keep_newest(&mut self.lines, self.max_lines);
        if self.scroll_position != 0 {
            self.scroll_position = self.scroll_position - 1;
        }
    }

    /// The lines visible in an area of `area_height` rows.
    pub fn get_visible_lines(&self, area_height: usize) -> (r: Vec<String>)
        ensures
            lines_view(r@) == visible_spec(self.lines_spec(), self.scroll_spec(), area_height as int),
    {
        visible_lines(&self.lines, self.scroll_position, area_height)
    }

    /// Scrolls up by `lines`, stopping at the oldest line.
    pub fn scroll_up(&mut self, lines: usize)
        ensures
            final(self).lines_spec() == old(self).lines_spec(),
            final(self).max_lines_spec() == old(self).max_lines_spec(),
            final(self).scroll_spec() == scroll_up_spec(old(self).scroll_spec(), lines as int, old(self).lines_spec().len() as int),
    {
        let top = self.lines.len().saturating_sub(1);
        let want = self.scroll_position.saturating_add(lines);
        self.scroll_position = if want < top {
            want
        } else {
            top
        };
    }

    /// Scrolls down by `lines`, stopping at the bottom.
    pub fn scroll_down(&mut self, lines: usize)
        ensures
            final(self).lines_spec() == old(self).lines_spec(),
            final(self).max_lines_spec() == old(self).max_lines_spec(),
            final(self).scroll_spec() == scroll_down_spec(old(self).scroll_spec(), lines as int),
    {
        self.scroll_position = self.scroll_position.saturating_sub(lines);
    }

    /// Jumps to the newest line.
    pub fn scroll_to_bottom(&mut self)
        ensures
            final(self).lines_spec() == old(self).lines_spec(),
            final(self).max_lines_spec() == old(self).max_lines_spec(),
            final(self).scroll_spec() == 0,
    {
        self.scroll_position = 0;
    }

    /// Jumps to the oldest line.
    pub fn scroll_to_top(&mut self)
        ensures
            final(self).lines_spec() == old(self).lines_spec(),
            final(self).max_lines_spec() == old(self).max_lines_spec(),
            final(self).scroll_spec() == max_scroll(old(self).lines_spec().len() as int),
    {
        self.scroll_position = self.lines.len().saturating_sub(1);
    }

    /// The scroll state for a display area of `area_height` rows.
    pub fn scroll_info(&self, area_height: usize) -> (r: ScrollInfo)
        ensures
            r == scroll_info_spec(self.lines_spec().len() as int, self.scroll_spec(), area_height as int),
    {
        let total = self.lines.len();
        let visible = area_height.saturating_sub(2);
        ScrollInfo {
            total_lines: total,
            scroll_position: self.scroll_position,
            at_bottom: self.scroll_position == 0,
            at_top: self.scroll_position >= total.saturating_sub(visible),
        }
    }

    /// Removes every line and returns to the bottom.
    pub fn clear(&mut self)
        ensures
            final(self).lines_spec().len() == 0,
            final(self).scroll_spec() == 0,
            final(self).max_lines_spec() == old(self).max_lines_spec(),
    {
        self.lines.clear();
        self.scroll_position = 0;
    }
}

impl Default for OutputBuffer {
    fn default() -> (r: OutputBuffer)
        ensures
            r.lines_spec().len() == 0,
            r.scroll_spec() == 0,
            r.max_lines_spec() == DEFAULT_MAX_LINES,
    {
        OutputBuffer::new()
    }
}

} // verus!
