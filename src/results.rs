//! The results pane: scan output lines with scrolling, and the messages
//! that change it.
use vstd::prelude::*;
use crate::output_buffer::{
    lines_view, keep_last, visible_spec, scroll_up_spec, scroll_down_spec, max_scroll,
    after_push_scroll, scroll_info_spec, ScrollInfo, DEFAULT_MAX_LINES, visible_lines, keep_newest,
};
use crate::text::{split_spec, split_chars, chars_of, string_of};

verus! {

/// Messages for the results pane.
#[derive(Clone, Debug)]
pub enum ResultsMsg {
    AppendLine(String),
    AppendLines(Vec<String>),
    Clear,
    ScrollUp(usize),
    ScrollDown(usize),
    ScrollToTop,
    ScrollToBottom,
}

/// Lines after appending `line`, split at line breaks, keeping at most `max`.
pub open spec fn append_spec(lines: Seq<Seq<char>>, max: int, line: Seq<char>) -> Seq<Seq<char>> {
    keep_last(lines + split_spec(line, '\n'), max)
}

/// Lines after appending each of `added` in turn.
pub open spec fn append_all_lines(lines: Seq<Seq<char>>, max: int, added: Seq<Seq<char>>) -> Seq<Seq<char>>
    decreases added.len(),
{
    if added.len() == 0 {
        lines
    } else {
        append_spec(append_all_lines(lines, max, added.drop_last()), max, added.last())
    }
}

/// Scroll position after `n` appends.
pub open spec fn append_all_scroll(scroll: int, n: int) -> int
    decreases n,
{
    if n <= 0 {
        scroll
    } else {
        after_push_scroll(append_all_scroll(scroll, n - 1))
    }
}

/// The output shown in the results pane.
#[derive(Clone, Debug)]
pub struct ResultsModel {
    pub lines: Vec<String>,
    /// Lines scrolled up from the bottom (0 = following the newest line).
    pub scroll_position: usize,
    pub max_lines: usize,
}

impl ResultsModel {
    /// The stored lines as character sequences.
    pub open spec fn lines_spec(&self) -> Seq<Seq<char>> {
        lines_view(self.lines@)
    }

    /// Appends `line`, one entry per piece between line breaks, drops the
    /// oldest beyond `max_lines`, and moves a scrolled-up view one line
    /// toward the bottom.
    pub fn push_line(&mut self, line: String)
        ensures
            final(self).lines_spec() == append_spec(old(self).lines_spec(), old(self).max_lines as int, line@),
            final(self).scroll_position == after_push_scroll(old(self).scroll_position as int),
            final(self).max_lines == old(self).max_lines,
    {
        let chars = chars_of(line.as_str());
        let pieces = split_chars(&chars, '\n');
        let ghost base = lines_view(self.lines@);
        let ghost added = pieces@.map_values(|v: Vec<char>| v@);
        let mut i: usize = 0;
        while i < pieces.len()
            invariant
                i <= pieces.len(),
                added == pieces@.map_values(|v: Vec<char>| v@),
                lines_view(self.lines@) == base + added.subrange(0, i as int),
                self.max_lines == old(self).max_lines,
                self.scroll_position == old(self).scroll_position,
            decreases pieces.len() - i,
        {
            let s = string_of(&pieces[i]);
            let ghost before = self.lines@;
            self.lines.push(s);
            assert(lines_view(self.lines@) =~= lines_view(before).push(s@));
            assert(added.subrange(0, i + 1) =~= added.subrange(0, i as int).push(added[i as int]));
            i = i + 1;
        }
        assert(added.subrange(0, added.len() as int) =~= added);
        keep_newest(&mut self.lines, self.max_lines);
        if self.scroll_position != 0 {
            self.scroll_position = self.scroll_position - 1;
        }
    }

    /// Appends each of `lines` in turn, as `push_line` does.
    pub fn push_lines(&mut self, lines: Vec<String>)
        ensures
            final(self).lines_spec() == append_all_lines(old(self).lines_spec(), old(self).max_lines as int, lines_view(lines@)),
            final(self).scroll_position == append_all_scroll(old(self).scroll_position as int, lines@.len() as int),
            final(self).max_lines == old(self).max_lines,
    {
        let ghost added = lines_view(lines@);
        let mut i: usize = 0;
        while i < lines.len()
            invariant
                i <= lines.len(),
                added == lines_view(lines@),
                self.lines_spec() == append_all_lines(old(self).lines_spec(), old(self).max_lines as int, added.subrange(0, i as int)),
                self.scroll_position == append_all_scroll(old(self).scroll_position as int, i as int),
                self.max_lines == old(self).max_lines,
            decreases lines.len() - i,
        {
            let line: String = lines[i].clone();
            assert(added.subrange(0, i + 1).drop_last() =~= added.subrange(0, i as int));
            assert(added[i as int] == line@);
            self.push_line(line);
            i = i + 1;
        }
        assert(added.subrange(0, added.len() as int) =~= added);
    }

    /// Removes every line and returns to the bottom.
    pub fn clear(&mut self)
        ensures
            final(self).lines_spec().len() == 0,
            final(self).scroll_position == 0,
            final(self).max_lines == old(self).max_lines,
    {
        self.lines.clear();
        self.scroll_position = 0;
    }

    /// The lines visible in an area of `area_height` rows.
    pub fn get_visible_lines(&self, area_height: usize) -> (r: Vec<String>)
        ensures
            lines_view(r@) == visible_spec(self.lines_spec(), self.scroll_position as int, area_height as int),
    {
        visible_lines(&self.lines, self.scroll_position, area_height)
    }

    /// Scrolls up by `lines`, stopping at the oldest line.
    pub fn scroll_up(&mut self, lines: usize)
        ensures
            final(self).lines == old(self).lines,
            final(self).max_lines == old(self).max_lines,
            final(self).scroll_position == scroll_up_spec(old(self).scroll_position as int, lines as int, old(self).lines@.len() as int),
    {
        let top = self.lines.len().saturating_sub(1);
        let want = self.scroll_position.saturating_add(lines);
        self.scroll_position = if want < top {
            want
        } else {
            top
        };
    }

    /// Scrolls down by `lines`, stopping at the bottom.
    pub fn scroll_down(&mut self, lines: usize)
        ensures
            final(self).lines == old(self).lines,
            final(self).max_lines == old(self).max_lines,
            final(self).scroll_position == scroll_down_spec(old(self).scroll_position as int, lines as int),
    {
        self.scroll_position = self.scroll_position.saturating_sub(lines);
    }

    /// Jumps to the newest line.
    pub fn scroll_to_bottom(&mut self)
        ensures
            final(self).lines == old(self).lines,
            final(self).max_lines == old(self).max_lines,
            final(self).scroll_position == 0,
    {
        self.scroll_position = 0;
    }

    /// Jumps to the oldest line.
    pub fn scroll_to_top(&mut self)
        ensures
            final(self).lines == old(self).lines,
            final(self).max_lines == old(self).max_lines,
            final(self).scroll_position == max_scroll(old(self).lines@.len() as int),
    {
        self.scroll_position = self.lines.len().saturating_sub(1);
    }

    /// The scroll state for a display area of `area_height` rows.
    pub fn scroll_info(&self, area_height: usize) -> (r: ScrollInfo)
        ensures
            r == scroll_info_spec(self.lines@.len() as int, self.scroll_position as int, area_height as int),
    {
        let total = self.lines.len();
        let visible = area_height.saturating_sub(2);
        ScrollInfo {
            total_lines: total,
            scroll_position: self.scroll_position,
            at_bottom: self.scroll_position == 0,
            at_top: self.scroll_position >= total.saturating_sub(visible),
        }
    }
}

impl Default for ResultsModel {
    fn default() -> (r: ResultsModel)
        ensures
            r.lines@.len() == 0,
            r.scroll_position == 0,
            r.max_lines == DEFAULT_MAX_LINES,
    {
        ResultsModel { lines: Vec::new(), scroll_position: 0, max_lines: DEFAULT_MAX_LINES }
    }
}

/// `after` is the results pane `before` after handling `msg`.
pub open spec fn results_updated(before: ResultsModel, after: ResultsModel, msg: ResultsMsg) -> bool {
    &&& match msg {
        ResultsMsg::AppendLine(line) => {
            &&& after.lines_spec() == append_spec(before.lines_spec(), before.max_lines as int, line@)
            &&& after.scroll_position == after_push_scroll(before.scroll_position as int)
        },
        ResultsMsg::AppendLines(lines) => {
            &&& after.lines_spec() == append_all_lines(before.lines_spec(), before.max_lines as int, lines_view(lines@))
            &&& after.scroll_position == append_all_scroll(before.scroll_position as int, lines@.len() as int)
        },
        ResultsMsg::Clear => after.lines_spec().len() == 0 && after.scroll_position == 0,
        ResultsMsg::ScrollUp(n) => after.lines == before.lines && after.scroll_position == scroll_up_spec(
            before.scroll_position as int,
            n as int,
            before.lines@.len() as int,
        ),
        ResultsMsg::ScrollDown(n) => after.lines == before.lines && after.scroll_position
            == scroll_down_spec(before.scroll_position as int, n as int),
        ResultsMsg::ScrollToTop => after.lines == before.lines && after.scroll_position == max_scroll(
            before.lines@.len() as int,
        ),
        ResultsMsg::ScrollToBottom => after.lines == before.lines && after.scroll_position == 0,
    }
    &&& after.max_lines == before.max_lines
}

/// Applies a results message to the model.
pub fn update_results(model: &mut ResultsModel, msg: ResultsMsg)
    ensures
        results_updated(*old(model), *final(model), msg),
{
    match msg {
        ResultsMsg::AppendLine(line) => model.push_line(line),
        ResultsMsg::AppendLines(lines) => model.push_lines(lines),
        ResultsMsg::Clear => model.clear(),
        ResultsMsg::ScrollUp(n) => model.scroll_up(n),
        ResultsMsg::ScrollDown(n) => model.scroll_down(n),
        ResultsMsg::ScrollToTop => model.scroll_to_top(),
        ResultsMsg::ScrollToBottom => model.scroll_to_bottom(),
    }
}

} // verus!
