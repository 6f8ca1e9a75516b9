//! Maps keyboard and mouse input to messages.
use vstd::prelude::*;
use crate::model::{Model, Message, AppMsg, FocusedArea, ScanState};
use crate::scan_config::{ScanConfigMsg, SelectedField};
use crate::results::ResultsMsg;

verus! {

/// Rows of the banner when expanded.
pub const HEADER_HEIGHT: u16 = 5;

/// Rows of the banner when collapsed.
pub const HEADER_HEIGHT_COLLAPSED: u16 = 1;

/// Rows of the footer.
pub const FOOTER_HEIGHT: u16 = 1;

/// Rows of the scan configuration section.
pub const SCAN_CONFIG_HEIGHT: u16 = 14;

/// Rows of each input component (targets, ports, options).
pub const INPUT_COMPONENT_HEIGHT: u16 = 3;

/// Rows of the scan button.
pub const BUTTON_HEIGHT: u16 = 3;

/// Lines scrolled by a page key.
pub const PAGE_SCROLL: usize = 10;

/// Lines scrolled by the mouse wheel or Shift+Up/Down.
pub const LINE_SCROLL: usize = 3;

/// A key.
#[derive(Clone, Copy, PartialEq, Eq, Structural, Debug)]
pub enum KeyCode {
    Char(char),
    Tab,
    BackTab,
    Up,
    Down,
    Left,
    Right,
    Backspace,
    Delete,
    Enter,
    Esc,
    PageUp,
    PageDown,
    Home,
    End,
    Other,
}

/// Modifier keys held with a key.
#[derive(Clone, Copy, PartialEq, Eq, Structural, Debug)]
pub struct Modifiers {
    pub shift: bool,
    pub control: bool,
    pub alt: bool,
    /// Any other modifier (super, hyper, meta).
    pub other: bool,
}

impl Modifiers {
    /// No modifier is held.
    pub open spec fn none_spec(self) -> bool {
        !self.shift && !self.control && !self.alt && !self.other
    }

    /// Exactly Control is held.
    pub open spec fn only_control_spec(self) -> bool {
        self.control && !self.shift && !self.alt && !self.other
    }

    /// Exactly Shift is held.
    pub open spec fn only_shift_spec(self) -> bool {
        self.shift && !self.control && !self.alt && !self.other
    }

    /// Whether no modifier is held.
    pub fn is_empty(&self) -> (r: bool)
        ensures
            r == self.none_spec(),
    {
        !self.shift && !self.control && !self.alt && !self.other
    }

    /// Whether exactly Control is held.
    pub fn is_only_control(&self) -> (r: bool)
        ensures
            r == self.only_control_spec(),
    {
        self.control && !self.shift && !self.alt && !self.other
    }

    /// Whether exactly Shift is held.
    pub fn is_only_shift(&self) -> (r: bool)
        ensures
            r == self.only_shift_spec(),
    {
        self.shift && !self.control && !self.alt && !self.other
    }
}

/// A key event.
#[derive(Clone, Copy, PartialEq, Eq, Structural, Debug)]
pub struct KeyInput {
    pub code: KeyCode,
    pub modifiers: Modifiers,
    /// The key went down (rather than repeating or going up).
    pub press: bool,
}

/// Kinds of mouse event.
#[derive(Clone, Copy, PartialEq, Eq, Structural, Debug)]
pub enum MouseKind {
    ScrollUp,
    ScrollDown,
    LeftDown,
    Other,
}

/// A mouse event.
#[derive(Clone, Copy, PartialEq, Eq, Structural, Debug)]
pub struct MouseInput {
    pub kind: MouseKind,
    pub column: u16,
    pub row: u16,
}

/// What a key does regardless of focus: quit, stop a scan in progress,
/// start a scan, or scroll the results.
pub open spec fn global_key_spec(scan_state: ScanState, key: KeyInput) -> Option<Message> {
    let m = key.modifiers;
    match key.code {
        KeyCode::Char('q') | KeyCode::Esc => Some(Message::App(AppMsg::Quit)),
        KeyCode::Char('c') if m.only_control_spec() => if scan_state == ScanState::Running || scan_state
            == ScanState::Requested {
            Some(Message::App(AppMsg::StopScan))
        } else {
            None
        },
        KeyCode::Enter => Some(Message::App(AppMsg::StartScan)),
        KeyCode::PageUp => Some(Message::Results(ResultsMsg::ScrollUp(PAGE_SCROLL))),
        KeyCode::PageDown => Some(Message::Results(ResultsMsg::ScrollDown(PAGE_SCROLL))),
        KeyCode::Home if m.only_control_spec() => Some(Message::Results(ResultsMsg::ScrollToTop)),
        KeyCode::End if m.only_control_spec() => Some(Message::Results(ResultsMsg::ScrollToBottom)),
        KeyCode::Up if m.only_shift_spec() => Some(Message::Results(ResultsMsg::ScrollUp(LINE_SCROLL))),
        KeyCode::Down if m.only_shift_spec() => Some(Message::Results(ResultsMsg::ScrollDown(LINE_SCROLL))),
        _ => None,
    }
}

/// What a key does in the scan configuration area.
pub open spec fn scan_config_key_spec(key: KeyInput) -> Option<ScanConfigMsg> {
    let m = key.modifiers;
    match key.code {
        KeyCode::Tab => Some(if m.shift { ScanConfigMsg::PrevField } else { ScanConfigMsg::NextField }),
        KeyCode::Up if m.none_spec() => Some(ScanConfigMsg::PrevField),
        KeyCode::Down if m.none_spec() => Some(ScanConfigMsg::NextField),
        KeyCode::Left => Some(if m.only_control_spec() { ScanConfigMsg::MovePrevWord } else { ScanConfigMsg::MoveCursorLeft }),
        KeyCode::Right => Some(if m.only_control_spec() { ScanConfigMsg::MoveNextWord } else { ScanConfigMsg::MoveCursorRight }),
        KeyCode::Backspace => Some(if m.only_control_spec() { ScanConfigMsg::DeletePrevWord } else { ScanConfigMsg::RemovePrevChar }),
        KeyCode::Delete => Some(if m.only_control_spec() { ScanConfigMsg::DeleteNextWord } else { ScanConfigMsg::RemoveNextChar }),
        KeyCode::Char('w') if m.only_control_spec() => Some(ScanConfigMsg::DeletePrevWord),
        KeyCode::Char('d') if m.only_control_spec() => Some(ScanConfigMsg::DeleteNextWord),
        KeyCode::Char('\u{08}') => Some(ScanConfigMsg::DeletePrevWord),
        KeyCode::Char('\u{7f}') => Some(ScanConfigMsg::DeleteNextWord),
        KeyCode::Char('h') if m.only_control_spec() => Some(ScanConfigMsg::DeletePrevWord),
        KeyCode::Char(c) if m.none_spec() => Some(ScanConfigMsg::AddChar(c)),
        _ => None,
    }
}

/// What a key does when no area has focus: move through the form.
pub open spec fn no_area_key_spec(key: KeyInput) -> Option<ScanConfigMsg> {
    match key.code {
        KeyCode::Up if key.modifiers.none_spec() => Some(ScanConfigMsg::PrevField),
        KeyCode::Down if key.modifiers.none_spec() => Some(ScanConfigMsg::NextField),
        _ => None,
    }
}

/// Wraps a form message.
pub open spec fn as_message(m: Option<ScanConfigMsg>) -> Option<Message> {
    match m {
        Some(x) => Some(Message::ScanConfig(x)),
        None => None,
    }
}

/// What a key event does: nothing unless pressed; then a global shortcut if
/// there is one, else what the focused area makes of it.
pub open spec fn key_event_spec(focus: FocusedArea, scan_state: ScanState, key: KeyInput) -> Option<Message> {
    if !key.press {
        None
    } else if global_key_spec(scan_state, key) is Some {
        global_key_spec(scan_state, key)
    } else {
        match focus {
            FocusedArea::ScanConfig => as_message(scan_config_key_spec(key)),
            FocusedArea::Results => None,
            FocusedArea::Header => None,
            FocusedArea::NoArea => as_message(no_area_key_spec(key)),
        }
    }
}

/// What a left click at `row` does: in the banner it collapses or expands
/// it; on an input component it focuses that field; on the button row it
/// activates the scan button; anywhere else it clears the focus.
pub open spec fn click_spec(collapsed: bool, row: u16) -> Message {
    let header = if collapsed { HEADER_HEIGHT_COLLAPSED } else { HEADER_HEIGHT };
    if row < header {
        Message::App(AppMsg::ToggleBanner)
    } else if row >= header + 1 {
        let rel = row - (header + 1);
        let button_start = INPUT_COMPONENT_HEIGHT * 3;
        if button_start <= rel < button_start + BUTTON_HEIGHT {
            Message::ScanConfig(ScanConfigMsg::ButtonActivate)
        } else if rel < INPUT_COMPONENT_HEIGHT {
            Message::ScanConfig(ScanConfigMsg::SelectField(SelectedField::Targets))
        } else if rel < 2 * INPUT_COMPONENT_HEIGHT {
            Message::ScanConfig(ScanConfigMsg::SelectField(SelectedField::Ports))
        } else if rel < 3 * INPUT_COMPONENT_HEIGHT {
            Message::ScanConfig(ScanConfigMsg::SelectField(SelectedField::Options))
        } else {
            Message::ScanConfig(ScanConfigMsg::DeselectAll)
        }
    } else {
        Message::ScanConfig(ScanConfigMsg::DeselectAll)
    }
}

/// Global shortcuts.
pub fn handle_key_global(scan_state: ScanState, key: KeyInput) -> (r: Option<Message>)
    ensures
        r == global_key_spec(scan_state, key),
{
    let m = key.modifiers;
    match key.code {
        KeyCode::Char('q') | KeyCode::Esc => Some(Message::App(AppMsg::Quit)),
        KeyCode::Char('c') if m.is_only_control() => match scan_state {
            ScanState::Running | ScanState::Requested => Some(Message::App(AppMsg::StopScan)),
            _ => None,
        },
        KeyCode::Enter => Some(Message::App(AppMsg::StartScan)),
        KeyCode::PageUp => Some(Message::Results(ResultsMsg::ScrollUp(PAGE_SCROLL))),
        KeyCode::PageDown => Some(Message::Results(ResultsMsg::ScrollDown(PAGE_SCROLL))),
        KeyCode::Home if m.is_only_control() => Some(Message::Results(ResultsMsg::ScrollToTop)),
        KeyCode::End if m.is_only_control() => Some(Message::Results(ResultsMsg::ScrollToBottom)),
        KeyCode::Up if m.is_only_shift() => Some(Message::Results(ResultsMsg::ScrollUp(LINE_SCROLL))),
        KeyCode::Down if m.is_only_shift() => Some(Message::Results(ResultsMsg::ScrollDown(LINE_SCROLL))),
        _ => None,
    }
}

/// Keys of the scan configuration area.
pub fn handle_key_scan_config(key: KeyInput) -> (r: Option<ScanConfigMsg>)
    ensures
        r == scan_config_key_spec(key),
{
    let m = key.modifiers;
    match key.code {
        KeyCode::Tab => Some(
            if m.shift {
                ScanConfigMsg::PrevField
            } else {
                ScanConfigMsg::NextField
            },
        ),
        KeyCode::Up if m.is_empty() => Some(ScanConfigMsg::PrevField),
        KeyCode::Down if m.is_empty() => Some(ScanConfigMsg::NextField),
        KeyCode::Left => Some(
            if m.is_only_control() {
                ScanConfigMsg::MovePrevWord
            } else {
                ScanConfigMsg::MoveCursorLeft
            },
        ),
        KeyCode::Right => Some(
            if m.is_only_control() {
                ScanConfigMsg::MoveNextWord
            } else {
                ScanConfigMsg::MoveCursorRight
            },
        ),
        KeyCode::Backspace => Some(
            if m.is_only_control() {
                ScanConfigMsg::DeletePrevWord
            } else {
                ScanConfigMsg::RemovePrevChar
            },
        ),
        KeyCode::Delete => Some(
            if m.is_only_control() {
                ScanConfigMsg::DeleteNextWord
            } else {
                ScanConfigMsg::RemoveNextChar
            },
        ),
        KeyCode::Char('w') if m.is_only_control() => Some(ScanConfigMsg::DeletePrevWord),
        KeyCode::Char('d') if m.is_only_control() => Some(ScanConfigMsg::DeleteNextWord),
        KeyCode::Char('\u{08}') => Some(ScanConfigMsg::DeletePrevWord),
        KeyCode::Char('\u{7f}') => Some(ScanConfigMsg::DeleteNextWord),
        KeyCode::Char('h') if m.is_only_control() => Some(ScanConfigMsg::DeletePrevWord),
        KeyCode::Char(c) if m.is_empty() => Some(ScanConfigMsg::AddChar(c)),
        _ => None,
    }
}

/// Keys when no area has focus.
pub fn handle_key_none(key: KeyInput) -> (r: Option<ScanConfigMsg>)
    ensures
        r == no_area_key_spec(key),
{
    match key.code {
        KeyCode::Up if key.modifiers.is_empty() => Some(ScanConfigMsg::PrevField),
        KeyCode::Down if key.modifiers.is_empty() => Some(ScanConfigMsg::NextField),
        _ => None,
    }
}

fn wrap(m: Option<ScanConfigMsg>) -> (r: Option<Message>)
    ensures
        r == as_message(m),
{
    match m {
        Some(x) => Some(Message::ScanConfig(x)),
        None => None,
    }
}

/// Maps a key event to a message.
pub fn handle_key_event(model: &Model, key: KeyInput) -> (r: Option<Message>)
    ensures
        r == key_event_spec(model.focus_view(), model.scan_state_view(), key),
{
    if !key.press {
        return None;
    }
    match handle_key_global(model.scan_state(), key) {
        Some(g) => Some(g),
        None => match model.focused_area() {
            FocusedArea::ScanConfig => wrap(handle_key_scan_config(key)),
            FocusedArea::Results => None,
            FocusedArea::Header => None,
            FocusedArea::NoArea => wrap(handle_key_none(key)),
        },
    }
}

/// Maps a left click to a message.
pub fn handle_component_click(model: &Model, column: u16, row: u16) -> (r: Message)
    ensures
        r == click_spec(model.collapsed_view(), row),
{
    let header = if model.is_banner_collapsed() {
        HEADER_HEIGHT_COLLAPSED
    } else {
        HEADER_HEIGHT
    };
    if row < header {
        return Message::App(AppMsg::ToggleBanner);
    }
    let inner_start = header + 1;
    if row >= inner_start {
        let rel = row - inner_start;
        let button_start = INPUT_COMPONENT_HEIGHT * 3;
        if rel >= button_start && rel < button_start + BUTTON_HEIGHT {
            return Message::ScanConfig(ScanConfigMsg::ButtonActivate);
        }
        let index = rel / INPUT_COMPONENT_HEIGHT;
        if index == 0 {
            Message::ScanConfig(ScanConfigMsg::SelectField(SelectedField::Targets))
        } else if index == 1 {
            Message::ScanConfig(ScanConfigMsg::SelectField(SelectedField::Ports))
        } else if index == 2 {
            Message::ScanConfig(ScanConfigMsg::SelectField(SelectedField::Options))
        } else {
            Message::ScanConfig(ScanConfigMsg::DeselectAll)
        }
    } else {
        Message::ScanConfig(ScanConfigMsg::DeselectAll)
    }
}

/// What a mouse event does: the wheel scrolls the results, a left click
/// goes to `click_spec`, anything else does nothing.
pub open spec fn mouse_event_spec(collapsed: bool, mouse: MouseInput) -> Option<Message> {
    match mouse.kind {
        MouseKind::ScrollUp => Some(Message::Results(ResultsMsg::ScrollUp(LINE_SCROLL))),
        MouseKind::ScrollDown => Some(Message::Results(ResultsMsg::ScrollDown(LINE_SCROLL))),
        MouseKind::LeftDown => Some(click_spec(collapsed, mouse.row)),
        MouseKind::Other => None,
    }
}

/// Maps a mouse event to a message.
pub fn handle_mouse_event(model: &Model, mouse: MouseInput) -> (r: Option<Message>)
    ensures
        r == mouse_event_spec(model.collapsed_view(), mouse),
{
    match mouse.kind {
        MouseKind::ScrollUp => Some(Message::Results(ResultsMsg::ScrollUp(LINE_SCROLL))),
        MouseKind::ScrollDown => Some(Message::Results(ResultsMsg::ScrollDown(LINE_SCROLL))),
        MouseKind::LeftDown => Some(handle_component_click(model, mouse.column, mouse.row)),
        MouseKind::Other => None,
    }
}

} // verus!
