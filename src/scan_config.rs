//! The scan configuration form: its inputs, which field has focus, the scan
//! button's look, and the messages that edit it.
use vstd::prelude::*;
use crate::text::{split_spec, trim_spec, split_chars, trim_chars, chars_of, string_of};
use crate::text_input::{TextInput, prev_word_start, next_word_end, next_word_start};
use crate::output_buffer::lines_view;

verus! {

/// How long the scan button shows as pressed, in milliseconds.
pub const BUTTON_ACTIVATION_MS: u64 = 200;

/// Default per-port timeout of the form, in milliseconds.
pub const DEFAULT_TIMEOUT_MS: u32 = 1500;

/// Default batch size of the form.
pub const DEFAULT_BATCH_SIZE: u16 = 4500;

/// The form element that has focus.
#[derive(Clone, Copy, PartialEq, Eq, Structural, Debug)]
pub enum SelectedField {
    NoField,
    Targets,
    Ports,
    Options,
    ScanButton,
}

/// Visual mode of a button.
#[derive(Clone, Copy, PartialEq, Eq, Structural, Debug)]
pub enum ButtonMode {
    Normal,
    Selected,
    Active,
}

impl Default for ButtonMode {
    fn default() -> (r: ButtonMode)
        ensures
            r == ButtonMode::Normal,
    {
        ButtonMode::Normal
    }
}

/// Messages for the form.
#[derive(Clone, Debug)]
pub enum ScanConfigMsg {
    NextField,
    PrevField,
    DeselectAll,
    ConfirmInput,
    ButtonActivate,
    SelectField(SelectedField),
    AddChar(char),
    RemovePrevChar,
    RemoveNextChar,
    DeletePrevWord,
    DeleteNextWord,
    MoveCursorLeft,
    MoveCursorRight,
    MovePrevWord,
    MoveNextWord,
    Paste(String),
}

/// Focus after moving down (Tab).
pub open spec fn next_field_spec(f: SelectedField) -> SelectedField {
    match f {
        SelectedField::NoField => SelectedField::Targets,
        SelectedField::Targets => SelectedField::Ports,
        SelectedField::Ports => SelectedField::Options,
        SelectedField::Options => SelectedField::ScanButton,
        SelectedField::ScanButton => SelectedField::Targets,
    }
}

/// Focus after moving up (Shift+Tab).
pub open spec fn prev_field_spec(f: SelectedField) -> SelectedField {
    match f {
        SelectedField::NoField => SelectedField::ScanButton,
        SelectedField::Targets => SelectedField::ScanButton,
        SelectedField::Ports => SelectedField::Targets,
        SelectedField::Options => SelectedField::Ports,
        SelectedField::ScanButton => SelectedField::Options,
    }
}

/// Button look that goes with a focus.
pub open spec fn mode_for(f: SelectedField) -> ButtonMode {
    if f == SelectedField::ScanButton {
        ButtonMode::Selected
    } else {
        ButtonMode::Normal
    }
}

/// Focus after moving down.
pub fn next_field_of(f: SelectedField) -> (r: SelectedField)
    ensures
        r == next_field_spec(f),
{
    match f {
        SelectedField::NoField => SelectedField::Targets,
        SelectedField::Targets => SelectedField::Ports,
        SelectedField::Ports => SelectedField::Options,
        SelectedField::Options => SelectedField::ScanButton,
        SelectedField::ScanButton => SelectedField::Targets,
    }
}

/// Focus after moving up.
pub fn prev_field_of(f: SelectedField) -> (r: SelectedField)
    ensures
        r == prev_field_spec(f),
{
    match f {
        SelectedField::NoField => SelectedField::ScanButton,
        SelectedField::Targets => SelectedField::ScanButton,
        SelectedField::Ports => SelectedField::Targets,
        SelectedField::Options => SelectedField::Ports,
        SelectedField::ScanButton => SelectedField::Options,
    }
}

fn mode_for_field(f: SelectedField) -> (r: ButtonMode)
    ensures
        r == mode_for(f),
{
    if f == SelectedField::ScanButton {
        ButtonMode::Selected
    } else {
        ButtonMode::Normal
    }
}

/// The non-empty trimmed pieces of `pieces`, in order.
pub open spec fn nonempty_trimmed(pieces: Seq<Seq<char>>) -> Seq<Seq<char>>
    decreases pieces.len(),
{
    if pieces.len() == 0 {
        Seq::empty()
    } else {
        let rest = nonempty_trimmed(pieces.drop_last());
        if trim_spec(pieces.last()).len() > 0 {
            rest.push(trim_spec(pieces.last()))
        } else {
            rest
        }
    }
}

/// The targets named by a comma-separated list: each piece trimmed, empty
/// pieces dropped.
pub open spec fn target_list_spec(text: Seq<char>) -> Seq<Seq<char>> {
    nonempty_trimmed(split_spec(text, ','))
}

/// Splits a comma-separated target list.
pub fn parse_target_list(text: &str) -> (r: Vec<String>)
    ensures
        lines_view(r@) == target_list_spec(text@),
{
    let chars = chars_of(text);
    let pieces = split_chars(&chars, ',');
    let ghost pv = pieces@.map_values(|v: Vec<char>| v@);
    let mut out: Vec<String> = Vec::new();
    let mut i: usize = 0;
    while i < pieces.len()
        invariant
            i <= pieces.len(),
            pv == pieces@.map_values(|v: Vec<char>| v@),
            lines_view(out@) == nonempty_trimmed(pv.subrange(0, i as int)),
        decreases pieces.len() - i,
    {
        let t = trim_chars(&pieces[i]);
        assert(pv.subrange(0, i + 1).drop_last() =~= pv.subrange(0, i as int));
        assert(pv.subrange(0, i + 1).last() == pieces@[i as int]@);
        if t.len() > 0 {
            let s = string_of(&t);
            let ghost before = out@;
            out.push(s);
            assert(lines_view(out@) =~= lines_view(before).push(s@));
        }
        i = i + 1;
    }
    assert(pv.subrange(0, pv.len() as int) =~= pv);
    out
}

/// The editing messages, as one operation on a text field.
pub open spec fn edit_spec(before: TextInput, after: TextInput, msg: ScanConfigMsg) -> bool {
    let s = before.text_view();
    let c = before.cursor_view();
    match msg {
        ScanConfigMsg::AddChar(ch) => after.text_view() == s.insert(c, ch) && after.cursor_view() == c + 1,
        ScanConfigMsg::Paste(p) => after.text_view() == s.subrange(0, c) + p@ + s.subrange(c, s.len() as int)
            && after.cursor_view() == c + p@.len(),
        ScanConfigMsg::RemovePrevChar => if c > 0 {
            after.text_view() == s.remove(c - 1) && after.cursor_view() == c - 1
        } else {
            after.text_view() == s && after.cursor_view() == c
        },
        ScanConfigMsg::RemoveNextChar => if c < s.len() {
            after.text_view() == s.remove(c) && after.cursor_view() == c
        } else {
            after.text_view() == s && after.cursor_view() == c
        },
        ScanConfigMsg::DeletePrevWord => after.text_view() == s.subrange(0, prev_word_start(s, c)) + s.subrange(
            c,
            s.len() as int,
        ) && after.cursor_view() == prev_word_start(s, c),
        ScanConfigMsg::DeleteNextWord => after.text_view() == s.subrange(0, c) + s.subrange(
            next_word_end(s, c),
            s.len() as int,
        ) && after.cursor_view() == c,
        ScanConfigMsg::MoveCursorLeft => after.text_view() == s && after.cursor_view() == if c > 0 {
            c - 1
        } else {
            0
        },
        ScanConfigMsg::MoveCursorRight => after.text_view() == s && after.cursor_view() == if c < s.len() {
            c + 1
        } else {
            s.len() as int
        },
        ScanConfigMsg::MovePrevWord => after.text_view() == s && after.cursor_view() == prev_word_start(s, c),
        ScanConfigMsg::MoveNextWord => after.text_view() == s && after.cursor_view() == next_word_start(s, c),
        _ => after.text_view() == s && after.cursor_view() == c,
    }
}

/// Whether a message edits the focused text field.
pub open spec fn is_edit(msg: ScanConfigMsg) -> bool {
    match msg {
        ScanConfigMsg::AddChar(_) | ScanConfigMsg::Paste(_) | ScanConfigMsg::RemovePrevChar
        | ScanConfigMsg::RemoveNextChar | ScanConfigMsg::DeletePrevWord | ScanConfigMsg::DeleteNextWord
        | ScanConfigMsg::MoveCursorLeft | ScanConfigMsg::MoveCursorRight | ScanConfigMsg::MovePrevWord
        | ScanConfigMsg::MoveNextWord => true,
        _ => false,
    }
}

/// `after` is `before` with `msg` applied to the text field of `field`;
/// a field without text is unchanged.
pub open spec fn field_edited(before: ScanConfig, after: ScanConfig, field: SelectedField, msg: ScanConfigMsg) -> bool {
    if field == SelectedField::Targets {
        edit_spec(before.targets_input, after.targets_input, msg) && after == (ScanConfig {
            targets_input: after.targets_input,
            ..before
        })
    } else if field == SelectedField::Ports {
        edit_spec(before.ports_input, after.ports_input, msg) && after == (ScanConfig { ports_input: after.ports_input, ..before })
    } else {
        after == before
    }
}

/// Applies an editing message to the text field of `field`.
pub fn edit_field(cfg: &mut ScanConfig, field: SelectedField, msg: &ScanConfigMsg)
    requires
        is_edit(*msg),
    ensures
        field_edited(*old(cfg), *final(cfg), field, *msg),
{
    match field {
        SelectedField::Targets => apply_edit(&mut cfg.targets_input, msg),
        SelectedField::Ports => apply_edit(&mut cfg.ports_input, msg),
        _ => {},
    }
}

/// Applies an editing message to a text field.
fn apply_edit(input: &mut TextInput, msg: &ScanConfigMsg)
    requires
        is_edit(*msg),
    ensures
        edit_spec(*old(input), *final(input), *msg),
{
    match msg {
        ScanConfigMsg::AddChar(c) => {
            let ch: char = *c;
            input.insert_char(ch);
        },
        ScanConfigMsg::Paste(s) => input.insert_str(s.as_str()),
        ScanConfigMsg::RemovePrevChar => input.remove_previous_char(),
        ScanConfigMsg::RemoveNextChar => input.remove_next_char(),
        ScanConfigMsg::DeletePrevWord => input.delete_previous_word(),
        ScanConfigMsg::DeleteNextWord => input.delete_next_word(),
        ScanConfigMsg::MoveCursorLeft => input.move_cursor_left(),
        ScanConfigMsg::MoveCursorRight => input.move_cursor_right(),
        ScanConfigMsg::MovePrevWord => input.move_cursor_to_previous_word(),
        ScanConfigMsg::MoveNextWord => input.move_cursor_to_next_word(),
        _ => {},
    }
}

/// The scan configuration form.
#[derive(Clone, Debug)]
pub struct ScanConfig {
    /// Confirmed targets.
    pub targets: Vec<String>,
    /// Confirmed port text.
    pub ports: Option<String>,
    /// Timeout in milliseconds.
    pub timeout: u32,
    pub batch_size: u16,
    pub targets_input: TextInput,
    pub ports_input: TextInput,
    pub selected_field: SelectedField,
    pub scan_button_mode: ButtonMode,
    /// Time (ms) at which a pressed button returns to its look.
    pub button_activation_until: Option<u64>,
    /// Look the button returns to.
    pub button_restore_mode: Option<ButtonMode>,
}

impl Default for ScanConfig {
    fn default() -> (r: ScanConfig)
        ensures
            r.targets@.len() == 0,
            r.ports is None,
            r.timeout == DEFAULT_TIMEOUT_MS,
            r.batch_size == DEFAULT_BATCH_SIZE,
            r.targets_input.text_view().len() == 0,
            r.ports_input.text_view().len() == 0,
            r.selected_field == SelectedField::NoField,
            r.scan_button_mode == ButtonMode::Normal,
            r.button_activation_until is None,
            r.button_restore_mode is None,
    {
        ScanConfig {
            targets: Vec::new(),
            ports: None,
            timeout: DEFAULT_TIMEOUT_MS,
            batch_size: DEFAULT_BATCH_SIZE,
            targets_input: TextInput::new(),
            ports_input: TextInput::new(),
            selected_field: SelectedField::NoField,
            scan_button_mode: ButtonMode::Normal,
            button_activation_until: None,
            button_restore_mode: None,
        }
    }
}

impl ScanConfig {
    /// Everything but focus and button look is the same in `a` and `b`.
    pub open spec fn same_content(a: ScanConfig, b: ScanConfig) -> bool {
        &&& a.targets@ == b.targets@
        &&& a.ports == b.ports
        &&& a.timeout == b.timeout
        &&& a.batch_size == b.batch_size
        &&& a.targets_input == b.targets_input
        &&& a.ports_input == b.ports_input
        &&& a.button_activation_until == b.button_activation_until
        &&& a.button_restore_mode == b.button_restore_mode
    }

    /// Focuses `field`; the button looks selected exactly when it has focus.
    pub fn set_selected_field(&mut self, field: SelectedField)
        ensures
            final(self).selected_field == field,
            final(self).scan_button_mode == mode_for(field),
            ScanConfig::same_content(*old(self), *final(self)),
    {
        self.selected_field = field;
        self.scan_button_mode = mode_for_field(field);
    }

    /// Removes focus.
    pub fn deselect_all(&mut self)
        ensures
            final(self).selected_field == SelectedField::NoField,
            final(self).scan_button_mode == ButtonMode::Normal,
            ScanConfig::same_content(*old(self), *final(self)),
    {
        self.selected_field = SelectedField::NoField;
        self.scan_button_mode = ButtonMode::Normal;
    }

    /// Moves focus down.
    pub fn next_field(&mut self)
        ensures
            final(self).selected_field == next_field_spec(old(self).selected_field),
            final(self).scan_button_mode == mode_for(final(self).selected_field),
            ScanConfig::same_content(*old(self), *final(self)),
    {
        self.selected_field = next_field_of(self.selected_field);
        self.scan_button_mode = mode_for_field(self.selected_field);
    }

    /// Moves focus up.
    pub fn prev_field(&mut self)
        ensures
            final(self).selected_field == prev_field_spec(old(self).selected_field),
            final(self).scan_button_mode == mode_for(final(self).selected_field),
            ScanConfig::same_content(*old(self), *final(self)),
    {
        self.selected_field = prev_field_of(self.selected_field);
        self.scan_button_mode = mode_for_field(self.selected_field);
    }

    /// Shows the button as pressed until `now_ms` plus the activation time,
    /// remembering the look to return to.
    pub fn start_button_activation(&mut self, now_ms: u64)
        ensures
            final(self).scan_button_mode == ButtonMode::Active,
            final(self).button_activation_until == Some(
                if now_ms + BUTTON_ACTIVATION_MS <= u64::MAX { (now_ms + BUTTON_ACTIVATION_MS) as u64 } else { u64::MAX },
            ),
            final(self).button_restore_mode == Some(mode_for(old(self).selected_field)),
            final(self).selected_field == old(self).selected_field,
            final(self).targets@ == old(self).targets@,
            final(self).ports == old(self).ports,
            final(self).targets_input == old(self).targets_input,
            final(self).ports_input == old(self).ports_input,
    {
        let restore = mode_for_field(self.selected_field);
        self.scan_button_mode = ButtonMode::Active;
        self.button_activation_until = Some(now_ms.saturating_add(BUTTON_ACTIVATION_MS));
        self.button_restore_mode = Some(restore);
    }

    /// Ends a button activation that is due at `now_ms`: the button returns
    /// to its remembered look. Returns whether one ended.
    pub fn maybe_finish_button_activation(&mut self, now_ms: u64) -> (r: bool)
        ensures
            r == (old(self).button_activation_until matches Some(until) && now_ms >= until),
            r ==> final(self).button_activation_until is None && final(self).button_restore_mode is None
                && final(self).scan_button_mode == match old(self).button_restore_mode {
                Some(m) => m,
                None => ButtonMode::Normal,
            },
            !r ==> *final(self) == *old(self),
            final(self).selected_field == old(self).selected_field,
    {
        match self.button_activation_until {
            Some(until) => {
                if now_ms >= until {
                    let restore = match self.button_restore_mode {
                        Some(m) => m,
                        None => ButtonMode::Normal,
                    };
                    self.button_restore_mode = None;
                    self.scan_button_mode = restore;
                    self.button_activation_until = None;
                    true
                } else {
                    false
                }
            },
            None => false,
        }
    }

    /// Confirms the field `field`: the targets field becomes the target
    /// list (when not empty) and is cleared; the ports field becomes the
    /// port text (or none when empty) and is cleared; other fields change
    /// nothing.
    pub fn confirm_field(&mut self, field: SelectedField)
        ensures
            confirmed(*old(self), *final(self), field),
    {
        match field {
            SelectedField::Targets => {
                if !self.targets_input.is_empty() {
                    let text = self.targets_input.text();
                    self.targets = parse_target_list(text.as_str());
                }
                self.targets_input.clear();
            },
            SelectedField::Ports => {
                if !self.ports_input.is_empty() {
                    self.ports = Some(self.ports_input.text());
                } else {
                    self.ports = None;
                }
                self.ports_input.clear();
            },
            _ => {},
        }
    }

    /// Confirms the focused field, as `confirm_field` does.
    pub fn confirm_input(&mut self)
        ensures
            confirmed(*old(self), *final(self), old(self).selected_field),
    {
        let field = self.selected_field;
        self.confirm_field(field);
    }
}

/// `after` is `before` with the field `field` confirmed: the targets field
/// becomes the target list (when not empty) and is cleared; the ports field
/// becomes the port text (or none when empty) and is cleared; other fields
/// change nothing.
pub open spec fn confirmed(before: ScanConfig, after: ScanConfig, field: SelectedField) -> bool {
    &&& after.selected_field == before.selected_field
    &&& after.scan_button_mode == before.scan_button_mode
    &&& after.timeout == before.timeout
    &&& after.batch_size == before.batch_size
    &&& after.button_activation_until == before.button_activation_until
    &&& after.button_restore_mode == before.button_restore_mode
    &&& field == SelectedField::Targets ==> {
        &&& lines_view(after.targets@) == if before.targets_input.text_view().len() > 0 {
            target_list_spec(before.targets_input.text_view())
                } else {
            lines_view(before.targets@)
        }
        &&& after.targets_input.text_view().len() == 0
        &&& after.targets_input.cursor_view() == 0
        &&& after.ports == before.ports
        &&& after.ports_input == before.ports_input
    }
    &&& field == SelectedField::Ports ==> {
        &&& (before.ports_input.text_view().len() > 0 ==> (after.ports matches Some(p) && p@
            == before.ports_input.text_view()))
        &&& (before.ports_input.text_view().len() == 0 ==> after.ports is None)
        &&& after.ports_input.text_view().len() == 0
        &&& after.ports_input.cursor_view() == 0
        &&& after.targets@ == before.targets@
        &&& after.targets_input == before.targets_input
    }
    &&& (field != SelectedField::Targets && field != SelectedField::Ports) ==> after == before
}

/// `after` is the form `before` after handling `msg` at time `now_ms`.
pub open spec fn config_updated(before: ScanConfig, after: ScanConfig, msg: ScanConfigMsg, now_ms: u64) -> bool {
    match msg {
        ScanConfigMsg::SelectField(f) => after.selected_field == f && after.scan_button_mode == mode_for(f)
            && ScanConfig::same_content(before, after),
        ScanConfigMsg::DeselectAll => after.selected_field == SelectedField::NoField && after.scan_button_mode
            == ButtonMode::Normal && ScanConfig::same_content(before, after),
        ScanConfigMsg::NextField => after.selected_field == next_field_spec(before.selected_field)
            && ScanConfig::same_content(before, after),
        ScanConfigMsg::PrevField => after.selected_field == prev_field_spec(before.selected_field)
            && ScanConfig::same_content(before, after),
        ScanConfigMsg::ConfirmInput => confirmed(before, after, before.selected_field),
        ScanConfigMsg::ButtonActivate => {
            &&& after.scan_button_mode == ButtonMode::Active
            &&& after.button_restore_mode == Some(mode_for(before.selected_field))
            &&& after.button_activation_until == Some(
                if now_ms + BUTTON_ACTIVATION_MS <= u64::MAX { (now_ms + BUTTON_ACTIVATION_MS) as u64 } else { u64::MAX },
            )
            &&& after.selected_field == before.selected_field
        },
        _ => field_edited(before, after, before.selected_field, msg),
    }
}

/// Applies a form message; `now_ms` is the current time in milliseconds,
/// used when the message starts a button activation.
pub fn update_scan_config(cfg: &mut ScanConfig, msg: ScanConfigMsg, now_ms: u64)
    ensures
        config_updated(*old(cfg), *final(cfg), msg, now_ms),
{
    match msg {
        ScanConfigMsg::SelectField(field) => cfg.set_selected_field(field),
        ScanConfigMsg::DeselectAll => cfg.deselect_all(),
        ScanConfigMsg::NextField => cfg.next_field(),
        ScanConfigMsg::PrevField => cfg.prev_field(),
        ScanConfigMsg::ConfirmInput => cfg.confirm_input(),
        ScanConfigMsg::ButtonActivate => cfg.start_button_activation(now_ms),
        _ => {
            let field = cfg.selected_field;
            edit_field(cfg, field, &msg);
        },
    }
}

} // verus!
