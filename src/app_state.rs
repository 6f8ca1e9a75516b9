//! State of the interactive front end: the form, which field has focus and
//! which is hovered, the output buffer, and the banner and quit flags.
use vstd::prelude::*;
use crate::scan_config::{
    ScanConfig, ScanConfigMsg, SelectedField, ButtonMode, next_field_spec, prev_field_spec, field_edited,
    confirmed, edit_field, next_field_of, prev_field_of,
};
use crate::output_buffer::OutputBuffer;

verus! {

/// The component under the mouse pointer.
#[derive(Clone, Copy, PartialEq, Eq, Structural, Debug)]
pub enum HoveredField {
    NoField,
    Targets,
    Ports,
    Options,
    ScanButton,
}

/// Main application state.
pub struct AppState {
    should_quit: bool,
    scan_config: ScanConfig,
    selected_field: SelectedField,
    hovered_field: HoveredField,
    output_buffer: OutputBuffer,
    banner_collapsed: bool,
    scan_button_state: ButtonMode,
}

impl AppState {
    pub closed spec fn quit_view(&self) -> bool {
        self.should_quit
    }

    pub closed spec fn config_view(&self) -> ScanConfig {
        self.scan_config
    }

    pub closed spec fn selected_view(&self) -> SelectedField {
        self.selected_field
    }

    pub closed spec fn hovered_view(&self) -> HoveredField {
        self.hovered_field
    }

    pub closed spec fn buffer_view(&self) -> OutputBuffer {
        self.output_buffer
    }

    pub closed spec fn collapsed_view(&self) -> bool {
        self.banner_collapsed
    }

    pub closed spec fn button_view(&self) -> ButtonMode {
        self.scan_button_state
    }

    /// `b` differs from `a` at most in the form.
    pub open spec fn same_but_config(a: AppState, b: AppState) -> bool {
        &&& a.quit_view() == b.quit_view()
        &&& a.selected_view() == b.selected_view()
        &&& a.hovered_view() == b.hovered_view()
        &&& a.buffer_view() == b.buffer_view()
        &&& a.collapsed_view() == b.collapsed_view()
        &&& a.button_view() == b.button_view()
    }

    /// `b` differs from `a` at most in focus and the button look.
    pub open spec fn same_but_focus(a: AppState, b: AppState) -> bool {
        &&& a.quit_view() == b.quit_view()
        &&& a.config_view() == b.config_view()
        &&& a.hovered_view() == b.hovered_view()
        &&& a.buffer_view() == b.buffer_view()
        &&& a.collapsed_view() == b.collapsed_view()
    }

    /// A fresh state: nothing selected or hovered, an empty form and buffer.
    pub fn new() -> (r: AppState)
        ensures
            !r.quit_view(),
            r.selected_view() == SelectedField::NoField,
            r.hovered_view() == HoveredField::NoField,
            !r.collapsed_view(),
            r.button_view() == ButtonMode::Normal,
            r.config_view().targets@.len() == 0,
            r.config_view().targets_input.text_view().len() == 0,
            r.config_view().ports_input.text_view().len() == 0,
            r.buffer_view().lines_spec().len() == 0,
    {
        AppState {
            should_quit: false,
            scan_config: ScanConfig::default(),
            selected_field: SelectedField::NoField,
            hovered_field: HoveredField::NoField,
            output_buffer: OutputBuffer::new(),
            banner_collapsed: false,
            scan_button_state: ButtonMode::Normal,
        }
    }

    /// Whether the application should quit.
    pub fn should_quit(&self) -> (r: bool)
        ensures
            r == self.quit_view(),
    {
        self.should_quit
    }

    /// Sets the quit flag.
    pub fn set_should_quit(&mut self, should_quit: bool)
        ensures
            final(self).quit_view() == should_quit,
            final(self).config_view() == old(self).config_view(),
            final(self).selected_view() == old(self).selected_view(),
            final(self).buffer_view() == old(self).buffer_view(),
    {
        self.should_quit = should_quit;
    }

    /// The form.
    pub fn scan_config(&self) -> (r: &ScanConfig)
        ensures
            *r == self.config_view(),
    {
        &self.scan_config
    }

    /// The form, for changing it.
    pub fn scan_config_mut(&mut self) -> (r: &mut ScanConfig)
        ensures
            *r == old(self).config_view(),
            final(self).config_view() == *final(r),
            AppState::same_but_config(*old(self), *final(self)),
    {
        &mut self.scan_config
    }

    /// The focused field.
    pub fn selected_field(&self) -> (r: &SelectedField)
        ensures
            *r == self.selected_view(),
    {
        &self.selected_field
    }

    /// The scan button's look.
    pub fn scan_button_state(&self) -> (r: &ButtonMode)
        ensures
            *r == self.button_view(),
    {
        &self.scan_button_state
    }

    /// Sets the scan button's look.
    pub fn set_scan_button_state(&mut self, state: ButtonMode)
        ensures
            final(self).button_view() == state,
            AppState::same_but_focus(*old(self), *final(self)),
            final(self).selected_view() == old(self).selected_view(),
    {
        self.scan_button_state = state;
    }

    /// Focuses `field`; focusing the scan button makes it look selected.
    pub fn set_selected_field(&mut self, field: SelectedField)
        ensures
            final(self).selected_view() == field,
            final(self).button_view() == if field == SelectedField::ScanButton {
                ButtonMode::Selected
            } else {
                old(self).button_view()
            },
            AppState::same_but_focus(*old(self), *final(self)),
    {
        self.selected_field = field;
        if field == SelectedField::ScanButton {
            self.scan_button_state = ButtonMode::Selected;
        }
    }

    /// Removes focus and returns the button to its normal look.
    pub fn deselect_all(&mut self)
        ensures
            final(self).selected_view() == SelectedField::NoField,
            final(self).button_view() == ButtonMode::Normal,
            AppState::same_but_focus(*old(self), *final(self)),
    {
        self.selected_field = SelectedField::NoField;
        self.scan_button_state = ButtonMode::Normal;
    }

    /// Moves focus down.
    pub fn next_field(&mut self)
        ensures
            final(self).selected_view() == next_field_spec(old(self).selected_view()),
            final(self).button_view() == old(self).button_view(),
            AppState::same_but_focus(*old(self), *final(self)),
    {
        self.selected_field = next_field_of(self.selected_field);
    }

    /// Moves focus up.
    pub fn prev_field(&mut self)
        ensures
            final(self).selected_view() == prev_field_spec(old(self).selected_view()),
            final(self).button_view() == old(self).button_view(),
            AppState::same_but_focus(*old(self), *final(self)),
    {
        self.selected_field = prev_field_of(self.selected_field);
    }

    /// Applies an editing message to the focused field.
    fn edit_selected(&mut self, msg: ScanConfigMsg)
        requires
            crate::scan_config::is_edit(msg),
        ensures
            field_edited(old(self).config_view(), final(self).config_view(), old(self).selected_view(), msg),
            AppState::same_but_config(*old(self), *final(self)),
    {
        let field = self.selected_field;
        edit_field(&mut self.scan_config, field, &msg);
    }

    /// Inserts `c` at the cursor of the focused text field.
    pub fn add_char(&mut self, c: char)
        ensures
            field_edited(old(self).config_view(), final(self).config_view(), old(self).selected_view(), ScanConfigMsg::AddChar(c)),
            AppState::same_but_config(*old(self), *final(self)),
    {
        self.edit_selected(ScanConfigMsg::AddChar(c));
    }

    /// Deletes the character before the cursor of the focused text field.
    pub fn remove_previous_char(&mut self)
        ensures
            field_edited(old(self).config_view(), final(self).config_view(), old(self).selected_view(), ScanConfigMsg::RemovePrevChar),
            AppState::same_but_config(*old(self), *final(self)),
    {
        self.edit_selected(ScanConfigMsg::RemovePrevChar);
    }

    /// Deletes the character before the cursor (backspace), as
    /// `remove_previous_char` does.
    pub fn remove_char(&mut self)
        ensures
            field_edited(old(self).config_view(), final(self).config_view(), old(self).selected_view(), ScanConfigMsg::RemovePrevChar),
            AppState::same_but_config(*old(self), *final(self)),
    {
        self.remove_previous_char();
    }

    /// Deletes the character at the cursor of the focused text field.
    pub fn remove_next_char(&mut self)
        ensures
            field_edited(old(self).config_view(), final(self).config_view(), old(self).selected_view(), ScanConfigMsg::RemoveNextChar),
            AppState::same_but_config(*old(self), *final(self)),
    {
        self.edit_selected(ScanConfigMsg::RemoveNextChar);
    }

    /// Deletes the word before the cursor of the focused text field.
    pub fn delete_previous_word(&mut self)
        ensures
            field_edited(old(self).config_view(), final(self).config_view(), old(self).selected_view(), ScanConfigMsg::DeletePrevWord),
            AppState::same_but_config(*old(self), *final(self)),
    {
        self.edit_selected(ScanConfigMsg::DeletePrevWord);
    }

    /// Deletes the word after the cursor of the focused text field.
    pub fn delete_next_word(&mut self)
        ensures
            field_edited(old(self).config_view(), final(self).config_view(), old(self).selected_view(), ScanConfigMsg::DeleteNextWord),
            AppState::same_but_config(*old(self), *final(self)),
    {
        self.edit_selected(ScanConfigMsg::DeleteNextWord);
    }

    /// Moves the cursor of the focused text field to the previous word.
    pub fn move_cursor_to_previous_word(&mut self)
        ensures
            field_edited(old(self).config_view(), final(self).config_view(), old(self).selected_view(), ScanConfigMsg::MovePrevWord),
            AppState::same_but_config(*old(self), *final(self)),
    {
        self.edit_selected(ScanConfigMsg::MovePrevWord);
    }

    /// Moves the cursor of the focused text field to the next word.
    pub fn move_cursor_to_next_word(&mut self)
        ensures
            field_edited(old(self).config_view(), final(self).config_view(), old(self).selected_view(), ScanConfigMsg::MoveNextWord),
            AppState::same_but_config(*old(self), *final(self)),
    {
        self.edit_selected(ScanConfigMsg::MoveNextWord);
    }

    /// Moves the cursor of the focused text field one character left.
    pub fn move_cursor_left(&mut self)
        ensures
            field_edited(old(self).config_view(), final(self).config_view(), old(self).selected_view(), ScanConfigMsg::MoveCursorLeft),
            AppState::same_but_config(*old(self), *final(self)),
    {
        self.edit_selected(ScanConfigMsg::MoveCursorLeft);
    }

    /// Moves the cursor of the focused text field one character right.
    pub fn move_cursor_right(&mut self)
        ensures
            field_edited(old(self).config_view(), final(self).config_view(), old(self).selected_view(), ScanConfigMsg::MoveCursorRight),
            AppState::same_but_config(*old(self), *final(self)),
    {
        self.edit_selected(ScanConfigMsg::MoveCursorRight);
    }

    /// Confirms the focused field.
    pub fn confirm_input(&mut self)
        ensures
            confirmed(old(self).config_view(), final(self).config_view(), old(self).selected_view()),
            AppState::same_but_config(*old(self), *final(self)),
    {
        let field = self.selected_field;
        self.scan_config.confirm_field(field);
    }

    /// The output buffer.
    pub fn output_buffer(&self) -> (r: &OutputBuffer)
        ensures
            *r == self.buffer_view(),
    {
        &self.output_buffer
    }

    /// The output buffer, for changing it.
    pub fn output_buffer_mut(&mut self) -> (r: &mut OutputBuffer)
        ensures
            *r == old(self).buffer_view(),
            final(self).buffer_view() == *final(r),
            final(self).config_view() == old(self).config_view(),
            final(self).selected_view() == old(self).selected_view(),
            final(self).quit_view() == old(self).quit_view(),
    {
        &mut self.output_buffer
    }

    /// The hovered component.
    pub fn hovered_field(&self) -> (r: &HoveredField)
        ensures
            *r == self.hovered_view(),
    {
        &self.hovered_field
    }

    /// Sets the hovered component.
    pub fn set_hovered_field(&mut self, field: HoveredField)
        ensures
            final(self).hovered_view() == field,
            final(self).config_view() == old(self).config_view(),
            final(self).selected_view() == old(self).selected_view(),
    {
        self.hovered_field = field;
    }

    /// Whether the banner is collapsed to one line.
    pub fn is_banner_collapsed(&self) -> (r: bool)
        ensures
            r == self.collapsed_view(),
    {
        self.banner_collapsed
    }

    /// Collapses or expands the banner.
    pub fn toggle_banner_collapsed(&mut self)
        ensures
            final(self).collapsed_view() == !old(self).collapsed_view(),
            final(self).config_view() == old(self).config_view(),
            final(self).selected_view() == old(self).selected_view(),
    {
        self.banner_collapsed = !self.banner_collapsed;
    }
}

impl Default for AppState {
    fn default() -> (r: AppState)
        ensures
            !r.quit_view(),
            r.selected_view() == SelectedField::NoField,
    {
        AppState::new()
    }
}

} // verus!
