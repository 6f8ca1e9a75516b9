//! Data of the front end's widgets and components: what each shows, kept
//! apart from the drawing itself.
use vstd::prelude::*;
use crate::scan_config::ButtonMode;
use crate::text_input::TextInput;
use crate::app_state::AppState;

verus! {

/// The banner at the top.
pub struct HeaderComponent;

impl HeaderComponent {
    /// Spaces before a text of `text_len` columns to center it in `width`.
    pub fn calculate_center_padding(text_len: usize, width: usize) -> (r: usize)
        ensures
            r == if width > text_len {
                (width - text_len) / 2
            } else {
                0
            },
    {
        if width > text_len {
            (width - text_len) / 2
        } else {
            0
        }
    }

    /// `text` cut to its first `width` characters when it is longer.
    pub fn truncate_if_needed(text: &str, width: usize) -> (r: String)
        ensures
            r@ == if width < text@.len() {
                text@.subrange(0, width as int)
            } else {
                text@
            },
    {
        let chars = crate::text::chars_of(text);
        if width < chars.len() {
            let mut out: Vec<char> = Vec::new();
            let mut i: usize = 0;
            while i < width
                invariant
                    i <= width < chars.len(),
                    out@ == chars@.subrange(0, i as int),
                decreases width - i,
            {
                out.push(chars[i]);
                i = i + 1;
            }
            crate::text::string_of(&out)
        } else {
            crate::text::string_of(&chars)
        }
    }
}

/// A push button.
#[derive(Clone, Debug)]
pub struct ButtonWidget {
    pub label: String,
    pub mode: ButtonMode,
}

impl ButtonWidget {
    /// A button with `label`, in its normal look.
    pub fn new(label: String) -> (r: ButtonWidget)
        ensures
            r.label@ == label@,
            r.mode == ButtonMode::Normal,
    {
        ButtonWidget { label, mode: ButtonMode::Normal }
    }

    /// The same button in look `mode`.
    pub fn mode(self, mode: &ButtonMode) -> (r: ButtonWidget)
        ensures
            r.label@ == self.label@,
            r.mode == *mode,
    {
        ButtonWidget { label: self.label, mode: *mode }
    }
}

/// What a text field shows.
#[derive(Clone, Debug)]
pub struct TextInputWidget {
    pub title: String,
    pub text: String,
    pub is_selected: bool,
    pub is_placeholder: bool,
    pub cursor_index: Option<usize>,
}

impl TextInputWidget {
    /// A text field display from its parts.
    pub fn new(title: String, text: String, is_selected: bool, is_placeholder: bool, cursor_index: Option<usize>) -> (r:
        TextInputWidget)
        ensures
            r.title@ == title@,
            r.text@ == text@,
            r.is_selected == is_selected,
            r.is_placeholder == is_placeholder,
            r.cursor_index == cursor_index,
    {
        TextInputWidget { title, text, is_selected, is_placeholder, cursor_index }
    }

    /// The display of a text field: its text while it holds any, else the
    /// confirmed value, else the placeholder (shown as such); the cursor is
    /// the field's.
    pub fn from_model(
        title: String,
        buffer: &TextInput,
        confirmed_display: Option<String>,
        is_selected: bool,
        placeholder: &str,
    ) -> (r: TextInputWidget)
        ensures
            r.title@ == title@,
            r.is_selected == is_selected,
            r.cursor_index == Some(buffer.cursor_view() as usize),
            buffer.text_view().len() > 0 ==> r.text@ == buffer.text_view() && !r.is_placeholder,
            (buffer.text_view().len() == 0 && confirmed_display is Some) ==> r.text@ == confirmed_display->0@
                && !r.is_placeholder,
            (buffer.text_view().len() == 0 && confirmed_display is None) ==> r.text@ == placeholder@
                && r.is_placeholder,
    {
        let (text, is_placeholder) = if !buffer.is_empty() {
            (buffer.text(), false)
        } else {
            match confirmed_display {
                Some(display) => (display, false),
                None => (String::from_str(placeholder), true),
            }
        };
        TextInputWidget::new(title, text, is_selected, is_placeholder, Some(buffer.cursor()))
    }
}

/// The targets input component.
pub struct TargetsComponent;

/// The ports input component.
pub struct PortsComponent;

/// The options component.
pub struct OptionsComponent;

/// The results component.
pub struct ResultsComponent;

impl TargetsComponent {
    pub fn new() -> TargetsComponent {
        TargetsComponent
    }
}

impl PortsComponent {
    pub fn new() -> PortsComponent {
        PortsComponent
    }
}

impl OptionsComponent {
    pub fn new() -> OptionsComponent {
        OptionsComponent
    }
}

impl ResultsComponent {
    pub fn new() -> ResultsComponent {
        ResultsComponent
    }
}

/// The scan-related components together.
pub struct ScanComponents {
    pub targets: TargetsComponent,
    pub ports: PortsComponent,
    pub options: OptionsComponent,
    pub results: ResultsComponent,
}

impl ScanComponents {
    pub fn new() -> ScanComponents {
        ScanComponents {
            targets: TargetsComponent::new(),
            ports: PortsComponent::new(),
            options: OptionsComponent::new(),
            results: ResultsComponent::new(),
        }
    }
}

/// The screen layout.
pub struct Layout;

impl Layout {
    pub fn new() -> Layout {
        Layout
    }
}

/// The whole user interface.
pub struct UI {
    pub layout: Layout,
    pub scan_components: ScanComponents,
}

impl UI {
    pub fn new() -> UI {
        UI { layout: Layout::new(), scan_components: ScanComponents::new() }
    }
}

/// The interactive application: its state and its interface.
pub struct TuiApp {
    state: AppState,
    pub ui: UI,
}

impl TuiApp {
    pub closed spec fn state_view(&self) -> AppState {
        self.state
    }

    /// A fresh application.
    pub fn new() -> (r: TuiApp)
        ensures
            !r.state_view().quit_view(),
    {
        TuiApp { state: AppState::new(), ui: UI::new() }
    }

    /// The application state.
    pub fn state(&self) -> (r: &AppState)
        ensures
            *r == self.state_view(),
    {
        &self.state
    }

    /// The application state, for changing it.
    pub fn state_mut(&mut self) -> (r: &mut AppState)
        ensures
            *r == old(self).state_view(),
            final(self).state_view() == *final(r),
    {
        &mut self.state
    }
}

} // verus!
