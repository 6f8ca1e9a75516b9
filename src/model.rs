//! The application model and its update function: every change to what the
//! front end shows goes through one message at a time.
use vstd::prelude::*;
use crate::scan_config::{ScanConfig, ScanConfigMsg, ButtonMode, SelectedField, update_scan_config, config_updated};
use crate::results::{ResultsModel, ResultsMsg, update_results, append_spec, results_updated};

verus! {

/// Whether the application keeps running.
#[derive(Clone, Copy, PartialEq, Eq, Structural, Debug)]
pub enum RunningState {
    Running,
    Done,
}

/// The area that receives keys.
#[derive(Clone, Copy, PartialEq, Eq, Structural, Debug)]
pub enum FocusedArea {
    ScanConfig,
    Results,
    Header,
    NoArea,
}

/// Lifecycle of the scan started from the front end.
#[derive(Clone, Copy, PartialEq, Eq, Structural, Debug)]
pub enum ScanState {
    Idle,
    Requested,
    Running,
    Completed,
}

/// Application-level messages.
#[derive(Clone, Debug)]
pub enum AppMsg {
    Quit,
    ToggleBanner,
    StartScan,
    StopScan,
    SetFocus(FocusedArea),
}

/// Every message of the application.
#[derive(Clone, Debug)]
pub enum Message {
    App(AppMsg),
    ScanConfig(ScanConfigMsg),
    Results(ResultsMsg),
}

/// The state the front end shows.
pub struct Model {
    running_state: RunningState,
    scan_config: ScanConfig,
    results: ResultsModel,
    banner_collapsed: bool,
    scan_state: ScanState,
    focused_area: FocusedArea,
}

/// The text of the line that reports a stopped scan.
pub open spec fn stopped_line() -> Seq<char> {
    "[Scan stopped]"@
}

impl Model {
    pub closed spec fn running_view(&self) -> RunningState {
        self.running_state
    }

    pub closed spec fn config_view(&self) -> ScanConfig {
        self.scan_config
    }

    pub closed spec fn results_view(&self) -> ResultsModel {
        self.results
    }

    pub closed spec fn collapsed_view(&self) -> bool {
        self.banner_collapsed
    }

    pub closed spec fn scan_state_view(&self) -> ScanState {
        self.scan_state
    }

    pub closed spec fn focus_view(&self) -> FocusedArea {
        self.focused_area
    }

    /// A fresh model: running, idle, the form focused, nothing entered.
    pub fn new() -> (r: Model)
        ensures
            r.running_view() == RunningState::Running,
            r.scan_state_view() == ScanState::Idle,
            r.focus_view() == FocusedArea::ScanConfig,
            !r.collapsed_view(),
            r.results_view().lines@.len() == 0,
            r.results_view().scroll_position == 0,
            r.config_view().selected_field == SelectedField::NoField,
    {
        Model {
            running_state: RunningState::Running,
            scan_config: ScanConfig::default(),
            results: ResultsModel::default(),
            banner_collapsed: false,
            scan_state: ScanState::Idle,
            focused_area: FocusedArea::ScanConfig,
        }
    }

    /// Whether the application should quit.
    pub fn should_quit(&self) -> (r: bool)
        ensures
            r == (self.running_view() == RunningState::Done),
    {
        self.running_state == RunningState::Done
    }

    /// Sets whether the application should quit.
    pub fn set_should_quit(&mut self, should_quit: bool)
        ensures
            final(self).running_view() == if should_quit {
                RunningState::Done
            } else {
                RunningState::Running
            },
            final(self).config_view() == old(self).config_view(),
            final(self).results_view() == old(self).results_view(),
            final(self).collapsed_view() == old(self).collapsed_view(),
            final(self).scan_state_view() == old(self).scan_state_view(),
            final(self).focus_view() == old(self).focus_view(),
    {
        self.running_state = if should_quit {
            RunningState::Done
        } else {
            RunningState::Running
        };
    }

    /// The form.
    pub fn scan_config(&self) -> (r: &ScanConfig)
        ensures
            *r == self.config_view(),
    {
        &self.scan_config
    }

    /// The form, for changing it.
    pub fn scan_config_mut(&mut self) -> (r: &mut ScanConfig)
        ensures
            *r == old(self).config_view(),
            final(self).config_view() == *final(r),
            final(self).running_view() == old(self).running_view(),
            final(self).results_view() == old(self).results_view(),
            final(self).collapsed_view() == old(self).collapsed_view(),
            final(self).scan_state_view() == old(self).scan_state_view(),
            final(self).focus_view() == old(self).focus_view(),
    {
        &mut self.scan_config
    }

    /// The results pane.
    pub fn results(&self) -> (r: &ResultsModel)
        ensures
            *r == self.results_view(),
    {
        &self.results
    }

    /// The results pane, for changing it.
    pub fn results_mut(&mut self) -> (r: &mut ResultsModel)
        ensures
            *r == old(self).results_view(),
            final(self).results_view() == *final(r),
            final(self).running_view() == old(self).running_view(),
            final(self).config_view() == old(self).config_view(),
            final(self).collapsed_view() == old(self).collapsed_view(),
            final(self).scan_state_view() == old(self).scan_state_view(),
            final(self).focus_view() == old(self).focus_view(),
    {
        &mut self.results
    }

    /// Whether the banner is collapsed.
    pub fn is_banner_collapsed(&self) -> (r: bool)
        ensures
            r == self.collapsed_view(),
    {
        self.banner_collapsed
    }

    /// Collapses or expands the banner.
    pub fn toggle_banner_collapsed(&mut self)
        ensures
            final(self).collapsed_view() == !old(self).collapsed_view(),
            final(self).running_view() == old(self).running_view(),
            final(self).config_view() == old(self).config_view(),
            final(self).results_view() == old(self).results_view(),
            final(self).scan_state_view() == old(self).scan_state_view(),
            final(self).focus_view() == old(self).focus_view(),
    {
        self.banner_collapsed = !self.banner_collapsed;
    }

    /// The scan lifecycle state.
    pub fn scan_state(&self) -> (r: ScanState)
        ensures
            r == self.scan_state_view(),
    {
        self.scan_state
    }

    /// Sets the scan lifecycle state.
    pub fn set_scan_state(&mut self, state: ScanState)
        ensures
            final(self).scan_state_view() == state,
            final(self).running_view() == old(self).running_view(),
            final(self).config_view() == old(self).config_view(),
            final(self).results_view() == old(self).results_view(),
            final(self).collapsed_view() == old(self).collapsed_view(),
            final(self).focus_view() == old(self).focus_view(),
    {
        self.scan_state = state;
    }

    /// The focused area.
    pub fn focused_area(&self) -> (r: FocusedArea)
        ensures
            r == self.focus_view(),
    {
        self.focused_area
    }

    /// Sets the focused area.
    pub fn set_focused_area(&mut self, area: FocusedArea)
        ensures
            final(self).focus_view() == area,
            final(self).running_view() == old(self).running_view(),
            final(self).config_view() == old(self).config_view(),
            final(self).results_view() == old(self).results_view(),
            final(self).collapsed_view() == old(self).collapsed_view(),
            final(self).scan_state_view() == old(self).scan_state_view(),
    {
        self.focused_area = area;
    }
}

impl Default for Model {
    fn default() -> (r: Model)
        ensures
            r.running_view() == RunningState::Running,
            r.scan_state_view() == ScanState::Idle,
    {
        Model::new()
    }
}

/// Handles one message; `now_ms` is the current time in milliseconds. The
/// result is a follow-up message to handle next, which this update never
/// produces.
///
/// `StartScan` is ignored while a scan is requested or running; otherwise it
/// clears the form's focus and requests a scan. `StopScan` appends a
/// "[Scan stopped]" line and an empty line and completes the scan. Form and
/// results messages focus their area and go to its own update.
pub fn update(model: &mut Model, msg: Message, now_ms: u64) -> (r: Option<Message>)
    ensures
        r is None,
        match msg {
            Message::App(AppMsg::Quit) => final(model).running_view() == RunningState::Done
                && final(model).scan_state_view() == old(model).scan_state_view(),
            Message::App(AppMsg::ToggleBanner) => final(model).collapsed_view() == !old(model).collapsed_view()
                && final(model).scan_state_view() == old(model).scan_state_view(),
            Message::App(AppMsg::SetFocus(area)) => final(model).focus_view() == area
                && final(model).scan_state_view() == old(model).scan_state_view(),
            Message::App(AppMsg::StartScan) => if old(model).scan_state_view() == ScanState::Running
                || old(model).scan_state_view() == ScanState::Requested {
                final(model).scan_state_view() == old(model).scan_state_view() && final(model).config_view()
                    == old(model).config_view()
            } else {
                &&& final(model).scan_state_view() == ScanState::Requested
                &&& final(model).config_view().selected_field == SelectedField::NoField
                &&& final(model).config_view().scan_button_mode == ButtonMode::Normal
            },
            Message::App(AppMsg::StopScan) => {
                &&& final(model).scan_state_view() == ScanState::Completed
                &&& final(model).results_view().lines_spec() == append_spec(
                    append_spec(
                        old(model).results_view().lines_spec(),
                        old(model).results_view().max_lines as int,
                        stopped_line(),
                    ),
                    old(model).results_view().max_lines as int,
                    Seq::empty(),
                )
            },
            Message::ScanConfig(m) => final(model).focus_view() == FocusedArea::ScanConfig
                && config_updated(old(model).config_view(), final(model).config_view(), m, now_ms)
                && final(model).results_view() == old(model).results_view()
                && final(model).scan_state_view() == old(model).scan_state_view(),
            Message::Results(m) => final(model).focus_view() == FocusedArea::Results
                && results_updated(old(model).results_view(), final(model).results_view(), m)
                && final(model).config_view() == old(model).config_view()
                && final(model).scan_state_view() == old(model).scan_state_view(),
        },
{
    match msg {
        Message::App(app_msg) => match app_msg {
            AppMsg::Quit => model.set_should_quit(true),
            AppMsg::ToggleBanner => model.toggle_banner_collapsed(),
            AppMsg::SetFocus(area) => model.set_focused_area(area),
            AppMsg::StartScan => match model.scan_state() {
                ScanState::Running | ScanState::Requested => {},
                _ => {
                    model.scan_config.deselect_all();
                    model.set_scan_state(ScanState::Requested);
                },
            },
            AppMsg::StopScan => {
                update_results(&mut model.results, ResultsMsg::AppendLine(String::from_str("[Scan stopped]")));
                update_results(&mut model.results, ResultsMsg::AppendLine(String::new()));
                model.set_scan_state(ScanState::Completed);
            },
        },
        Message::ScanConfig(cfg_msg) => {
            model.set_focused_area(FocusedArea::ScanConfig);
            update_scan_config(&mut model.scan_config, cfg_msg, now_ms);
        },
        Message::Results(res_msg) => {
            model.set_focused_area(FocusedArea::Results);
            update_results(&mut model.results, res_msg);
        },
    }
    None
}

} // verus!
