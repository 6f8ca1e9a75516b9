use portscan_core::app_state::{AppState, HoveredField};
use portscan_core::events::{
    handle_component_click, handle_key_event, handle_mouse_event, KeyCode, KeyInput, Modifiers, MouseInput, MouseKind,
};
use portscan_core::model::{update, AppMsg, FocusedArea, Message, Model, ScanState};
use portscan_core::results::ResultsMsg;
use portscan_core::scan_config::{ButtonMode, ScanConfigMsg, SelectedField};
use portscan_core::widgets::{ButtonWidget, HeaderComponent, TextInputWidget, TuiApp};
use portscan_core::text_input::TextInput;

const NONE: Modifiers = Modifiers { shift: false, control: false, alt: false, other: false };
const CTRL: Modifiers = Modifiers { shift: false, control: true, alt: false, other: false };
const SHIFT: Modifiers = Modifiers { shift: true, control: false, alt: false, other: false };

fn key(code: KeyCode, modifiers: Modifiers) -> KeyInput {
    KeyInput { code, modifiers, press: true }
}

#[test]
fn app_state_edits_selected_field() {
    let mut s = AppState::new();
    s.add_char('x');
    assert!(s.scan_config().targets_input.is_empty());
    s.next_field();
    assert_eq!(*s.selected_field(), SelectedField::Targets);
    for c in "a b".chars() {
        s.add_char(c);
    }
    s.move_cursor_to_previous_word();
    s.remove_char();
    assert_eq!(s.scan_config().targets_input.text(), "ab");
    s.move_cursor_left();
    s.remove_next_char();
    assert_eq!(s.scan_config().targets_input.text(), "b");
    s.confirm_input();
    assert_eq!(s.scan_config().targets, vec!["b"]);
    s.set_selected_field(SelectedField::ScanButton);
    assert_eq!(*s.scan_button_state(), ButtonMode::Selected);
    s.deselect_all();
    assert_eq!(*s.scan_button_state(), ButtonMode::Normal);
    s.set_hovered_field(HoveredField::Ports);
    assert_eq!(*s.hovered_field(), HoveredField::Ports);
    s.toggle_banner_collapsed();
    assert!(s.is_banner_collapsed());
    s.output_buffer_mut().push_line("hi".to_string());
    assert_eq!(s.output_buffer().get_visible_lines(3), vec!["hi"]);
    s.set_should_quit(true);
    assert!(s.should_quit());
}

#[test]
fn update_start_and_stop_scan() {
    let mut m = Model::new();
    m.scan_config_mut().set_selected_field(SelectedField::ScanButton);
    update(&mut m, Message::App(AppMsg::StartScan), 0);
    assert_eq!(m.scan_state(), ScanState::Requested);
    assert_eq!(m.scan_config().selected_field, SelectedField::NoField);
    m.set_scan_state(ScanState::Running);
    update(&mut m, Message::App(AppMsg::StartScan), 0);
    assert_eq!(m.scan_state(), ScanState::Running);
    let r = update(&mut m, Message::App(AppMsg::StopScan), 0);
    assert!(r.is_none());
    assert_eq!(m.scan_state(), ScanState::Completed);
    assert_eq!(m.results().lines, vec!["[Scan stopped]", ""]);
    update(&mut m, Message::App(AppMsg::ToggleBanner), 0);
    assert!(m.is_banner_collapsed());
    update(&mut m, Message::Results(ResultsMsg::ScrollUp(1)), 0);
    assert_eq!(m.focused_area(), FocusedArea::Results);
    update(&mut m, Message::ScanConfig(ScanConfigMsg::NextField), 0);
    assert_eq!(m.focused_area(), FocusedArea::ScanConfig);
    update(&mut m, Message::App(AppMsg::Quit), 0);
    assert!(m.should_quit());
}

#[test]
fn keys_map_to_messages() {
    let mut m = Model::new();
    assert!(matches!(handle_key_event(&m, key(KeyCode::Char('q'), NONE)), Some(Message::App(AppMsg::Quit))));
    assert!(handle_key_event(&m, key(KeyCode::Char('c'), CTRL)).is_none());
    m.set_scan_state(ScanState::Running);
    assert!(matches!(handle_key_event(&m, key(KeyCode::Char('c'), CTRL)), Some(Message::App(AppMsg::StopScan))));
    assert!(matches!(handle_key_event(&m, key(KeyCode::Enter, NONE)), Some(Message::App(AppMsg::StartScan))));
    assert!(matches!(
        handle_key_event(&m, key(KeyCode::PageUp, NONE)),
        Some(Message::Results(ResultsMsg::ScrollUp(10)))
    ));
    assert!(matches!(
        handle_key_event(&m, key(KeyCode::Up, SHIFT)),
        Some(Message::Results(ResultsMsg::ScrollUp(3)))
    ));
    assert!(matches!(
        handle_key_event(&m, key(KeyCode::Tab, SHIFT)),
        Some(Message::ScanConfig(ScanConfigMsg::PrevField))
    ));
    assert!(matches!(
        handle_key_event(&m, key(KeyCode::Left, CTRL)),
        Some(Message::ScanConfig(ScanConfigMsg::MovePrevWord))
    ));
    assert!(matches!(
        handle_key_event(&m, key(KeyCode::Char('w'), CTRL)),
        Some(Message::ScanConfig(ScanConfigMsg::DeletePrevWord))
    ));
    assert!(matches!(
        handle_key_event(&m, key(KeyCode::Char('7'), NONE)),
        Some(Message::ScanConfig(ScanConfigMsg::AddChar('7')))
    ));
    assert!(handle_key_event(&m, KeyInput { code: KeyCode::Char('7'), modifiers: NONE, press: false }).is_none());
    m.set_focused_area(FocusedArea::Results);
    assert!(handle_key_event(&m, key(KeyCode::Char('7'), NONE)).is_none());
    m.set_focused_area(FocusedArea::NoArea);
    assert!(matches!(
        handle_key_event(&m, key(KeyCode::Down, NONE)),
        Some(Message::ScanConfig(ScanConfigMsg::NextField))
    ));
}

#[test]
fn clicks_map_to_components() {
    let mut m = Model::new();
    assert!(matches!(handle_component_click(&m, 0, 2), Message::App(AppMsg::ToggleBanner)));
    assert!(matches!(handle_component_click(&m, 0, 5), Message::ScanConfig(ScanConfigMsg::DeselectAll)));
    assert!(matches!(
        handle_component_click(&m, 0, 6),
        Message::ScanConfig(ScanConfigMsg::SelectField(SelectedField::Targets))
    ));
    assert!(matches!(
        handle_component_click(&m, 0, 9),
        Message::ScanConfig(ScanConfigMsg::SelectField(SelectedField::Ports))
    ));
    assert!(matches!(
        handle_component_click(&m, 0, 14),
        Message::ScanConfig(ScanConfigMsg::SelectField(SelectedField::Options))
    ));
    assert!(matches!(handle_component_click(&m, 0, 15), Message::ScanConfig(ScanConfigMsg::ButtonActivate)));
    assert!(matches!(handle_component_click(&m, 0, 18), Message::ScanConfig(ScanConfigMsg::DeselectAll)));
    m.toggle_banner_collapsed();
    assert!(matches!(
        handle_component_click(&m, 0, 2),
        Message::ScanConfig(ScanConfigMsg::SelectField(SelectedField::Targets))
    ));
    assert!(matches!(
        handle_mouse_event(&m, MouseInput { kind: MouseKind::ScrollDown, column: 0, row: 0 }),
        Some(Message::Results(ResultsMsg::ScrollDown(3)))
    ));
    assert!(handle_mouse_event(&m, MouseInput { kind: MouseKind::Other, column: 0, row: 0 }).is_none());
}

#[test]
fn widgets_and_header() {
    assert_eq!(HeaderComponent::calculate_center_padding(10, 30), 10);
    assert_eq!(HeaderComponent::calculate_center_padding(40, 30), 0);
    assert_eq!(HeaderComponent::truncate_if_needed("PORTSCAN", 4), "PORT");
    assert_eq!(HeaderComponent::truncate_if_needed("RUST", 10), "RUST");
    let b = ButtonWidget::new("Scan".to_string()).mode(&ButtonMode::Active);
    assert_eq!(b.label, "Scan");
    assert_eq!(b.mode, ButtonMode::Active);
    let empty = TextInput::new();
    let w = TextInputWidget::from_model("Ports".to_string(), &empty, None, true, "All ports");
    assert!(w.is_placeholder);
    assert_eq!(w.text, "All ports");
    let w = TextInputWidget::from_model("Ports".to_string(), &empty, Some("80".to_string()), false, "All ports");
    assert!(!w.is_placeholder);
    assert_eq!(w.text, "80");
    let typed = TextInput::with_text("22".to_string());
    let w = TextInputWidget::from_model("Ports".to_string(), &typed, Some("80".to_string()), false, "All ports");
    assert_eq!(w.text, "22");
    assert_eq!(w.cursor_index, Some(2));
    let app = TuiApp::new();
    assert!(!app.state().should_quit());
}
