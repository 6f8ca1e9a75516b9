use portscan_core::opts::{build_opts_from_scan_config, BuildOptsFromScanConfigError};
use portscan_core::ports::PortSelection;
use portscan_core::scan_config::{update_scan_config, ButtonMode, ScanConfig, ScanConfigMsg, SelectedField};

fn typed(cfg: &mut ScanConfig, text: &str) {
    for c in text.chars() {
        update_scan_config(cfg, ScanConfigMsg::AddChar(c), 0);
    }
}

#[test]
fn field_cycling_and_button_look() {
    let mut cfg = ScanConfig::default();
    assert_eq!(cfg.selected_field, SelectedField::NoField);
    cfg.next_field();
    assert_eq!(cfg.selected_field, SelectedField::Targets);
    cfg.prev_field();
    assert_eq!(cfg.selected_field, SelectedField::ScanButton);
    assert_eq!(cfg.scan_button_mode, ButtonMode::Selected);
    cfg.prev_field();
    assert_eq!(cfg.selected_field, SelectedField::Options);
    assert_eq!(cfg.scan_button_mode, ButtonMode::Normal);
    cfg.deselect_all();
    cfg.prev_field();
    assert_eq!(cfg.selected_field, SelectedField::ScanButton);
    cfg.set_selected_field(SelectedField::Ports);
    assert_eq!(cfg.scan_button_mode, ButtonMode::Normal);
}

#[test]
fn button_activation_times_out() {
    let mut cfg = ScanConfig::default();
    cfg.set_selected_field(SelectedField::ScanButton);
    update_scan_config(&mut cfg, ScanConfigMsg::ButtonActivate, 1000);
    assert_eq!(cfg.scan_button_mode, ButtonMode::Active);
    assert!(!cfg.maybe_finish_button_activation(1199));
    assert_eq!(cfg.scan_button_mode, ButtonMode::Active);
    assert!(cfg.maybe_finish_button_activation(1200));
    assert_eq!(cfg.scan_button_mode, ButtonMode::Selected);
    assert!(!cfg.maybe_finish_button_activation(5000));
}

#[test]
fn editing_goes_to_the_focused_field() {
    let mut cfg = ScanConfig::default();
    typed(&mut cfg, "ignored");
    assert!(cfg.targets_input.is_empty() && cfg.ports_input.is_empty());
    update_scan_config(&mut cfg, ScanConfigMsg::SelectField(SelectedField::Ports), 0);
    typed(&mut cfg, "80,443");
    update_scan_config(&mut cfg, ScanConfigMsg::DeletePrevWord, 0);
    assert_eq!(cfg.ports_input.text(), "");
    update_scan_config(&mut cfg, ScanConfigMsg::Paste("22 80".to_string()), 0);
    update_scan_config(&mut cfg, ScanConfigMsg::MovePrevWord, 0);
    update_scan_config(&mut cfg, ScanConfigMsg::RemovePrevChar, 0);
    assert_eq!(cfg.ports_input.text(), "2280");
    assert!(cfg.targets_input.is_empty());
}

#[test]
fn confirming_targets_and_ports() {
    let mut cfg = ScanConfig::default();
    cfg.set_selected_field(SelectedField::Targets);
    typed(&mut cfg, " 10.0.0.1 , ,example.com,");
    update_scan_config(&mut cfg, ScanConfigMsg::ConfirmInput, 0);
    assert_eq!(cfg.targets, vec!["10.0.0.1", "example.com"]);
    assert!(cfg.targets_input.is_empty());
    cfg.next_field();
    typed(&mut cfg, "1-100");
    cfg.confirm_input();
    assert_eq!(cfg.ports.as_deref(), Some("1-100"));
    cfg.confirm_input();
    assert_eq!(cfg.ports, None);
}

#[test]
fn options_from_form() {
    let mut cfg = ScanConfig::default();
    assert!(matches!(build_opts_from_scan_config(&cfg), Err(BuildOptsFromScanConfigError::NoTargets)));
    cfg.targets = vec!["10.0.0.1".to_string(), "10.0.0.2".to_string()];
    let o = build_opts_from_scan_config(&cfg).unwrap();
    assert_eq!(o.addresses, "10.0.0.1,10.0.0.2");
    assert!(matches!(o.ports, PortSelection::Range { start: 1, end: 65535 }));
    assert_eq!(o.timeout, 1500);
    assert_eq!(o.batch_size, 4500);
    cfg.ports = Some(" 100-200 ".to_string());
    let o = build_opts_from_scan_config(&cfg).unwrap();
    assert!(matches!(o.ports, PortSelection::Range { start: 100, end: 200 }));
    cfg.ports = Some("22,80,+443".to_string());
    match build_opts_from_scan_config(&cfg).unwrap().ports {
        PortSelection::ExplicitList(l) => assert_eq!(l, vec![22, 80, 443]),
        _ => panic!("expected a list"),
    }
}

#[test]
fn malformed_ports_are_rejected() {
    let mut cfg = ScanConfig::default();
    cfg.set_selected_field(SelectedField::Targets);
    typed(&mut cfg, "   ");
    assert!(matches!(build_opts_from_scan_config(&cfg), Err(BuildOptsFromScanConfigError::NoTargets)));
    typed(&mut cfg, "host");
    for bad in ["1-2-3", "80,x", "70000", "22,,80", "-5", "a-b"] {
        cfg.ports = Some(bad.to_string());
        assert!(
            matches!(build_opts_from_scan_config(&cfg), Err(BuildOptsFromScanConfigError::ClapParse(_))),
            "{bad}"
        );
    }
    cfg.ports = Some("200-100".to_string());
    assert!(matches!(build_opts_from_scan_config(&cfg).unwrap().ports, PortSelection::Range { start: 200, end: 100 }));
}
