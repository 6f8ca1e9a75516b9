use portscan_core::report::{format_ports, host_line, no_ports_line};

#[test]
fn ports_are_listed_in_decimal() {
    assert_eq!(format_ports(&vec![]), "");
    assert_eq!(format_ports(&vec![0]), "0");
    assert_eq!(format_ports(&vec![22, 80, 65535]), "22,80,65535");
}

#[test]
fn host_lines() {
    assert_eq!(host_line("10.0.0.1", &vec![22, 80]), "10.0.0.1 -> [22,80]");
    let l = no_ports_line("::1", 4500);
    assert!(l.starts_with("No open ports found for ::1. A high batch size (4500)"));
}
