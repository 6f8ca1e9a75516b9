use portscan_core::ports::{sequence_ports, validate, PortSelection, PortSpec, PortSpecError, ScanOrder};

fn spec(selection: PortSelection, exclude: Vec<u32>, order: ScanOrder) -> PortSpec {
    PortSpec { selection, exclude, order }
}

#[test]
fn range_length_excludes_inside_range_only() {
    let s = spec(PortSelection::Range { start: 100, end: 200 }, vec![100, 150, 150, 300], ScanOrder::Serial);
    let v = sequence_ports(&s, 0).unwrap();
    // 101 ports, two distinct excluded ports inside the range
    assert_eq!(v.len(), 99);
    assert!(v.iter().all(|p| (100..=200).contains(p)));
    assert!(!v.contains(&100) && !v.contains(&150));
}

#[test]
fn serial_order_is_strictly_ascending() {
    let s = spec(PortSelection::ExplicitList(vec![443, 22, 80, 22, 8080]), vec![], ScanOrder::Serial);
    let v = sequence_ports(&s, 0).unwrap();
    assert_eq!(v, vec![22, 80, 443, 8080]);
}

#[test]
fn random_order_is_a_permutation() {
    let serial = sequence_ports(&spec(PortSelection::Range { start: 1, end: 1000 }, vec![5, 6], ScanOrder::Serial), 0).unwrap();
    let random = sequence_ports(&spec(PortSelection::Range { start: 1, end: 1000 }, vec![5, 6], ScanOrder::Random), 42).unwrap();
    assert_eq!(random.len(), serial.len());
    assert_ne!(random, serial);
    let mut sorted = random.clone();
    sorted.sort();
    assert_eq!(sorted, serial);
}

#[test]
fn random_orders_differ_between_seeds() {
    let a = sequence_ports(&spec(PortSelection::AllPorts, vec![], ScanOrder::Random), 1).unwrap();
    let b = sequence_ports(&spec(PortSelection::AllPorts, vec![], ScanOrder::Random), 2).unwrap();
    assert_eq!(a.len(), 65535);
    assert_ne!(a, b);
}

#[test]
fn single_port_range() {
    let v = sequence_ports(&spec(PortSelection::Range { start: 8080, end: 8080 }, vec![], ScanOrder::Random), 9).unwrap();
    assert_eq!(v, vec![8080]);
}

#[test]
fn explicit_list_all_excluded_is_empty() {
    let v = sequence_ports(&spec(PortSelection::ExplicitList(vec![22, 80]), vec![80, 22], ScanOrder::Serial), 0).unwrap();
    assert!(v.is_empty());
}

#[test]
fn reversed_range_is_invalid() {
    let r = sequence_ports(&spec(PortSelection::Range { start: 100, end: 50 }, vec![], ScanOrder::Serial), 0);
    assert_eq!(r, Err(PortSpecError::InvalidSpec));
}

#[test]
fn port_zero_and_too_large_are_invalid() {
    let zero = spec(PortSelection::ExplicitList(vec![0, 22]), vec![], ScanOrder::Serial);
    assert_eq!(sequence_ports(&zero, 0), Err(PortSpecError::InvalidSpec));
    let big = spec(PortSelection::Range { start: 1, end: 65536 }, vec![], ScanOrder::Serial);
    assert_eq!(sequence_ports(&big, 0), Err(PortSpecError::InvalidSpec));
    let bad_exclude = spec(PortSelection::AllPorts, vec![70000], ScanOrder::Serial);
    assert!(!validate(&bad_exclude));
    assert_eq!(sequence_ports(&bad_exclude, 0), Err(PortSpecError::InvalidSpec));
}

#[test]
fn all_ports_covers_the_whole_range() {
    let v = sequence_ports(&spec(PortSelection::AllPorts, vec![1, 65535], ScanOrder::Serial), 0).unwrap();
    assert_eq!(v.len(), 65533);
    assert_eq!(v[0], 2);
    assert_eq!(v[v.len() - 1], 65534);
}
