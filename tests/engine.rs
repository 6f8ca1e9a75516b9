use portscan_core::engine::{
    batch_count, next_step, worst_case_latency_ms, AttemptStep, Diagnostics, EngineError, ErrorKind, ProbeReply,
    RunState, ScanConfig, ScanOutcome, ScanResult, ScanRun, Settled, Target, Transport, WorkUnit,
};
use portscan_core::ports::{sequence_ports, PortSelection, PortSpec, ScanOrder};

fn config(limit: u16, retries: u8, transport: Transport) -> ScanConfig {
    ScanConfig { concurrency_limit: limit, timeout_ms: 50, retries, transport }
}

/// Probes a unit against a simulated network until it settles.
fn probe(cfg: &ScanConfig, unit: &WorkUnit, reply: &dyn Fn(Target, u16) -> ProbeReply) -> Settled {
    let mut tries: u32 = 0;
    loop {
        tries += 1;
        match next_step(cfg, tries, reply(unit.target, unit.port)) {
            AttemptStep::Retry => continue,
            AttemptStep::Settled(outcome) => return Settled { outcome, tries },
        }
    }
}

struct Run {
    result: ScanResult,
    diagnostics: Diagnostics,
    batches: Vec<usize>,
    max_in_flight: usize,
}

fn drive(
    targets: Vec<Target>,
    ports: Vec<u16>,
    cfg: ScanConfig,
    reply: &dyn Fn(Target, u16) -> ProbeReply,
    cancel_after: Option<usize>,
) -> Run {
    let mut run = ScanRun::new(targets, ports, cfg).unwrap();
    let mut batches = Vec::new();
    let mut max_in_flight = 0;
    loop {
        if cancel_after == Some(batches.len()) {
            run.cancel();
        }
        let batch = run.dispatch_batch();
        if batch.is_empty() {
            break;
        }
        max_in_flight = max_in_flight.max(run.in_flight());
        // a second request while the batch is in flight hands out nothing
        assert!(run.dispatch_batch().is_empty());
        let outcomes: Vec<Settled> = batch.iter().map(|u| probe(&cfg, u, reply)).collect();
        run.settle_batch(&outcomes);
        batches.push(batch.len());
    }
    assert_eq!(run.state(), RunState::Completed);
    Run { result: run.result(), diagnostics: run.diagnostics(), batches, max_in_flight }
}

fn open_on(open: &'static [u16]) -> impl Fn(Target, u16) -> ProbeReply {
    move |_t, p| if open.contains(&p) { ProbeReply::Positive } else { ProbeReply::Negative }
}

const HOST: Target = Target::V4(0x7f00_0001);

#[test]
fn explicit_ports_single_target() {
    let r = drive(vec![HOST], vec![22, 80, 9999], config(10, 1, Transport::Tcp), &open_on(&[22, 80]), None);
    assert_eq!(r.result.hosts.len(), 1);
    assert_eq!(r.result.hosts[0].target, HOST);
    assert_eq!(r.result.hosts[0].ports, vec![22, 80]);
    assert_eq!(r.diagnostics.closed_or_filtered, 1);
}

#[test]
fn serialized_timeouts_spend_every_try() {
    let cfg = config(1, 2, Transport::Tcp);
    let r = drive(vec![HOST], vec![1, 2, 3], cfg, &|_t, _p| ProbeReply::TimedOut, None);
    assert!(r.result.hosts.is_empty());
    assert_eq!(r.batches, vec![1, 1, 1]);
    assert_eq!(r.diagnostics.attempts, 9);
    assert_eq!(r.diagnostics.closed_or_filtered, 3);
    // 3 batches, each up to 3 tries of 50 ms
    assert_eq!(worst_case_latency_ms(3, &cfg), Some(450));
}

#[test]
fn empty_target_list_fails() {
    let r = ScanRun::new(vec![], vec![22], config(5, 0, Transport::Tcp));
    assert!(matches!(r, Err(EngineError::NoTargets)));
}

#[test]
fn in_flight_never_exceeds_limit() {
    let targets = vec![Target::V4(1), Target::V4(2), Target::V4(3)];
    let r = drive(targets, (1..=20).collect(), config(7, 0, Transport::Tcp), &open_on(&[5]), None);
    assert_eq!(r.max_in_flight, 7);
    assert_eq!(r.batches, vec![7, 7, 7, 7, 7, 7, 7, 7, 4]);
    assert_eq!(r.result.hosts.len(), 3);
}

#[test]
fn result_independent_of_order_and_batches() {
    let open = open_on(&[22, 443, 8080, 9000]);
    let targets = vec![Target::V4(10), Target::V6(1)];
    let serial = sequence_ports(
        &PortSpec { selection: PortSelection::Range { start: 1, end: 10000 }, exclude: vec![], order: ScanOrder::Serial },
        0,
    )
    .unwrap();
    let random = sequence_ports(
        &PortSpec { selection: PortSelection::Range { start: 1, end: 10000 }, exclude: vec![], order: ScanOrder::Random },
        77,
    )
    .unwrap();
    let a = drive(targets.clone(), serial, config(1000, 0, Transport::Tcp), &open, None);
    let b = drive(targets, random, config(13, 0, Transport::Tcp), &open, None);
    assert_eq!(a.result.hosts.len(), 2);
    for (x, y) in a.result.hosts.iter().zip(b.result.hosts.iter()) {
        assert_eq!(x.target, y.target);
        assert_eq!(x.ports, y.ports);
        assert_eq!(x.ports, vec![22, 443, 8080, 9000]);
    }
}

#[test]
fn cancelled_run_keeps_a_subset() {
    let open = open_on(&[2, 9, 15, 30]);
    let full = drive(vec![HOST], (1..=40).collect(), config(8, 0, Transport::Tcp), &open, None);
    let part = drive(vec![HOST], (1..=40).collect(), config(8, 0, Transport::Tcp), &open, Some(2));
    assert_eq!(part.batches, vec![8, 8]);
    assert_eq!(part.result.hosts[0].ports, vec![2, 9, 15]);
    for p in &part.result.hosts[0].ports {
        assert!(full.result.hosts[0].ports.contains(p));
    }
    assert_eq!(full.result.hosts[0].ports, vec![2, 9, 15, 30]);
}

#[test]
fn cancel_before_start_completes_at_once() {
    let mut run = ScanRun::new(vec![HOST], vec![1, 2], config(1, 0, Transport::Tcp)).unwrap();
    run.cancel();
    assert_eq!(run.state(), RunState::Completed);
    assert!(run.dispatch_batch().is_empty());
    assert!(run.result().hosts.is_empty());
}

#[test]
fn empty_port_sequence_completes_immediately() {
    let ports = sequence_ports(
        &PortSpec { selection: PortSelection::ExplicitList(vec![22]), exclude: vec![22], order: ScanOrder::Serial },
        0,
    )
    .unwrap();
    let mut run = ScanRun::new(vec![HOST], ports, config(4, 0, Transport::Tcp)).unwrap();
    assert_eq!(run.state(), RunState::NotStarted);
    assert!(run.dispatch_batch().is_empty());
    assert_eq!(run.state(), RunState::Completed);
    assert!(run.result().hosts.is_empty());
}

#[test]
fn retry_and_outcome_rules() {
    let tcp = config(1, 2, Transport::Tcp);
    let udp = config(1, 2, Transport::Udp);
    assert_eq!(next_step(&tcp, 1, ProbeReply::TimedOut), AttemptStep::Retry);
    assert_eq!(next_step(&tcp, 2, ProbeReply::TimedOut), AttemptStep::Retry);
    assert_eq!(next_step(&tcp, 3, ProbeReply::TimedOut), AttemptStep::Settled(ScanOutcome::ClosedOrFiltered));
    assert_eq!(next_step(&tcp, 1, ProbeReply::Positive), AttemptStep::Settled(ScanOutcome::Open));
    assert_eq!(next_step(&tcp, 1, ProbeReply::Negative), AttemptStep::Settled(ScanOutcome::ClosedOrFiltered));
    assert_eq!(
        next_step(&tcp, 1, ProbeReply::LocalResourceError),
        AttemptStep::Settled(ScanOutcome::Error(ErrorKind::ResourceExhausted))
    );
    assert_eq!(next_step(&udp, 1, ProbeReply::TimedOut), AttemptStep::Settled(ScanOutcome::Open));
    assert_eq!(next_step(&udp, 1, ProbeReply::Negative), AttemptStep::Settled(ScanOutcome::ClosedOrFiltered));
}

#[test]
fn resource_errors_are_counted_not_retried() {
    let r = drive(vec![HOST], vec![1, 2, 3, 4], config(2, 5, Transport::Tcp), &|_t, p| {
        if p % 2 == 0 { ProbeReply::LocalResourceError } else { ProbeReply::Positive }
    }, None);
    assert_eq!(r.diagnostics.resource_exhausted, 2);
    assert_eq!(r.diagnostics.attempts, 4);
    assert_eq!(r.result.hosts[0].ports, vec![1, 3]);
}

#[test]
fn targets_are_the_outer_dimension() {
    let mut run = ScanRun::new(vec![Target::V4(1), Target::V4(2)], vec![80, 22], config(3, 0, Transport::Tcp)).unwrap();
    let b = run.dispatch_batch();
    let got: Vec<(usize, u16)> = b.iter().map(|u| (u.target_index, u.port)).collect();
    assert_eq!(got, vec![(0, 80), (0, 22), (1, 80)]);
}

#[test]
fn newly_open_units_are_reported() {
    let mut run = ScanRun::new(vec![HOST], vec![5, 6, 7], config(3, 0, Transport::Tcp)).unwrap();
    let b = run.dispatch_batch();
    assert_eq!(b.len(), 3);
    let outs = vec![
        Settled { outcome: ScanOutcome::Open, tries: 1 },
        Settled { outcome: ScanOutcome::ClosedOrFiltered, tries: 1 },
        Settled { outcome: ScanOutcome::Open, tries: 2 },
    ];
    let found = run.settle_batch(&outs);
    assert_eq!(found.iter().map(|u| u.port).collect::<Vec<_>>(), vec![5, 7]);
    assert_eq!(run.settled_count(), 3);
    assert_eq!(run.diagnostics().attempts, 4);
}

#[test]
fn batch_counts_and_latency_bound() {
    assert_eq!(batch_count(0, 4), 0);
    assert_eq!(batch_count(8, 4), 2);
    assert_eq!(batch_count(9, 4), 3);
    let cfg = ScanConfig { concurrency_limit: 1, timeout_ms: u64::MAX, retries: 1, transport: Transport::Tcp };
    assert_eq!(worst_case_latency_ms(2, &cfg), None);
    assert!(cfg.is_valid());
    assert!(!ScanConfig { concurrency_limit: 0, ..cfg }.is_valid());
}
