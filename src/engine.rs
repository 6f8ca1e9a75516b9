//! The scan engine: expands targets × ports into work units, hands them out
//! in batches of at most `concurrency_limit`, decides per attempt whether to
//! retry, and folds settled outcomes into a canonical per-target result.
//!
//! The engine does no I/O. A driver asks for a batch, probes every unit of
//! it (consulting `next_step` after each try), and reports the settled
//! outcomes back; only then is the next batch handed out.
use vstd::prelude::*;
use vstd::arithmetic::div_mod::*;
use crate::ports::strictly_ascending;

verus! {

/// A resolved network address.
#[derive(Clone, Copy, PartialEq, Eq, Structural, Debug)]
pub enum Target {
    /// An IPv4 address, most significant octet first.
    V4(u32),
    /// An IPv6 address, most significant segment first.
    V6(u128),
}

/// Transport used for probing.
#[derive(Clone, Copy, PartialEq, Eq, Structural, Debug)]
pub enum Transport {
    Tcp,
    Udp,
}

/// Engine configuration, read-only for a run.
#[derive(Clone, Copy, PartialEq, Eq, Structural, Debug)]
pub struct ScanConfig {
    /// Most attempts in flight at once.
    pub concurrency_limit: u16,
    /// Per-attempt timeout in milliseconds.
    pub timeout_ms: u64,
    /// Additional tries after a timed-out one.
    pub retries: u8,
    pub transport: Transport,
}

impl ScanConfig {
    /// A usable configuration: at least one slot and a positive timeout.
    pub open spec fn wf(&self) -> bool {
        self.concurrency_limit >= 1 && self.timeout_ms > 0
    }

    /// Whether the configuration is usable.
    pub fn is_valid(&self) -> (r: bool)
        ensures
            r == self.wf(),
    {
        self.concurrency_limit >= 1 && self.timeout_ms > 0
    }
}

/// What a single try observed.
///
/// For TCP: `Positive` is an established connection, `Negative` a refusal or
/// reset. For UDP: `Positive` is any reply, `Negative` a port-unreachable
/// signal. `TimedOut` is silence until the timeout; `LocalResourceError` a
/// failure to obtain a local socket.
#[derive(Clone, Copy, PartialEq, Eq, Structural, Debug)]
pub enum ProbeReply {
    Positive,
    Negative,
    TimedOut,
    LocalResourceError,
}

/// Kinds of per-attempt error.
#[derive(Clone, Copy, PartialEq, Eq, Structural, Debug)]
pub enum ErrorKind {
    ResourceExhausted,
}

/// Final classification of one (target, port) pair.
#[derive(Clone, Copy, PartialEq, Eq, Structural, Debug)]
pub enum ScanOutcome {
    Open,
    ClosedOrFiltered,
    Error(ErrorKind),
}

/// What to do after a try.
#[derive(Clone, Copy, PartialEq, Eq, Structural, Debug)]
pub enum AttemptStep {
    /// Try the same unit again.
    Retry,
    /// The unit is settled with this outcome.
    Settled(ScanOutcome),
}

/// Fatal engine errors.
#[derive(Clone, Copy, PartialEq, Eq, Structural, Debug)]
pub enum EngineError {
    /// The target list was empty.
    NoTargets,
}

/// Lifecycle of a run.
#[derive(Clone, Copy, PartialEq, Eq, Structural, Debug)]
pub enum RunState {
    NotStarted,
    Running,
    Completed,
}

/// One (target, port) pair to probe.
#[derive(Clone, Copy, PartialEq, Eq, Structural, Debug)]
pub struct WorkUnit {
    /// Position of the target in the run's target list.
    pub target_index: usize,
    pub target: Target,
    pub port: u16,
}

/// A settled unit as reported by the driver.
#[derive(Clone, Copy, PartialEq, Eq, Structural, Debug)]
pub struct Settled {
    pub outcome: ScanOutcome,
    /// Number of tries spent on the unit.
    pub tries: u32,
}

/// Counters for operator guidance.
#[derive(Clone, Copy, PartialEq, Eq, Structural, Debug)]
pub struct Diagnostics {
    /// Tries made, over all units.
    pub attempts: u64,
    /// Units settled as closed or filtered.
    pub closed_or_filtered: u64,
    /// Units settled with a local resource error.
    pub resource_exhausted: u64,
}

/// Open ports of one target, ascending.
#[derive(Clone, Debug)]
pub struct HostPorts {
    pub target: Target,
    pub ports: Vec<u16>,
}

/// The final aggregate: for each target with an open port, in target-list
/// order, its open ports in ascending order.
#[derive(Clone, Debug)]
pub struct ScanResult {
    pub hosts: Vec<HostPorts>,
}

impl ScanResult {
    pub open spec fn view(&self) -> Seq<(Target, Seq<u16>)> {
        self.hosts@.map_values(|h: HostPorts| (h.target, h.ports@))
    }
}

/// The decision after a try that was the `tries`-th for its unit.
pub open spec fn step_spec(config: ScanConfig, tries: int, reply: ProbeReply) -> AttemptStep {
    match reply {
        ProbeReply::Positive => AttemptStep::Settled(ScanOutcome::Open),
        ProbeReply::Negative => AttemptStep::Settled(ScanOutcome::ClosedOrFiltered),
        ProbeReply::LocalResourceError => AttemptStep::Settled(ScanOutcome::Error(ErrorKind::ResourceExhausted)),
        ProbeReply::TimedOut => match config.transport {
            Transport::Udp => AttemptStep::Settled(ScanOutcome::Open),
            Transport::Tcp => if tries <= config.retries {
                AttemptStep::Retry
            } else {
                AttemptStep::Settled(ScanOutcome::ClosedOrFiltered)
            },
        },
    }
}

/// Decides what follows a try: a TCP timeout is retried until `retries`
/// further tries have been spent and then counts as closed; UDP silence
/// counts as open; a local resource error is never retried.
pub fn next_step(config: &ScanConfig, tries: u32, reply: ProbeReply) -> (r: AttemptStep)
    ensures
        r == step_spec(*config, tries as int, reply),
{
    match reply {
        ProbeReply::Positive => AttemptStep::Settled(ScanOutcome::Open),
        ProbeReply::Negative => AttemptStep::Settled(ScanOutcome::ClosedOrFiltered),
        ProbeReply::LocalResourceError => AttemptStep::Settled(ScanOutcome::Error(ErrorKind::ResourceExhausted)),
        ProbeReply::TimedOut => match config.transport {
            Transport::Udp => AttemptStep::Settled(ScanOutcome::Open),
            Transport::Tcp => if tries <= config.retries as u32 {
                AttemptStep::Retry
            } else {
                AttemptStep::Settled(ScanOutcome::ClosedOrFiltered)
            },
        },
    }
}

/// Over TCP, a unit whose every try times out is retried after each of its
/// first `retries` tries and settles, closed or filtered, on try
/// `retries + 1`: it holds its slot for exactly `retries + 1` timeouts. With
/// batches run one after another, a run whose tries all time out therefore
/// lasts at least `batches × (retries + 1) × timeout`.
pub proof fn lemma_timeouts_take_every_try(config: ScanConfig, tries: int)
    requires
        config.transport == Transport::Tcp,
        1 <= tries,
    ensures
        tries <= config.retries ==> step_spec(config, tries, ProbeReply::TimedOut) == AttemptStep::Retry,
        tries == config.retries + 1 ==> step_spec(config, tries, ProbeReply::TimedOut) == AttemptStep::Settled(
            ScanOutcome::ClosedOrFiltered,
        ),
{
}

/// Number of batches of at most `limit` units that `units` units make.
pub open spec fn batches_for(units: int, limit: int) -> int {
    (units + limit - 1) / limit
}

/// Number of batches that `units` work units make under `limit`.
pub fn batch_count(units: u64, limit: u16) -> (r: u64)
    requires
        limit >= 1,
    ensures
        r == batches_for(units as int, limit as int),
{
    let l = limit as u64;
    let q = units / l;
    if units % l == 0 {
        proof {
            lemma_fundamental_div_mod(units as int, l as int);
            lemma_fundamental_div_mod_converse(units + l - 1, l as int, q as int, l - 1);
        }
        q
    } else {
        proof {
            lemma_fundamental_div_mod(units as int, l as int);
            let r = units % l;
            assert((q + 1) * l + (r - 1) == units + l - 1) by (nonlinear_arith)
                requires units == l * q + r;
            lemma_fundamental_div_mod_converse(units + l - 1, l as int, q + 1, r - 1);
            assert(q * l <= units) by (nonlinear_arith)
                requires l * q + r == units, r >= 0;
            assert(q < units) by (nonlinear_arith)
                requires q * l <= units, l >= 2, units > 0;
        }
        q + 1
    }
}

/// Upper bound on a run's wall time: batches × timeout × (retries + 1), in
/// milliseconds, or `None` when that does not fit in a `u64`.
pub fn worst_case_latency_ms(units: u64, config: &ScanConfig) -> (r: Option<u64>)
    requires
        config.wf(),
    ensures
        ({
            let bound = batches_for(units as int, config.concurrency_limit as int) * config.timeout_ms * (config.retries + 1);
            &&& bound <= u64::MAX ==> r == Some(bound as u64)
            &&& bound > u64::MAX ==> r is None
        }),
{
    let b = batch_count(units, config.concurrency_limit);
    let tries = config.retries as u64 + 1;
    match b.checked_mul(config.timeout_ms) {
        None => {
            proof {
                assert(b * config.timeout_ms * tries >= b * config.timeout_ms) by (nonlinear_arith)
                    requires tries >= 1, b >= 0, config.timeout_ms >= 0;
            }
            None
        },
        Some(x) => x.checked_mul(tries),
    }
}

/// Sequence index `k` of the unit list, as (target index, port).
pub open spec fn unit_of(ports: Seq<u16>, k: int) -> (int, u16) {
    (k / ports.len() as int, ports[k % ports.len() as int])
}

/// Some unit among the first `log.len()` was recorded open and is `(t, p)`.
pub open spec fn unit_hits(log: Seq<bool>, ports: Seq<u16>, t: int, p: u16) -> bool {
    exists|k: int| 0 <= k < log.len() && log[k] && #[trigger] unit_of(ports, k) == (t, p)
}

/// The presented result of per-target rows: the non-empty rows, each with
/// its target, in target order.
pub open spec fn present(targets: Seq<Target>, rows: Seq<Seq<u16>>, n: int) -> Seq<(Target, Seq<u16>)>
    decreases n,
{
    if n <= 0 {
        Seq::empty()
    } else if rows[n - 1].len() > 0 {
        present(targets, rows, n - 1).push((targets[n - 1], rows[n - 1]))
    } else {
        present(targets, rows, n - 1)
    }
}

/// Counters after one more settled unit.
pub open spec fn tally_one(d: Diagnostics, s: Settled) -> Diagnostics {
    Diagnostics {
        attempts: if d.attempts + s.tries > u64::MAX { u64::MAX } else { (d.attempts + s.tries) as u64 },
        closed_or_filtered: if s.outcome == ScanOutcome::ClosedOrFiltered {
            if d.closed_or_filtered == u64::MAX { u64::MAX } else { (d.closed_or_filtered + 1) as u64 }
        } else {
            d.closed_or_filtered
        },
        resource_exhausted: if s.outcome == ScanOutcome::Error(ErrorKind::ResourceExhausted) {
            if d.resource_exhausted == u64::MAX { u64::MAX } else { (d.resource_exhausted + 1) as u64 }
        } else {
            d.resource_exhausted
        },
    }
}

/// Counters after a sequence of settled units.
pub open spec fn tally(d: Diagnostics, s: Seq<Settled>) -> Diagnostics
    decreases s.len(),
{
    if s.len() == 0 {
        d
    } else {
        tally_one(tally(d, s.drop_last()), s.last())
    }
}

/// Whether a settled unit counts as open.
pub open spec fn is_open(s: Settled) -> bool {
    s.outcome == ScanOutcome::Open
}

/// One scan run over fixed targets, ports and configuration.
pub struct ScanRun {
    config: ScanConfig,
    targets: Vec<Target>,
    ports: Vec<u16>,
    /// Units `0..next_unit` have been handed out.
    next_unit: usize,
    /// The last `in_flight` handed-out units are not settled yet.
    in_flight: usize,
    /// Per target, its open ports in ascending order.
    open: Vec<Vec<u16>>,
    state: RunState,
    cancelled: bool,
    diagnostics: Diagnostics,
    /// For each settled unit, whether it was recorded open.
    log: Ghost<Seq<bool>>,
}

impl ScanRun {
    pub closed spec fn config_view(&self) -> ScanConfig {
        self.config
    }

    pub closed spec fn targets_view(&self) -> Seq<Target> {
        self.targets@
    }

    pub closed spec fn ports_view(&self) -> Seq<u16> {
        self.ports@
    }

    pub closed spec fn state_view(&self) -> RunState {
        self.state
    }

    pub closed spec fn cancelled_view(&self) -> bool {
        self.cancelled
    }

    /// Units handed out so far.
    pub closed spec fn dispatched(&self) -> int {
        self.next_unit as int
    }

    /// Units handed out and not yet settled.
    pub closed spec fn in_flight_view(&self) -> int {
        self.in_flight as int
    }

    /// For each settled unit, in unit order, whether it was recorded open.
    pub closed spec fn log_view(&self) -> Seq<bool> {
        self.log@
    }

    /// Per target, the open ports recorded so far.
    pub closed spec fn rows(&self) -> Seq<Seq<u16>> {
        self.open@.map_values(|r: Vec<u16>| r@)
    }

    pub closed spec fn diagnostics_view(&self) -> Diagnostics {
        self.diagnostics
    }

    /// Number of work units: every target paired with every port.
    pub open spec fn total(&self) -> int {
        (self.targets_view().len() * self.ports_view().len()) as int
    }

    /// The `k`-th work unit, targets being the outer dimension.
    pub open spec fn unit_spec(&self, k: int) -> WorkUnit {
        let (t, p) = unit_of(self.ports_view(), k);
        WorkUnit { target_index: t as usize, target: self.targets_view()[t], port: p }
    }

    /// The run has completed without being cancelled.
    pub open spec fn finished(&self) -> bool {
        self.state_view() == RunState::Completed && !self.cancelled_view()
    }

    /// Every recorded outcome agrees with `oracle`, which says whether a
    /// port of a target is open.
    pub open spec fn consistent_with(&self, oracle: spec_fn(Target, u16) -> bool) -> bool {
        forall|k: int|
            0 <= k < self.log_view().len() ==> #[trigger] self.log_view()[k] == oracle(
                self.unit_spec(k).target,
                self.unit_spec(k).port,
            )
    }

    /// The presented result of the run so far.
    pub open spec fn result_view(&self) -> Seq<(Target, Seq<u16>)> {
        present(self.targets_view(), self.rows(), self.targets_view().len() as int)
    }

    /// Internal consistency of a run.
    pub closed spec fn wf(&self) -> bool {
        &&& self.config.wf()
        &&& self.targets.len() >= 1
        &&& self.targets.len() * self.ports.len() <= usize::MAX
        &&& self.next_unit <= self.targets.len() * self.ports.len()
        &&& self.in_flight <= self.next_unit
        &&& self.in_flight <= self.config.concurrency_limit
        &&& self.open.len() == self.targets.len()
        &&& forall|t: int| 0 <= t < self.open.len() ==> strictly_ascending(#[trigger] self.open@[t]@)
        &&& self.log@.len() == self.next_unit - self.in_flight
        &&& forall|t: int, p: u16|
            0 <= t < self.open.len() ==> (#[trigger] self.open@[t]@.contains(p) <==> unit_hits(self.log@, self.ports@, t, p))
        &&& self.state == RunState::NotStarted ==> self.next_unit == 0
        &&& self.state == RunState::Completed ==> self.in_flight == 0
        &&& (self.state == RunState::Completed && !self.cancelled) ==> self.next_unit == self.targets.len() * self.ports.len()
    }

    /// Starts a run. Fails with `NoTargets`, before any work, exactly when
    /// the target list is empty.
    pub fn new(targets: Vec<Target>, ports: Vec<u16>, config: ScanConfig) -> (r: Result<ScanRun, EngineError>)
        requires
            config.wf(),
            targets.len() * ports.len() <= usize::MAX,
        ensures
            r is Err <==> targets.len() == 0,
            r matches Err(e) ==> e == EngineError::NoTargets,
            r matches Ok(run) ==> {
                &&& run.wf()
                &&& run.targets_view() == targets@
                &&& run.ports_view() == ports@
                &&& run.config_view() == config
                &&& run.state_view() == RunState::NotStarted
                &&& !run.cancelled_view()
                &&& run.dispatched() == 0
                &&& run.in_flight_view() == 0
                &&& run.log_view().len() == 0
                &&& forall|t: int| 0 <= t < run.rows().len() ==> #[trigger] run.rows()[t].len() == 0
                &&& run.rows().len() == targets.len()
                &&& run.diagnostics_view() == (Diagnostics { attempts: 0, closed_or_filtered: 0, resource_exhausted: 0 })
            },
    {
        if targets.len() == 0 {
            return Err(EngineError::NoTargets);
        }
        let mut open: Vec<Vec<u16>> = Vec::new();
        let mut i: usize = 0;
        while i < targets.len()
            invariant
                i <= targets.len(),
                open.len() == i,
                forall|t: int| 0 <= t < i ==> (#[trigger] open@[t])@.len() == 0,
            decreases targets.len() - i,
        {
            open.push(Vec::new());
            i = i + 1;
        }
        let run = ScanRun {
            config,
            targets,
            ports,
            next_unit: 0,
            in_flight: 0,
            open,
            state: RunState::NotStarted,
            cancelled: false,
            diagnostics: Diagnostics { attempts: 0, closed_or_filtered: 0, resource_exhausted: 0 },
            log: Ghost(Seq::empty()),
        };
        assert forall|t: int, p: u16| 0 <= t < run.open.len() implies (#[trigger] run.open@[t]@.contains(p) <==> unit_hits(run.log@, run.ports@, t, p)) by {
            assert(run.open@[t]@.len() == 0);
        }
        assert(run.rows() =~= run.open@.map_values(|r: Vec<u16>| r@));
        Ok(run)
    }

    /// Most attempts that may be in flight at once.
    pub fn concurrency_limit(&self) -> (r: u16)
        ensures
            r == self.config_view().concurrency_limit,
    {
        self.config.concurrency_limit
    }

    /// Current lifecycle state.
    pub fn state(&self) -> (r: RunState)
        ensures
            r == self.state_view(),
    {
        self.state
    }

    /// Whether the run was cancelled.
    pub fn is_cancelled(&self) -> (r: bool)
        ensures
            r == self.cancelled_view(),
    {
        self.cancelled
    }

    /// Units handed out and not yet settled.
    pub fn in_flight(&self) -> (r: usize)
        ensures
            r == self.in_flight_view(),
    {
        self.in_flight
    }

    /// Units settled so far.
    pub fn settled_count(&self) -> (r: usize)
        requires
            self.wf(),
        ensures
            r == self.log_view().len(),
    {
        self.next_unit - self.in_flight
    }

    /// Current counters.
    pub fn diagnostics(&self) -> (r: Diagnostics)
        ensures
            r == self.diagnostics_view(),
    {
        self.diagnostics
    }

    /// The `k`-th work unit.
    fn unit_at(&self, k: usize) -> (u: WorkUnit)
        requires
            self.wf(),
            k < self.total(),
        ensures
            u == self.unit_spec(k as int),
            u.target_index < self.targets_view().len(),
    {
        proof {
            lemma_unit_index(k as int, self.ports.len() as int, self.targets.len() as int);
        }
        let p = self.ports.len();
        let t = k / p;
        WorkUnit { target_index: t, target: self.targets[t], port: self.ports[k % p] }
    }

    /// Hands out the next batch.
    ///
    /// While a batch is in flight, or once the run is completed, nothing is
    /// handed out and the run is unchanged. When every unit has been handed
    /// out, or the run was cancelled, the run becomes `Completed` and the
    /// batch is empty. Otherwise the batch is the next (at most
    /// `concurrency_limit`) units in order, and they become in flight.
    pub fn dispatch_batch(&mut self) -> (batch: Vec<WorkUnit>)
        requires
            old(self).wf(),
        ensures
            final(self).wf(),
            batch@.len() <= final(self).config_view().concurrency_limit,
            final(self).in_flight_view() == batch@.len() || batch@.len() == 0,
            final(self).config_view() == old(self).config_view(),
            final(self).targets_view() == old(self).targets_view(),
            final(self).ports_view() == old(self).ports_view(),
            final(self).cancelled_view() == old(self).cancelled_view(),
            final(self).log_view() == old(self).log_view(),
            final(self).rows() == old(self).rows(),
            final(self).diagnostics_view() == old(self).diagnostics_view(),
            (old(self).state_view() == RunState::Completed || old(self).in_flight_view() > 0) ==> {
                &&& batch@.len() == 0
                &&& final(self).state_view() == old(self).state_view()
                &&& final(self).dispatched() == old(self).dispatched()
                &&& final(self).in_flight_view() == old(self).in_flight_view()
            },
            (old(self).state_view() != RunState::Completed && old(self).in_flight_view() == 0 && (
            old(self).cancelled_view() || old(self).dispatched() == old(self).total())) ==> {
                &&& batch@.len() == 0
                &&& final(self).state_view() == RunState::Completed
                &&& final(self).dispatched() == old(self).dispatched()
                &&& final(self).in_flight_view() == 0
            },
            (old(self).state_view() != RunState::Completed && old(self).in_flight_view() == 0
                && !old(self).cancelled_view() && old(self).dispatched() < old(self).total()) ==> {
                let start = old(self).dispatched();
                let end = if start + old(self).config_view().concurrency_limit < old(self).total() {
                    start + old(self).config_view().concurrency_limit
                } else {
                    old(self).total()
                };
                &&& batch@.len() == end - start
                &&& forall|i: int| 0 <= i < batch@.len() ==> #[trigger] batch@[i] == old(self).unit_spec(start + i)
                &&& final(self).state_view() == RunState::Running
                &&& final(self).dispatched() == end
                &&& final(self).in_flight_view() == end - start
            },
    {
        let mut batch: Vec<WorkUnit> = Vec::new();
        if self.state == RunState::Completed || self.in_flight > 0 {
            return batch;
        }
        let total = self.targets.len() * self.ports.len();
        if self.cancelled || self.next_unit == total {
            self.state = RunState::Completed;
            return batch;
        }
        let start = self.next_unit;
        let limit = self.config.concurrency_limit as usize;
        let end = if limit < total - start {
            start + limit
        } else {
            total
        };
        let mut k = start;
        while k < end
            invariant
                self.wf(),
                start <= k <= end <= total,
                total == self.total(),
                end - start <= limit,
                limit == self.config.concurrency_limit,
                batch@.len() == k - start,
                forall|i: int| 0 <= i < batch@.len() ==> #[trigger] batch@[i] == self.unit_spec(start + i),
            decreases end - k,
        {
            let u = self.unit_at(k);
            batch.push(u);
            k = k + 1;
        }
        self.next_unit = end;
        self.in_flight = end - start;
        self.state = RunState::Running;
        batch
    }

    /// Records the outcomes of the batch in flight, in the order in which
    /// its units were handed out. Open units join their target's row, the
    /// counters advance, and nothing is in flight afterwards. Returns the
    /// units found open in this batch, in order.
    pub fn settle_batch(&mut self, outcomes: &Vec<Settled>) -> (newly_open: Vec<WorkUnit>)
        requires
            old(self).wf(),
            outcomes@.len() == old(self).in_flight_view(),
        ensures
            final(self).wf(),
            final(self).in_flight_view() == 0,
            final(self).dispatched() == old(self).dispatched(),
            final(self).state_view() == old(self).state_view(),
            final(self).cancelled_view() == old(self).cancelled_view(),
            final(self).config_view() == old(self).config_view(),
            final(self).targets_view() == old(self).targets_view(),
            final(self).ports_view() == old(self).ports_view(),
            final(self).log_view() == old(self).log_view() + outcomes@.map_values(|s: Settled| is_open(s)),
            final(self).diagnostics_view() == tally(old(self).diagnostics_view(), outcomes@),
            forall|i: int| 0 <= i < newly_open@.len() ==> exists|j: int| 0 <= j < outcomes@.len()
                && is_open(outcomes@[j]) && #[trigger] newly_open@[i] == old(self).unit_spec(old(self).log_view().len() + j),
            newly_open@.len() == outcomes@.filter(|s: Settled| is_open(s)).len(),
            forall|t: int, p: u16|
                0 <= t < old(self).rows().len() && #[trigger] old(self).rows()[t].contains(p) ==> final(self).rows()[t].contains(p),
    {
        let base = self.next_unit - self.in_flight;
        let ghost old_log = self.log@;
        let ghost old_diag = self.diagnostics;
        let ghost old_self = *self;
        let mut newly_open: Vec<WorkUnit> = Vec::new();
        let mut i: usize = 0;
        while i < outcomes.len()
            invariant
                i <= outcomes@.len(),
                outcomes@.len() == self.in_flight,
                base == self.next_unit - self.in_flight,
                base == old_log.len(),
                base + outcomes@.len() == self.next_unit,
                self.next_unit == old_self.next_unit,
                self.in_flight == old_self.in_flight,
                self.state == old_self.state,
                self.cancelled == old_self.cancelled,
                self.config == old_self.config,
                self.targets@ == old_self.targets@,
                self.ports@ == old_self.ports@,
                old_self.wf(),
                self.config.wf(),
                self.targets.len() >= 1,
                self.targets.len() * self.ports.len() <= usize::MAX,
                self.next_unit <= self.targets.len() * self.ports.len(),
                self.in_flight <= self.next_unit,
                self.open.len() == self.targets.len(),
                forall|t: int| 0 <= t < self.open.len() ==> strictly_ascending(#[trigger] self.open@[t]@),
                self.log@ == old_log + outcomes@.subrange(0, i as int).map_values(|s: Settled| is_open(s)),
                forall|t: int, p: u16|
                    0 <= t < self.open.len() ==> (#[trigger] self.open@[t]@.contains(p) <==> unit_hits(self.log@, self.ports@, t, p)),
                self.diagnostics == tally(old_diag, outcomes@.subrange(0, i as int)),
                newly_open@.len() == outcomes@.subrange(0, i as int).filter(|s: Settled| is_open(s)).len(),
                forall|m: int| 0 <= m < newly_open@.len() ==> exists|j: int| 0 <= j < i
                    && is_open(outcomes@[j]) && #[trigger] newly_open@[m] == old_self.unit_spec(base + j),
            decreases outcomes@.len() - i,
        {
            let s = outcomes[i];
            let k = base + i;
            let b = s.outcome == ScanOutcome::Open;
            let ghost log_before = self.log@;
            proof {
                lemma_unit_index(k as int, self.ports.len() as int, self.targets.len() as int);
            }
            if b {
                let pl = self.ports.len();
                let u = WorkUnit { target_index: k / pl, target: self.targets[k / pl], port: self.ports[k % pl] };
                assert(u == old_self.unit_spec(k as int));
                let row = insert_sorted(&self.open[u.target_index], u.port);
                let ghost open_before = self.open@;
                self.open.set(u.target_index, row);
                proof {
                    assert forall|t: int, p: u16| 0 <= t < self.open.len() implies (#[trigger] self.open@[t]@.contains(p) <==> unit_hits(log_before.push(true), self.ports@, t, p)) by {
                        lemma_hits_push(log_before, self.ports@, true, t, p);
                        if t != u.target_index as int {
                            assert(self.open@[t] == open_before[t]);
                        }
                    }
                    assert forall|t: int| 0 <= t < self.open.len() implies strictly_ascending(#[trigger] self.open@[t]@) by {
                        if t != u.target_index as int {
                            assert(self.open@[t] == open_before[t]);
                        }
                    }
                }
                newly_open.push(u);
            } else {
                proof {
                    assert forall|t: int, p: u16| 0 <= t < self.open.len() implies (#[trigger] self.open@[t]@.contains(p) <==> unit_hits(log_before.push(false), self.ports@, t, p)) by {
                        lemma_hits_push(log_before, self.ports@, false, t, p);
                    }
                }
            }
            self.log = Ghost(self.log@.push(b));
            self.diagnostics = tally_step(self.diagnostics, s);
            proof {
                let prev = outcomes@.subrange(0, i as int);
                let next = outcomes@.subrange(0, i + 1);
                assert(next.drop_last() == prev);
                assert(next.last() == s);
                assert(next.map_values(|s: Settled| is_open(s)) == prev.map_values(|s: Settled| is_open(s)).push(b));
                assert(self.log@ == old_log + next.map_values(|s: Settled| is_open(s)));
                reveal(Seq::filter);
                assert(next.filter(|s: Settled| is_open(s)) == if is_open(s) {
                    prev.filter(|s: Settled| is_open(s)).push(s)
                } else {
                    prev.filter(|s: Settled| is_open(s))
                });
                assert forall|m: int| 0 <= m < newly_open@.len() implies exists|j: int| 0 <= j < i + 1
                    && is_open(outcomes@[j]) && #[trigger] newly_open@[m] == old_self.unit_spec(base + j) by {
                    if b && m == newly_open@.len() - 1 {
                        assert(is_open(outcomes@[i as int]) && newly_open@[m] == old_self.unit_spec(base + i));
                    }
                }
            }
            i = i + 1;
        }
        proof {
            assert(outcomes@.subrange(0, outcomes@.len() as int) == outcomes@);
            assert forall|t: int, p: u16|
                0 <= t < old_self.rows().len() && #[trigger] old_self.rows()[t].contains(p) implies self.open@[t]@.contains(p) by {
                assert(old_self.rows()[t] == old_self.open@[t]@);
                let k = choose|k: int| 0 <= k < old_log.len() && old_log[k] && #[trigger] unit_of(old_self.ports@, k) == (t, p);
                assert(self.log@[k] == old_log[k]);
                assert(unit_hits(self.log@, self.ports@, t, p));
            }
        }
        self.in_flight = 0;
        proof {
            assert forall|t: int, p: u16|
                0 <= t < old_self.rows().len() && #[trigger] old_self.rows()[t].contains(p) implies self.rows()[t].contains(p) by {
                assert(self.rows()[t] == self.open@[t]@);
            }
        }
        newly_open
    }

    /// Asks the run to stop: no further batch is handed out. A batch in
    /// flight may still be settled; the run completes at once when none is.
    pub fn cancel(&mut self)
        requires
            old(self).wf(),
        ensures
            final(self).wf(),
            final(self).cancelled_view(),
            final(self).state_view() == if old(self).in_flight_view() == 0 {
                RunState::Completed
            } else {
                old(self).state_view()
            },
            final(self).dispatched() == old(self).dispatched(),
            final(self).in_flight_view() == old(self).in_flight_view(),
            final(self).config_view() == old(self).config_view(),
            final(self).targets_view() == old(self).targets_view(),
            final(self).ports_view() == old(self).ports_view(),
            final(self).log_view() == old(self).log_view(),
            final(self).rows() == old(self).rows(),
            final(self).diagnostics_view() == old(self).diagnostics_view(),
    {
        self.cancelled = true;
        if self.in_flight == 0 {
            self.state = RunState::Completed;
        }
    }

    /// The result accumulated so far, canonical: per target with an open
    /// port, in target order, its open ports ascending.
    pub fn result(&self) -> (r: ScanResult)
        requires
            self.wf(),
        ensures
            r.view() == self.result_view(),
    {
        let mut hosts: Vec<HostPorts> = Vec::new();
        let mut t: usize = 0;
        while t < self.open.len()
            invariant
                t <= self.open.len(),
                self.open.len() == self.targets.len(),
                hosts@.map_values(|h: HostPorts| (h.target, h.ports@)) == present(self.targets_view(), self.rows(), t as int),
            decreases self.open.len() - t,
        {
            let row = &self.open[t];
            let ghost before = hosts@;
            if row.len() > 0 {
                let copy = copy_row(row);
                hosts.push(HostPorts { target: self.targets[t], ports: copy });
                assert(hosts@.map_values(|h: HostPorts| (h.target, h.ports@)) =~= before.map_values(|h: HostPorts| (h.target, h.ports@)).push((self.targets@[t as int], row@)));
            }
            t = t + 1;
        }
        ScanResult { hosts }
    }
}

/// Counters after one more settled unit.
fn tally_step(d: Diagnostics, s: Settled) -> (r: Diagnostics)
    ensures
        r == tally_one(d, s),
{
    Diagnostics {
        attempts: d.attempts.saturating_add(s.tries as u64),
        closed_or_filtered: if s.outcome == ScanOutcome::ClosedOrFiltered {
            d.closed_or_filtered.saturating_add(1)
        } else {
            d.closed_or_filtered
        },
        resource_exhausted: if s.outcome == ScanOutcome::Error(ErrorKind::ResourceExhausted) {
            d.resource_exhausted.saturating_add(1)
        } else {
            d.resource_exhausted
        },
    }
}

/// A copy of a row.
fn copy_row(row: &Vec<u16>) -> (r: Vec<u16>)
    ensures
        r@ == row@,
{
    let mut r: Vec<u16> = Vec::new();
    let mut i: usize = 0;
    while i < row.len()
        invariant
            i <= row.len(),
            r@ == row@.subrange(0, i as int),
        decreases row.len() - i,
    {
        r.push(row[i]);
        i = i + 1;
    }
    r
}

/// `row` with `p` added, keeping it strictly ascending.
pub fn insert_sorted(row: &Vec<u16>, p: u16) -> (r: Vec<u16>)
    requires
        strictly_ascending(row@),
    ensures
        strictly_ascending(r@),
        forall|x: u16| #[trigger] r@.contains(x) <==> (row@.contains(x) || x == p),
{
    let mut r: Vec<u16> = Vec::new();
    let mut i: usize = 0;
    while i < row.len() && row[i] < p
        invariant
            i <= row.len(),
            strictly_ascending(row@),
            r@ == row@.subrange(0, i as int),
            forall|j: int| 0 <= j < i ==> row@[j] < p,
        decreases row.len() - i,
    {
        r.push(row[i]);
        i = i + 1;
    }
    let mid = i;
    let present = i < row.len() && row[i] == p;
    r.push(p);
    if present {
        i = i + 1;
    }
    let ghost head = r@;
    while i < row.len()
        invariant
            mid <= i <= row.len(),
            strictly_ascending(row@),
            present ==> i >= mid + 1,
            !present ==> (mid < row.len() ==> row@[mid as int] > p),
            r@ == head + row@.subrange(if present { mid + 1 } else { mid as int }, i as int),
            head == row@.subrange(0, mid as int).push(p),
            forall|j: int| 0 <= j < mid ==> row@[j] < p,
        decreases row.len() - i,
    {
        r.push(row[i]);
        i = i + 1;
    }
    let ghost start: int = if present { mid + 1 } else { mid as int };
    assert(r@ == row@.subrange(0, mid as int).push(p) + row@.subrange(start, row@.len() as int));
    assert forall|a: int, b: int| 0 <= a < b < r@.len() implies r@[a] < r@[b] by {
        if b < mid {
        } else if b == mid {
        } else if a < mid {
            assert(r@[b] == row@[start + (b - mid - 1)]);
        } else if a == mid {
            assert(r@[b] == row@[start + (b - mid - 1)]);
            if !present {
                assert(row@[mid as int] > p);
                assert(row@[mid as int] <= row@[start + (b - mid - 1)]) by {
                    if start + (b - mid - 1) > mid {
                        assert(row@[mid as int] < row@[start + (b - mid - 1)]);
                    }
                }
            } else {
                assert(row@[mid as int] == p);
                assert(row@[mid as int] < row@[start + (b - mid - 1)]);
            }
        } else {
            assert(r@[a] == row@[start + (a - mid - 1)]);
            assert(r@[b] == row@[start + (b - mid - 1)]);
        }
    }
    assert forall|x: u16| #[trigger] r@.contains(x) <==> (row@.contains(x) || x == p) by {
        if r@.contains(x) {
            let a = choose|a: int| 0 <= a < r@.len() && r@[a] == x;
            if a < mid {
                assert(row@[a] == x);
            } else if a > mid {
                assert(row@[start + (a - mid - 1)] == x);
            }
        }
        if row@.contains(x) {
            let a = choose|a: int| 0 <= a < row@.len() && row@[a] == x;
            if a < mid {
                assert(r@[a] == x);
            } else if a == mid && present {
                assert(r@[mid as int] == x);
            } else if a == mid {
                assert(r@[mid + 1] == x);
            } else {
                assert(r@[mid + 1 + (a - start)] == x);
            }
        }
        if x == p {
            assert(r@[mid as int] == x);
        }
    }
    r
}

/// Two strictly ascending sequences with the same elements are equal.
pub proof fn lemma_ascending_unique(a: Seq<u16>, b: Seq<u16>)
    requires
        strictly_ascending(a),
        strictly_ascending(b),
        forall|x: u16| a.contains(x) <==> b.contains(x),
    ensures
        a == b,
    decreases a.len() + b.len(),
{
    if a.len() == 0 {
        if b.len() > 0 {
            assert(b.contains(b[0]));
        }
        assert(a =~= b);
    } else if b.len() == 0 {
        assert(a.contains(a[0]));
    } else {
        assert(a.contains(a[0]));
        assert(b.contains(b[0]));
        let j = choose|j: int| 0 <= j < b.len() && b[j] == a[0];
        let i = choose|i: int| 0 <= i < a.len() && a[i] == b[0];
        if j > 0 {
            assert(b[0] < b[j]);
            if i > 0 {
                assert(a[0] < a[i]);
            }
            assert(false);
        }
        let a2 = a.drop_first();
        let b2 = b.drop_first();
        assert forall|x: u16| a2.contains(x) <==> b2.contains(x) by {
            if a2.contains(x) {
                let k = choose|k: int| 0 <= k < a2.len() && a2[k] == x;
                assert(a[k + 1] == x && a[0] < a[k + 1]);
                assert(a.contains(x));
                let m = choose|m: int| 0 <= m < b.len() && b[m] == x;
                if m == 0 {
                    assert(false);
                }
                assert(b2[m - 1] == x);
            }
            if b2.contains(x) {
                let k = choose|k: int| 0 <= k < b2.len() && b2[k] == x;
                assert(b[k + 1] == x && b[0] < b[k + 1]);
                assert(b.contains(x));
                let m = choose|m: int| 0 <= m < a.len() && a[m] == x;
                if m == 0 {
                    assert(false);
                }
                assert(a2[m - 1] == x);
            }
        }
        lemma_ascending_unique(a2, b2);
        assert(a =~= seq![a[0]] + a2);
        assert(b =~= seq![b[0]] + b2);
    }
}

/// At no point does a run have more than `concurrency_limit` attempts in
/// flight: a batch is handed out only when none is in flight, and a batch
/// holds at most `concurrency_limit` units.
pub proof fn lemma_in_flight_bounded(run: &ScanRun)
    requires
        run.wf(),
    ensures
        run.in_flight_view() <= run.config_view().concurrency_limit,
        run.log_view().len() + run.in_flight_view() <= run.total(),
{
}

/// In a finished run whose outcomes agree with `oracle`, the row of each
/// target holds exactly the ports of the sequence that `oracle` calls open,
/// ascending.
pub proof fn lemma_finished_rows(run: &ScanRun, oracle: spec_fn(Target, u16) -> bool)
    requires
        run.wf(),
        run.finished(),
        run.consistent_with(oracle),
    ensures
        run.rows().len() == run.targets_view().len(),
        forall|t: int| 0 <= t < run.rows().len() ==> strictly_ascending(#[trigger] run.rows()[t]),
        forall|t: int, p: u16|
            0 <= t < run.rows().len() ==> (#[trigger] run.rows()[t].contains(p) <==> (run.ports_view().contains(p)
                && oracle(run.targets_view()[t], p))),
{
    let tl = run.targets@.len() as int;
    let pl = run.ports@.len() as int;
    assert forall|t: int| 0 <= t < run.rows().len() implies strictly_ascending(#[trigger] run.rows()[t]) by {
        assert(run.rows()[t] == run.open@[t]@);
    }
    assert forall|t: int, p: u16| 0 <= t < run.rows().len() implies (#[trigger] run.rows()[t].contains(p) <==> (
    run.ports_view().contains(p) && oracle(run.targets_view()[t], p))) by {
        assert(run.rows()[t] == run.open@[t]@);
        if run.open@[t]@.contains(p) {
            assert(unit_hits(run.log@, run.ports@, t, p));
            let k = choose|k: int| 0 <= k < run.log@.len() && run.log@[k] && #[trigger] unit_of(run.ports@, k) == (t, p);
            lemma_unit_index(k, pl, tl);
            assert(run.log_view()[k] == oracle(run.unit_spec(k).target, run.unit_spec(k).port));
            assert(run.ports@[k % pl] == p);
        }
        if run.ports_view().contains(p) && oracle(run.targets_view()[t], p) {
            let j = choose|j: int| 0 <= j < pl && run.ports@[j] == p;
            let k = t * pl + j;
            assert(k < tl * pl) by (nonlinear_arith)
                requires 0 <= t < tl, 0 <= j < pl, k == t * pl + j;
            assert(k >= 0) by (nonlinear_arith)
                requires 0 <= t, 0 <= j, 0 <= pl, k == t * pl + j;
            lemma_fundamental_div_mod_converse(k, pl, t, j);
            assert(unit_of(run.ports@, k) == (t, p));
            assert(run.log_view()[k] == oracle(run.unit_spec(k).target, run.unit_spec(k).port));
            assert(unit_hits(run.log@, run.ports@, t, p));
        }
    }
}

/// Presentation does not depend on scan order or batch boundaries: two
/// finished runs over the same targets and the same set of ports, whatever
/// the port order and concurrency limit, whose outcomes agree with the same
/// open-port oracle, present the same result.
pub proof fn lemma_presentation_idempotent(r1: &ScanRun, r2: &ScanRun, oracle: spec_fn(Target, u16) -> bool)
    requires
        r1.wf(),
        r2.wf(),
        r1.finished(),
        r2.finished(),
        r1.targets_view() == r2.targets_view(),
        r1.ports_view().to_set() == r2.ports_view().to_set(),
        r1.consistent_with(oracle),
        r2.consistent_with(oracle),
    ensures
        r1.rows() == r2.rows(),
        r1.result_view() == r2.result_view(),
{
    lemma_finished_rows(r1, oracle);
    lemma_finished_rows(r2, oracle);
    assert forall|t: int| 0 <= t < r1.rows().len() implies #[trigger] r1.rows()[t] == r2.rows()[t] by {
        assert forall|x: u16| r1.rows()[t].contains(x) <==> r2.rows()[t].contains(x) by {
            assert(r1.ports_view().contains(x) <==> r1.ports_view().to_set().contains(x));
            assert(r2.ports_view().contains(x) <==> r2.ports_view().to_set().contains(x));
        }
        lemma_ascending_unique(r1.rows()[t], r2.rows()[t]);
    }
    assert(r1.rows() =~= r2.rows());
}

/// Cancellation keeps what was found: every open port that a run stopped
/// at any point (for example cancelled after some batches) reports is also
/// reported by a finished run over the same inputs, and is open per the
/// oracle that both runs agree with.
pub proof fn lemma_cancelled_subset(partial: &ScanRun, full: &ScanRun, oracle: spec_fn(Target, u16) -> bool)
    requires
        partial.wf(),
        full.wf(),
        full.finished(),
        partial.targets_view() == full.targets_view(),
        partial.ports_view() == full.ports_view(),
        partial.consistent_with(oracle),
        full.consistent_with(oracle),
    ensures
        partial.rows().len() == full.rows().len(),
        forall|t: int, p: u16|
            0 <= t < partial.rows().len() && #[trigger] partial.rows()[t].contains(p) ==> full.rows()[t].contains(p)
                && oracle(partial.targets_view()[t], p),
{
    lemma_finished_rows(full, oracle);
    assert forall|t: int, p: u16| 0 <= t < partial.rows().len() && #[trigger] partial.rows()[t].contains(p) implies full.rows()[t].contains(p)
        && oracle(partial.targets_view()[t], p) by {
        assert(partial.rows()[t] == partial.open@[t]@);
        assert(unit_hits(partial.log@, partial.ports@, t, p));
        let k = choose|k: int| 0 <= k < partial.log@.len() && partial.log@[k] && #[trigger] unit_of(partial.ports@, k) == (t, p);
        lemma_unit_index(k, partial.ports@.len() as int, partial.targets@.len() as int);
        assert(partial.log_view()[k] == oracle(partial.unit_spec(k).target, partial.unit_spec(k).port));
        assert(partial.unit_spec(k) == full.unit_spec(k));
    }
}

/// A run over an empty port sequence has nothing to hand out and presents
/// an empty result.
pub proof fn lemma_no_ports_empty_result(run: &ScanRun)
    requires
        run.wf(),
        run.ports_view().len() == 0,
    ensures
        run.total() == 0,
        run.result_view().len() == 0,
{
    assert(run.ports@.len() == 0);
    assert(run.targets@.len() * run.ports@.len() == 0) by (nonlinear_arith)
        requires run.ports@.len() == 0;
    assert(run.log@.len() == 0);
    assert forall|t: int| 0 <= t < run.rows().len() implies #[trigger] run.rows()[t].len() == 0 by {
        assert(run.rows()[t] == run.open@[t]@);
        if run.open@[t]@.len() > 0 {
            assert(run.open@[t]@.contains(run.open@[t]@[0]));
        }
    }
    lemma_present_empty(run.targets_view(), run.rows(), run.targets_view().len() as int);
}

/// Empty rows present nothing.
proof fn lemma_present_empty(targets: Seq<Target>, rows: Seq<Seq<u16>>, n: int)
    requires
        n <= rows.len(),
        forall|t: int| 0 <= t < rows.len() ==> #[trigger] rows[t].len() == 0,
    ensures
        present(targets, rows, n).len() == 0,
    decreases n,
{
    if n > 0 {
        lemma_present_empty(targets, rows, n - 1);
    }
}

/// Unit index arithmetic: unit `k` of `t * p` units names a valid target
/// and port position.
proof fn lemma_unit_index(k: int, p: int, t: int)
    requires
        0 <= k < t * p,
        p >= 0,
        t >= 0,
    ensures
        p > 0,
        0 <= k / p < t,
        0 <= k % p < p,
{
    assert(p > 0) by (nonlinear_arith)
        requires 0 <= k < t * p, p >= 0, t >= 0;
    lemma_fundamental_div_mod(k, p);
    lemma_mod_bound(k, p);
    lemma_div_pos_is_pos(k, p);
    assert(k / p < t) by (nonlinear_arith)
        requires k == p * (k / p) + k % p, 0 <= k % p, k < t * p, p > 0;
}

/// Growing the log by one entry adds at most the newest unit to the hits.
proof fn lemma_hits_push(log: Seq<bool>, ports: Seq<u16>, b: bool, t: int, p: u16)
    ensures
        unit_hits(log.push(b), ports, t, p) <==> (unit_hits(log, ports, t, p) || (b && unit_of(ports, log.len() as int) == (t, p))),
{
    let l2 = log.push(b);
    if unit_hits(l2, ports, t, p) {
        let k = choose|k: int| 0 <= k < l2.len() && l2[k] && #[trigger] unit_of(ports, k) == (t, p);
        if k < log.len() {
            assert(log[k]);
        }
    }
    if unit_hits(log, ports, t, p) {
        let k = choose|k: int| 0 <= k < log.len() && log[k] && #[trigger] unit_of(ports, k) == (t, p);
        assert(l2[k]);
    }
    if b && unit_of(ports, log.len() as int) == (t, p) {
        assert(l2[log.len() as int]);
    }
}

} // verus!
