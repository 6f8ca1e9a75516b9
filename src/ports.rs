//! Port sequencing: turns a port specification (all ports, a range or an
//! explicit list, minus an exclusion list, in serial or random order) into
//! the concrete, duplicate-free sequence of ports that a scan probes.
use vstd::prelude::*;
use vstd::seq_lib::*;
use vstd::set_lib::*;

verus! {

broadcast use group_to_multiset_ensures;

/// Largest port number.
pub const MAX_PORT: u32 = 65535;

/// Which ports make up the universe before exclusions.
pub enum PortSelection {
    /// Every port from 1 to 65535.
    AllPorts,
    /// Every port in `start..=end`.
    Range { start: u32, end: u32 },
    /// Exactly the listed ports (repeats allowed).
    ExplicitList(Vec<u32>),
}

/// Order in which the selected ports are probed.
#[derive(Clone, Copy, PartialEq, Eq, Structural, Debug)]
pub enum ScanOrder {
    /// Ascending numeric order.
    Serial,
    /// A shuffled permutation of the ascending order.
    Random,
}

/// A full port specification.
pub struct PortSpec {
    pub selection: PortSelection,
    pub exclude: Vec<u32>,
    pub order: ScanOrder,
}

/// The one way a port specification can be rejected.
#[derive(Clone, Copy, PartialEq, Eq, Structural, Debug)]
pub enum PortSpecError {
    /// A range with `start > end`, or a port value of 0 or above 65535.
    InvalidSpec,
}

/// `p` is a usable port number.
pub open spec fn is_port(p: int) -> bool {
    1 <= p <= 65535
}

/// Every entry of `s` is a usable port number.
pub open spec fn all_ports(s: Seq<u32>) -> bool {
    forall|i: int| 0 <= i < s.len() ==> is_port(#[trigger] s[i] as int)
}

/// `p` occurs in the list `s`.
pub open spec fn listed(s: Seq<u32>, p: int) -> bool {
    exists|i: int| 0 <= i < s.len() && s[i] as int == p
}

/// Every pair of positions of `s` is in strictly ascending order.
pub open spec fn strictly_ascending(s: Seq<u16>) -> bool {
    forall|i: int, j: int| 0 <= i < j < s.len() ==> s[i] < s[j]
}

/// The ports of `s`, as a set of integers.
pub open spec fn port_set(s: Seq<u16>) -> Set<int> {
    Set::new(|p: int| exists|i: int| 0 <= i < s.len() && s[i] as int == p)
}

impl PortSpec {
    /// The specification is well formed: ranges are ordered and every port
    /// value is within `1..=65535`.
    pub open spec fn valid(&self) -> bool {
        &&& match self.selection {
            PortSelection::AllPorts => true,
            PortSelection::Range { start, end } => 1 <= start <= end <= 65535,
            PortSelection::ExplicitList(l) => all_ports(l@),
        }
        &&& all_ports(self.exclude@)
    }

    /// `p` belongs to the universe before exclusions.
    pub open spec fn in_universe(&self, p: int) -> bool {
        match self.selection {
            PortSelection::AllPorts => is_port(p),
            PortSelection::Range { start, end } => start <= p <= end,
            PortSelection::ExplicitList(l) => listed(l@, p),
        }
    }

    /// `p` is probed: it is in the universe and not excluded.
    pub open spec fn selected(&self, p: int) -> bool {
        self.in_universe(p) && !listed(self.exclude@, p)
    }

    /// The selected ports among `1..=n`, ascending.
    pub open spec fn serial_upto(&self, n: int) -> Seq<u16>
        decreases n,
    {
        if n <= 0 {
            Seq::empty()
        } else if self.selected(n) {
            self.serial_upto(n - 1).push(n as u16)
        } else {
            self.serial_upto(n - 1)
        }
    }

    /// The selected ports in ascending order.
    pub open spec fn serial_sequence(&self) -> Seq<u16> {
        self.serial_upto(65535)
    }
}

/// Facts about the ascending prefix sequence: ascending, within `1..=n`,
/// and holding exactly the selected ports.
pub proof fn lemma_serial_upto(spec: &PortSpec, n: int)
    requires
        0 <= n <= 65535,
    ensures
        strictly_ascending(spec.serial_upto(n)),
        forall|i: int|
            0 <= i < spec.serial_upto(n).len() ==> 1 <= #[trigger] spec.serial_upto(n)[i] <= n,
        forall|p: int| #[trigger] port_set(spec.serial_upto(n)).contains(p) <==> (1 <= p <= n && spec.selected(p)),
    decreases n,
{
    if n > 0 {
        lemma_serial_upto(spec, n - 1);
        let prev = spec.serial_upto(n - 1);
        let cur = spec.serial_upto(n);
        assert forall|p: int| #[trigger] port_set(cur).contains(p) <==> (1 <= p <= n && spec.selected(p)) by {
            if spec.selected(n) {
                assert(cur == prev.push(n as u16));
                if p == n {
                    assert(cur[prev.len() as int] as int == p);
                }
                if port_set(cur).contains(p) && p != n {
                    let i = choose|i: int| 0 <= i < cur.len() && cur[i] as int == p;
                    assert(port_set(prev).contains(p) && i < prev.len());
                }
                if 1 <= p < n && spec.selected(p) {
                    assert(port_set(prev).contains(p));
                    let i = choose|i: int| 0 <= i < prev.len() && prev[i] as int == p;
                    assert(cur[i] == prev[i]);
                }
            } else {
                if port_set(cur).contains(p) {
                    assert(port_set(prev).contains(p));
                }
            }
        }
    }
}

/// The ascending sequence holds each selected port exactly once.
pub proof fn lemma_serial_sequence(spec: &PortSpec)
    requires
        spec.valid(),
    ensures
        strictly_ascending(spec.serial_sequence()),
        spec.serial_sequence().no_duplicates(),
        forall|p: int| #[trigger] port_set(spec.serial_sequence()).contains(p) <==> spec.selected(p),
{
    lemma_serial_upto(spec, 65535);
    let s = spec.serial_sequence();
    assert forall|p: int| #[trigger] port_set(s).contains(p) <==> spec.selected(p) by {
        if spec.selected(p) {
            assert(is_port(p)) by {
                match spec.selection {
                    PortSelection::ExplicitList(l) => {
                        let i = choose|i: int| 0 <= i < l@.len() && l@[i] as int == p;
                        assert(is_port(l@[i] as int));
                    },
                    _ => {},
                }
            }
        }
    }
    assert forall|i: int, j: int| 0 <= i < s.len() && 0 <= j < s.len() && i != j implies s[i] != s[j] by {
        if i < j {
            assert(s[i] < s[j]);
        } else {
            assert(s[j] < s[i]);
        }
    }
}

/// The ports that the exclusion list names.
pub open spec fn excluded_set(spec: &PortSpec) -> Set<int> {
    Set::new(|p: int| listed(spec.exclude@, p))
}

/// The number of ports that a valid `Range` specification yields:
/// `end - start + 1` minus the excluded ports that fall inside the range.
pub open spec fn range_count(start: u32, end: u32, spec: &PortSpec) -> int {
    end - start + 1 - set_int_range(start as int, end + 1).intersect(excluded_set(spec)).len()
}

/// A duplicate-free sequence has as many elements as its set of ports.
pub proof fn lemma_unique_len(s: Seq<u16>)
    requires
        s.no_duplicates(),
    ensures
        port_set(s).finite(),
        s.len() == port_set(s).len(),
{
    let t = s.map_values(|x: u16| x as int);
    assert forall|i: int, j: int| 0 <= i < t.len() && 0 <= j < t.len() && i != j implies t[i] != t[j] by {
        assert(s[i] != s[j]);
    }
    assert(t.no_duplicates());
    t.unique_seq_to_set();
    assert forall|p: int| #[trigger] t.to_set().contains(p) <==> port_set(s).contains(p) by {
        if t.to_set().contains(p) {
            let i = choose|i: int| 0 <= i < t.len() && t[i] == p;
            assert(s[i] as int == p);
        }
        if port_set(s).contains(p) {
            let i = choose|i: int| 0 <= i < s.len() && s[i] as int == p;
            assert(t[i] == p);
        }
    }
    assert(t.to_set() =~= port_set(s));
}

/// For a valid range `start..=end`, the port sequence has exactly
/// `end - start + 1 - |exclude ∩ [start, end]|` elements, each within the
/// range, none excluded, and no two equal.
pub proof fn lemma_range_sequence(spec: &PortSpec, start: u32, end: u32)
    requires
        spec.valid(),
        spec.selection == (PortSelection::Range { start, end }),
    ensures
        spec.serial_sequence().len() == range_count(start, end, spec),
        spec.serial_sequence().no_duplicates(),
        forall|i: int|
            0 <= i < spec.serial_sequence().len() ==> start <= #[trigger] spec.serial_sequence()[i] <= end
                && !listed(spec.exclude@, spec.serial_sequence()[i] as int),
{
    lemma_serial_sequence(spec);
    let s = spec.serial_sequence();
    lemma_unique_len(s);
    let r = set_int_range(start as int, end + 1);
    let e = excluded_set(spec);
    lemma_int_range(start as int, end + 1);
    assert(port_set(s) =~= r.difference(e));
    assert(r =~= r.difference(e) + r.intersect(e));
    lemma_set_disjoint_lens(r.difference(e), r.intersect(e));
    assert forall|i: int| 0 <= i < s.len() implies start <= #[trigger] s[i] <= end && !listed(spec.exclude@, s[i] as int) by {
        assert(port_set(s).contains(s[i] as int));
    }
}

/// A range of one port that is not excluded yields exactly that port.
pub proof fn lemma_single_port_range(spec: &PortSpec, port: u32)
    requires
        spec.valid(),
        spec.selection == (PortSelection::Range { start: port, end: port }),
        !listed(spec.exclude@, port as int),
    ensures
        spec.serial_sequence() == seq![port as u16],
{
    lemma_serial_sequence(spec);
    let s = spec.serial_sequence();
    lemma_unique_len(s);
    assert(port_set(s) =~= set![port as int]);
    assert(s.len() == 1);
    assert(port_set(s).contains(s[0] as int));
    assert(s =~= seq![port as u16]);
}

/// An explicit list whose every entry is excluded yields no ports.
pub proof fn lemma_all_excluded(spec: &PortSpec)
    requires
        spec.valid(),
        spec.selection matches PortSelection::ExplicitList(l) && forall|i: int|
            0 <= i < l@.len() ==> listed(spec.exclude@, #[trigger] l@[i] as int),
    ensures
        spec.serial_sequence().len() == 0,
{
    lemma_serial_sequence(spec);
    let s = spec.serial_sequence();
    if s.len() > 0 {
        assert(port_set(s).contains(s[0] as int));
        let l = spec.selection->ExplicitList_0;
        let i = choose|i: int| 0 <= i < l@.len() && l@[i] as int == s[0] as int;
        assert(listed(spec.exclude@, l@[i] as int));
    }
}

fn check_list(l: &Vec<u32>) -> (r: bool)
    ensures
        r == all_ports(l@),
{
    let mut i: usize = 0;
    while i < l.len()
        invariant
            i <= l.len(),
            all_ports(l@.subrange(0, i as int)),
            forall|k: int| 0 <= k < i ==> is_port(#[trigger] l@[k] as int),
        decreases l.len() - i,
    {
        if l[i] < 1 || l[i] > MAX_PORT {
            assert(!is_port(l@[i as int] as int));
            return false;
        }
        i = i + 1;
    }
    true
}

/// Checks a specification without building anything.
pub fn validate(spec: &PortSpec) -> (r: bool)
    ensures
        r == spec.valid(),
{
    let universe_ok = match &spec.selection {
        PortSelection::AllPorts => true,
        PortSelection::Range { start, end } => 1 <= *start && *start <= *end && *end <= MAX_PORT,
        PortSelection::ExplicitList(l) => check_list(l),
    };
    universe_ok && check_list(&spec.exclude)
}

/// Marks, for each port number, whether the specification selects it.
fn selection_marks(spec: &PortSpec) -> (marks: Vec<bool>)
    requires
        spec.valid(),
    ensures
        marks@.len() == 65536,
        forall|p: int| 1 <= p <= 65535 ==> #[trigger] marks@[p] == spec.selected(p),
{
    let mut marks: Vec<bool> = vec![false; 65536];
    match &spec.selection {
        PortSelection::AllPorts => {
            let mut p: usize = 1;
            while p <= 65535
                invariant
                    1 <= p <= 65536,
                    marks@.len() == 65536,
                    forall|q: int| 1 <= q <= 65535 ==> #[trigger] marks@[q] == (q < p),
                decreases 65536 - p,
            {
                marks.set(p, true);
                p = p + 1;
            }
        },
        PortSelection::Range { start, end } => {
            let mut p: usize = *start as usize;
            while p <= *end as usize
                invariant
                    *start <= p <= *end as int + 1,
                    *end <= 65535,
                    marks@.len() == 65536,
                    forall|q: int| 1 <= q <= 65535 ==> #[trigger] marks@[q] == (*start <= q < p),
                decreases *end as int + 1 - p,
            {
                marks.set(p, true);
                p = p + 1;
            }
        },
        PortSelection::ExplicitList(l) => {
            let mut i: usize = 0;
            while i < l.len()
                invariant
                    i <= l.len(),
                    all_ports(l@),
                    marks@.len() == 65536,
                    forall|q: int| 1 <= q <= 65535 ==> #[trigger] marks@[q] == listed(l@.subrange(0, i as int), q),
                decreases l.len() - i,
            {
                let v = l[i];
                assert(is_port(l@[i as int] as int));
                marks.set(v as usize, true);
                assert forall|q: int| 1 <= q <= 65535 implies #[trigger] marks@[q] == listed(l@.subrange(0, i + 1), q) by {
                    let next = l@.subrange(0, i + 1);
                    let prev = l@.subrange(0, i as int);
                    if q == v as int {
                        assert(next[i as int] as int == q);
                    } else if listed(next, q) {
                        let k = choose|k: int| 0 <= k < next.len() && next[k] as int == q;
                        assert(prev[k] == next[k]);
                    } else if listed(prev, q) {
                        let k = choose|k: int| 0 <= k < prev.len() && prev[k] as int == q;
                        assert(prev[k] == next[k]);
                    }
                }
                i = i + 1;
            }
            assert(l@.subrange(0, l@.len() as int) == l@);
        },
    }
    let ex = &spec.exclude;
    let mut j: usize = 0;
    while j < ex.len()
        invariant
            j <= ex.len(),
            all_ports(ex@),
            ex == &spec.exclude,
            spec.valid(),
            marks@.len() == 65536,
            forall|q: int|
                1 <= q <= 65535 ==> #[trigger] marks@[q] == (spec.in_universe(q) && !listed(ex@.subrange(0, j as int), q)),
        decreases ex.len() - j,
    {
        let v = ex[j];
        assert(is_port(ex@[j as int] as int));
        marks.set(v as usize, false);
        assert forall|q: int| 1 <= q <= 65535 implies #[trigger] marks@[q] == (spec.in_universe(q) && !listed(ex@.subrange(0, j + 1), q)) by {
            let next = ex@.subrange(0, j + 1);
            let prev = ex@.subrange(0, j as int);
            if q == v as int {
                assert(next[j as int] as int == q);
            } else if listed(next, q) {
                let k = choose|k: int| 0 <= k < next.len() && next[k] as int == q;
                assert(prev[k] == next[k]);
            } else if listed(prev, q) {
                let k = choose|k: int| 0 <= k < prev.len() && prev[k] as int == q;
                assert(prev[k] == next[k]);
            }
        }
        j = j + 1;
    }
    assert(ex@.subrange(0, ex@.len() as int) == ex@);
    marks
}

/// The selected ports in ascending order.
fn serial_ports(spec: &PortSpec) -> (out: Vec<u16>)
    requires
        spec.valid(),
    ensures
        out@ == spec.serial_sequence(),
{
    let marks = selection_marks(spec);
    let mut out: Vec<u16> = Vec::new();
    let mut p: usize = 1;
    while p <= 65535
        invariant
            1 <= p <= 65536,
            marks@.len() == 65536,
            forall|q: int| 1 <= q <= 65535 ==> #[trigger] marks@[q] == spec.selected(q),
            out@ == spec.serial_upto(p - 1),
        decreases 65536 - p,
    {
        if marks[p] {
            out.push(p as u16);
        }
        p = p + 1;
    }
    out
}

/// One step of the xorshift64 generator.
fn next_random(state: u64) -> u64 {
    let a = state ^ (state << 13u64);
    let b = a ^ (a >> 7u64);
    b ^ (b << 17u64)
}

/// Shuffles `v` in place (Fisher-Yates) with draws from a generator seeded
/// by `seed`; the result is a permutation of the input.
pub fn shuffle_ports(v: &mut Vec<u16>, seed: u64)
    ensures
        final(v)@.to_multiset() == old(v)@.to_multiset(),
        final(v)@.len() == old(v)@.len(),
        port_set(final(v)@) == port_set(old(v)@),
        old(v)@.no_duplicates() ==> final(v)@.no_duplicates(),
{
    let ghost orig = v@;
    let mut state: u64 = seed | 1;
    let mut i: usize = v.len();
    while i > 1
        invariant
            i <= v@.len(),
            v@.len() == orig.len(),
            v@.to_multiset() == orig.to_multiset(),
            port_set(v@) == port_set(orig),
            orig.no_duplicates() ==> v@.no_duplicates(),
        decreases i,
    {
        state = next_random(state);
        let j = (state % (i as u64)) as usize;
        let k = i - 1;
        let a = v[k];
        let b = v[j];
        let ghost before = v@;
        v.set(k, b);
        v.set(j, a);
        proof {
            let after = v@;
            assert(after == before.update(k as int, b).update(j as int, a));
            assert(after.to_multiset() == before.to_multiset()) by {
                let mid = before.update(k as int, b);
                assert(mid.to_multiset() == before.to_multiset().insert(b).remove(a));
                assert(after.to_multiset() == mid.to_multiset().insert(a).remove(mid[j as int]));
                if j == k {
                    assert(after == before);
                } else {
                    assert(mid[j as int] == b);
                    assert(before.to_multiset().count(a) > 0) by {
                        assert(before.contains(a));
                    }
                    assert(after.to_multiset() =~= before.to_multiset());
                }
            }
            assert forall|p: int| port_set(after).contains(p) == port_set(before).contains(p) by {
                if port_set(before).contains(p) {
                    let x = choose|x: int| 0 <= x < before.len() && before[x] as int == p;
                    if x == k as int {
                        assert(after[j as int] as int == p);
                    } else if x == j as int {
                        assert(after[k as int] as int == p);
                    } else {
                        assert(after[x] as int == p);
                    }
                }
                if port_set(after).contains(p) {
                    let x = choose|x: int| 0 <= x < after.len() && after[x] as int == p;
                    if x == k as int {
                        assert(before[j as int] as int == p);
                    } else if x == j as int {
                        assert(before[k as int] as int == p);
                    } else {
                        assert(before[x] as int == p);
                    }
                }
            }
            assert(port_set(after) =~= port_set(before));
            if orig.no_duplicates() {
                assert forall|x: int, y: int| 0 <= x < after.len() && 0 <= y < after.len() && x != y implies after[x] != after[y] by {
                    let bx = if x == k as int { j as int } else if x == j as int { k as int } else { x };
                    let by_ = if y == k as int { j as int } else if y == j as int { k as int } else { y };
                    assert(after[x] == before[bx]);
                    assert(after[y] == before[by_]);
                }
            }
        }
        i = k;
    }
}

/// Builds the port sequence of a specification.
///
/// Fails with `InvalidSpec` exactly when the specification is not valid.
/// Otherwise the sequence holds each selected port exactly once: in
/// ascending order for `Serial`, and as a permutation of that ascending
/// order, drawn from `seed`, for `Random`.
pub fn sequence_ports(spec: &PortSpec, seed: u64) -> (r: Result<Vec<u16>, PortSpecError>)
    ensures
        r is Err <==> !spec.valid(),
        r matches Ok(v) ==> {
            &&& v@.no_duplicates()
            &&& forall|p: int| #[trigger] port_set(v@).contains(p) <==> spec.selected(p)
            &&& v@.to_multiset() == spec.serial_sequence().to_multiset()
            &&& spec.order == ScanOrder::Serial ==> v@ == spec.serial_sequence()
            &&& spec.order == ScanOrder::Serial ==> strictly_ascending(v@)
            &&& spec.selection matches PortSelection::Range { start, end } ==> v@.len() == range_count(start, end, spec)
        },
{
    if !validate(spec) {
        return Err(PortSpecError::InvalidSpec);
    }
    proof {
        lemma_serial_sequence(spec);
        if let PortSelection::Range { start, end } = spec.selection {
            lemma_range_sequence(spec, start, end);
        }
    }
    let mut v = serial_ports(spec);
    match spec.order {
        ScanOrder::Serial => {},
        ScanOrder::Random => {
            shuffle_ports(&mut v, seed);
        },
    }
    Ok(v)
}

} // verus!
