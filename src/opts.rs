//! Turns the scan configuration form into scan options: the address text,
//! the port selection parsed from the port text, the timeout and batch size.
use vstd::prelude::*;
use crate::ports::PortSelection;
use crate::scan_config::ScanConfig;
use crate::text::{split_spec, trim_spec, split_chars, trim_chars, chars_of, string_of};
use crate::output_buffer::lines_view;

verus! {

/// Options for one scan, as the form describes it.
pub struct ScanOpts {
    /// Comma-separated targets.
    pub addresses: String,
    pub ports: PortSelection,
    /// Timeout in milliseconds.
    pub timeout: u32,
    pub batch_size: u16,
}

/// Why the form does not describe a scan.
#[derive(Clone, Debug)]
pub enum BuildOptsFromScanConfigError {
    /// No target was entered.
    NoTargets,
    /// The port text is malformed.
    ClapParse(String),
}

/// Whether `c` is an ASCII decimal digit.
pub open spec fn is_digit(c: char) -> bool {
    '0' <= c <= '9'
}

/// Value of a string of decimal digits.
pub open spec fn digits_value(s: Seq<char>) -> int
    decreases s.len(),
{
    if s.len() == 0 {
        0
    } else {
        10 * digits_value(s.drop_last()) + (s.last() as int - '0' as int)
    }
}

/// Digits of a number text: the text without one leading `+`.
pub open spec fn unsigned_digits(s: Seq<char>) -> Seq<char> {
    if s.len() > 0 && s[0] == '+' {
        s.drop_first()
    } else {
        s
    }
}

/// The port number written by `s` (an optional `+`, then decimal digits,
/// at most 65535), if any.
pub open spec fn parse_port_spec(s: Seq<char>) -> Option<u16> {
    let d = unsigned_digits(s);
    if d.len() > 0 && (forall|i: int| 0 <= i < d.len() ==> is_digit(#[trigger] d[i])) && digits_value(d) <= 65535 {
        Some(digits_value(d) as u16)
    } else {
        None
    }
}

/// The ports of a list of pieces, if every piece is a port number.
pub open spec fn parse_list_spec(pieces: Seq<Seq<char>>) -> Option<Seq<u32>>
    decreases pieces.len(),
{
    if pieces.len() == 0 {
        Some(Seq::empty())
    } else {
        match (parse_list_spec(pieces.drop_last()), parse_port_spec(pieces.last())) {
            (Some(l), Some(p)) => Some(l.push(p as u32)),
            _ => None,
        }
    }
}

/// The bounds of a `start-end` text, if it is one.
pub open spec fn parse_range_spec(t: Seq<char>) -> Option<(u16, u16)> {
    let pieces = split_spec(t, '-');
    if pieces.len() == 2 {
        match (parse_port_spec(pieces[0]), parse_port_spec(pieces[1])) {
            (Some(a), Some(b)) => Some((a, b)),
            _ => None,
        }
    } else {
        None
    }
}

/// `parts` joined with `sep`.
pub open spec fn join_spec(parts: Seq<Seq<char>>, sep: char) -> Seq<char>
    decreases parts.len(),
{
    if parts.len() == 0 {
        Seq::empty()
    } else if parts.len() == 1 {
        parts[0]
    } else {
        join_spec(parts.drop_last(), sep).push(sep) + parts.last()
    }
}

/// The address text of the form: the targets field while it holds text,
/// else the confirmed targets joined with commas.
pub open spec fn addresses_spec(cfg: ScanConfig) -> Seq<char> {
    if cfg.targets_input.text_view().len() > 0 {
        cfg.targets_input.text_view()
    } else {
        join_spec(lines_view(cfg.targets@), ',')
    }
}

/// The port text of the form, trimmed: the ports field while it holds
/// text, else the confirmed port text; empty when there is none.
pub open spec fn port_text_spec(cfg: ScanConfig) -> Seq<char> {
    if cfg.ports_input.text_view().len() > 0 {
        trim_spec(cfg.ports_input.text_view())
    } else {
        match cfg.ports {
            Some(p) => trim_spec(p@),
            None => Seq::empty(),
        }
    }
}

/// The port text is a range: a `-` and no `,`.
pub open spec fn is_range_text(t: Seq<char>) -> bool {
    !t.contains(',') && t.contains('-')
}

/// Whether the port text of the form can be read.
pub open spec fn ports_ok(t: Seq<char>) -> bool {
    t.len() == 0 || (is_range_text(t) && parse_range_spec(t) is Some) || (!is_range_text(t) && parse_list_spec(
        split_spec(t, ','),
    ) is Some)
}

/// Reads a port number.
pub fn parse_port(s: &Vec<char>) -> (r: Option<u16>)
    ensures
        r == parse_port_spec(s@),
{
    let start: usize = if s.len() > 0 && s[0] == '+' {
        1
    } else {
        0
    };
    let ghost d = unsigned_digits(s@);
    assert(d == s@.subrange(start as int, s@.len() as int));
    if start >= s.len() {
        return None;
    }
    let mut acc: u64 = 0;
    let mut i: usize = start;
    while i < s.len()
        invariant
            start <= i <= s.len(),
            d == unsigned_digits(s@),
            d == s@.subrange(start as int, s@.len() as int),
            forall|k: int| 0 <= k < i - start ==> is_digit(#[trigger] d[k]),
            acc == if digits_value(d.subrange(0, i - start)) < 65536 {
                digits_value(d.subrange(0, i - start))
            } else {
                65536
            },
            digits_value(d.subrange(0, i - start)) >= 0,
        decreases s.len() - i,
    {
        let c = s[i];
        if !('0' <= c && c <= '9') {
            let ghost k: int = i - start;
            assert(d[k] == c);
            assert(!is_digit(d[k]));
            return None;
        }
        let ghost pre = d.subrange(0, i - start);
        let ghost next = d.subrange(0, i - start + 1);
        assert(next.drop_last() == pre);
        assert(next.last() == c);
        let digit = (c as u32 - '0' as u32) as u64;
        let grown = acc * 10 + digit;
        acc = if grown < 65536 {
            grown
        } else {
            65536
        };
        i = i + 1;
    }
    assert(d.subrange(0, d.len() as int) == d);
    if acc <= 65535 {
        Some(acc as u16)
    } else {
        None
    }
}

/// Reads comma-separated port numbers.
fn parse_list(pieces: &Vec<Vec<char>>) -> (r: Option<Vec<u32>>)
    ensures
        match parse_list_spec(pieces@.map_values(|v: Vec<char>| v@)) {
            Some(l) => r matches Some(v) && v@ == l,
            None => r is None,
        },
{
    let ghost pv = pieces@.map_values(|v: Vec<char>| v@);
    let mut out: Vec<u32> = Vec::new();
    let mut i: usize = 0;
    while i < pieces.len()
        invariant
            i <= pieces.len(),
            pv == pieces@.map_values(|v: Vec<char>| v@),
            parse_list_spec(pv.subrange(0, i as int)) == Some(out@),
        decreases pieces.len() - i,
    {
        let ghost next = pv.subrange(0, i + 1);
        assert(next.drop_last() =~= pv.subrange(0, i as int));
        assert(next.last() == pieces@[i as int]@);
        match parse_port(&pieces[i]) {
            Some(p) => {
                out.push(p as u32);
            },
            None => {
                proof {
                    lemma_list_none_extends(pv, i as int + 1);
                }
                assert(pv.subrange(0, pv.len() as int) =~= pv);
                return None;
            },
        }
        i = i + 1;
    }
    assert(pv.subrange(0, pv.len() as int) =~= pv);
    Some(out)
}

/// Once a prefix fails to parse, every longer prefix fails.
proof fn lemma_list_none_extends(pv: Seq<Seq<char>>, n: int)
    requires
        0 <= n <= pv.len(),
        parse_list_spec(pv.subrange(0, n)) is None,
    ensures
        parse_list_spec(pv) is None,
    decreases pv.len() - n,
{
    if n < pv.len() {
        assert(pv.subrange(0, n + 1).drop_last() =~= pv.subrange(0, n));
        lemma_list_none_extends(pv, n + 1);
    } else {
        assert(pv.subrange(0, n) =~= pv);
    }
}

/// Joins `parts` with `sep`.
fn join_chars(parts: &Vec<String>, sep: char) -> (r: Vec<char>)
    ensures
        r@ == join_spec(lines_view(parts@), sep),
{
    let ghost pv = lines_view(parts@);
    let mut out: Vec<char> = Vec::new();
    let mut i: usize = 0;
    while i < parts.len()
        invariant
            i <= parts.len(),
            pv == lines_view(parts@),
            out@ == join_spec(pv.subrange(0, i as int), sep),
        decreases parts.len() - i,
    {
        let ghost next = pv.subrange(0, i + 1);
        assert(next.drop_last() =~= pv.subrange(0, i as int));
        if i > 0 {
            out.push(sep);
        }
        let piece = chars_of(parts[i].as_str());
        let mut j: usize = 0;
        let ghost base = out@;
        while j < piece.len()
            invariant
                j <= piece.len(),
                out@ == base + piece@.subrange(0, j as int),
            decreases piece.len() - j,
        {
            out.push(piece[j]);
            assert(piece@.subrange(0, j + 1) == piece@.subrange(0, j as int).push(piece@[j as int]));
            j = j + 1;
        }
        assert(piece@.subrange(0, piece@.len() as int) == piece@);
        if i == 0 {
            assert(next.len() == 1);
            assert(out@ =~= next[0]);
        } else {
            assert(out@ =~= join_spec(next.drop_last(), sep).push(sep) + next.last());
        }
        i = i + 1;
    }
    assert(pv.subrange(0, pv.len() as int) =~= pv);
    out
}

/// Whether `c` occurs in `s`.
fn contains_char(s: &Vec<char>, c: char) -> (r: bool)
    ensures
        r == s@.contains(c),
{
    let mut i: usize = 0;
    while i < s.len()
        invariant
            i <= s.len(),
            forall|k: int| 0 <= k < i ==> s@[k] != c,
        decreases s.len() - i,
    {
        if s[i] == c {
            return true;
        }
        i = i + 1;
    }
    false
}

fn parse_failure() -> (r: BuildOptsFromScanConfigError)
    ensures
        r is ClapParse,
{
    BuildOptsFromScanConfigError::ClapParse(String::from_str("invalid port specification: use a list such as 80,443 or a range such as 1-1000"))
}

/// Builds scan options from the form.
///
/// Fails with `NoTargets` when the address text is blank, and otherwise with
/// `ClapParse` when the port text is neither empty, nor a `start-end` range
/// (a `-` and no `,`), nor a comma-separated list of port numbers. With no
/// port text the selection is the full range 1-65535.
pub fn build_opts_from_scan_config(cfg: &ScanConfig) -> (r: Result<ScanOpts, BuildOptsFromScanConfigError>)
    ensures
        (r matches Err(BuildOptsFromScanConfigError::NoTargets)) <==> trim_spec(addresses_spec(*cfg)).len() == 0,
        (r matches Err(BuildOptsFromScanConfigError::ClapParse(_))) <==> (trim_spec(addresses_spec(*cfg)).len() > 0
            && !ports_ok(port_text_spec(*cfg))),
        r matches Ok(o) ==> {
            let t = port_text_spec(*cfg);
            &&& o.addresses@ == addresses_spec(*cfg)
            &&& o.timeout == cfg.timeout
            &&& o.batch_size == cfg.batch_size
            &&& t.len() == 0 ==> o.ports == (PortSelection::Range { start: 1, end: 65535 })
            &&& (t.len() > 0 && is_range_text(t)) ==> (parse_range_spec(t) matches Some((a, b)) && o.ports == (
            PortSelection::Range { start: a as u32, end: b as u32 }))
            &&& (t.len() > 0 && !is_range_text(t)) ==> (parse_list_spec(split_spec(t, ',')) matches Some(l) && (o.ports
                matches PortSelection::ExplicitList(v) && v@ == l))
        },
{
    let addresses: Vec<char> = if !cfg.targets_input.is_empty() {
        let s = cfg.targets_input.text();
        chars_of(s.as_str())
    } else {
        join_chars(&cfg.targets, ',')
    };
    proof {
        if cfg.targets_input.text_view().len() == 0 && cfg.targets@.len() == 0 {
            assert(lines_view(cfg.targets@).len() == 0);
        }
    }
    let trimmed = trim_chars(&addresses);
    if trimmed.len() == 0 {
        return Err(BuildOptsFromScanConfigError::NoTargets);
    }
    let raw: Vec<char> = if !cfg.ports_input.is_empty() {
        let s = cfg.ports_input.text();
        chars_of(s.as_str())
    } else {
        match &cfg.ports {
            Some(p) => chars_of(p.as_str()),
            None => Vec::new(),
        }
    };
    let t = trim_chars(&raw);
    proof {
        if cfg.ports_input.text_view().len() == 0 && cfg.ports is None {
            assert(raw@ == Seq::<char>::empty());
            assert(trim_spec(raw@) == raw@);
        }
    }
    let ports = if t.len() == 0 {
        PortSelection::Range { start: 1, end: 65535 }
    } else if !contains_char(&t, ',') && contains_char(&t, '-') {
        let pieces = split_chars(&t, '-');
        let ghost pv = pieces@.map_values(|v: Vec<char>| v@);
        if pieces.len() != 2 {
            return Err(parse_failure());
        }
        assert(pv[0] == pieces@[0]@ && pv[1] == pieces@[1]@);
        match (parse_port(&pieces[0]), parse_port(&pieces[1])) {
            (Some(a), Some(b)) => PortSelection::Range { start: a as u32, end: b as u32 },
            _ => {
                return Err(parse_failure());
            },
        }
    } else {
        let pieces = split_chars(&t, ',');
        match parse_list(&pieces) {
            Some(l) => PortSelection::ExplicitList(l),
            None => {
                return Err(parse_failure());
            },
        }
    };
    Ok(ScanOpts { addresses: string_of(&addresses), ports, timeout: cfg.timeout, batch_size: cfg.batch_size })
}

} // verus!
