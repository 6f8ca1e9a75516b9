//! Text of the per-host scan report.
use vstd::prelude::*;
use crate::text::{chars_of, string_of};

verus! {

/// Decimal digits of `n`, most significant first.
pub open spec fn decimal(n: nat) -> Seq<char>
    decreases n,
{
    if n < 10 {
        seq![(n + '0' as nat) as char]
    } else {
        decimal(n / 10).push(((n % 10) + '0' as nat) as char)
    }
}

/// The ports written in decimal and separated by commas.
pub open spec fn ports_csv(ports: Seq<u16>) -> Seq<char>
    decreases ports.len(),
{
    if ports.len() == 0 {
        Seq::empty()
    } else if ports.len() == 1 {
        decimal(ports[0] as nat)
    } else {
        ports_csv(ports.drop_last()).push(',') + decimal(ports.last() as nat)
    }
}

/// Appends the decimal digits of `n` to `out`.
fn push_decimal(out: &mut Vec<char>, n: u64)
    ensures
        final(out)@ == old(out)@ + decimal(n as nat),
    decreases n,
{
    if n < 10 {
        out.push(((n as u32) + ('0' as u32)) as u8 as char);
        proof {
            assert(((n as u32) + ('0' as u32)) as u8 as char == (n as nat + '0' as nat) as char);
        }
    } else {
        push_decimal(out, n / 10);
        let d = n % 10;
        out.push(((d as u32) + ('0' as u32)) as u8 as char);
        proof {
            assert(((d as u32) + ('0' as u32)) as u8 as char == ((n as nat % 10) + '0' as nat) as char);
        }
    }
}

/// Appends the characters of `s` to `out`.
fn push_str(out: &mut Vec<char>, s: &str)
    ensures
        final(out)@ == old(out)@ + s@,
{
    let chars = chars_of(s);
    let ghost base = out@;
    let mut i: usize = 0;
    while i < chars.len()
        invariant
            i <= chars.len(),
            out@ == base + chars@.subrange(0, i as int),
        decreases chars.len() - i,
    {
        out.push(chars[i]);
        assert(chars@.subrange(0, i + 1) == chars@.subrange(0, i as int).push(chars@[i as int]));
        i = i + 1;
    }
    assert(chars@.subrange(0, chars@.len() as int) == chars@);
}

/// The ports written in decimal and separated by commas.
pub fn format_ports(ports: &Vec<u16>) -> (r: String)
    ensures
        r@ == ports_csv(ports@),
{
    let mut out: Vec<char> = Vec::new();
    let mut i: usize = 0;
    while i < ports.len()
        invariant
            i <= ports.len(),
            out@ == ports_csv(ports@.subrange(0, i as int)),
        decreases ports.len() - i,
    {
        let ghost next = ports@.subrange(0, i + 1);
        assert(next.drop_last() =~= ports@.subrange(0, i as int));
        if i > 0 {
            out.push(',');
        }
        push_decimal(&mut out, ports[i] as u64);
        proof {
            if i == 0 {
                assert(out@ =~= decimal(next[0] as nat));
            }
        }
        i = i + 1;
    }
    assert(ports@.subrange(0, ports@.len() as int) =~= ports@);
    string_of(&out)
}

/// The report line of a host with open ports: `host -> [p1,p2,...]`.
pub fn host_line(host: &str, ports: &Vec<u16>) -> (r: String)
    ensures
        r@ == host@ + " -> ["@ + ports_csv(ports@) + "]"@,
{
    let mut out: Vec<char> = Vec::new();
    push_str(&mut out, host);
    push_str(&mut out, " -> [");
    let csv = format_ports(ports);
    push_str(&mut out, csv.as_str());
    push_str(&mut out, "]");
    string_of(&out)
}

/// The report line of a host without open ports, with advice that names
/// the batch size used.
pub fn no_ports_line(host: &str, batch_size: u16) -> (r: String)
    ensures
        r@ == "No open ports found for "@ + host@ + ". A high batch size ("@ + decimal(batch_size as nat)
            + ") is a common cause; consider lowering it, or raising the timeout if the host is far away."@,
{
    let mut out: Vec<char> = Vec::new();
    push_str(&mut out, "No open ports found for ");
    push_str(&mut out, host);
    push_str(&mut out, ". A high batch size (");
    push_decimal(&mut out, batch_size as u64);
    push_str(&mut out, ") is a common cause; consider lowering it, or raising the timeout if the host is far away.");
    string_of(&out)
}

} // verus!
