//! Feeding captured program output into an output buffer, one non-blank
//! line at a time.
use vstd::prelude::*;
use crate::output_buffer::{OutputBuffer, keep_last, after_push_scroll};
use crate::text::{split_spec, trim_spec, split_chars, trim_chars, chars_of, string_of};

verus! {

/// The text that lossy UTF-8 decoding makes of `bytes`.
pub uninterp spec fn lossy_utf8(bytes: Seq<u8>) -> Seq<char>;

/// Relies on `String::from_utf8_lossy`: the decoded text depends on the
/// bytes alone, and no bytes decode to no text.
#[verifier::external_body]
fn decode_lossy(bytes: &Vec<u8>) -> (s: String)
    ensures
        s@ == lossy_utf8(bytes@),
        bytes@.len() == 0 ==> s@.len() == 0,
{
    String::from_utf8_lossy(bytes.as_slice()).into_owned()
}

/// `line` without one trailing carriage return.
pub open spec fn strip_cr(line: Seq<char>) -> Seq<char> {
    if line.len() > 0 && line.last() == '\r' {
        line.drop_last()
    } else {
        line
    }
}

/// The non-blank lines of `pieces`, each without a trailing carriage return.
pub open spec fn nonblank_lines(pieces: Seq<Seq<char>>) -> Seq<Seq<char>>
    decreases pieces.len(),
{
    if pieces.len() == 0 {
        Seq::empty()
    } else {
        let rest = nonblank_lines(pieces.drop_last());
        if trim_spec(strip_cr(pieces.last())).len() > 0 {
            rest.push(strip_cr(pieces.last()))
        } else {
            rest
        }
    }
}

/// The non-blank lines of a text.
pub open spec fn text_lines(text: Seq<char>) -> Seq<Seq<char>> {
    nonblank_lines(split_spec(text, '\n'))
}

/// Each of `lines` with `prefix` in front.
pub open spec fn prefixed(prefix: Seq<char>, lines: Seq<Seq<char>>) -> Seq<Seq<char>> {
    lines.map_values(|l: Seq<char>| prefix + l)
}

/// Buffer lines after pushing each of `added` in turn.
pub open spec fn pushed_all(lines: Seq<Seq<char>>, max: int, added: Seq<Seq<char>>) -> Seq<Seq<char>>
    decreases added.len(),
{
    if added.len() == 0 {
        lines
    } else {
        keep_last(pushed_all(lines, max, added.drop_last()).push(added.last()), max)
    }
}

/// Scroll position after `n` pushes.
pub open spec fn scroll_after(scroll: int, n: int) -> int
    decreases n,
{
    if n <= 0 {
        scroll
    } else {
        after_push_scroll(scroll_after(scroll, n - 1))
    }
}

/// The lines that capturing a command's output pushes: a header naming the
/// command, the non-blank lines of its standard output, then, when it wrote
/// to standard error, a separator and each non-blank error line marked
/// `ERROR: `, and a closing empty line.
pub open spec fn command_output_lines(name: Seq<char>, stdout: Seq<char>, stderr_bytes: Seq<u8>) -> Seq<Seq<char>> {
    let head = seq!["=== "@ + name + " Output ==="@];
    let err = if stderr_bytes.len() > 0 {
        seq!["--- STDERR ---"@] + prefixed("ERROR: "@, text_lines(lossy_utf8(stderr_bytes)))
    } else {
        Seq::empty()
    };
    head + text_lines(stdout) + err + seq![Seq::empty()]
}

/// The buffer after pushing `added`, as `push_line` does for each.
pub open spec fn buffer_pushed(before: OutputBuffer, after: OutputBuffer, added: Seq<Seq<char>>) -> bool {
    &&& after.lines_spec() == pushed_all(before.lines_spec(), before.max_lines_spec(), added)
    &&& after.scroll_spec() == scroll_after(before.scroll_spec(), added.len() as int)
    &&& after.max_lines_spec() == before.max_lines_spec()
}

/// Pushes each of `lines` in turn.
fn push_each(buffer: &mut OutputBuffer, lines: &Vec<Vec<char>>, prefix: &Vec<char>)
    ensures
        buffer_pushed(
            *old(buffer),
            *final(buffer),
            prefixed(prefix@, lines@.map_values(|v: Vec<char>| v@)),
        ),
{
    let ghost lv = lines@.map_values(|v: Vec<char>| v@);
    let ghost all = prefixed(prefix@, lv);
    let mut i: usize = 0;
    while i < lines.len()
        invariant
            i <= lines.len(),
            lv == lines@.map_values(|v: Vec<char>| v@),
            all == prefixed(prefix@, lv),
            buffer_pushed(*old(buffer), *buffer, all.subrange(0, i as int)),
        decreases lines.len() - i,
    {
        let mut line = copy_chars(prefix);
        let piece = &lines[i];
        let mut j: usize = 0;
        let ghost base = line@;
        while j < piece.len()
            invariant
                j <= piece.len(),
                line@ == base + piece@.subrange(0, j as int),
            decreases piece.len() - j,
        {
            line.push(piece[j]);
            assert(piece@.subrange(0, j + 1) == piece@.subrange(0, j as int).push(piece@[j as int]));
            j = j + 1;
        }
        assert(piece@.subrange(0, piece@.len() as int) == piece@);
        let s = string_of(&line);
        assert(all.subrange(0, i + 1).drop_last() =~= all.subrange(0, i as int));
        assert(all[i as int] == prefix@ + lv[i as int]);
        buffer.push_line(s);
        i = i + 1;
    }
    assert(all.subrange(0, all.len() as int) =~= all);
}

/// A copy of `s`.
fn copy_chars(s: &Vec<char>) -> (r: Vec<char>)
    ensures
        r@ == s@,
{
    let mut r: Vec<char> = Vec::new();
    let mut i: usize = 0;
    while i < s.len()
        invariant
            i <= s.len(),
            r@ == s@.subrange(0, i as int),
        decreases s.len() - i,
    {
        r.push(s[i]);
        i = i + 1;
    }
    r
}

/// The non-blank lines of `text`.
fn lines_of(text: &Vec<char>) -> (r: Vec<Vec<char>>)
    ensures
        r@.map_values(|v: Vec<char>| v@) == text_lines(text@),
{
    let pieces = split_chars(text, '\n');
    let ghost pv = pieces@.map_values(|v: Vec<char>| v@);
    let mut out: Vec<Vec<char>> = Vec::new();
    let mut i: usize = 0;
    while i < pieces.len()
        invariant
            i <= pieces.len(),
            pv == pieces@.map_values(|v: Vec<char>| v@),
            out@.map_values(|v: Vec<char>| v@) == nonblank_lines(pv.subrange(0, i as int)),
        decreases pieces.len() - i,
    {
        let p = &pieces[i];
        let line: Vec<char> = if p.len() > 0 && p[p.len() - 1] == '\r' {
            let mut c = copy_chars(p);
            c.pop();
            assert(c@ =~= p@.drop_last());
            c
        } else {
            copy_chars(p)
        };
        assert(line@ == strip_cr(pv[i as int]));
        assert(pv.subrange(0, i + 1).drop_last() =~= pv.subrange(0, i as int));
        let t = trim_chars(&line);
        if t.len() > 0 {
            let ghost before = out@.map_values(|v: Vec<char>| v@);
            out.push(line);
            assert(out@.map_values(|v: Vec<char>| v@) =~= before.push(strip_cr(pv[i as int])));
        }
        i = i + 1;
    }
    assert(pv.subrange(0, pv.len() as int) =~= pv);
    out
}

/// Pushes every non-blank line of `text`, in order.
pub fn push_text_lines(buffer: &mut OutputBuffer, text: &str)
    ensures
        buffer_pushed(*old(buffer), *final(buffer), text_lines(text@)),
{
    let chars = chars_of(text);
    let lines = lines_of(&chars);
    let empty: Vec<char> = Vec::new();
    push_each(buffer, &lines, &empty);
    assert(prefixed(empty@, text_lines(text@)) =~= text_lines(text@)) by {
        assert forall|k: int| 0 <= k < text_lines(text@).len() implies empty@ + text_lines(text@)[k] == text_lines(text@)[k] by {
            assert(empty@ + text_lines(text@)[k] =~= text_lines(text@)[k]);
        }
    }
}

/// Pushes one line.
pub fn capture_output_line(buffer: &mut OutputBuffer, line: String)
    ensures
        buffer_pushed(*old(buffer), *final(buffer), seq![line@]),
{
    let ghost before = *buffer;
    let ghost x = line@;
    buffer.push_line(line);
    proof {
        lemma_push_one(before, *buffer, x);
    }
}

/// Pushes each of `lines`, in order.
pub fn capture_output_lines(buffer: &mut OutputBuffer, lines: Vec<String>)
    ensures
        buffer_pushed(*old(buffer), *final(buffer), lines@.map_values(|s: String| s@)),
{
    let ghost all = lines@.map_values(|s: String| s@);
    let mut i: usize = 0;
    while i < lines.len()
        invariant
            i <= lines.len(),
            all == lines@.map_values(|s: String| s@),
            buffer_pushed(*old(buffer), *buffer, all.subrange(0, i as int)),
        decreases lines.len() - i,
    {
        let line: String = lines[i].clone();
        assert(all.subrange(0, i + 1).drop_last() =~= all.subrange(0, i as int));
        assert(all[i as int] == line@);
        buffer.push_line(line);
        i = i + 1;
    }
    assert(all.subrange(0, all.len() as int) =~= all);
}

/// Records a command's captured output in the buffer: a header, the
/// non-blank lines of standard output, the non-blank lines of standard
/// error marked `ERROR: ` after a separator (when there are error bytes),
/// and an empty line.
pub fn capture_command_output(buffer: &mut OutputBuffer, command_name: &str, stdout: Vec<u8>, stderr: Vec<u8>)
    ensures
        buffer_pushed(*old(buffer), *final(buffer), command_output_lines(command_name@, lossy_utf8(stdout@), stderr@)),
{
    let ghost b0 = *buffer;
    let mut head = chars_of("=== ");
    let name = chars_of(command_name);
    let tail = chars_of(" Output ===");
    let mut k: usize = 0;
    let ghost h0 = head@;
    while k < name.len()
        invariant
            k <= name.len(),
            head@ == h0 + name@.subrange(0, k as int),
        decreases name.len() - k,
    {
        head.push(name[k]);
        assert(name@.subrange(0, k + 1) == name@.subrange(0, k as int).push(name@[k as int]));
        k = k + 1;
    }
    assert(name@.subrange(0, name@.len() as int) == name@);
    let mut m: usize = 0;
    let ghost h1 = head@;
    while m < tail.len()
        invariant
            m <= tail.len(),
            head@ == h1 + tail@.subrange(0, m as int),
        decreases tail.len() - m,
    {
        head.push(tail[m]);
        assert(tail@.subrange(0, m + 1) == tail@.subrange(0, m as int).push(tail@[m as int]));
        m = m + 1;
    }
    assert(tail@.subrange(0, tail@.len() as int) == tail@);
    let header = string_of(&head);
    let ghost header_view = header@;
    assert(header_view == "=== "@ + command_name@ + " Output ==="@);
    buffer.push_line(header);
    let ghost b1 = *buffer;
    proof {
        lemma_push_one(b0, b1, header_view);
    }
    let out_text = decode_lossy(&stdout);
    let out_lines = lines_of(&chars_of(out_text.as_str()));
    let empty: Vec<char> = Vec::new();
    push_each(buffer, &out_lines, &empty);
    let ghost b2 = *buffer;
    let ghost outs = text_lines(lossy_utf8(stdout@));
    assert(prefixed(empty@, outs) =~= outs) by {
        assert forall|q: int| 0 <= q < outs.len() implies empty@ + outs[q] == outs[q] by {
            assert(empty@ + outs[q] =~= outs[q]);
        }
    }
    let ghost mut errs: Seq<Seq<char>> = Seq::empty();
    if stderr.len() > 0 {
        let ghost c0 = *buffer;
        buffer.push_line(String::from_str("--- STDERR ---"));
        let ghost c1 = *buffer;
        proof {
            lemma_push_one(c0, c1, "--- STDERR ---"@);
        }
        let err_text = decode_lossy(&stderr);
        let err_lines = lines_of(&chars_of(err_text.as_str()));
        let marker = chars_of("ERROR: ");
        push_each(buffer, &err_lines, &marker);
        proof {
            errs = seq!["--- STDERR ---"@] + prefixed("ERROR: "@, text_lines(lossy_utf8(stderr@)));
            lemma_pushed_compose(c0, c1, *buffer, seq!["--- STDERR ---"@], prefixed("ERROR: "@, text_lines(lossy_utf8(stderr@))));
        }
    } else {
        proof {
            assert(buffer_pushed(b2, *buffer, errs));
        }
    }
    let ghost b3 = *buffer;
    buffer.push_line(String::new());
    proof {
        lemma_push_one(b3, *buffer, Seq::<char>::empty());
        lemma_pushed_compose(b0, b1, b2, seq![header_view], outs);
        lemma_pushed_compose(b0, b2, b3, seq![header_view] + outs, errs);
        lemma_pushed_compose(b0, b3, *buffer, seq![header_view] + outs + errs, seq![Seq::<char>::empty()]);
        assert(command_output_lines(command_name@, lossy_utf8(stdout@), stderr@) =~= seq![header_view] + outs + errs
            + seq![Seq::<char>::empty()]);
    }
}

/// One `push_line` is a push of one line.
proof fn lemma_push_one(b0: OutputBuffer, b1: OutputBuffer, x: Seq<char>)
    requires
        b1.lines_spec() == keep_last(b0.lines_spec().push(x), b0.max_lines_spec()),
        b1.scroll_spec() == after_push_scroll(b0.scroll_spec()),
        b1.max_lines_spec() == b0.max_lines_spec(),
    ensures
        buffer_pushed(b0, b1, seq![x]),
{
    assert(seq![x].drop_last() =~= Seq::<Seq<char>>::empty());
    assert(seq![x].last() == x);
    assert(pushed_all(b0.lines_spec(), b0.max_lines_spec(), Seq::<Seq<char>>::empty()) == b0.lines_spec());
    assert(scroll_after(b0.scroll_spec(), 0) == b0.scroll_spec());
}

/// Pushing `a` and then `b` is pushing `a + b`.
proof fn lemma_pushed_compose(b0: OutputBuffer, b1: OutputBuffer, b2: OutputBuffer, a: Seq<Seq<char>>, b: Seq<Seq<char>>)
    requires
        buffer_pushed(b0, b1, a),
        buffer_pushed(b1, b2, b),
    ensures
        buffer_pushed(b0, b2, a + b),
{
    lemma_pushed_all_concat(b0.lines_spec(), b0.max_lines_spec(), a, b);
    lemma_scroll_after_add(b0.scroll_spec(), a.len() as int, b.len() as int);
}

/// Pushing `a` and then `b` is pushing `a + b`.
proof fn lemma_pushed_all_concat(lines: Seq<Seq<char>>, max: int, a: Seq<Seq<char>>, b: Seq<Seq<char>>)
    ensures
        pushed_all(pushed_all(lines, max, a), max, b) == pushed_all(lines, max, a + b),
    decreases b.len(),
{
    if b.len() == 0 {
        assert(a + b =~= a);
    } else {
        lemma_pushed_all_concat(lines, max, a, b.drop_last());
        assert((a + b).drop_last() =~= a + b.drop_last());
        assert((a + b).last() == b.last());
    }
}

/// `n` pushes and then `m` more are `n + m` pushes.
proof fn lemma_scroll_after_add(scroll: int, n: int, m: int)
    requires
        n >= 0,
        m >= 0,
    ensures
        scroll_after(scroll_after(scroll, n), m) == scroll_after(scroll, n + m),
    decreases m,
{
    if m > 0 {
        lemma_scroll_after_add(scroll, n, m - 1);
    }
}

} // verus!
