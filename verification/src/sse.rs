//! Framing of the hub's server-sent shade events.
//!
//! The event stream is text; events are separated by a blank line
//! (`\r\n\r\n`, or else `\n\n`), and within an event only `data:` lines
//! carry a payload, which is JSON.
use vstd::prelude::*;
use crate::text::{
    chars_of, string_from_chars, slice_chars, trim_chars, trim_end_cr_len, starts_with, trim_spec,
    trim_end_cr_spec,
};

verus! {

// ── Finding a pattern ────────────────────────────────────────────────────────

/// `pat` occurs in `s` at `i`.
pub open spec fn occurs_at(s: Seq<char>, pat: Seq<char>, i: int) -> bool {
    0 <= i && i + pat.len() <= s.len() && s.subrange(i, i + pat.len()) == pat
}

/// `i` is where `pat` first occurs in `s`.
pub open spec fn is_first_occurrence(s: Seq<char>, pat: Seq<char>, i: int) -> bool {
    occurs_at(s, pat, i) && forall|j: int| 0 <= j < i ==> !occurs_at(s, pat, j)
}

/// The index of the first occurrence of `pat` in `s`, as `str::find` gives it.
pub open spec fn first_occurrence(s: Seq<char>, pat: Seq<char>) -> Option<int> {
    if exists|i: int| is_first_occurrence(s, pat, i) {
        Some(choose|i: int| is_first_occurrence(s, pat, i))
    } else {
        None
    }
}

proof fn lemma_first_occurrence_unique(s: Seq<char>, pat: Seq<char>, i: int)
    requires
        is_first_occurrence(s, pat, i),
    ensures
        first_occurrence(s, pat) == Some(i),
{
    let c = choose|k: int| is_first_occurrence(s, pat, k);
    lemma_first_unique(s, pat, c, i);
}

fn matches_at(s: &[char], pat: &[char], i: usize) -> (r: bool)
    requires
        i + pat@.len() <= s@.len(),
    ensures
        r == occurs_at(s@, pat@, i as int),
{
    let n = s.len();
    let mut k: usize = 0;
    while k < pat.len()
        invariant
            n == s@.len(),
            i + pat@.len() <= s@.len(),
            k <= pat@.len(),
            forall|m: int| 0 <= m < k ==> s@[i + m] == pat@[m],
        decreases pat.len() - k,
    {
        if s[i + k] != pat[k] {
            assert(s@.subrange(i as int, i + pat@.len())[k as int] != pat@[k as int]);
            return false;
        }
        k = k + 1;
    }
    assert(s@.subrange(i as int, i + pat@.len()) =~= pat@);
    true
}

/// Finds the first occurrence of `pat` in `s`.
pub fn find(s: &[char], pat: &[char]) -> (r: Option<usize>)
    requires
        pat@.len() > 0,
    ensures
        match r {
            Some(i) => first_occurrence(s@, pat@) == Some(i as int),
            None => first_occurrence(s@, pat@) is None,
        },
{
    if pat.len() > s.len() {
        assert forall|i: int| !is_first_occurrence(s@, pat@, i) by {}
        return None;
    }
    let n = s.len();
    let last = n - pat.len();
    let mut i: usize = 0;
    while i <= last
        invariant
            n == s@.len(),
            last == s@.len() - pat@.len(),
            pat@.len() <= s@.len(),
            pat@.len() > 0,
            i <= last + 1,
            forall|j: int| 0 <= j < i ==> !occurs_at(s@, pat@, j),
        decreases last + 1 - i,
    {
        if matches_at(s, pat, i) {
            proof {
                lemma_first_occurrence_unique(s@, pat@, i as int);
            }
            return Some(i);
        }
        i = i + 1;
    }
    assert forall|j: int| !is_first_occurrence(s@, pat@, j) by {
        if 0 <= j <= last {
            assert(!occurs_at(s@, pat@, j));
        }
    }
    None
}

// ── Events and their payloads ────────────────────────────────────────────────

/// A blank line after a CRLF line ending.
pub open spec fn crlf_crlf() -> Seq<char> {
    seq!['\r', '\n', '\r', '\n']
}

/// A blank line after an LF line ending.
pub open spec fn lf_lf() -> Seq<char> {
    seq!['\n', '\n']
}

/// The field name of a payload line.
pub open spec fn data_prefix() -> Seq<char> {
    seq!['d', 'a', 't', 'a', ':']
}

/// Where the first complete event ends: the position of the first blank-line
/// delimiter and its length. A `\r\n\r\n` anywhere is preferred over `\n\n`.
pub open spec fn event_boundary(buf: Seq<char>) -> Option<(int, int)> {
    match first_occurrence(buf, crlf_crlf()) {
        Some(p) => Some((p, 4)),
        None => match first_occurrence(buf, lf_lf()) {
            Some(p) => Some((p, 2)),
            None => None,
        },
    }
}

/// The payload of one line: trailing `\r`s removed, then, on a `data:` line,
/// the rest of the line with surrounding whitespace trimmed.
pub open spec fn line_payload(line: Seq<char>) -> Seq<Seq<char>> {
    let l = trim_end_cr_spec(line);
    if l.len() >= 5 && l.take(5) == data_prefix() {
        seq![trim_spec(l.skip(5))]
    } else {
        Seq::empty()
    }
}

/// The payloads of the `data:` lines of one event, in order.
pub open spec fn event_payloads(text: Seq<char>) -> Seq<Seq<char>>
    decreases text.len(),
{
    if exists|i: int| is_first_occurrence(text, seq!['\n'], i) {
        let i = choose|i: int| is_first_occurrence(text, seq!['\n'], i);
        line_payload(text.take(i)) + event_payloads(text.skip(i + 1))
    } else {
        line_payload(text)
    }
}

/// Takes every complete event out of `buf`: the payloads they carry, in
/// order, and the text that is left for later.
pub open spec fn drain_events(buf: Seq<char>) -> (Seq<Seq<char>>, Seq<char>)
    decreases buf.len(),
{
    if exists|i: int| is_first_occurrence(buf, crlf_crlf(), i) {
        let p = choose|i: int| is_first_occurrence(buf, crlf_crlf(), i);
        let rest = drain_events(buf.skip(p + 4));
        (event_payloads(buf.take(p)) + rest.0, rest.1)
    } else if exists|i: int| is_first_occurrence(buf, lf_lf(), i) {
        let p = choose|i: int| is_first_occurrence(buf, lf_lf(), i);
        let rest = drain_events(buf.skip(p + 2));
        (event_payloads(buf.take(p)) + rest.0, rest.1)
    } else {
        (Seq::empty(), buf)
    }
}

/// The decoder never holds a complete event: what it keeps back has no
/// blank line, and text without a blank line is kept back whole, with no
/// payload handed out.
pub proof fn law_drain_keeps_no_event(buf: Seq<char>)
    ensures
        event_boundary(drain_events(buf).1) is None,
        event_boundary(buf) is None ==> drain_events(buf) == (Seq::<Seq<char>>::empty(), buf),
    decreases buf.len(),
{
    if exists|i: int| is_first_occurrence(buf, crlf_crlf(), i) {
        let p = choose|i: int| is_first_occurrence(buf, crlf_crlf(), i);
        law_drain_keeps_no_event(buf.skip(p + 4));
    } else if exists|i: int| is_first_occurrence(buf, lf_lf(), i) {
        let p = choose|i: int| is_first_occurrence(buf, lf_lf(), i);
        law_drain_keeps_no_event(buf.skip(p + 2));
    }
}

// ── Facts about first occurrences ────────────────────────────────────────────

proof fn lemma_first_unique(s: Seq<char>, pat: Seq<char>, i: int, j: int)
    requires
        is_first_occurrence(s, pat, i),
        is_first_occurrence(s, pat, j),
    ensures
        i == j,
{
    if i < j {
        assert(!occurs_at(s, pat, i));
    }
    if j < i {
        assert(!occurs_at(s, pat, j));
    }
}

/// Where a pattern occurs, it has a first occurrence.
proof fn lemma_some_first(s: Seq<char>, pat: Seq<char>, i: int)
    requires
        occurs_at(s, pat, i),
    ensures
        exists|k: int| is_first_occurrence(s, pat, k),
    decreases i,
{
    if exists|j: int| 0 <= j < i && occurs_at(s, pat, j) {
        let j = choose|j: int| 0 <= j < i && occurs_at(s, pat, j);
        lemma_some_first(s, pat, j);
    } else {
        assert(is_first_occurrence(s, pat, i));
    }
}

proof fn lemma_occurs_chars(s: Seq<char>, pat: Seq<char>, i: int, k: int)
    requires
        occurs_at(s, pat, i),
        0 <= k < pat.len(),
    ensures
        s[i + k] == pat[k],
{
    assert(s.subrange(i, i + pat.len())[k] == s[i + k]);
}

/// An occurrence within `a` is one in `a + b` too.
proof fn lemma_occurs_in_prefix(a: Seq<char>, b: Seq<char>, pat: Seq<char>, i: int)
    requires
        0 <= i,
        i + pat.len() <= a.len(),
    ensures
        occurs_at(a + b, pat, i) == occurs_at(a, pat, i),
{
    assert((a + b).subrange(i, i + pat.len()) =~= a.subrange(i, i + pat.len()));
}

/// The first occurrence in `a` is the first in `a + b`.
proof fn lemma_first_in_prefix(a: Seq<char>, b: Seq<char>, pat: Seq<char>, p: int)
    requires
        is_first_occurrence(a, pat, p),
    ensures
        is_first_occurrence(a + b, pat, p),
{
    lemma_occurs_in_prefix(a, b, pat, p);
    assert forall|j: int| 0 <= j < p implies !occurs_at(a + b, pat, j) by {
        lemma_occurs_in_prefix(a, b, pat, j);
    }
}

/// Occurrences in a suffix are those further on in the whole.
proof fn lemma_occurs_in_suffix(s: Seq<char>, pat: Seq<char>, k: int, i: int)
    requires
        0 <= k <= s.len(),
        0 <= i,
    ensures
        occurs_at(s.skip(k), pat, i) == occurs_at(s, pat, i + k),
{
    if i + pat.len() <= s.len() - k {
        assert(s.skip(k).subrange(i, i + pat.len()) =~= s.subrange(i + k, i + k + pat.len()));
    }
}

/// A pattern with no first occurrence does not occur at all.
proof fn lemma_no_first(s: Seq<char>, pat: Seq<char>, i: int)
    requires
        !exists|k: int| is_first_occurrence(s, pat, k),
    ensures
        !occurs_at(s, pat, i),
{
    if occurs_at(s, pat, i) {
        lemma_some_first(s, pat, i);
    }
}

// ── Payloads of a text that is cut at a line break ───────────────────────────

proof fn lemma_payloads_empty()
    ensures
        event_payloads(Seq::<char>::empty()) == Seq::<Seq<char>>::empty(),
{
    let e = Seq::<char>::empty();
    assert forall|i: int| !is_first_occurrence(e, seq!['\n'], i) by {}
    assert(trim_end_cr_spec(e) == e);
}

/// The payloads of two pieces of text joined by a line break are those of
/// each piece.
proof fn lemma_payloads_split(u: Seq<char>, w: Seq<char>)
    ensures
        event_payloads(u + seq!['\n'] + w) == event_payloads(u) + event_payloads(w),
    decreases u.len(),
{
    let nl = seq!['\n'];
    let s = u + nl + w;
    assert(s =~= u + (nl + w));
    if exists|i: int| is_first_occurrence(u, nl, i) {
        let i = choose|i: int| is_first_occurrence(u, nl, i);
        lemma_first_in_prefix(u, nl + w, nl, i);
        let c = choose|k: int| is_first_occurrence(s, nl, k);
        lemma_first_unique(s, nl, c, i);
        assert(s.take(i) =~= u.take(i));
        assert(s.skip(i + 1) =~= u.skip(i + 1) + nl + w);
        lemma_payloads_split(u.skip(i + 1), w);
        assert(event_payloads(s) == line_payload(u.take(i)) + event_payloads(s.skip(i + 1)));
        assert(event_payloads(u) == line_payload(u.take(i)) + event_payloads(u.skip(i + 1)));
    } else {
        let n = u.len() as int;
        assert(s.subrange(n, n + 1) =~= nl);
        assert forall|j: int| 0 <= j < n implies !occurs_at(s, nl, j) by {
            lemma_no_first(u, nl, j);
            lemma_occurs_in_prefix(u, nl + w, nl, j);
        }
        assert(is_first_occurrence(s, nl, n));
        let c = choose|k: int| is_first_occurrence(s, nl, k);
        lemma_first_unique(s, nl, c, n);
        assert(s.take(n) =~= u);
        assert(s.skip(n + 1) =~= w);
    }
}

proof fn lemma_drain_at_crlf(buf: Seq<char>, p: int)
    requires
        is_first_occurrence(buf, crlf_crlf(), p),
    ensures
        drain_events(buf) == (
            event_payloads(buf.take(p)) + drain_events(buf.skip(p + 4)).0,
            drain_events(buf.skip(p + 4)).1,
        ),
{
    let c = choose|i: int| is_first_occurrence(buf, crlf_crlf(), i);
    lemma_first_unique(buf, crlf_crlf(), c, p);
}

proof fn lemma_drain_at_lf(buf: Seq<char>, p: int)
    requires
        !exists|i: int| is_first_occurrence(buf, crlf_crlf(), i),
        is_first_occurrence(buf, lf_lf(), p),
    ensures
        drain_events(buf) == (
            event_payloads(buf.take(p)) + drain_events(buf.skip(p + 2)).0,
            drain_events(buf.skip(p + 2)).1,
        ),
{
    let c = choose|i: int| is_first_occurrence(buf, lf_lf(), i);
    lemma_first_unique(buf, lf_lf(), c, p);
}

/// What `law_drain_in_pieces` says of `a` and `b`.
pub open spec fn drains_in_pieces(a: Seq<char>, b: Seq<char>) -> bool {
    let first = drain_events(a);
    let second = drain_events(first.1 + b);
    drain_events(a + b) == (first.0 + second.0, second.1)
}

proof fn lemma_pieces_after_crlf(a: Seq<char>, b: Seq<char>, p: int)
    requires
        is_first_occurrence(a, crlf_crlf(), p),
        drains_in_pieces(a.skip(p + 4), b),
    ensures
        drains_in_pieces(a, b),
{
    let ab = a + b;
    let rest = a.skip(p + 4);
    lemma_first_in_prefix(a, b, crlf_crlf(), p);
    lemma_drain_at_crlf(a, p);
    lemma_drain_at_crlf(ab, p);
    assert(ab.take(p) =~= a.take(p));
    assert(ab.skip(p + 4) =~= rest + b);
    let first = drain_events(a);
    let second = drain_events(first.1 + b);
    assert(drain_events(ab).0 =~= first.0 + second.0);
}

proof fn lemma_pieces_after_lf_only(a: Seq<char>, b: Seq<char>, p: int)
    requires
        !exists|i: int| is_first_occurrence(a, crlf_crlf(), i),
        !exists|i: int| is_first_occurrence(a + b, crlf_crlf(), i),
        is_first_occurrence(a, lf_lf(), p),
        drains_in_pieces(a.skip(p + 2), b),
    ensures
        drains_in_pieces(a, b),
{
    let ab = a + b;
    let rest = a.skip(p + 2);
    lemma_first_in_prefix(a, b, lf_lf(), p);
    lemma_drain_at_lf(a, p);
    lemma_drain_at_lf(ab, p);
    assert(ab.take(p) =~= a.take(p));
    assert(ab.skip(p + 2) =~= rest + b);
    let first = drain_events(a);
    let second = drain_events(first.1 + b);
    assert(drain_events(ab).0 =~= first.0 + second.0);
}

/// A first `\r\n\r\n` of `a + b` that is not within `a` starts after the
/// first `\n\n` of `a`.
proof fn lemma_crlf_after_lf(a: Seq<char>, b: Seq<char>, p: int, q: int)
    requires
        !exists|i: int| is_first_occurrence(a, crlf_crlf(), i),
        is_first_occurrence(a, lf_lf(), p),
        is_first_occurrence(a + b, crlf_crlf(), q),
    ensures
        q >= p + 2,
{
    let ab = a + b;
    if q + 4 <= a.len() {
        lemma_occurs_in_prefix(a, b, crlf_crlf(), q);
        lemma_no_first(a, crlf_crlf(), q);
    }
    lemma_occurs_in_prefix(a, b, lf_lf(), p);
    lemma_occurs_chars(ab, lf_lf(), p, 0);
    lemma_occurs_chars(ab, lf_lf(), p, 1);
    lemma_occurs_chars(ab, crlf_crlf(), q, 0);
    lemma_occurs_chars(ab, crlf_crlf(), q, 1);
    lemma_occurs_chars(ab, crlf_crlf(), q, 2);
    lemma_occurs_chars(ab, crlf_crlf(), q, 3);
}

proof fn lemma_first_crlf_of_tail(a: Seq<char>, b: Seq<char>, p: int, q: int)
    requires
        !exists|i: int| is_first_occurrence(a, crlf_crlf(), i),
        is_first_occurrence(a, lf_lf(), p),
        is_first_occurrence(a + b, crlf_crlf(), q),
    ensures
        q >= p + 2,
        (a + b).skip(p + 2) == a.skip(p + 2) + b,
        is_first_occurrence(a.skip(p + 2) + b, crlf_crlf(), q - (p + 2)),
        (a + b).skip(q + 4) == (a.skip(p + 2) + b).skip(q - (p + 2) + 4),
        (a + b).take(q) == a.take(p) + lf_lf() + (a.skip(p + 2) + b).take(q - (p + 2)),
{
    let ab = a + b;
    let crlf = crlf_crlf();
    let tail = a.skip(p + 2) + b;
    lemma_crlf_after_lf(a, b, p, q);
    assert(ab.skip(p + 2) =~= tail);
    let q2 = q - (p + 2);
    lemma_occurs_in_suffix(ab, crlf, p + 2, q2);
    assert forall|j: int| 0 <= j < q2 implies !occurs_at(tail, crlf, j) by {
        lemma_occurs_in_suffix(ab, crlf, p + 2, j);
    }
    assert(tail.skip(q2 + 4) =~= ab.skip(q + 4));
    lemma_occurs_in_prefix(a, b, lf_lf(), p);
    lemma_occurs_chars(ab, lf_lf(), p, 0);
    lemma_occurs_chars(ab, lf_lf(), p, 1);
    assert(ab.take(q) =~= a.take(p) + lf_lf() + tail.take(q2));
}

/// A blank line between two texts carries no payload.
proof fn lemma_payloads_around_blank_line(u: Seq<char>, t: Seq<char>)
    ensures
        event_payloads(u + lf_lf() + t) == event_payloads(u) + event_payloads(t),
{
    assert(u + lf_lf() + t =~= u + seq!['\n'] + (seq!['\n'] + t));
    lemma_payloads_split(u, seq!['\n'] + t);
    assert(seq!['\n'] + t =~= Seq::<char>::empty() + seq!['\n'] + t);
    lemma_payloads_split(Seq::<char>::empty(), t);
    lemma_payloads_empty();
    assert(event_payloads(seq!['\n'] + t) =~= event_payloads(t));
}

proof fn lemma_pieces_lf_then_crlf(a: Seq<char>, b: Seq<char>, p: int, q: int)
    requires
        !exists|i: int| is_first_occurrence(a, crlf_crlf(), i),
        is_first_occurrence(a, lf_lf(), p),
        is_first_occurrence(a + b, crlf_crlf(), q),
        drains_in_pieces(a.skip(p + 2), b),
    ensures
        drains_in_pieces(a, b),
{
    let ab = a + b;
    let rest = a.skip(p + 2);
    let tail = rest + b;
    let q2 = q - (p + 2);
    lemma_first_crlf_of_tail(a, b, p, q);
    let t = tail.take(q2);
    lemma_payloads_around_blank_line(a.take(p), t);
    lemma_drain_at_lf(a, p);
    lemma_drain_at_crlf(ab, q);
    lemma_drain_at_crlf(tail, q2);
    let first = drain_events(a);
    let second = drain_events(first.1 + b);
    let x = drain_events(ab.skip(q + 4));
    assert(event_payloads(t) + x.0 == drain_events(rest).0 + second.0);
    assert(drain_events(ab).0 =~= event_payloads(a.take(p)) + (event_payloads(t) + x.0));
    assert(drain_events(ab).0 =~= first.0 + second.0);
}

/// The decoder hands out the same payloads, and keeps back the same text,
/// however the stream is cut into pieces: draining `a` and then what it kept
/// back followed by `b` gives what draining `a + b` at once gives.
pub proof fn law_drain_in_pieces(a: Seq<char>, b: Seq<char>)
    ensures
        drains_in_pieces(a, b),
    decreases a.len(),
{
    if exists|i: int| is_first_occurrence(a, crlf_crlf(), i) {
        let p = choose|i: int| is_first_occurrence(a, crlf_crlf(), i);
        law_drain_in_pieces(a.skip(p + 4), b);
        lemma_pieces_after_crlf(a, b, p);
    } else if exists|i: int| is_first_occurrence(a, lf_lf(), i) {
        let p = choose|i: int| is_first_occurrence(a, lf_lf(), i);
        law_drain_in_pieces(a.skip(p + 2), b);
        if exists|i: int| is_first_occurrence(a + b, crlf_crlf(), i) {
            let q = choose|i: int| is_first_occurrence(a + b, crlf_crlf(), i);
            lemma_pieces_lf_then_crlf(a, b, p, q);
        } else {
            lemma_pieces_after_lf_only(a, b, p);
        }
    } else {
        assert(drain_events(a) == (Seq::<Seq<char>>::empty(), a));
        assert(Seq::<Seq<char>>::empty() + drain_events(a + b).0 =~= drain_events(a + b).0);
    }
}

fn line_payload_exec(line: &[char], out: &mut Vec<String>)
    ensures
        final(out).deep_view() == old(out).deep_view() + line_payload(line@),
{
    let n = trim_end_cr_len(line);
    let l = &line[0..n];
    assert(l@ == trim_end_cr_spec(line@));
    let prefix = ['d', 'a', 't', 'a', ':'];
    assert(prefix@ == data_prefix());
    if starts_with(l, &prefix) {
        let rest = &l[5..n];
        assert(rest@ == l@.skip(5));
        let trimmed = trim_chars(rest);
        out.push(string_from_chars(&trimmed));
        assert(final(out).deep_view() =~= old(out).deep_view() + line_payload(line@));
    } else {
        assert(line_payload(line@) =~= Seq::empty());
        assert(out.deep_view() =~= old(out).deep_view() + line_payload(line@));
    }
}

/// The payloads of the `data:` lines of one event.
pub fn event_payloads_exec(text: &[char]) -> (r: Vec<String>)
    ensures
        r.deep_view() == event_payloads(text@),
{
    let mut out: Vec<String> = Vec::new();
    let mut start: usize = 0;
    let newline = ['\n'];
    assert(newline@ == seq!['\n']);
    assert(text@.skip(0) =~= text@);
    loop
        invariant_except_break
            start <= text@.len(),
            newline@ == seq!['\n'],
            out.deep_view() + event_payloads(text@.skip(start as int)) == event_payloads(text@),
        ensures
            out.deep_view() == event_payloads(text@),
        decreases text@.len() - start,
    {
        let rest = &text[start..text.len()];
        assert(rest@ == text@.skip(start as int));
        match find(rest, &newline) {
            Some(i) => {
                let ghost c = choose|k: int| is_first_occurrence(rest@, seq!['\n'], k);
                assert(is_first_occurrence(rest@, seq!['\n'], c));
                assert(c == i);
                line_payload_exec(&rest[0..i], &mut out);
                assert(rest@.subrange(0, i as int) == rest@.take(i as int));
                assert(rest@.skip(i + 1) =~= text@.skip(start + i + 1));
                start = start + i + 1;
            },
            None => {
                assert(!exists|k: int| is_first_occurrence(rest@, seq!['\n'], k));
                let ghost before = out.deep_view();
                line_payload_exec(rest, &mut out);
                assert(event_payloads(rest@) == line_payload(rest@));
                assert(out.deep_view() =~= before + event_payloads(rest@));
                break;
            },
        }
    }
    out
}

// ── The decoder ──────────────────────────────────────────────────────────────

/// Rust's `String::from_utf8_lossy`: invalid sequences become U+FFFD.
pub uninterp spec fn utf8_lossy(bytes: Seq<u8>) -> Seq<char>;

/// Every byte is ASCII (below 0x80).
pub open spec fn is_ascii_bytes(bytes: Seq<u8>) -> bool {
    forall|i: int| 0 <= i < bytes.len() ==> bytes[i] < 0x80
}

/// ASCII bytes as the characters with the same codes.
pub open spec fn ascii_text(bytes: Seq<u8>) -> Seq<char> {
    bytes.map_values(|b: u8| b as char)
}

/// Trusted: std's `String::from_utf8_lossy`, which decodes the bytes as
/// UTF-8 and replaces each invalid sequence by U+FFFD. Its result is a
/// function of the bytes; of its value only this is claimed: bytes that are
/// all ASCII are valid UTF-8 and come back as the characters with the same
/// codes, as std documents that valid UTF-8 comes back unchanged.
#[verifier::external_body]
fn decode_utf8_lossy(bytes: &[u8]) -> (r: String)
    ensures
        r@ == utf8_lossy(bytes@),
        is_ascii_bytes(bytes@) ==> r@ == ascii_text(bytes@),
{
    String::from_utf8_lossy(bytes).into_owned()
}

/// Splitting an ASCII byte stream anywhere makes no difference to the
/// decoder: feeding `a` and then `b` hands out, across both pushes, the
/// payloads that feeding `a + b` at once hands out, and keeps back the same
/// text. (Splitting inside a multi-byte UTF-8 character is not covered: each
/// half decodes to U+FFFD.)
pub proof fn law_drain_bytes_in_pieces(pending: Seq<char>, a: Seq<u8>, b: Seq<u8>)
    requires
        is_ascii_bytes(a),
        is_ascii_bytes(b),
    ensures
        is_ascii_bytes(a + b),
        ({
            let first = drain_events(pending + ascii_text(a));
            let second = drain_events(first.1 + ascii_text(b));
            drain_events(pending + ascii_text(a + b)) == (first.0 + second.0, second.1)
        }),
{
    assert(ascii_text(a + b) =~= ascii_text(a) + ascii_text(b));
    assert(pending + ascii_text(a + b) =~= (pending + ascii_text(a)) + ascii_text(b));
    law_drain_in_pieces(pending + ascii_text(a), ascii_text(b));
}

/// Accumulates the text of the event stream and hands out the payloads of
/// complete events.
pub struct SseDecoder {
    buffer: Vec<char>,
}

impl SseDecoder {
    /// The text received that does not yet form a complete event.
    pub closed spec fn pending(&self) -> Seq<char> {
        self.buffer@
    }

    /// A decoder that holds no text yet.
    pub fn new() -> (r: SseDecoder)
        ensures
            r.pending() == Seq::<char>::empty(),
    {
        SseDecoder { buffer: Vec::new() }
    }

    /// Appends received text and returns the payloads of the events it completes.
    pub fn push_text(&mut self, text: &str) -> (payloads: Vec<String>)
        ensures
            (payloads.deep_view(), final(self).pending()) == drain_events(
                old(self).pending() + text@,
            ),
    {
        let incoming = chars_of(text);
        let mut k: usize = 0;
        while k < incoming.len()
            invariant
                k <= incoming@.len(),
                incoming@ == text@,
                self.buffer@ == old(self).buffer@ + incoming@.take(k as int),
            decreases incoming.len() - k,
        {
            self.buffer.push(incoming[k]);
            k = k + 1;
            assert(self.buffer@ =~= old(self).buffer@ + incoming@.take(k as int));
        }
        assert(incoming@.take(incoming@.len() as int) =~= incoming@);
        let ghost total = self.buffer@;
        let crlf2 = ['\r', '\n', '\r', '\n'];
        let lf2 = ['\n', '\n'];
        assert(crlf2@ == crlf_crlf());
        assert(lf2@ == lf_lf());
        let mut out: Vec<String> = Vec::new();
        loop
            invariant
                crlf2@ == crlf_crlf(),
                lf2@ == lf_lf(),
                (out.deep_view() + drain_events(self.buffer@).0, drain_events(self.buffer@).1)
                    == drain_events(total),
            ensures
                (out.deep_view(), self.buffer@) == drain_events(total),
            decreases self.buffer@.len(),
        {
            let found = match find(&self.buffer, &crlf2) {
                Some(p) => Some((p, 4usize)),
                None => match find(&self.buffer, &lf2) {
                    Some(p) => Some((p, 2usize)),
                    None => None,
                },
            };
            match found {
                Some((p, d)) => {
                    let ghost buf = self.buffer@;
                    proof {
                        if d == 4 {
                            assert(first_occurrence(buf, crlf_crlf()) == Some(p as int));
                            assert(is_first_occurrence(buf, crlf_crlf(), p as int));
                        } else {
                            assert(first_occurrence(buf, crlf_crlf()) is None);
                            assert(!exists|i: int| is_first_occurrence(buf, crlf_crlf(), i));
                            assert(first_occurrence(buf, lf_lf()) == Some(p as int));
                            assert(is_first_occurrence(buf, lf_lf(), p as int));
                        }
                    }
                    let mut event = event_payloads_exec(&self.buffer[0..p]);
                    assert(buf.subrange(0, p as int) == buf.take(p as int));
                    let n = self.buffer.len();
                    let rest = slice_chars(&self.buffer, p + d, n);
                    assert(rest@ == buf.skip(p + d));
                    let ghost before = out.deep_view();
                    out.append(&mut event);
                    self.buffer = rest;
                    assert(out.deep_view() =~= before + event_payloads(buf.take(p as int)));
                    assert((out.deep_view() + drain_events(self.buffer@).0, drain_events(
                        self.buffer@,
                    ).1) =~= (before + drain_events(buf).0, drain_events(buf).1));
                },
                None => {
                    let ghost buf = self.buffer@;
                    assert(!exists|i: int| is_first_occurrence(buf, crlf_crlf(), i));
                    assert(!exists|i: int| is_first_occurrence(buf, lf_lf(), i));
                    assert(drain_events(buf) == (Seq::<Seq<char>>::empty(), buf));
                    assert(out.deep_view() =~= out.deep_view() + drain_events(buf).0);
                    break;
                },
            }
        }
        out
    }

    /// Appends received bytes (decoded as lossy UTF-8) and returns the
    /// payloads of the events they complete.
    pub fn push_bytes(&mut self, bytes: &[u8]) -> (payloads: Vec<String>)
        ensures
            (payloads.deep_view(), final(self).pending()) == drain_events(
                old(self).pending() + utf8_lossy(bytes@),
            ),
            is_ascii_bytes(bytes@) ==> (payloads.deep_view(), final(self).pending())
                == drain_events(old(self).pending() + ascii_text(bytes@)),
    {
        let text = decode_utf8_lossy(bytes);
        self.push_text(text.as_str())
    }
}

} // verus!
