//! Server-Sent Events framing: the body bytes received so far are cut into event blocks
//! at blank lines, each complete block is decoded on its own, and the `data:` payload of
//! each block is handed to a provider parser. What is handed out depends only on the
//! bytes of the body, not on how the network split them.
use vstd::prelude::*;

use crate::error::{Error, ErrorModel};
use crate::seqs::{filter_map, lemma_filter_map_push};
use crate::text::{chars_of, push_char, push_chars, utf8_lossy, utf8_lossy_text};

verus! {

/// What a provider parser decides for one `data:` payload.
pub enum SseAction<T> {
    /// Hand an item (or an error) to the consumer.
    Yield(Result<T, Error>),
    /// The stream is complete.
    Done,
    /// Nothing to hand out for this payload.
    Skip,
}

/// The model of [`SseAction`], with text as `Seq<char>` and lists as `Seq`.
pub enum SseActionModel<V> {
    Yield(Result<V, ErrorModel>),
    Done,
    Skip,
}

impl<T: DeepView> DeepView for SseAction<T> {
    type V = SseActionModel<T::V>;

    open spec fn deep_view(&self) -> SseActionModel<T::V> {
        match self {
            SseAction::Yield(Ok(t)) => SseActionModel::Yield(Ok(t.deep_view())),
            SseAction::Yield(Err(e)) => SseActionModel::Yield(Err(e.deep_view())),
            SseAction::Done => SseActionModel::Done,
            SseAction::Skip => SseActionModel::Skip,
        }
    }
}

// ---------------------------------------------------------------------------
// Specification: framing of the body bytes
// ---------------------------------------------------------------------------

/// Carriage return and line feed.
pub open spec fn cr() -> u8 {
    13u8
}

pub open spec fn lf() -> u8 {
    10u8
}

/// `s` with every "\r\n" replaced by "\n", scanning from the left.
pub open spec fn crlf_to_lf(s: Seq<u8>) -> Seq<u8>
    decreases s.len(),
{
    if s.len() == 0 {
        s
    } else if s.len() >= 2 && s[0] == cr() && s[1] == lf() {
        seq![lf()] + crlf_to_lf(s.skip(2))
    } else {
        seq![s[0]] + crlf_to_lf(s.skip(1))
    }
}

/// Whether a blank line ("\n\n") starts at `i`.
pub open spec fn blank_at(s: Seq<u8>, i: int) -> bool {
    0 <= i && i + 1 < s.len() && s[i] == lf() && s[i + 1] == lf()
}

/// The first position at or after `i` where a blank line starts.
pub open spec fn find_blank(s: Seq<u8>, i: int) -> Option<int>
    decreases s.len() - i,
{
    if i < 0 || i + 1 >= s.len() {
        None
    } else if blank_at(s, i) {
        Some(i)
    } else {
        find_blank(s, i + 1)
    }
}

/// The payload of one complete block of bytes, decoded on its own: none or one.
pub open spec fn block_payload(block: Seq<u8>) -> Seq<Seq<char>> {
    match block_data(utf8_lossy_text(block)) {
        Some(d) => seq![d],
        None => Seq::empty(),
    }
}

/// The payloads of the complete blocks of `t`, in order; a block is complete when a
/// blank line ends it, so an unterminated tail gives nothing.
pub open spec fn block_payloads(t: Seq<u8>) -> Seq<Seq<char>>
    decreases t.len(),
{
    match find_blank(t, 0) {
        None => Seq::empty(),
        Some(k) => if 0 <= k && k + 2 <= t.len() {
            block_payload(t.take(k)) + block_payloads(t.skip(k + 2))
        } else {
            Seq::empty()
        },
    }
}

/// The payloads of a body: its line ends normalized, then its complete blocks.
pub open spec fn body_payloads(body: Seq<u8>) -> Seq<Seq<char>> {
    block_payloads(crlf_to_lf(body))
}

/// Whether `r` ends with a carriage return, which the next byte may pair with.
pub open spec fn held_cr(r: Seq<u8>) -> bool {
    r.len() > 0 && r.last() == cr()
}

/// A final carriage return of `r`, if any.
pub open spec fn carry(r: Seq<u8>) -> Seq<u8> {
    if held_cr(r) {
        seq![cr()]
    } else {
        Seq::empty()
    }
}

/// The normalized form of `r` without a final carriage return: what more bytes cannot
/// change.
pub open spec fn settled(r: Seq<u8>) -> Seq<u8> {
    if held_cr(r) {
        crlf_to_lf(r.drop_last())
    } else {
        crlf_to_lf(r)
    }
}

// ---------------------------------------------------------------------------
// Specification: the payload of a decoded block
// ---------------------------------------------------------------------------

/// Index of the first '\n' in `s`, or its length when there is none.
pub open spec fn newline_index(s: Seq<char>) -> int
    decreases s.len(),
{
    if s.len() == 0 {
        0
    } else if s[0] == '\n' {
        0
    } else {
        1 + newline_index(s.drop_first())
    }
}

/// `l` without one trailing '\r'.
pub open spec fn strip_cr(l: Seq<char>) -> Seq<char> {
    if l.len() > 0 && l.last() == '\r' {
        l.drop_last()
    } else {
        l
    }
}

/// The lines of `s` as `str::lines` gives them: split at '\n', a '\r' before a '\n'
/// dropped, and no empty line after a final '\n'.
pub open spec fn lines(s: Seq<char>) -> Seq<Seq<char>>
    decreases s.len(),
{
    if s.len() == 0 {
        Seq::empty()
    } else {
        let i = newline_index(s);
        if 0 <= i < s.len() {
            seq![strip_cr(s.take(i))] + lines(s.skip(i + 1))
        } else {
            seq![s]
        }
    }
}

pub open spec fn data_prefix() -> Seq<char> {
    seq!['d', 'a', 't', 'a', ':']
}

/// The value of a `data:` line, without one leading space; `None` for other lines.
pub open spec fn line_data(l: Seq<char>) -> Option<Seq<char>> {
    if l.len() >= 5 && l.take(5) == data_prefix() {
        let rest = l.skip(5);
        if rest.len() > 0 && rest[0] == ' ' {
            Some(rest.skip(1))
        } else {
            Some(rest)
        }
    } else {
        None
    }
}

/// The `data:` values of a block, in order.
pub open spec fn data_values(block: Seq<char>) -> Seq<Seq<char>> {
    filter_map(lines(block), |l: Seq<char>| line_data(l))
}

/// `parts` joined with "\n" between them.
pub open spec fn join_lines(parts: Seq<Seq<char>>) -> Seq<char>
    decreases parts.len(),
{
    if parts.len() == 0 {
        Seq::empty()
    } else if parts.len() == 1 {
        parts[0]
    } else {
        join_lines(parts.drop_last()) + seq!['\n'] + parts.last()
    }
}

/// The payload of an event block: its `data:` values joined by "\n", or `None` when it
/// has none.
pub open spec fn block_data(block: Seq<char>) -> Option<Seq<char>> {
    if data_values(block).len() == 0 {
        None
    } else {
        Some(join_lines(data_values(block)))
    }
}

// ---------------------------------------------------------------------------
// Lemmas
// ---------------------------------------------------------------------------

proof fn lemma_find_blank(s: Seq<u8>, i: int)
    requires
        0 <= i,
    ensures
        match find_blank(s, i) {
            Some(k) => i <= k && blank_at(s, k) && forall|m: int| i <= m < k ==> !blank_at(s, m),
            None => forall|m: int| i <= m ==> !blank_at(s, m),
        },
    decreases s.len() - i,
{
    if i + 1 >= s.len() {
    } else if blank_at(s, i) {
    } else {
        lemma_find_blank(s, i + 1);
    }
}

proof fn lemma_find_blank_skip(s: Seq<u8>, i: int)
    requires
        0 <= i,
        forall|m: int| 0 <= m < i ==> !blank_at(s, m),
    ensures
        find_blank(s, 0) == find_blank(s, i),
    decreases i,
{
    if i > 0 {
        lemma_find_blank_skip(s, i - 1);
    }
}

/// The first blank line is at `k` when there is one at `k` and none before.
proof fn lemma_find_blank_at(s: Seq<u8>, k: int)
    requires
        blank_at(s, k),
        forall|m: int| 0 <= m < k ==> !blank_at(s, m),
    ensures
        find_blank(s, 0) == Some(k),
{
    lemma_find_blank_skip(s, k);
}

/// No blank line anywhere means none is found.
proof fn lemma_find_blank_none(s: Seq<u8>)
    requires
        forall|m: int| 0 <= m ==> !blank_at(s, m),
    ensures
        find_blank(s, 0) is None,
{
    lemma_find_blank(s, 0);
}

proof fn lemma_crlf_step(s: Seq<u8>, i: int)
    requires
        0 <= i < s.len(),
    ensures
        i + 1 < s.len() && s[i] == cr() && s[i + 1] == lf() ==> crlf_to_lf(s.skip(i)) == seq![lf()]
            + crlf_to_lf(s.skip(i + 2)),
        !(i + 1 < s.len() && s[i] == cr() && s[i + 1] == lf()) ==> crlf_to_lf(s.skip(i)) == seq![
            s[i],
        ] + crlf_to_lf(s.skip(i + 1)),
{
    if i + 1 < s.len() {
        assert(s.skip(i).skip(2) =~= s.skip(i + 2));
    }
    assert(s.skip(i).skip(1) =~= s.skip(i + 1));
}

/// Normalizing two pieces apart is normalizing them together, unless the cut falls
/// between a carriage return and a line feed.
proof fn lemma_crlf_concat(a: Seq<u8>, b: Seq<u8>)
    requires
        !(a.len() > 0 && a.last() == cr() && b.len() > 0 && b[0] == lf()),
    ensures
        crlf_to_lf(a + b) == crlf_to_lf(a) + crlf_to_lf(b),
    decreases a.len(),
{
    if a.len() == 0 {
        assert(a + b =~= b);
        assert(crlf_to_lf(a) + crlf_to_lf(b) =~= crlf_to_lf(b));
    } else if a.len() >= 2 && a[0] == cr() && a[1] == lf() {
        assert((a + b).skip(2) =~= a.skip(2) + b);
        lemma_crlf_concat(a.skip(2), b);
        assert(seq![lf()] + (crlf_to_lf(a.skip(2)) + crlf_to_lf(b)) =~= (seq![lf()] + crlf_to_lf(
            a.skip(2),
        )) + crlf_to_lf(b));
    } else if a.len() == 1 {
        assert((a + b).skip(1) =~= b);
        assert(a.skip(1) =~= Seq::<u8>::empty());
        assert(crlf_to_lf(a) =~= seq![a[0]]);
    } else {
        assert((a + b).skip(1) =~= a.skip(1) + b);
        lemma_crlf_concat(a.skip(1), b);
        assert(seq![a[0]] + (crlf_to_lf(a.skip(1)) + crlf_to_lf(b)) =~= (seq![a[0]] + crlf_to_lf(
            a.skip(1),
        )) + crlf_to_lf(b));
    }
}

/// More bytes after the first blank line do not move it.
proof fn lemma_find_blank_append(t: Seq<u8>, e: Seq<u8>)
    ensures
        find_blank(t, 0) matches Some(k) ==> find_blank(t + e, 0) == Some(k),
{
    lemma_find_blank(t, 0);
    if let Some(k) = find_blank(t, 0) {
        let s = t + e;
        assert forall|m: int| 0 <= m < k implies !blank_at(s, m) by {
            assert(!blank_at(t, m));
        }
        assert(blank_at(s, k));
        lemma_find_blank_at(s, k);
    }
}

/// The payloads of `t` are a prefix of those of `t` followed by anything.
proof fn lemma_block_payloads_append(t: Seq<u8>, e: Seq<u8>)
    ensures
        block_payloads(t).len() <= block_payloads(t + e).len(),
        block_payloads(t + e).take(block_payloads(t).len() as int) == block_payloads(t),
    decreases t.len(),
{
    lemma_find_blank(t, 0);
    lemma_find_blank_append(t, e);
    match find_blank(t, 0) {
        None => {
            assert(block_payloads(t + e).take(0) =~= Seq::<Seq<char>>::empty());
        },
        Some(k) => {
            let s = t + e;
            assert(s.take(k) =~= t.take(k));
            assert(s.skip(k + 2) =~= t.skip(k + 2) + e);
            lemma_block_payloads_append(t.skip(k + 2), e);
            let h = block_payload(t.take(k));
            let r1 = block_payloads(t.skip(k + 2));
            let r2 = block_payloads(t.skip(k + 2) + e);
            assert((h + r2).take((h + r1).len() as int) =~= h + r1);
        },
    }
}

/// A final carriage return adds no payload.
proof fn lemma_block_payloads_cr(t: Seq<u8>)
    ensures
        block_payloads(t.push(cr())) == block_payloads(t),
    decreases t.len(),
{
    let s = t.push(cr());
    lemma_find_blank(t, 0);
    match find_blank(t, 0) {
        None => {
            assert forall|m: int| 0 <= m implies !blank_at(s, m) by {
                if m + 1 < t.len() {
                    assert(!blank_at(t, m));
                }
            }
            lemma_find_blank_none(s);
        },
        Some(k) => {
            assert(s =~= t + seq![cr()]);
            lemma_find_blank_append(t, seq![cr()]);
            assert(s.take(k) =~= t.take(k));
            assert(s.skip(k + 2) =~= t.skip(k + 2).push(cr()));
            lemma_block_payloads_cr(t.skip(k + 2));
        },
    }
}

/// A block with no blank line in it and no line feed at its end, followed by a blank
/// line, is cut off whole, whatever follows.
proof fn lemma_block_payloads_cut(b: Seq<u8>, x: Seq<u8>)
    requires
        forall|m: int| 0 <= m ==> !blank_at(b, m),
        b.len() > 0 ==> b.last() != lf(),
    ensures
        block_payloads(b + seq![lf(), lf()] + x) == block_payload(b) + block_payloads(x),
{
    let s = b + seq![lf(), lf()] + x;
    let k = b.len() as int;
    assert forall|m: int| 0 <= m < k implies !blank_at(s, m) by {
        if m + 1 < k {
            assert(!blank_at(b, m));
        }
    }
    assert(blank_at(s, k));
    lemma_find_blank_at(s, k);
    assert(s.take(k) =~= b);
    assert(s.skip(k + 2) =~= x);
}

/// What is settled of a body grows by what is settled of the held carriage return
/// followed by the new bytes.
proof fn lemma_settled_append(r: Seq<u8>, e: Seq<u8>)
    ensures
        settled(r + e) == settled(r) + settled(carry(r) + e),
{
    let x = if held_cr(r) {
        r.drop_last()
    } else {
        r
    };
    let w = carry(r) + e;
    assert(r + e =~= x + w);
    if w.len() == 0 {
        assert(e =~= Seq::<u8>::empty());
        assert(r + e =~= r);
        assert(settled(w) =~= Seq::<u8>::empty());
        assert(settled(r) + settled(w) =~= settled(r));
    } else if held_cr(w) {
        assert((r + e).last() == w.last());
        assert((r + e).drop_last() =~= x + w.drop_last());
        if held_cr(r) {
            assert(w.drop_last().len() > 0 ==> w.drop_last()[0] == cr());
        }
        lemma_crlf_concat(x, w.drop_last());
    } else {
        assert((r + e).last() == w.last());
        if held_cr(r) {
            assert(w[0] == cr());
        }
        lemma_crlf_concat(x, w);
    }
}

/// The payloads of a body are those of its settled part.
proof fn lemma_body_payloads_settled(r: Seq<u8>)
    ensures
        body_payloads(r) == block_payloads(settled(r)),
{
    if held_cr(r) {
        let x = r.drop_last();
        assert(r =~= x + seq![cr()]);
        lemma_crlf_concat(x, seq![cr()]);
        assert(seq![cr()].skip(1) =~= Seq::<u8>::empty());
        assert(crlf_to_lf(Seq::<u8>::empty()) =~= Seq::<u8>::empty());
        assert(crlf_to_lf(seq![cr()].skip(1)) =~= Seq::<u8>::empty());
        assert(crlf_to_lf(seq![cr()]) =~= seq![cr()]);
        assert(crlf_to_lf(r) =~= crlf_to_lf(x).push(cr()));
        lemma_block_payloads_cr(crlf_to_lf(x));
    }
}

/// The payloads of a body are a prefix of those of the body followed by more bytes.
pub proof fn lemma_body_payloads_prefix(r: Seq<u8>, e: Seq<u8>)
    ensures
        body_payloads(r).len() <= body_payloads(r + e).len(),
        body_payloads(r + e).take(body_payloads(r).len() as int) == body_payloads(r),
{
    lemma_body_payloads_settled(r);
    lemma_body_payloads_settled(r + e);
    lemma_settled_append(r, e);
    lemma_block_payloads_append(settled(r), settled(carry(r) + e));
}

proof fn lemma_newline_index(s: Seq<char>, k: int)
    requires
        0 <= k <= s.len(),
        forall|m: int| 0 <= m < k ==> s[m] != '\n',
        k == s.len() || s[k] == '\n',
    ensures
        newline_index(s) == k,
    decreases k,
{
    if k > 0 {
        lemma_newline_index(s.drop_first(), k - 1);
    }
}

/// Block round trip: a block made of one `data: ` line with value `x` (no line break in
/// it) has `x` as its payload.
pub proof fn law_data_line_roundtrip(x: Seq<char>)
    requires
        forall|i: int| 0 <= i < x.len() ==> x[i] != '\n',
    ensures
        block_data(data_prefix() + seq![' '] + x) == Some(x),
{
    let b = data_prefix() + seq![' '] + x;
    let k = b.len() as int;
    assert forall|m: int| 0 <= m < k implies b[m] != '\n' by {
        if m >= 6 {
            assert(b[m] == x[m - 6]);
        }
    }
    lemma_newline_index(b, k);
    assert(lines(b) == seq![b]);
    assert(b.take(5) =~= data_prefix());
    assert(b.skip(5) =~= seq![' '] + x);
    assert((seq![' '] + x).skip(1) =~= x);
    assert(line_data(b) == Some(x));
    let f = |l: Seq<char>| line_data(l);
    assert(seq![b].drop_last() =~= Seq::<Seq<char>>::empty());
    assert(filter_map(seq![b].drop_last(), f) == Seq::<Seq<char>>::empty());
    assert(seq![b].last() == b);
    assert(f(b) == Some(x));
    assert(filter_map(seq![b], f) =~= seq![x]);
    assert(data_values(b) =~= seq![x]);
}

// ---------------------------------------------------------------------------
// Implementation
// ---------------------------------------------------------------------------

/// `s` with every "\r\n" replaced by "\n".
pub fn normalize_newlines(s: &Vec<u8>) -> (res: Vec<u8>)
    ensures
        res@ == crlf_to_lf(s@),
{
    let mut out: Vec<u8> = Vec::new();
    let n = s.len();
    let mut i: usize = 0;
    assert(s@.skip(0) =~= s@);
    while i < n
        invariant
            n == s@.len(),
            i <= n,
            crlf_to_lf(s@) == out@ + crlf_to_lf(s@.skip(i as int)),
        decreases n - i,
    {
        proof {
            lemma_crlf_step(s@, i as int);
        }
        if i + 1 < n && s[i] == 13u8 && s[i + 1] == 10u8 {
            out.push(10u8);
            i = i + 2;
        } else {
            out.push(s[i]);
            i = i + 1;
        }
    }
    assert(s@.skip(n as int) =~= Seq::<u8>::empty());
    out
}

#[verifier::rlimit(40)]
pub fn extract_sse_data(block: &Vec<char>) -> (res: Option<String>)
    ensures
        res.deep_view() == block_data(block@),
{
    let ghost b = block@;
    let n = block.len();
    let mut out = String::new();
    let mut count: usize = 0;
    let mut p: usize = 0;
    let ghost mut done: Seq<Seq<char>> = Seq::empty();
    assert(b.skip(0) =~= b);
    while p < n
        invariant
            n == b.len(),
            b == block@,
            p <= n,
            count <= p,
            lines(b) == done + lines(b.skip(p as int)),
            count == filter_map(done, |l: Seq<char>| line_data(l)).len(),
            out@ == join_lines(filter_map(done, |l: Seq<char>| line_data(l))),
        decreases n - p,
    {
        // Find the end of the current line.
        let mut j = p;
        while j < n && block[j] != '\n'
            invariant
                p <= j <= n,
                n == b.len(),
                b == block@,
                forall|m: int| p <= m < j ==> b[m] != '\n',
            decreases n - j,
        {
            j = j + 1;
        }
        let ghost rest = b.skip(p as int);
        proof {
            lemma_newline_index(rest, j - p);
        }
        let end = if j < n && j > p && block[j - 1] == '\r' {
            j - 1
        } else {
            j
        };
        let ghost line = b.subrange(p as int, end as int);
        proof {
            if j < n {
                assert(strip_cr(rest.take(j - p)) =~= line);
                assert(rest.skip(j - p + 1) =~= b.skip(j + 1));
            } else {
                assert(rest =~= line);
                assert(b.skip(n as int) =~= Seq::<char>::empty());
            }
        }
        // Whether the line is a `data:` field.
        let is_data = end - p >= 5 && block[p] == 'd' && block[p + 1] == 'a' && block[p + 2] == 't'
            && block[p + 3] == 'a' && block[p + 4] == ':';
        proof {
            if end - p >= 5 {
                assert(is_data == (line.take(5) =~= data_prefix()));
            }
            lemma_filter_map_push(done, line, |l: Seq<char>| line_data(l));
        }
        if is_data {
            let start = if end - p > 5 && block[p + 5] == ' ' {
                p + 6
            } else {
                p + 5
            };
            proof {
                let r = line.skip(5);
                if end - p > 5 && block[p + 5] == ' ' {
                    assert(r.skip(1) =~= b.subrange(start as int, end as int));
                } else {
                    assert(r =~= b.subrange(start as int, end as int));
                }
            }
            let ghost parts = filter_map(done, |l: Seq<char>| line_data(l));
            let ghost value = b.subrange(start as int, end as int);
            if count > 0 {
                push_char(&mut out, '\n');
            }
            push_chars(&mut out, block, start, end);
            proof {
                let np = parts.push(value);
                assert(np.drop_last() =~= parts);
                if count == 0 {
                    assert(out@ =~= value);
                }
            }
            count = count + 1;
        }
        proof {
            done = done.push(line);
            if j < n {
                assert(lines(rest) == seq![strip_cr(rest.take(j - p))] + lines(rest.skip(j - p + 1)));
            }
        }
        if j < n {
            p = j + 1;
        } else {
            p = n;
        }
        proof {
            assert(lines(b) =~= done + lines(b.skip(p as int)));
        }
    }
    assert(b.skip(n as int) =~= Seq::<char>::empty());
    assert(done =~= lines(b));
    if count == 0 {
        None
    } else {
        Some(out)
    }
}

/// What the buffer keeps implies that the payloads handed out are the first ones of the
/// body.
proof fn lemma_handed_bound(
    received: Seq<u8>,
    consumed: Seq<u8>,
    pending: Seq<u8>,
    handed: Seq<Seq<char>>,
)
    requires
        settled(received) == consumed + pending,
        block_payloads(consumed + pending) == handed + block_payloads(pending),
    ensures
        handed.len() <= body_payloads(received).len(),
{
    lemma_body_payloads_settled(received);
}

/// The body bytes received from an event stream, of which the blocks up to some point
/// have been cut off and their payloads handed out.
pub struct SseBuffer {
    /// The normalized bytes after the last block cut off.
    pending: Vec<u8>,
    /// Whether the last byte received is a carriage return not yet normalized.
    held: bool,
    received: Ghost<Seq<u8>>,
    consumed: Ghost<Seq<u8>>,
    handed: Ghost<Seq<Seq<char>>>,
}

/// What an [`SseBuffer`] is: all body bytes received, and how many payloads of them have
/// been handed out.
pub struct SseBufferModel {
    pub received: Seq<u8>,
    pub delivered: nat,
}

impl View for SseBuffer {
    type V = SseBufferModel;

    closed spec fn view(&self) -> SseBufferModel {
        SseBufferModel { received: self.received@, delivered: self.handed@.len() }
    }
}

impl SseBuffer {
    #[verifier::type_invariant]
    closed spec fn inv(&self) -> bool {
        &&& self.held == held_cr(self.received@)
        &&& settled(self.received@) == self.consumed@ + self.pending@
        &&& forall|x: Seq<u8>| #[trigger]
            block_payloads(self.consumed@ + x) == self.handed@ + block_payloads(x)
    }

    pub fn new() -> (res: SseBuffer)
        ensures
            res@ == (SseBufferModel { received: Seq::empty(), delivered: 0 }),
            res@.delivered <= body_payloads(res@.received).len(),
    {
        let ghost empty_bytes = Seq::<u8>::empty();
        assert forall|x: Seq<u8>| #[trigger]
            block_payloads(empty_bytes + x) == Seq::<Seq<char>>::empty() + block_payloads(x) by {
            assert(empty_bytes + x =~= x);
            assert(Seq::<Seq<char>>::empty() + block_payloads(x) =~= block_payloads(x));
        }
        let res = SseBuffer {
            pending: Vec::new(),
            held: false,
            received: Ghost(Seq::empty()),
            consumed: Ghost(Seq::empty()),
            handed: Ghost(Seq::empty()),
        };
        assert(res.pending@ =~= Seq::<u8>::empty());
        assert(settled(Seq::<u8>::empty()) =~= empty_bytes + res.pending@);
        res
    }

    /// Takes the next chunk of the body.
    pub fn push_chunk(&mut self, bytes: &[u8])
        ensures
            final(self)@ == (SseBufferModel {
                received: old(self)@.received + bytes@,
                delivered: old(self)@.delivered,
            }),
            final(self)@.delivered <= body_payloads(final(self)@.received).len(),
    {
        let mut cur = SseBuffer::new();
        std::mem::swap(&mut cur, self);
        proof {
            use_type_invariant(&cur);
            lemma_handed_bound(cur.received@, cur.consumed@, cur.pending@, cur.handed@);
            lemma_body_payloads_prefix(cur.received@, bytes@);
        }
        let ghost received = cur.received@;
        // The held carriage return, then the new bytes.
        let mut w: Vec<u8> = Vec::new();
        if cur.held {
            w.push(13u8);
        }
        assert(w@ =~= carry(received));
        let n = bytes.len();
        for i in 0..n
            invariant
                n == bytes@.len(),
                w@ == carry(received) + bytes@.take(i as int),
        {
            w.push(bytes[i]);
            assert(bytes@.take(i + 1) =~= bytes@.take(i as int).push(bytes@[i as int]));
        }
        assert(bytes@.take(n as int) =~= bytes@);
        let ghost whole = w@;
        let held = w.len() > 0 && w[w.len() - 1] == 13u8;
        if held {
            w.pop();
        }
        assert(settled(whole) == crlf_to_lf(w@));
        let e = normalize_newlines(&w);
        let mut pending = cur.pending;
        let m = e.len();
        let ghost start = pending@;
        for j in 0..m
            invariant
                m == e@.len(),
                pending@ == start + e@.take(j as int),
        {
            pending.push(e[j]);
            assert(e@.take(j + 1) =~= e@.take(j as int).push(e@[j as int]));
        }
        assert(e@.take(m as int) =~= e@);
        proof {
            lemma_settled_append(received, bytes@);
            assert(settled(received + bytes@) =~= cur.consumed@ + pending@);
            assert(held_cr(received + bytes@) == held) by {
                if whole.len() > 0 {
                    assert((received + bytes@).last() == whole.last());
                } else {
                    assert(received + bytes@ =~= received);
                }
            }
        }
        *self = SseBuffer {
            pending,
            held,
            received: Ghost(received + bytes@),
            consumed: Ghost(cur.consumed@),
            handed: Ghost(cur.handed@),
        };
    }

    /// The next payload of the body: complete blocks are cut off until one holds `data:`;
    /// blocks without it are dropped on the way. `None`, and nothing changes, when every
    /// payload of the bytes received has been handed out.
    pub fn next_data(&mut self) -> (res: Option<String>)
        ensures
            ({
                let p = body_payloads(old(self)@.received);
                let d = old(self)@.delivered;
                if d < p.len() {
                    &&& res.deep_view() == Some(p[d as int])
                    &&& final(self)@ == (SseBufferModel { delivered: d + 1, ..old(self)@ })
                } else {
                    &&& res is None
                    &&& final(self)@ == old(self)@
                }
            }),
            final(self)@.delivered <= body_payloads(final(self)@.received).len(),
    {
        let mut cur = SseBuffer::new();
        std::mem::swap(&mut cur, self);
        proof {
            use_type_invariant(&cur);
            lemma_body_payloads_settled(cur.received@);
            lemma_handed_bound(cur.received@, cur.consumed@, cur.pending@, cur.handed@);
        }
        let held = cur.held;
        let ghost received = cur.received@;
        let ghost handed = cur.handed@;
        let ghost mut consumed = cur.consumed@;
        let mut pending = cur.pending;
        assert(block_payloads(consumed + pending@) == handed + block_payloads(pending@));
        loop
            invariant
                held == held_cr(received),
                settled(received) == consumed + pending@,
                forall|x: Seq<u8>| #[trigger]
                    block_payloads(consumed + x) == handed + block_payloads(x),
                body_payloads(received) == handed + block_payloads(pending@),
                received == old(self)@.received,
                handed.len() == old(self)@.delivered,
            decreases pending@.len(),
        {
            let ghost s = pending@;
            let n = pending.len();
            let mut i: usize = 0;
            while n > 0 && i < n - 1 && !(pending[i] == 10u8 && pending[i + 1] == 10u8)
                invariant
                    n == s.len(),
                    s == pending@,
                    i < n || n == 0,
                    forall|m: int| 0 <= m < i ==> !blank_at(s, m),
                decreases n - i,
            {
                i = i + 1;
            }
            let found = n > 0 && i < n - 1;
            if !found {
                proof {
                    assert forall|m: int| 0 <= m implies !blank_at(s, m) by {}
                    lemma_find_blank_none(s);
                    assert(block_payloads(s) =~= Seq::<Seq<char>>::empty());
                    assert(handed + block_payloads(s) =~= handed);
                }
                *self = SseBuffer {
                    pending,
                    held,
                    received: Ghost(received),
                    consumed: Ghost(consumed),
                    handed: Ghost(handed),
                };
                return None;
            }
            // Cut off the block before the blank line at `i`.
            let mut block: Vec<u8> = Vec::new();
            for j in 0..i
                invariant
                    i + 1 < n,
                    n == s.len(),
                    s == pending@,
                    block@ == s.take(j as int),
            {
                block.push(pending[j]);
                assert(s.take(j + 1) =~= s.take(j as int).push(s[j as int]));
            }
            let mut rest: Vec<u8> = Vec::new();
            let mut k: usize = i + 2;
            while k < n
                invariant
                    i + 2 <= k <= n,
                    n == s.len(),
                    s == pending@,
                    rest@ == s.subrange(i + 2, k as int),
                decreases n - k,
            {
                rest.push(pending[k]);
                assert(s.subrange(i + 2, k + 1) =~= s.subrange(i + 2, k as int).push(s[k as int]));
                k = k + 1;
            }
            let ghost b = block@;
            let ghost r = rest@;
            let ghost c2 = consumed + (b + seq![lf(), lf()]);
            proof {
                assert(s =~= b + seq![lf(), lf()] + r);
                assert forall|m: int| 0 <= m implies !blank_at(b, m) by {
                    if m + 1 < b.len() {
                        assert(!blank_at(s, m));
                    }
                }
                if b.len() > 0 {
                    assert(!blank_at(s, i - 1));
                }
                lemma_block_payloads_cut(b, r);
                assert forall|x: Seq<u8>| #[trigger]
                    block_payloads(c2 + x) == (handed + block_payload(b)) + block_payloads(x) by {
                    lemma_block_payloads_cut(b, x);
                    assert(c2 + x =~= consumed + (b + seq![
                        lf(),
                        lf(),
                    ] + x));
                    assert(handed + (block_payload(b) + block_payloads(x)) =~= (handed
                        + block_payload(b)) + block_payloads(x));
                }
                assert(settled(received) =~= c2 + r);
            }
            let text = utf8_lossy(block.as_slice());
            let cs = chars_of(text.as_str());
            let d = extract_sse_data(&cs);
            proof {
                consumed = c2;
            }
            match d {
                Some(data) => {
                    let ghost handed2 = handed + seq![data@];
                    proof {
                        assert(block_payload(b) =~= seq![data@]);
                        assert(body_payloads(received)[handed.len() as int] == data@);
                    }
                    *self = SseBuffer {
                        pending: rest,
                        held,
                        received: Ghost(received),
                        consumed: Ghost(consumed),
                        handed: Ghost(handed2),
                    };
                    return Some(data);
                },
                None => {
                    proof {
                        assert(block_payload(b) =~= Seq::<Seq<char>>::empty());
                        assert forall|x: Seq<u8>| #[trigger]
                            block_payloads(consumed + x) == handed + block_payloads(x) by {
                            assert(handed + Seq::<Seq<char>>::empty() =~= handed);
                        }
                        assert(handed + block_payloads(s) =~= handed + block_payloads(r));
                    }
                    pending = rest;
                },
            }
        }
    }
}

/// What the consumer of an event stream is to do next.
pub enum Poll {
    /// Parse this payload and hand the outcome to `EventStream::on_action`.
    Payload(String),
    /// No complete payload is pending: read more of the body.
    NeedBytes,
    /// The stream is over.
    End,
}

/// The model of [`Poll`], with text as `Seq<char>` and lists as `Seq`.
pub enum PollModel {
    Payload(Seq<char>),
    NeedBytes,
    End,
}

impl DeepView for Poll {
    type V = PollModel;

    open spec fn deep_view(&self) -> PollModel {
        match self {
            Poll::Payload(d) => PollModel::Payload(d@),
            Poll::NeedBytes => PollModel::NeedBytes,
            Poll::End => PollModel::End,
        }
    }
}

/// The state of an event stream: the body bytes received, how many of their payloads
/// were handed out, and whether the stream is over (a parser said it is done, the body
/// ended, or reading it failed).
pub struct EventStream {
    buffer: SseBuffer,
    finished: bool,
}

/// What an [`EventStream`] is.
pub struct EventStreamModel {
    pub received: Seq<u8>,
    pub delivered: nat,
    pub finished: bool,
}

impl View for EventStream {
    type V = EventStreamModel;

    closed spec fn view(&self) -> EventStreamModel {
        EventStreamModel {
            received: self.buffer@.received,
            delivered: self.buffer@.delivered,
            finished: self.finished,
        }
    }
}

/// A fresh stream.
pub open spec fn fresh_stream() -> EventStreamModel {
    EventStreamModel { received: Seq::empty(), delivered: 0, finished: false }
}

/// The payloads handed out are the first ones of the body received.
pub open spec fn stream_ok(s: EventStreamModel) -> bool {
    s.delivered <= body_payloads(s.received).len()
}

/// One poll: the end when the stream is over; else the next payload of the body, if one
/// is complete; else a request for more bytes.
pub open spec fn poll_step(s: EventStreamModel) -> (PollModel, EventStreamModel) {
    if s.finished {
        (PollModel::End, s)
    } else if s.delivered < body_payloads(s.received).len() {
        (
            PollModel::Payload(body_payloads(s.received)[s.delivered as int]),
            EventStreamModel { delivered: s.delivered + 1, ..s },
        )
    } else {
        (PollModel::NeedBytes, s)
    }
}

/// More body bytes.
pub open spec fn bytes_step(s: EventStreamModel, bytes: Seq<u8>) -> EventStreamModel {
    EventStreamModel { received: s.received + bytes, ..s }
}

/// The stream is over.
pub open spec fn finish_step(s: EventStreamModel) -> EventStreamModel {
    EventStreamModel { finished: true, ..s }
}

impl EventStream {
    #[verifier::type_invariant]
    closed spec fn inv(&self) -> bool {
        stream_ok(self@)
    }

    pub fn new() -> (res: EventStream)
        ensures
            res@ == fresh_stream(),
            stream_ok(res@),
    {
        EventStream { buffer: SseBuffer::new(), finished: false }
    }

    /// The next step: a pending payload, a request for more bytes, or the end.
    pub fn poll(&mut self) -> (res: Poll)
        ensures
            (res.deep_view(), final(self)@) == poll_step(old(self)@),
            stream_ok(final(self)@),
    {
        proof {
            use_type_invariant(&*self);
        }
        if self.finished {
            return Poll::End;
        }
        let mut buffer = SseBuffer::new();
        std::mem::swap(&mut buffer, &mut self.buffer);
        let next = buffer.next_data();
        self.buffer = buffer;
        match next {
            Some(d) => Poll::Payload(d),
            None => Poll::NeedBytes,
        }
    }

    /// Takes a parser's decision on the payload that `poll` gave: an item to hand out;
    /// nothing, when the payload is skipped; nothing, and the stream is over, when the
    /// parser says it is done.
    pub fn on_action<T>(&mut self, action: SseAction<T>) -> (res: Option<Result<T, Error>>)
        ensures
            match action {
                SseAction::Yield(item) => res == Some(item) && final(self)@ == old(self)@,
                SseAction::Skip => res is None && final(self)@ == old(self)@,
                SseAction::Done => res is None && final(self)@ == finish_step(old(self)@),
            },
            stream_ok(final(self)@),
    {
        proof {
            use_type_invariant(&*self);
        }
        match action {
            SseAction::Yield(item) => Some(item),
            SseAction::Skip => None,
            SseAction::Done => {
                self.finished = true;
                None
            },
        }
    }

    /// Takes the next chunk of the body.
    pub fn on_bytes(&mut self, bytes: &[u8])
        ensures
            final(self)@ == bytes_step(old(self)@, bytes@),
            stream_ok(final(self)@),
    {
        let mut buffer = SseBuffer::new();
        std::mem::swap(&mut buffer, &mut self.buffer);
        buffer.push_chunk(bytes);
        self.buffer = buffer;
    }

    /// Reading the body failed: the error is handed out and the stream is over.
    pub fn on_read_error(&mut self, message: String) -> (res: Error)
        ensures
            res.deep_view() == ErrorModel::Http(message@),
            final(self)@ == finish_step(old(self)@),
            stream_ok(final(self)@),
    {
        proof {
            use_type_invariant(&*self);
        }
        self.finished = true;
        Error::Http(message)
    }

    /// The body ended: the stream is over.
    pub fn on_body_end(&mut self)
        ensures
            final(self)@ == finish_step(old(self)@),
            stream_ok(final(self)@),
    {
        proof {
            use_type_invariant(&*self);
        }
        self.finished = true;
    }
}

// ---------------------------------------------------------------------------
// The stream laws
// ---------------------------------------------------------------------------

/// What a driven stream hands to its consumer: a payload, to be parsed, or the error of a
/// failed read of the body.
pub enum Handed {
    Payload(Seq<char>),
    ReadError,
}

/// What a stream in state `s` hands out when it is driven as the transport drives it:
/// poll; hand a payload to the parser (`done` says whether the parser answers that the
/// stream is done); when bytes are needed, take the next chunk (`Some`), or fail reading
/// (`None`: the read error is handed out and the stream goes on from there), or, with no
/// chunk left, end the body.
pub open spec fn drive(
    s: EventStreamModel,
    chunks: Seq<Option<Seq<u8>>>,
    done: spec_fn(Seq<char>) -> bool,
) -> Seq<Handed>
    decreases chunks.len(), body_payloads(s.received).len() - s.delivered,
{
    if s.finished {
        Seq::empty()
    } else {
        match poll_step(s) {
            (PollModel::Payload(p), s2) => if s.delivered < body_payloads(s.received).len() {
                seq![Handed::Payload(p)] + drive(
                    if done(p) {
                        finish_step(s2)
                    } else {
                        s2
                    },
                    chunks,
                    done,
                )
            } else {
                Seq::empty()
            },
            _ => if chunks.len() == 0 {
                Seq::empty()
            } else {
                match chunks[0] {
                    Some(b) => drive(bytes_step(s, b), chunks.drop_first(), done),
                    None => seq![Handed::ReadError] + drive(
                        finish_step(s),
                        chunks.drop_first(),
                        done,
                    ),
                }
            },
        }
    }
}

/// The body bytes of the chunks read before the first read failure.
pub open spec fn bytes_until_failure(chunks: Seq<Option<Seq<u8>>>) -> Seq<u8>
    decreases chunks.len(),
{
    if chunks.len() == 0 {
        Seq::empty()
    } else {
        match chunks[0] {
            Some(b) => b + bytes_until_failure(chunks.drop_first()),
            None => Seq::empty(),
        }
    }
}

/// Whether reading one of the chunks fails.
pub open spec fn read_fails(chunks: Seq<Option<Seq<u8>>>) -> bool
    decreases chunks.len(),
{
    if chunks.len() == 0 {
        false
    } else {
        match chunks[0] {
            Some(_) => read_fails(chunks.drop_first()),
            None => true,
        }
    }
}

/// Whether the parser says of one of `ps` that it ends the stream.
pub open spec fn any_done(ps: Seq<Seq<char>>, done: spec_fn(Seq<char>) -> bool) -> bool
    decreases ps.len(),
{
    if ps.len() == 0 {
        false
    } else {
        done(ps[0]) || any_done(ps.drop_first(), done)
    }
}

/// `ps` handed out up to and including the first payload the parser says is the last.
pub open spec fn through_done(ps: Seq<Seq<char>>, done: spec_fn(Seq<char>) -> bool) -> Seq<
    Handed,
>
    decreases ps.len(),
{
    if ps.len() == 0 {
        Seq::empty()
    } else if done(ps[0]) {
        seq![Handed::Payload(ps[0])]
    } else {
        seq![Handed::Payload(ps[0])] + through_done(ps.drop_first(), done)
    }
}

/// All the bytes of `chunks`, in order.
pub open spec fn concat_chunks(chunks: Seq<Seq<u8>>) -> Seq<u8>
    decreases chunks.len(),
{
    if chunks.len() == 0 {
        Seq::empty()
    } else {
        chunks[0] + concat_chunks(chunks.drop_first())
    }
}

/// Chunks that are all read.
pub open spec fn read_all(chunks: Seq<Seq<u8>>) -> Seq<Option<Seq<u8>>> {
    chunks.map_values(|b: Seq<u8>| Some(b))
}

/// Stream law: driven from any state, a stream hands the parser exactly the payloads of
/// the complete blocks of the whole body read before any read failure, in order, from
/// the first not yet handed out, and stops after the first one the parser says ends the
/// stream. When a read fails before that, the read error is handed out once, after
/// those payloads, and nothing follows it. Nothing is handed out from an unterminated
/// tail, and how the body was split into chunks plays no part.
pub proof fn law_stream_payloads(
    s: EventStreamModel,
    chunks: Seq<Option<Seq<u8>>>,
    done: spec_fn(Seq<char>) -> bool,
)
    requires
        !s.finished,
        stream_ok(s),
    ensures
        ({
            let ps = body_payloads(s.received + bytes_until_failure(chunks)).skip(
                s.delivered as int,
            );
            drive(s, chunks, done) == through_done(ps, done) + if read_fails(chunks) && !any_done(
                ps,
                done,
            ) {
                seq![Handed::ReadError]
            } else {
                Seq::<Handed>::empty()
            }
        }),
    decreases chunks.len(), body_payloads(s.received).len() - s.delivered,
{
    let r = s.received;
    let d = s.delivered as int;
    let c = bytes_until_failure(chunks);
    let full = body_payloads(r + c);
    let ps = full.skip(d);
    lemma_body_payloads_prefix(r, c);
    if d < body_payloads(r).len() {
        let p = body_payloads(r)[d];
        assert(full[d] == body_payloads(r + c).take(body_payloads(r).len() as int)[d]);
        assert(full[d] == p);
        let s2 = EventStreamModel { delivered: s.delivered + 1, ..s };
        assert(ps[0] == p);
        assert(ps.drop_first() =~= full.skip(d + 1));
        assert(poll_step(s) == (PollModel::Payload(p), s2));
        if done(p) {
            assert(drive(finish_step(s2), chunks, done) == Seq::<Handed>::empty());
            assert(drive(s, chunks, done) =~= seq![Handed::Payload(p)]);
            assert(through_done(ps, done) =~= seq![Handed::Payload(p)]);
            assert(any_done(ps, done));
            assert(through_done(ps, done) + Seq::<Handed>::empty() =~= through_done(ps, done));
        } else {
            law_stream_payloads(s2, chunks, done);
            assert(drive(s, chunks, done) == seq![Handed::Payload(p)] + drive(s2, chunks, done));
            assert(any_done(ps, done) == any_done(ps.drop_first(), done));
            assert(through_done(ps, done) == seq![Handed::Payload(p)] + through_done(
                ps.drop_first(),
                done,
            ));
            let tail = if read_fails(chunks) && !any_done(ps, done) {
                seq![Handed::ReadError]
            } else {
                Seq::<Handed>::empty()
            };
            assert(seq![Handed::Payload(p)] + (through_done(ps.drop_first(), done) + tail)
                =~= (seq![Handed::Payload(p)] + through_done(ps.drop_first(), done)) + tail);
        }
    } else if chunks.len() == 0 {
        assert(r + c =~= r);
        assert(ps =~= Seq::<Seq<char>>::empty());
        assert(through_done(ps, done) + Seq::<Handed>::empty() =~= Seq::<Handed>::empty());
    } else {
        match chunks[0] {
            Some(b) => {
                lemma_body_payloads_prefix(r, b);
                law_stream_payloads(bytes_step(s, b), chunks.drop_first(), done);
                assert((r + b) + bytes_until_failure(chunks.drop_first()) =~= r + c);
            },
            None => {
                assert(r + c =~= r);
                assert(ps =~= Seq::<Seq<char>>::empty());
                assert(drive(finish_step(s), chunks.drop_first(), done) == Seq::<Handed>::empty());
                assert(drive(s, chunks, done) =~= seq![Handed::ReadError]);
                assert(!any_done(ps, done));
                assert(through_done(ps, done) + seq![Handed::ReadError] =~= seq![
                    Handed::ReadError,
                ]);
            },
        }
    }
}

/// The chunks read in full, then a failed read, then anything: the bytes before the
/// failure are those of the chunks read, and the read fails.
proof fn lemma_failure_after(before: Seq<Seq<u8>>, after: Seq<Option<Seq<u8>>>)
    ensures
        bytes_until_failure(read_all(before) + seq![None] + after) == concat_chunks(before),
        read_fails(read_all(before) + seq![None] + after),
    decreases before.len(),
{
    let chunks = read_all(before) + seq![None] + after;
    if before.len() == 0 {
        assert(chunks[0] is None);
    } else {
        assert(chunks[0] == Some(before[0]));
        assert(chunks.drop_first() =~= read_all(before.drop_first()) + seq![None] + after);
        lemma_failure_after(before.drop_first(), after);
    }
}

/// A failed read: when the chunks `before` are read and the next read fails, the stream
/// hands out the payloads of the complete blocks of the body read so far that were not
/// handed out yet, in order, up to the first the parser says ends the stream; then,
/// unless such a payload came, the read error once; and nothing more, whatever chunks
/// would have followed.
pub proof fn law_read_failure(
    s: EventStreamModel,
    before: Seq<Seq<u8>>,
    after: Seq<Option<Seq<u8>>>,
    done: spec_fn(Seq<char>) -> bool,
)
    requires
        !s.finished,
        stream_ok(s),
    ensures
        ({
            let ps = body_payloads(s.received + concat_chunks(before)).skip(s.delivered as int);
            drive(s, read_all(before) + seq![None] + after, done) == through_done(ps, done)
                + if any_done(ps, done) {
                Seq::<Handed>::empty()
            } else {
                seq![Handed::ReadError]
            }
        }),
{
    lemma_failure_after(before, after);
    law_stream_payloads(s, read_all(before) + seq![None] + after, done);
}

/// Once a stream is over (reading the body failed, the body ended, or a parser said it is
/// done), every poll answers `End` and changes nothing, and more bytes do not reopen it.
pub proof fn law_ended_stays_ended(s: EventStreamModel, b: Seq<u8>)
    ensures
        poll_step(finish_step(s)) == (PollModel::End, finish_step(s)),
        bytes_step(finish_step(s), b).finished,
{
}

/// How a body is split into chunks plays no part: two chunkings of the same bytes, both
/// read in full or both with a failed read after those bytes, hand out the same.
pub proof fn law_chunking_irrelevant(
    a: Seq<Option<Seq<u8>>>,
    b: Seq<Option<Seq<u8>>>,
    done: spec_fn(Seq<char>) -> bool,
)
    requires
        bytes_until_failure(a) == bytes_until_failure(b),
        read_fails(a) == read_fails(b),
    ensures
        drive(fresh_stream(), a, done) == drive(fresh_stream(), b, done),
{
    law_stream_payloads(fresh_stream(), a, done);
    law_stream_payloads(fresh_stream(), b, done);
}

} // verus!
