//! Parsing of the server-sent event stream: the raw bytes are cut into
//! blocks at blank lines, each block's `event:` and `data:` lines are
//! extracted, and only blocks named `init` or `changed` whose payload
//! decodes as a hash triple are meaningful; everything else — heartbeat
//! comments, unknown events, malformed payloads — is ignored without
//! error.
//!
//! Only the JSON decoding of the payload is delegated to an outside
//! crate; the framing and field extraction are verified here, byte by
//! byte.

use vstd::prelude::*;

use crate::model::PollHashes;
use crate::sync::{FetchPlan, SyncEngine};

verus! {

/// What `serde_json` decodes from a candidate hash-triple payload: the
/// three fingerprint strings, or nothing when the payload is not a JSON
/// object carrying string fields `board`, `prompts` and `documents`.  The
/// decoding depends on the bytes alone.
pub uninterp spec fn triple_of_json(data: Seq<u8>) -> Option<(Seq<char>, Seq<char>, Seq<char>)>;

/// Relies on `serde_json::from_slice` and `serde_json::Value`'s `get` and
/// `as_str`: decodes a JSON object and takes its `board`, `prompts` and
/// `documents` string fields, a pure function of the input bytes named
/// by `triple_of_json`.
#[verifier::external_body]
fn parse_triple_json(data: &[u8]) -> (r: Option<PollHashes>)
    ensures
        match triple_of_json(data@) {
            Some(t) => r matches Some(h) && h.board@ == t.0 && h.prompts@ == t.1 && h.documents@
                == t.2,
            None => r is None,
        },
{
    let v: serde_json::Value = serde_json::from_slice(data).ok()?;
    let board = v.get("board")?.as_str()?.to_string();
    let prompts = v.get("prompts")?.as_str()?.to_string();
    let documents = v.get("documents")?.as_str()?.to_string();
    Some(PollHashes { board, prompts, documents })
}

/// ASCII whitespace as far as stream values are trimmed: space, tab,
/// carriage return, newline.
pub open spec fn is_ws(b: u8) -> bool {
    b == 32 || b == 9 || b == 13 || b == 10
}

/// The sequence with its leading whitespace removed.
pub open spec fn trim_start_spec(s: Seq<u8>) -> Seq<u8>
    decreases s.len(),
{
    if s.len() > 0 && is_ws(s[0]) {
        trim_start_spec(s.drop_first())
    } else {
        s
    }
}

/// The sequence with its trailing whitespace removed.
pub open spec fn trim_end_spec(s: Seq<u8>) -> Seq<u8>
    decreases s.len(),
{
    if s.len() > 0 && is_ws(s.last()) {
        trim_end_spec(s.drop_last())
    } else {
        s
    }
}

/// The sequence with whitespace removed at both ends.
pub open spec fn trim_spec(s: Seq<u8>) -> Seq<u8> {
    trim_end_spec(trim_start_spec(s))
}

/// The position of the first newline, or the length when there is none.
pub open spec fn first_newline(s: Seq<u8>) -> int
    decreases s.len(),
{
    if s.len() == 0 {
        0
    } else if s[0] == 10 {
        0
    } else {
        1 + first_newline(s.drop_first())
    }
}

/// The position of the first blank-line boundary (two consecutive
/// newlines), or the length when there is none.
pub open spec fn first_boundary(s: Seq<u8>) -> int
    decreases s.len(),
{
    if s.len() < 2 {
        s.len() as int
    } else if s[0] == 10 && s[1] == 10 {
        0
    } else {
        1 + first_boundary(s.drop_first())
    }
}

pub proof fn lemma_first_newline_props(s: Seq<u8>)
    ensures
        0 <= first_newline(s) <= s.len(),
        first_newline(s) < s.len() ==> s[first_newline(s)] == 10,
        forall|j: int| 0 <= j < first_newline(s) ==> s[j] != 10,
    decreases s.len(),
{
    if s.len() == 0 {
    } else if s[0] == 10 {
    } else {
        lemma_first_newline_props(s.drop_first());
        let i = first_newline(s);
        assert forall|j: int| 0 <= j < i implies s[j] != 10 by {
            if j > 0 {
                assert(s.drop_first()[j - 1] == s[j]);
            }
        }
        if i < s.len() {
            assert(s.drop_first()[i - 1] == s[i]);
        }
    }
}

proof fn lemma_first_boundary_props(s: Seq<u8>)
    ensures
        0 <= first_boundary(s),
        first_boundary(s) == s.len() || first_boundary(s) + 2 <= s.len(),
        first_boundary(s) + 2 <= s.len() ==> s[first_boundary(s)] == 10 && s[first_boundary(s)
            + 1] == 10,
        forall|j: int| 0 <= j < first_boundary(s) && j + 2 <= s.len() ==> !(#[trigger] s[j] == 10
            && s[j + 1] == 10),
    decreases s.len(),
{
    if s.len() < 2 {
    } else if s[0] == 10 && s[1] == 10 {
    } else {
        lemma_first_boundary_props(s.drop_first());
        let i = first_boundary(s);
        assert forall|j: int| 0 <= j < i && j + 2 <= s.len() implies !(#[trigger] s[j] == 10
            && s[j + 1] == 10) by {
            if j > 0 {
                assert(s.drop_first()[j - 1] == s[j]);
                assert(s.drop_first()[j] == s[j + 1]);
            }
        }
        if i + 2 <= s.len() {
            assert(s.drop_first()[i - 1] == s[i]);
            assert(s.drop_first()[i] == s[i + 1]);
        }
    }
}

/// The bytes of a slice between two positions, as an owned vector.
fn sub_bytes(s: &[u8], a: usize, b: usize) -> (r: Vec<u8>)
    requires
        a <= b <= s@.len(),
    ensures
        r@ == s@.subrange(a as int, b as int),
{
    let mut out: Vec<u8> = Vec::new();
    let mut i: usize = a;
    while i < b
        invariant
            a <= i <= b <= s@.len(),
            out@ == s@.subrange(a as int, i as int),
        decreases b - i,
    {
        out.push(s[i]);
        proof {
            assert(out@ =~= s@.subrange(a as int, i + 1));
        }
        i = i + 1;
    }
    out
}

/// Whether a byte is trimmed whitespace, per [`is_ws`].
fn ws_byte(b: u8) -> (r: bool)
    ensures
        r == is_ws(b),
{
    b == 32 || b == 9 || b == 13 || b == 10
}

proof fn lemma_trim_start_scan(s: Seq<u8>, lo: int)
    requires
        0 <= lo <= s.len(),
        forall|j: int| 0 <= j < lo ==> is_ws(s[j]),
        lo == s.len() || !is_ws(s[lo]),
    ensures
        trim_start_spec(s) == s.subrange(lo, s.len() as int),
    decreases lo,
{
    if lo == 0 {
        assert(s.subrange(0, s.len() as int) =~= s);
    } else {
        assert(is_ws(s[0]));
        lemma_trim_start_scan(s.drop_first(), lo - 1);
        assert(s.drop_first().subrange(lo - 1, s.drop_first().len() as int) =~= s.subrange(
            lo,
            s.len() as int,
        ));
    }
}

proof fn lemma_trim_end_scan(s: Seq<u8>, hi: int)
    requires
        0 <= hi <= s.len(),
        forall|j: int| hi <= j < s.len() ==> is_ws(s[j]),
        hi == 0 || !is_ws(s[hi - 1]),
    ensures
        trim_end_spec(s) == s.subrange(0, hi),
    decreases s.len(),
{
    if hi == s.len() {
        if s.len() > 0 {
            assert(!is_ws(s.last()));
        }
        assert(s.subrange(0, s.len() as int) =~= s);
    } else {
        assert(is_ws(s.last()));
        lemma_trim_end_scan(s.drop_last(), hi);
        assert(s.drop_last().subrange(0, hi) =~= s.subrange(0, hi));
    }
}

/// The bytes with whitespace removed at both ends, per [`trim_spec`].
fn trim_bytes(s: &[u8]) -> (r: Vec<u8>)
    ensures
        r@ == trim_spec(s@),
{
    let mut lo: usize = 0;
    while lo < s.len() && ws_byte(s[lo])
        invariant
            0 <= lo <= s@.len(),
            forall|j: int| 0 <= j < lo ==> is_ws(s@[j]),
        decreases s@.len() - lo,
    {
        lo = lo + 1;
    }
    let mut hi: usize = s.len();
    while hi > lo && ws_byte(s[hi - 1])
        invariant
            lo <= hi <= s@.len(),
            forall|j: int| hi <= j < s@.len() ==> is_ws(s@[j]),
        decreases hi,
    {
        hi = hi - 1;
    }
    proof {
        lemma_trim_start_scan(s@, lo as int);
        let t = s@.subrange(lo as int, s@.len() as int);
        assert forall|j: int| (hi - lo) <= j < t.len() implies is_ws(t[j]) by {
            assert(t[j] == s@[j + lo]);
        }
        if hi > lo {
            assert(t[hi - lo - 1] == s@[hi - 1]);
        }
        lemma_trim_end_scan(t, hi - lo);
        assert(t.subrange(0, hi - lo) =~= s@.subrange(lo as int, hi as int));
    }
    sub_bytes(s, lo, hi)
}

/// Position of the first blank-line boundary of a buffer, or its length,
/// per [`first_boundary`].
fn find_boundary(s: &[u8]) -> (r: usize)
    ensures
        r as int == first_boundary(s@),
{
    if s.len() < 2 {
        proof {
            lemma_first_boundary_props(s@);
        }
        return s.len();
    }
    let mut i: usize = 0;
    while i < s.len() - 1 && !(s[i] == 10 && s[i + 1] == 10)
        invariant
            0 <= i,
            i + 2 <= s@.len() + 1,
            forall|j: int| 0 <= j < i && j + 2 <= s@.len() ==> !(#[trigger] s@[j] == 10 && s@[j
                + 1] == 10),
        decreases s@.len() - i,
    {
        i = i + 1;
    }
    proof {
        lemma_first_boundary_props(s@);
        if i + 2 <= s@.len() {
            if first_boundary(s@) < i {
                assert(false);
            }
            if first_boundary(s@) > i {
                assert(!(s@[i as int] == 10 && s@[i + 1] == 10));
                assert(false);
            }
        } else {
            if first_boundary(s@) + 2 <= s@.len() {
                assert(false);
            }
        }
    }
    if i < s.len() - 1 {
        i
    } else {
        s.len()
    }
}

/// Position of the first newline of a line block, or its length, per
/// [`first_newline`].
pub fn find_newline(s: &[u8]) -> (r: usize)
    ensures
        r as int == first_newline(s@),
{
    let mut i: usize = 0;
    while i < s.len() && s[i] != 10
        invariant
            0 <= i <= s@.len(),
            forall|j: int| 0 <= j < i ==> s@[j] != 10,
        decreases s@.len() - i,
    {
        i = i + 1;
    }
    proof {
        lemma_first_newline_props(s@);
        if i < s@.len() {
            if first_newline(s@) < i {
                assert(false);
            }
            if first_newline(s@) > i {
                assert(false);
            }
        } else {
            if first_newline(s@) < s@.len() {
                assert(false);
            }
        }
    }
    i
}

/// Cut the finished block, if any, off the front of the buffer: the bytes
/// before the first blank-line boundary leave as the block, and the
/// buffer keeps what follows the boundary.
pub fn take_message(buf: &mut Vec<u8>) -> (msg: Option<Vec<u8>>)
    ensures
        ({
            let b = first_boundary(old(buf)@);
            if b + 2 <= old(buf)@.len() {
                (msg matches Some(m) && m@ == old(buf)@.subrange(0, b)) && final(buf)@ == old(
                    buf,
                )@.subrange(b + 2, old(buf)@.len() as int)
            } else {
                msg is None && *final(buf) == *old(buf)
            }
        }),
{
    proof {
        lemma_first_boundary_props(buf@);
    }
    let b = find_boundary(buf.as_slice());
    if buf.len() >= 2 && b <= buf.len() - 2 {
        let m = sub_bytes(buf.as_slice(), 0, b);
        let rest = sub_bytes(buf.as_slice(), b + 2, buf.len());
        *buf = rest;
        Some(m)
    } else {
        None
    }
}

/// The bytes of `event: `.
pub open spec fn event_prefix() -> Seq<u8> {
    seq![101u8, 118, 101, 110, 116, 58, 32]
}

/// The bytes of `data: `.
pub open spec fn data_prefix() -> Seq<u8> {
    seq![100u8, 97, 116, 97, 58, 32]
}

/// The bytes of `init`.
pub open spec fn init_name() -> Seq<u8> {
    seq![105u8, 110, 105, 116]
}

/// The bytes of `changed`.
pub open spec fn changed_name() -> Seq<u8> {
    seq![99u8, 104, 97, 110, 103, 101, 100]
}

/// The field a single line contributes: the trimmed rest of an
/// `event: ` line, or of a `data: ` line, or nothing.
pub open spec fn line_field(l: Seq<u8>) -> (Option<Seq<u8>>, Option<Seq<u8>>) {
    if l.len() >= 7 && l.subrange(0, 7) == event_prefix() {
        (Some(trim_spec(l.subrange(7, l.len() as int))), None)
    } else if l.len() >= 6 && l.subrange(0, 6) == data_prefix() {
        (None, Some(trim_spec(l.subrange(6, l.len() as int))))
    } else {
        (None, None)
    }
}

/// Later lines overwrite earlier ones, field by field.
pub open spec fn combine_fields(
    a: (Option<Seq<u8>>, Option<Seq<u8>>),
    b: (Option<Seq<u8>>, Option<Seq<u8>>),
) -> (Option<Seq<u8>>, Option<Seq<u8>>) {
    (if b.0 is Some { b.0 } else { a.0 }, if b.1 is Some { b.1 } else { a.1 })
}

/// The `event` and `data` fields of a whole block, line by line.
pub open spec fn parse_fields(s: Seq<u8>) -> (Option<Seq<u8>>, Option<Seq<u8>>)
    decreases s.len(),
{
    let i = first_newline(s);
    if 0 <= i < s.len() {
        combine_fields(line_field(s.subrange(0, i)), parse_fields(s.subrange(i + 1, s.len() as int)))
    } else {
        line_field(s)
    }
}

/// The hash triple a block carries, if it is a meaningful one: it must
/// name the event `init` or `changed` and its data must decode as a
/// triple.
pub open spec fn message_triple(msg: Seq<u8>) -> Option<(Seq<char>, Seq<char>, Seq<char>)> {
    let (e, d) = parse_fields(msg);
    match (e, d) {
        (Some(ev), Some(data)) => if ev == init_name() || ev == changed_name() {
            triple_of_json(data)
        } else {
            None
        },
        _ => None,
    }
}

/// An optional byte vector carries exactly the optional spec-level bytes.
pub open spec fn opt_bytes_is(o: Option<Vec<u8>>, s: Option<Seq<u8>>) -> bool {
    match (o, s) {
        (Some(v), Some(t)) => v@ == t,
        (None, None) => true,
        _ => false,
    }
}

/// Does the line start with `event: `?
fn starts_with_event(l: &[u8]) -> (r: bool)
    ensures
        r == (l@.len() >= 7 && l@.subrange(0, 7) == event_prefix()),
{
    if l.len() >= 7 && l[0] == 101 && l[1] == 118 && l[2] == 101 && l[3] == 110 && l[4] == 116
        && l[5] == 58 && l[6] == 32 {
        proof {
            assert(l@.subrange(0, 7) =~= event_prefix());
        }
        true
    } else {
        proof {
            if l@.len() >= 7 && l@.subrange(0, 7) == event_prefix() {
                assert(l@.subrange(0, 7)[0] == l@[0]);
                assert(l@.subrange(0, 7)[1] == l@[1]);
                assert(l@.subrange(0, 7)[2] == l@[2]);
                assert(l@.subrange(0, 7)[3] == l@[3]);
                assert(l@.subrange(0, 7)[4] == l@[4]);
                assert(l@.subrange(0, 7)[5] == l@[5]);
                assert(l@.subrange(0, 7)[6] == l@[6]);
            }
        }
        false
    }
}

/// Does the line start with `data: `?
fn starts_with_data(l: &[u8]) -> (r: bool)
    ensures
        r == (l@.len() >= 6 && l@.subrange(0, 6) == data_prefix()),
{
    if l.len() >= 6 && l[0] == 100 && l[1] == 97 && l[2] == 116 && l[3] == 97 && l[4] == 58 && l[5]
        == 32 {
        proof {
            assert(l@.subrange(0, 6) =~= data_prefix());
        }
        true
    } else {
        proof {
            if l@.len() >= 6 && l@.subrange(0, 6) == data_prefix() {
                assert(l@.subrange(0, 6)[0] == l@[0]);
                assert(l@.subrange(0, 6)[1] == l@[1]);
                assert(l@.subrange(0, 6)[2] == l@[2]);
                assert(l@.subrange(0, 6)[3] == l@[3]);
                assert(l@.subrange(0, 6)[4] == l@[4]);
                assert(l@.subrange(0, 6)[5] == l@[5]);
            }
        }
        false
    }
}

/// The field one line contributes, per [`line_field`].
fn line_field_exec(l: &[u8]) -> (r: (Option<Vec<u8>>, Option<Vec<u8>>))
    ensures
        opt_bytes_is(r.0, line_field(l@).0),
        opt_bytes_is(r.1, line_field(l@).1),
{
    if starts_with_event(l) {
        (Some(trim_bytes(&l[7..l.len()])), None)
    } else if starts_with_data(l) {
        (None, Some(trim_bytes(&l[6..l.len()])))
    } else {
        (None, None)
    }
}

/// The `event` and `data` fields of a whole block, per [`parse_fields`].
fn parse_fields_exec(s: &[u8]) -> (r: (Option<Vec<u8>>, Option<Vec<u8>>))
    ensures
        opt_bytes_is(r.0, parse_fields(s@).0),
        opt_bytes_is(r.1, parse_fields(s@).1),
    decreases s@.len(),
{
    let nl = find_newline(s);
    if nl < s.len() {
        let head = line_field_exec(&s[0..nl]);
        let rest = parse_fields_exec(&s[nl + 1..s.len()]);
        (
            if rest.0.is_some() {
                rest.0
            } else {
                head.0
            },
            if rest.1.is_some() {
                rest.1
            } else {
                head.1
            },
        )
    } else {
        proof {
            lemma_first_newline_props(s@);
        }
        line_field_exec(s)
    }
}

/// The hash triple a block carries, per [`message_triple`]: `Some` with
/// the decoded triple for a meaningful block, `None` for anything else.
pub fn parse_sse_message(msg: &[u8]) -> (r: Option<PollHashes>)
    ensures
        match message_triple(msg@) {
            Some(t) => r matches Some(h) && h.board@ == t.0 && h.prompts@ == t.1 && h.documents@
                == t.2,
            None => r is None,
        },
{
    let (e, d) = parse_fields_exec(msg);
    match (e, d) {
        (Some(ev), Some(data)) => {
            let is_init = ev.len() == 4 && ev[0] == 105 && ev[1] == 110 && ev[2] == 105 && ev[3]
                == 116;
            let is_changed = ev.len() == 7 && ev[0] == 99 && ev[1] == 104 && ev[2] == 97 && ev[3]
                == 110 && ev[4] == 103 && ev[5] == 101 && ev[6] == 100;
            proof {
                if is_init {
                    assert(ev@ =~= init_name());
                } else {
                    if ev@ == init_name() {
                        assert(ev@[0] == 105 && ev@[1] == 110 && ev@[2] == 105 && ev@[3] == 116);
                    }
                }
                if is_changed {
                    assert(ev@ =~= changed_name());
                } else {
                    if ev@ == changed_name() {
                        assert(ev@[0] == 99 && ev@[1] == 104 && ev@[2] == 97 && ev@[3] == 110
                            && ev@[4] == 103 && ev@[5] == 101 && ev@[6] == 100);
                    }
                }
            }
            if is_init || is_changed {
                parse_triple_json(data.as_slice())
            } else {
                None
            }
        }
        _ => None,
    }
}


/// The three fingerprints of a triple, at view level.
pub open spec fn triple_view(h: PollHashes) -> (Seq<char>, Seq<char>, Seq<char>) {
    (h.board@, h.prompts@, h.documents@)
}

/// The last-seen triple, at view level.
pub open spec fn last_view(l: Option<PollHashes>) -> Option<(Seq<char>, Seq<char>, Seq<char>)> {
    match l {
        Some(h) => Some(triple_view(h)),
        None => None,
    }
}

/// A fetch plan, at view level: the three refetch flags and the triple to
/// announce.
pub open spec fn plan_view(p: FetchPlan) -> (bool, bool, bool, (Seq<char>, Seq<char>, Seq<char>)) {
    (p.board, p.prompts, p.documents, triple_view(p.hashes))
}

/// [`crate::sync::observe_result`] at view level: the plan a newly
/// observed triple demands given the previously seen one.
pub open spec fn observe_view(
    last: Option<(Seq<char>, Seq<char>, Seq<char>)>,
    t: (Seq<char>, Seq<char>, Seq<char>),
) -> Option<(bool, bool, bool, (Seq<char>, Seq<char>, Seq<char>))> {
    match last {
        None => None,
        Some(p) => {
            let cb = p.0 != t.0;
            let cp = p.1 != t.1;
            let cd = p.2 != t.2;
            if cb || cp || cd {
                Some((cb, cp, cd, t))
            } else {
                None
            }
        },
    }
}

/// Draining a buffer: every completed block is cut off in order, each
/// meaningful triple steps the last-seen state and may demand a plan, and
/// the unfinished tail stays.  Returns the final last-seen triple, the
/// remaining buffer and the demanded plans, all at view level.
pub open spec fn drain_view(last: Option<(Seq<char>, Seq<char>, Seq<char>)>, buf: Seq<u8>) -> (
    Option<(Seq<char>, Seq<char>, Seq<char>)>,
    Seq<u8>,
    Seq<(bool, bool, bool, (Seq<char>, Seq<char>, Seq<char>))>,
)
    decreases buf.len(),
{
    let b = first_boundary(buf);
    if 0 <= b && b + 2 <= buf.len() {
        let msg = buf.subrange(0, b);
        let rest = buf.subrange(b + 2, buf.len() as int);
        match message_triple(msg) {
            Some(t) => {
                let plan = observe_view(last, t);
                let (l2, r2, ps) = drain_view(Some(t), rest);
                (
                    l2,
                    r2,
                    match plan {
                        Some(p) => seq![p] + ps,
                        None => ps,
                    },
                )
            },
            None => drain_view(last, rest),
        }
    } else {
        (last, buf, Seq::<(bool, bool, bool, (Seq<char>, Seq<char>, Seq<char>))>::empty())
    }
}

impl SyncEngine {
    /// Absorb a chunk of stream bytes: completed blocks are cut off the
    /// buffer in order, each meaningful triple is observed, and the fetch
    /// plans those observations demand are returned in order, per
    /// [`drain_view`].
    pub fn ingest_chunk(&mut self, chunk: &[u8]) -> (plans: Vec<FetchPlan>)
        ensures
            final(self).connected == old(self).connected,
            ({
                let (l2, r2, pv) = drain_view(
                    last_view(old(self).last_hashes),
                    old(self).buf@ + chunk@,
                );
                &&& last_view(final(self).last_hashes) == l2
                &&& final(self).buf@ == r2
                &&& plans@.map_values(|p: FetchPlan| plan_view(p)) == pv
            }),
    {
        let mut i: usize = 0;
        while i < chunk.len()
            invariant
                self.connected == old(self).connected,
                self.last_hashes == old(self).last_hashes,
                i <= chunk@.len(),
                self.buf@ == old(self).buf@ + chunk@.take(i as int),
            decreases chunk@.len() - i,
        {
            self.buf.push(chunk[i]);
            proof {
                assert(self.buf@ =~= old(self).buf@ + chunk@.take(i + 1));
            }
            i = i + 1;
        }
        proof {
            assert(old(self).buf@ + chunk@.take(chunk@.len() as int) =~= old(self).buf@ + chunk@);
        }
        let ghost l0 = last_view(self.last_hashes);
        let ghost b0 = self.buf@;
        let mut plans: Vec<FetchPlan> = Vec::new();
        proof {
            let (l2, r2, pv) = drain_view(l0, b0);
            assert(plans@.map_values(|p: FetchPlan| plan_view(p)) + pv =~= pv);
        }
        loop
            invariant
                self.connected == old(self).connected,
                drain_view(l0, b0) == ({
                    let (l2, r2, pv) = drain_view(last_view(self.last_hashes), self.buf@);
                    (l2, r2, plans@.map_values(|p: FetchPlan| plan_view(p)) + pv)
                }),
            ensures
                self.connected == old(self).connected,
                drain_view(l0, b0) == (
                    last_view(self.last_hashes),
                    self.buf@,
                    plans@.map_values(|p: FetchPlan| plan_view(p)),
                ),
            decreases self.buf@.len(),
        {
            let ghost pre_last = last_view(self.last_hashes);
            let ghost pre_buf = self.buf@;
            proof {
                lemma_first_boundary_props(pre_buf);
            }
            let msg = match take_message(&mut self.buf) {
                Some(m) => m,
                None => {
                    proof {
                        let (l2, r2, pv) = drain_view(last_view(self.last_hashes), self.buf@);
                        assert(pv =~= Seq::<
                            (bool, bool, bool, (Seq<char>, Seq<char>, Seq<char>)),
                        >::empty());
                        assert(plans@.map_values(|p: FetchPlan| plan_view(p)) + pv
                            =~= plans@.map_values(|p: FetchPlan| plan_view(p)));
                    }
                    break ;
                },
            };
            match parse_sse_message(msg.as_slice()) {
                Some(h) => {
                    let ghost t = triple_view(h);
                    let plan = self.observe_triple(h);
                    proof {
                        assert(message_triple(pre_buf.subrange(0, first_boundary(pre_buf)))
                            matches Some(tt) && tt == t);
                    }
                    match plan {
                        Some(p) => {
                            proof {
                                assert(observe_view(pre_last, t) matches Some(pp) && pp
                                    == plan_view(p));
                            }
                            let ghost before = plans@;
                            plans.push(p);
                            proof {
                                let f = |q: FetchPlan| plan_view(q);
                                assert(plans@.map_values(f) =~= before.map_values(f).push(
                                    plan_view(p),
                                ));
                                let (l2, r2, ps) = drain_view(last_view(self.last_hashes), self.buf@);
                                assert(before.map_values(f).push(plan_view(p)) + ps
                                    =~= before.map_values(f) + (seq![plan_view(p)] + ps));
                            }
                        },
                        None => {
                            proof {
                                assert(observe_view(pre_last, t) is None);
                            }
                        },
                    }
                },
                None => {
                    proof {
                        assert(message_triple(pre_buf.subrange(0, first_boundary(pre_buf))) is None);
                    }
                },
            }
        }
        plans
    }
}

} // verus!
