//! Small text helpers used around the board view: counting markdown
//! checkboxes in a task body, rendering a progress bar for them,
//! truncating a label to a width, and parsing a `#rrggbb` colour.

use vstd::prelude::*;

use vstd::arithmetic::div_mod::{lemma_div_is_ordered, lemma_div_multiples_vanish};
use vstd::string::{StrSliceExecFns, StringSliceAdditionalSpecFns};

use crate::sse::first_newline;

verus! {

/// Whitespace stripped from the front of a line before the checkbox
/// marker is looked for: space, tab, carriage return.
pub open spec fn is_blank(b: u8) -> bool {
    b == 32 || b == 9 || b == 13
}

/// The line with its leading blanks removed.
pub open spec fn lead_trim(s: Seq<u8>) -> Seq<u8>
    decreases s.len(),
{
    if s.len() > 0 && is_blank(s[0]) {
        lead_trim(s.drop_first())
    } else {
        s
    }
}

/// What one line contributes to the checkbox count: `(1, 1)` for a
/// checked box (`- [x]` or `- [X]`), `(0, 1)` for an unchecked box
/// (`- [ ]`), `(0, 0)` for anything else.
pub open spec fn line_box(l: Seq<u8>) -> (nat, nat) {
    let t = lead_trim(l);
    if t.len() >= 5 && t[0] == 45 && t[1] == 32 && t[2] == 91 && (t[3] == 120 || t[3] == 88)
        && t[4] == 93 {
        (1, 1)
    } else if t.len() >= 5 && t[0] == 45 && t[1] == 32 && t[2] == 91 && t[3] == 32 && t[4] == 93 {
        (0, 1)
    } else {
        (0, 0)
    }
}

/// The checked and total checkbox counts of a whole body, line by line.
pub open spec fn count_boxes(s: Seq<u8>) -> (nat, nat)
    decreases s.len(),
{
    let i = first_newline(s);
    if 0 <= i < s.len() {
        let head = line_box(s.subrange(0, i));
        let rest = count_boxes(s.subrange(i + 1, s.len() as int));
        (head.0 + rest.0, head.1 + rest.1)
    } else {
        line_box(s)
    }
}

proof fn lemma_count_boxes_bounds(s: Seq<u8>)
    ensures
        count_boxes(s).0 <= count_boxes(s).1 <= s.len(),
    decreases s.len(),
{
    crate::sse::lemma_first_newline_props(s);
    let i = first_newline(s);
    if 0 <= i < s.len() {
        lemma_count_boxes_bounds(s.subrange(i + 1, s.len() as int));
        lemma_line_box_bounds(s.subrange(0, i));
    } else {
        lemma_line_box_bounds(s);
    }
}

proof fn lemma_line_box_bounds(l: Seq<u8>)
    ensures
        line_box(l).0 <= line_box(l).1,
        line_box(l).1 <= l.len(),
    decreases l.len(),
{
    lemma_lead_trim_len(l);
}

proof fn lemma_lead_trim_len(l: Seq<u8>)
    ensures
        lead_trim(l).len() <= l.len(),
    decreases l.len(),
{
    if l.len() > 0 && is_blank(l[0]) {
        lemma_lead_trim_len(l.drop_first());
    }
}

proof fn lemma_lead_trim_scan(s: Seq<u8>, lo: int)
    requires
        0 <= lo <= s.len(),
        forall|j: int| 0 <= j < lo ==> is_blank(s[j]),
        lo == s.len() || !is_blank(s[lo]),
    ensures
        lead_trim(s) == s.subrange(lo, s.len() as int),
    decreases lo,
{
    if lo == 0 {
        assert(s.subrange(0, s.len() as int) =~= s);
    } else {
        lemma_lead_trim_scan(s.drop_first(), lo - 1);
        assert(s.drop_first().subrange(lo - 1, s.drop_first().len() as int) =~= s.subrange(
            lo,
            s.len() as int,
        ));
    }
}

/// What one line contributes to the checkbox count, per [`line_box`].
fn line_box_exec(l: &[u8]) -> (r: (usize, usize))
    ensures
        r.0 == line_box(l@).0,
        r.1 == line_box(l@).1,
{
    let mut lo: usize = 0;
    while lo < l.len() && (l[lo] == 32 || l[lo] == 9 || l[lo] == 13)
        invariant
            0 <= lo <= l@.len(),
            forall|j: int| 0 <= j < lo ==> is_blank(l@[j]),
        decreases l@.len() - lo,
    {
        lo = lo + 1;
    }
    proof {
        lemma_lead_trim_scan(l@, lo as int);
    }
    let ghost t = lead_trim(l@);
    if l.len() - lo >= 5 && l[lo] == 45 && l[lo + 1] == 32 && l[lo + 2] == 91 && (l[lo + 3] == 120
        || l[lo + 3] == 88) && l[lo + 4] == 93 {
        proof {
            assert(t[0] == l@[lo as int]);
            assert(t[1] == l@[lo + 1]);
            assert(t[2] == l@[lo + 2]);
            assert(t[3] == l@[lo + 3]);
            assert(t[4] == l@[lo + 4]);
        }
        (1, 1)
    } else if l.len() - lo >= 5 && l[lo] == 45 && l[lo + 1] == 32 && l[lo + 2] == 91 && l[lo + 3]
        == 32 && l[lo + 4] == 93 {
        proof {
            assert(t[0] == l@[lo as int]);
            assert(t[1] == l@[lo + 1]);
            assert(t[2] == l@[lo + 2]);
            assert(t[3] == l@[lo + 3]);
            assert(t[4] == l@[lo + 4]);
        }
        (0, 1)
    } else {
        proof {
            if t.len() >= 5 {
                assert(t[0] == l@[lo as int]);
                assert(t[1] == l@[lo + 1]);
                assert(t[2] == l@[lo + 2]);
                assert(t[3] == l@[lo + 3]);
                assert(t[4] == l@[lo + 4]);
            }
        }
        (0, 0)
    }
}

fn count_boxes_exec(s: &[u8]) -> (r: (usize, usize))
    ensures
        r.0 == count_boxes(s@).0,
        r.1 == count_boxes(s@).1,
    decreases s@.len(),
{
    proof {
        crate::sse::lemma_first_newline_props(s@);
        lemma_count_boxes_bounds(s@);
    }
    let nl = crate::sse::find_newline(s);
    if nl < s.len() {
        proof {
            lemma_line_box_bounds(s@.subrange(0, nl as int));
            lemma_count_boxes_bounds(s@.subrange(nl + 1, s@.len() as int));
        }
        let head = line_box_exec(&s[0..nl]);
        let rest = count_boxes_exec(&s[nl + 1..s.len()]);
        (head.0 + rest.0, head.1 + rest.1)
    } else {
        line_box_exec(s)
    }
}

/// Count the markdown checkboxes in a body: checked (`- [x]`, `- [X]`)
/// and total (those plus `- [ ]`), per [`count_boxes`].
pub fn count_checkboxes(body: &str) -> (r: (usize, usize))
    ensures
        r.0 == count_boxes(body.spec_bytes()).0,
        r.1 == count_boxes(body.spec_bytes()).1,
        r.0 <= r.1,
    {
    proof {
        lemma_count_boxes_bounds(body.spec_bytes());
    }
    count_boxes_exec(body.as_bytes())
}

/// The decimal digit characters of a number, most significant first.
pub open spec fn dec_str(n: int) -> Seq<char>
    decreases n,
{
    if n < 10 {
        seq![digit_char(n)]
    } else {
        dec_str(n / 10).push(digit_char(n % 10))
    }
}

/// The character of one decimal digit.
pub open spec fn digit_char(d: int) -> char {
    if d == 0 { '0' }
    else if d == 1 { '1' }
    else if d == 2 { '2' }
    else if d == 3 { '3' }
    else if d == 4 { '4' }
    else if d == 5 { '5' }
    else if d == 6 { '6' }
    else if d == 7 { '7' }
    else if d == 8 { '8' }
    else { '9' }
}

fn digit_literal(d: usize) -> (r: &'static str)
    requires
        d < 10,
    ensures
        r@ == seq![digit_char(d as int)],
{
    proof {
        reveal_strlit("0");
        reveal_strlit("1");
        reveal_strlit("2");
        reveal_strlit("3");
        reveal_strlit("4");
        reveal_strlit("5");
        reveal_strlit("6");
        reveal_strlit("7");
        reveal_strlit("8");
        reveal_strlit("9");
    }
    match d {
        0 => "0",
        1 => "1",
        2 => "2",
        3 => "3",
        4 => "4",
        5 => "5",
        6 => "6",
        7 => "7",
        8 => "8",
        _ => "9",
    }
}

/// A number as its decimal digits, per [`dec_str`].
pub fn dec_string(n: usize) -> (r: String)
    ensures
        r@ == dec_str(n as int),
    decreases n,
{
    if n < 10 {
        let mut s = String::new();
        s.append(digit_literal(n));
        proof {
            assert(s@ =~= dec_str(n as int));
        }
        s
    } else {
        let mut s = dec_string(n / 10);
        s.append(digit_literal(n % 10));
        proof {
            assert(s@ =~= dec_str(n as int));
        }
        s
    }
}

/// The same character repeated.
pub open spec fn repeat_char(c: char, n: int) -> Seq<char>
    decreases n,
{
    if n <= 0 {
        Seq::<char>::empty()
    } else {
        repeat_char(c, n - 1).push(c)
    }
}

/// A progress bar over the checkbox counts: empty for no checkboxes,
/// otherwise `[`, eight bar cells filled in proportion, `] `, and
/// `checked/total` in decimal.
pub open spec fn progress_str(checked: int, total: int) -> Seq<char> {
    if total == 0 {
        Seq::<char>::empty()
    } else {
        let filled = (checked * 8) / total;
        seq!['['] + repeat_char('#', filled) + repeat_char('-', 8 - filled) + seq![']', ' ']
            + dec_str(checked) + seq!['/'] + dec_str(total)
    }
}

/// Render the checkbox progress bar, per [`progress_str`].
pub fn format_progress(checked: usize, total: usize) -> (r: String)
    requires
        checked <= total,
    ensures
        r@ == progress_str(checked as int, total as int),
{
    if total == 0 {
        return String::new();
    }
    let filled_wide: u128 = (checked as u128) * 8 / (total as u128);
    proof {
        lemma_div_is_ordered(checked as int * 8, total as int * 8, total as int);
        lemma_div_multiples_vanish(8, total as int);
        assert(checked as int * 8 <= total as int * 8) by (nonlinear_arith)
            requires checked as int <= total as int;
        assert(total as int * 8 == total as int * 8);
        assert((total as int * 8) / (total as int) == 8) by {
            assert(total as int * 8 == (total as int) * 8);
            lemma_div_multiples_vanish(8, total as int);
        }
    }
    let filled = filled_wide as usize;
    let mut s = String::new();
    s.append("[");
    proof {
        reveal_strlit("[");
        reveal_strlit("#");
        reveal_strlit("-");
        reveal_strlit("] ");
        reveal_strlit("/");
        assert(s@ =~= seq!['['] + repeat_char('#', 0));
    }
    let mut i: usize = 0;
    while i < filled
        invariant
            i <= filled,
            filled <= 8,
            s@ == seq!['['] + repeat_char('#', i as int),
        decreases filled - i,
    {
        s.append("#");
        proof {
            reveal_strlit("#");
            assert(s@ =~= seq!['['] + repeat_char('#', i + 1));
        }
        i = i + 1;
    }
    let mut j: usize = 0;
    while j < 8 - filled
        invariant
            filled <= 8,
            j <= 8 - filled,
            s@ == seq!['['] + repeat_char('#', filled as int) + repeat_char('-', j as int),
        decreases 8 - filled - j,
    {
        s.append("-");
        proof {
            reveal_strlit("-");
            assert(s@ =~= seq!['['] + repeat_char('#', filled as int) + repeat_char(
                '-',
                j + 1,
            ));
        }
        j = j + 1;
    }
    s.append("] ");
    let cs = dec_string(checked);
    s.append(cs.as_str());
    s.append("/");
    let ts = dec_string(total);
    s.append(ts.as_str());
    proof {
        reveal_strlit("] ");
        reveal_strlit("/");
        assert(s@ =~= progress_str(checked as int, total as int));
    }
    s
}

/// A label cut to a width in characters: left alone when it fits, else
/// cut with a three-dot tail when the width leaves room for one, else cut
/// hard.
pub open spec fn truncated(s: Seq<char>, max: int) -> Seq<char> {
    if s.len() <= max {
        s
    } else if max > 3 {
        s.subrange(0, max - 3) + seq!['.', '.', '.']
    } else {
        s.subrange(0, max)
    }
}

/// Cut a label to at most `max_width` characters, per [`truncated`].
pub fn truncate(s: &str, max_width: usize) -> (r: String)
    ensures
        r@ == truncated(s@, max_width as int),
{
    let n = s.unicode_len();
    if n <= max_width {
        s.to_owned()
    } else if max_width > 3 {
        let head = s.substring_char(0, max_width - 3);
        let mut out = head.to_owned();
        out.append("...");
        proof {
            reveal_strlit("...");
            assert(out@ =~= truncated(s@, max_width as int));
        }
        out
    } else {
        s.substring_char(0, max_width).to_owned()
    }
}

/// The value of one hexadecimal digit, or -1 for any other byte.
pub open spec fn hex_digit_val(b: u8) -> int {
    if 48 <= b <= 57 {
        b - 48
    } else if 97 <= b <= 102 {
        b - 87
    } else if 65 <= b <= 70 {
        b - 55
    } else {
        -1
    }
}

/// The leading `#` marks of a colour string, removed.
pub open spec fn strip_hashes(s: Seq<u8>) -> Seq<u8>
    decreases s.len(),
{
    if s.len() > 0 && s[0] == 35 {
        strip_hashes(s.drop_first())
    } else {
        s
    }
}

/// One colour component from the two hex digits at `i`, with 255 for a
/// pair that is no hex number.
pub open spec fn hex_component(s: Seq<u8>, i: int) -> u8 {
    if hex_digit_val(s[i]) >= 0 && hex_digit_val(s[i + 1]) >= 0 {
        (16 * hex_digit_val(s[i]) + hex_digit_val(s[i + 1])) as u8
    } else {
        255
    }
}

/// The red, green and blue components of a `#rrggbb` colour string, or
/// nothing when (after its leading `#` marks) it is not six bytes long.
pub open spec fn hex_rgb(s: Seq<u8>) -> Option<(u8, u8, u8)> {
    let t = strip_hashes(s);
    if t.len() == 6 {
        Some((hex_component(t, 0), hex_component(t, 2), hex_component(t, 4)))
    } else {
        None
    }
}

proof fn lemma_strip_hashes_scan(s: Seq<u8>, lo: int)
    requires
        0 <= lo <= s.len(),
        forall|j: int| 0 <= j < lo ==> s[j] == 35,
        lo == s.len() || s[lo] != 35,
    ensures
        strip_hashes(s) == s.subrange(lo, s.len() as int),
    decreases lo,
{
    if lo == 0 {
        assert(s.subrange(0, s.len() as int) =~= s);
    } else {
        lemma_strip_hashes_scan(s.drop_first(), lo - 1);
        assert(s.drop_first().subrange(lo - 1, s.drop_first().len() as int) =~= s.subrange(
            lo,
            s.len() as int,
        ));
    }
}

/// The value of one hexadecimal digit byte, per [`hex_digit_val`].
fn hex_val(b: u8) -> (r: Option<u8>)
    ensures
        match r {
            Some(v) => hex_digit_val(b) == v as int,
            None => hex_digit_val(b) < 0,
        },
{
    if 48 <= b && b <= 57 {
        Some(b - 48)
    } else if 97 <= b && b <= 102 {
        Some(b - 87)
    } else if 65 <= b && b <= 70 {
        Some(b - 55)
    } else {
        None
    }
}

/// One colour component from two hex digit bytes, per [`hex_component`].
fn component(s: &[u8], i: usize) -> (r: u8)
    requires
        i + 2 <= s@.len(),
    ensures
        r == hex_component(s@, i as int),
{
    match (hex_val(s[i]), hex_val(s[i + 1])) {
        (Some(h), Some(l)) => 16 * h + l,
        _ => 255,
    }
}

/// Parse a `#rrggbb` colour string into its components, per [`hex_rgb`]:
/// leading `#` marks are stripped, exactly six bytes must remain, and a
/// component whose pair is no hex number saturates to 255.
pub fn parse_hex_rgb(hex: &str) -> (r: Option<(u8, u8, u8)>)
    ensures
        r == hex_rgb(hex.spec_bytes()),
{
    let s = hex.as_bytes();
    let mut lo: usize = 0;
    while lo < s.len() && s[lo] == 35
        invariant
            0 <= lo <= s@.len(),
            forall|j: int| 0 <= j < lo ==> s@[j] == 35,
        decreases s@.len() - lo,
    {
        lo = lo + 1;
    }
    proof {
        lemma_strip_hashes_scan(s@, lo as int);
    }
    if s.len() - lo != 6 {
        return None;
    }
    let ghost t = strip_hashes(s@);
    proof {
        assert(t =~= s@.subrange(lo as int, s@.len() as int));
        assert(t[0] == s@[lo as int]);
        assert(t[1] == s@[lo + 1]);
        assert(t[2] == s@[lo + 2]);
        assert(t[3] == s@[lo + 3]);
        assert(t[4] == s@[lo + 4]);
        assert(t[5] == s@[lo + 5]);
    }
    let red = component(s, lo);
    let green = component(s, lo + 2);
    let blue = component(s, lo + 4);
    Some((red, green, blue))
}

} // verus!
