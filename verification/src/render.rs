//! The line formatter: verified construction of the fixed-column glog text.
//!
//! Everything here is pure text assembly over plain values.  Specification
//! functions describe each fragment as a `Seq<char>`, and the executable
//! builders append exactly those fragments to a `String`.

use vstd::prelude::*;

use crate::time::Timestamp;

verus! {

/// The decimal digit character for `d` in `0 ..= 9`.
pub open spec fn digit_char(d: int) -> char {
    if d == 0 {
        '0'
    } else if d == 1 {
        '1'
    } else if d == 2 {
        '2'
    } else if d == 3 {
        '3'
    } else if d == 4 {
        '4'
    } else if d == 5 {
        '5'
    } else if d == 6 {
        '6'
    } else if d == 7 {
        '7'
    } else if d == 8 {
        '8'
    } else {
        '9'
    }
}

/// The decimal rendering of `n`, most significant digit first, with no
/// leading zeros (except for `n == 0`, which renders as `"0"`).
pub open spec fn dec_seq(n: nat) -> Seq<char>
    decreases n,
{
    if n < 10 {
        seq![digit_char(n as int)]
    } else {
        dec_seq(n / 10).push(digit_char((n % 10) as int))
    }
}

/// `s`, left-padded with `c` up to width `w`; `s` itself if already wide
/// enough.
pub open spec fn pad_left(s: Seq<char>, w: nat, c: char) -> Seq<char> {
    if s.len() >= w {
        s
    } else {
        Seq::new((w - s.len()) as nat, |i: int| c) + s
    }
}

/// A two-column zero-padded decimal field, as in the timestamp.
pub open spec fn pad2(n: nat) -> Seq<char> {
    pad_left(dec_seq(n), 2, '0')
}

/// The rendering of a possibly negative year, zero-padded to four digits,
/// with a leading minus sign for negative years.
pub open spec fn year_seq(y: int) -> Seq<char> {
    if y < 0 {
        "-"@ + pad_left(dec_seq((-y) as nat), 4, '0')
    } else {
        pad_left(dec_seq(y as nat), 4, '0')
    }
}

/// A decimal rendering never is empty.
pub proof fn lemma_dec_seq_nonempty(n: nat)
    ensures
        dec_seq(n).len() >= 1,
    decreases n,
{
    if n >= 10 {
        lemma_dec_seq_nonempty(n / 10);
    }
}

/// Decimal renderings identify their number: different numbers never render
/// to the same text.
pub proof fn lemma_dec_seq_injective(n1: nat, n2: nat)
    requires
        n1 != n2,
    ensures
        dec_seq(n1) != dec_seq(n2),
    decreases n1 + n2,
{
    if n1 < 10 && n2 < 10 {
        assert(dec_seq(n1)[0] == digit_char(n1 as int));
        assert(dec_seq(n2)[0] == digit_char(n2 as int));
    } else if n1 < 10 {
        lemma_dec_seq_nonempty(n2 / 10);
        assert(dec_seq(n2).len() >= 2);
    } else if n2 < 10 {
        lemma_dec_seq_nonempty(n1 / 10);
        assert(dec_seq(n1).len() >= 2);
    } else {
        if n1 / 10 == n2 / 10 {
            assert(n1 % 10 != n2 % 10) by {
                assert(n1 == 10 * (n1 / 10) + n1 % 10);
                assert(n2 == 10 * (n2 / 10) + n2 % 10);
            }
            assert(dec_seq(n1).last() != dec_seq(n2).last());
        } else {
            lemma_dec_seq_injective(n1 / 10, n2 / 10);
            if dec_seq(n1) == dec_seq(n2) {
                assert(dec_seq(n1).drop_last() =~= dec_seq(n1 / 10));
                assert(dec_seq(n2).drop_last() =~= dec_seq(n2 / 10));
            }
        }
    }
}

/// The single-character string for digit `d`.
fn digit_str(d: u64) -> (r: &'static str)
    requires
        d < 10,
    ensures
        r@ == seq![digit_char(d as int)],
{
    let r = if d == 0 {
        "0"
    } else if d == 1 {
        "1"
    } else if d == 2 {
        "2"
    } else if d == 3 {
        "3"
    } else if d == 4 {
        "4"
    } else if d == 5 {
        "5"
    } else if d == 6 {
        "6"
    } else if d == 7 {
        "7"
    } else if d == 8 {
        "8"
    } else {
        "9"
    };
    proof {
        reveal_strlit("0");
        reveal_strlit("1");
        reveal_strlit("2");
        reveal_strlit("3");
        reveal_strlit("4");
        reveal_strlit("5");
        reveal_strlit("6");
        reveal_strlit("7");
        reveal_strlit("8");
        reveal_strlit("9");
        assert(r@ =~= seq![digit_char(d as int)]);
    }
    r
}

/// Appends the decimal rendering of `n` to `out`.
pub fn push_dec(out: &mut String, n: u64)
    ensures
        final(out)@ == old(out)@ + dec_seq(n as nat),
    decreases n,
{
    if n < 10 {
        out.append(digit_str(n));
    } else {
        push_dec(out, n / 10);
        out.append(digit_str(n % 10));
        proof {
            assert(final(out)@ =~= old(out)@ + dec_seq(n as nat));
        }
    }
}

/// Appends the decimal rendering of `n`, left-padded to `width` with zeros
/// (for fixed-width timestamp fields) or spaces (for the thread-id column).
pub fn push_dec_pad(out: &mut String, n: u64, width: usize, zero: bool)
    ensures
        final(out)@ == old(out)@ + pad_left(dec_seq(n as nat), width as nat, if zero { '0' } else { ' ' }),
{
    proof {
        reveal_strlit("0");
        reveal_strlit(" ");
    }
    let ghost fill: char = if zero { '0' } else { ' ' };
    let mut digits = String::new();
    push_dec(&mut digits, n);
    proof {
        assert(digits@ =~= dec_seq(n as nat));
    }
    let len = digits.as_str().unicode_len();
    let mut i: usize = len;
    while i < width
        invariant
            len <= i,
            i < width ==> len < width,
            len == dec_seq(n as nat).len(),
            len < width ==> i <= width,
            len >= width ==> i == len,
            out@ == old(out)@ + Seq::new((i - len) as nat, |j: int| fill),
            fill == (if zero { '0' } else { ' ' }),
            digits@ == dec_seq(n as nat),
        decreases width - i,
    {
        if zero {
            out.append("0");
        } else {
            out.append(" ");
        }
        i = i + 1;
        proof {
            reveal_strlit("0");
            reveal_strlit(" ");
            assert(out@ =~= old(out)@ + Seq::new((i - len) as nat, |j: int| fill));
        }
    }
    out.append(digits.as_str());
    proof {
        assert(final(out)@ =~= old(out)@ + pad_left(dec_seq(n as nat), width as nat, fill));
    }
}

/// Appends the four-digit year field, with a sign for negative years.
pub fn push_year(out: &mut String, y: i32)
    requires
        -262143 <= y <= 262142,
    ensures
        final(out)@ == old(out)@ + year_seq(y as int),
{
    if y < 0 {
        out.append("-");
        let m: u64 = (-(y as i64)) as u64;
        push_dec_pad(out, m, 4, true);
        proof {
            assert(final(out)@ =~= old(out)@ + year_seq(y as int));
        }
    } else {
        push_dec_pad(out, y as u64, 4, true);
    }
}

/// The timestamp of a log line: an optional year, then month and day, a
/// space, and the time of day with six sub-second digits.
pub open spec fn date_time_seq(ts: Timestamp, with_year: bool) -> Seq<char> {
    (if with_year {
        year_seq(ts.year as int)
    } else {
        Seq::<char>::empty()
    }) + pad2(ts.month as nat) + pad2(ts.day as nat) + " "@ + pad2(ts.hour as nat) + ":"@ + pad2(
        ts.minute as nat,
    ) + ":"@ + pad2(ts.second as nat) + "."@ + pad_left(dec_seq(ts.micros as nat), 6, '0')
}

/// One full log line: the abbreviation of `l`, the timestamp, the thread id
/// right-aligned in a five-column field, the source location, and the
/// message verbatim (embedded newlines are passed through untouched).
pub open spec fn line_seq(
    l: crate::level::Level,
    ts: Timestamp,
    with_year: bool,
    tid: nat,
    file: Seq<char>,
    line: nat,
    msg: Seq<char>,
) -> Seq<char> {
    crate::level::abbrev_seq(l) + date_time_seq(ts, with_year) + " "@ + pad_left(
        dec_seq(tid),
        5,
        ' ',
    ) + " "@ + file + ":"@ + dec_seq(line) + "] "@ + msg
}

/// Appends the timestamp fields to `out`.
pub fn push_date_time(out: &mut String, ts: Timestamp, with_year: bool)
    requires
        ts.wf(),
    ensures
        final(out)@ == old(out)@ + date_time_seq(ts, with_year),
{
    if with_year {
        push_year(out, ts.year);
    }
    push_dec_pad(out, ts.month as u64, 2, true);
    push_dec_pad(out, ts.day as u64, 2, true);
    out.append(" ");
    push_dec_pad(out, ts.hour as u64, 2, true);
    out.append(":");
    push_dec_pad(out, ts.minute as u64, 2, true);
    out.append(":");
    push_dec_pad(out, ts.second as u64, 2, true);
    out.append(".");
    push_dec_pad(out, ts.micros as u64, 6, true);
    proof {
        assert(final(out)@ =~= old(out)@ + date_time_seq(ts, with_year));
    }
}

/// Builds one full log line.
pub fn build_line(
    l: crate::level::Level,
    ts: Timestamp,
    with_year: bool,
    tid: u64,
    file: &str,
    line: u32,
    msg: &str,
) -> (r: String)
    requires
        ts.wf(),
    ensures
        r@ == line_seq(l, ts, with_year, tid as nat, file@, line as nat, msg@),
{
    let mut out = String::new();
    out.append(l.abbreviation());
    push_date_time(&mut out, ts, with_year);
    out.append(" ");
    push_dec_pad(&mut out, tid, 5, false);
    out.append(" ");
    out.append(file);
    out.append(":");
    push_dec(&mut out, line as u64);
    out.append("] ");
    out.append(msg);
    proof {
        assert(out@ =~= line_seq(l, ts, with_year, tid as nat, file@, line as nat, msg@));
    }
    out
}

/// The characters after the last `/` of a path; empty when the path ends
/// with a `/`, the whole path when it holds none.
pub open spec fn basename_seq(s: Seq<char>) -> Seq<char>
    decreases s.len(),
{
    if s.len() == 0 {
        s
    } else if s.last() == '/' {
        Seq::<char>::empty()
    } else {
        basename_seq(s.drop_last()).push(s.last())
    }
}

/// When no separator occurs at or after position `k`, and `k` sits right
/// after a separator (or at the start), the basename is the suffix from `k`.
proof fn lemma_basename_suffix(s: Seq<char>, k: int)
    requires
        0 <= k <= s.len(),
        forall|j: int| k <= j < s.len() ==> s[j] != '/',
        k > 0 ==> s[k - 1] == '/',
    ensures
        basename_seq(s) == s.subrange(k, s.len() as int),
    decreases s.len(),
{
    if k == s.len() {
        if s.len() > 0 {
            assert(s.last() == '/');
        }
        assert(basename_seq(s) =~= s.subrange(k, s.len() as int));
    } else {
        assert(s.last() != '/');
        lemma_basename_suffix(s.drop_last(), k);
        assert(basename_seq(s) =~= s.subrange(k, s.len() as int));
    }
}

/// Extracts the basename of a path: the part after the last `/`.
pub fn basename(path: &str) -> (r: String)
    ensures
        r@ == basename_seq(path@),
{
    let len = path.unicode_len();
    let mut k: usize = len;
    while k > 0 && path.get_char(k - 1) != '/'
        invariant
            k <= len,
            len == path@.len(),
            forall|j: int| k <= j < path@.len() ==> path@[j] != '/',
        decreases k,
    {
        k = k - 1;
    }
    let suffix = path.substring_char(k, len);
    proof {
        lemma_basename_suffix(path@, k as int);
    }
    String::from_str(suffix)
}

/// Toggling the year flag changes only the year field: the line with a year
/// equals the line without one, with the year text spliced in right after
/// the one-character abbreviation.
#[verifier::rlimit(50)]
pub proof fn lemma_year_toggle(
    l: crate::level::Level,
    ts: Timestamp,
    tid: nat,
    file: Seq<char>,
    line: nat,
    msg: Seq<char>,
)
    ensures
        line_seq(l, ts, true, tid, file, line, msg) == line_seq(l, ts, false, tid, file, line, msg)
            .take(1) + year_seq(ts.year as int) + line_seq(l, ts, false, tid, file, line, msg).skip(
            1,
        ),
{
    crate::level::lemma_abbreviation_is_initial(l);
    let a = crate::level::abbrev_seq(l);
    let y = year_seq(ts.year as int);
    let r = date_time_seq(ts, false) + " "@ + pad_left(dec_seq(tid), 5, ' ') + " "@ + file + ":"@
        + dec_seq(line) + "] "@ + msg;
    let l0 = line_seq(l, ts, false, tid, file, line, msg);
    let l1 = line_seq(l, ts, true, tid, file, line, msg);
    assert(date_time_seq(ts, true) =~= y + date_time_seq(ts, false));
    assert(l0 =~= a + r);
    assert(l1 =~= a + (y + r));
    assert(l0.take(1) =~= a);
    assert(l0.skip(1) =~= r);
    assert(a + (y + r) =~= a + y + r);
}

} // verus!
