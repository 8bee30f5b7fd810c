//! Reading the brightness field out of the display tool's verbose report.
use vstd::prelude::*;
use crate::text::{chars_of, is_white_space, occurs_at, push_char, white_space};

verus! {

/// The label that introduces the brightness value in the verbose report.
pub const BRIGHTNESS_LABEL: &'static str = "Brightness:";

/// The label as a sequence of characters.
pub open spec fn label() -> Seq<char> {
    BRIGHTNESS_LABEL@
}

/// `line` holds the label somewhere.
pub open spec fn has_label(line: Seq<char>) -> bool {
    exists|k: int|
        0 <= k && k + label().len() <= line.len() && #[trigger] line.subrange(k, k + label().len())
            == label()
}

/// Scans `s` from position `i`, where the current line began at `start`, and yields the
/// first line (the text between two `'\n'`, or an end of `s`) that holds the label.
pub open spec fn labelled_line_from(s: Seq<char>, start: int, i: int) -> Option<Seq<char>>
    decreases s.len() - i,
{
    if i >= s.len() {
        if has_label(s.subrange(start, s.len() as int)) {
            Some(s.subrange(start, s.len() as int))
        } else {
            None
        }
    } else if s[i] == '\n' {
        if has_label(s.subrange(start, i)) {
            Some(s.subrange(start, i))
        } else {
            labelled_line_from(s, i + 1, i + 1)
        }
    } else {
        labelled_line_from(s, start, i + 1)
    }
}

/// The first line of `s` that holds the label, if any.
pub open spec fn labelled_line(s: Seq<char>) -> Option<Seq<char>> {
    labelled_line_from(s, 0, 0)
}

/// `t` with every occurrence of the label taken out, left to right.
pub open spec fn without_label(t: Seq<char>) -> Seq<char>
    decreases t.len(),
{
    if t.len() == 0 {
        t
    } else if 0 < label().len() <= t.len() && t.take(label().len() as int) == label() {
        without_label(t.skip(label().len() as int))
    } else {
        seq![t[0]] + without_label(t.skip(1))
    }
}

/// `t` with every whitespace character taken out.
pub open spec fn without_white_space(t: Seq<char>) -> Seq<char>
    decreases t.len(),
{
    if t.len() == 0 {
        t
    } else if is_white_space(t.last()) {
        without_white_space(t.drop_last())
    } else {
        without_white_space(t.drop_last()).push(t.last())
    }
}

/// The text of the brightness value in a verbose report: the first line that holds the
/// label, with the label and all whitespace removed.
pub open spec fn level_text(report: Seq<char>) -> Option<Seq<char>> {
    match labelled_line(report) {
        Some(line) => Some(without_white_space(without_label(line))),
        None => None,
    }
}

/// Whether `v[lo..hi]` holds `pat`.
fn holds_within(v: &Vec<char>, lo: usize, hi: usize, pat: &Vec<char>) -> (r: bool)
    requires
        lo <= hi <= v.len(),
        pat@ == label(),
        pat@.len() > 0,
    ensures
        r == has_label(v@.subrange(lo as int, hi as int)),
{
    let ghost line = v@.subrange(lo as int, hi as int);
    let mut k: usize = lo;
    while k < hi && pat.len() <= hi - k
        invariant
            lo <= k <= hi,
            hi <= v.len(),
            line == v@.subrange(lo as int, hi as int),
            pat@ == label(),
            pat@.len() > 0,
            forall|m: int|
                0 <= m < k - lo && m + label().len() <= line.len() ==> #[trigger] line.subrange(
                    m,
                    m + label().len(),
                ) != label(),
        decreases hi - k,
    {
        if occurs_at(v, k, pat) {
            assert(line.subrange(k - lo, k - lo + label().len()) =~= v@.subrange(
                k as int,
                k + pat.len(),
            ));
            return true;
        }
        assert(line.subrange(k - lo, k - lo + label().len()) =~= v@.subrange(
            k as int,
            k + pat.len(),
        ));
        k += 1;
    }
    assert forall|m: int| 0 <= m && m + label().len() <= line.len() implies #[trigger] line.subrange(
        m,
        m + label().len(),
    ) != label() by {
        assert(m < k - lo);
    }
    false
}

/// The first line of `v` that holds the label, as the range of its positions.
fn find_labelled_line(v: &Vec<char>, pat: &Vec<char>) -> (r: Option<(usize, usize)>)
    requires
        pat@ == label(),
        pat@.len() > 0,
    ensures
        match r {
            Some((lo, hi)) => lo <= hi <= v.len() && labelled_line(v@) == Some(
                v@.subrange(lo as int, hi as int),
            ),
            None => labelled_line(v@) is None,
        },
{
    let n = v.len();
    let mut start: usize = 0;
    let mut i: usize = 0;
    while i < n
        invariant
            n == v.len(),
            start <= i <= n,
            pat@ == label(),
            pat@.len() > 0,
            labelled_line(v@) == labelled_line_from(v@, start as int, i as int),
        decreases n - i,
    {
        if v[i] == '\n' {
            if holds_within(v, start, i, pat) {
                return Some((start, i));
            }
            start = i + 1;
        }
        i += 1;
    }
    if holds_within(v, start, n, pat) {
        Some((start, n))
    } else {
        None
    }
}

/// `v[lo..hi]` with every occurrence of the label removed.
fn remove_label(v: &Vec<char>, lo: usize, hi: usize, pat: &Vec<char>) -> (r: Vec<char>)
    requires
        lo <= hi <= v.len(),
        pat@ == label(),
        pat@.len() > 0,
    ensures
        r@ == without_label(v@.subrange(lo as int, hi as int)),
{
    let ghost line = v@.subrange(lo as int, hi as int);
    let mut out: Vec<char> = Vec::new();
    let mut k: usize = lo;
    while k < hi
        invariant
            lo <= k <= hi <= v.len(),
            line == v@.subrange(lo as int, hi as int),
            pat@ == label(),
            pat@.len() > 0,
            out@ + without_label(v@.subrange(k as int, hi as int)) == without_label(line),
        decreases hi - k,
    {
        let ghost rest = v@.subrange(k as int, hi as int);
        if pat.len() <= hi - k && occurs_at(v, k, pat) {
            assert(rest.take(label().len() as int) =~= v@.subrange(k as int, k + pat.len()));
            assert(rest.skip(label().len() as int) =~= v@.subrange(k + pat.len(), hi as int));
            k += pat.len();
        } else {
            if pat.len() <= hi - k {
                assert(rest.take(label().len() as int) =~= v@.subrange(k as int, k + pat.len()));
            }
            assert(rest.skip(1) =~= v@.subrange(k + 1, hi as int));
            out.push(v[k]);
            assert(out@ + without_label(v@.subrange(k + 1, hi as int)) =~= out@.drop_last() + (
            seq![rest[0]] + without_label(rest.skip(1))));
            k += 1;
        }
    }
    assert(out@ + without_label(v@.subrange(k as int, hi as int)) =~= out@);
    out
}

/// `t` with every whitespace character removed, as a `String`.
fn remove_white_space(t: &Vec<char>) -> (r: String)
    ensures
        r@ == without_white_space(t@),
{
    let mut out = String::new();
    let mut k: usize = 0;
    while k < t.len()
        invariant
            k <= t.len(),
            out@ == without_white_space(t@.take(k as int)),
        decreases t.len() - k,
    {
        assert(t@.take(k + 1).drop_last() =~= t@.take(k as int));
        if !white_space(t[k]) {
            push_char(&mut out, t[k]);
        }
        k += 1;
    }
    assert(t@.take(k as int) =~= t@);
    out
}

/// The text of the brightness value in a verbose report: the first line that holds
/// "Brightness:", with every "Brightness:" and every whitespace character removed.
/// `None` where no line holds the label.
pub fn brightness_level_text(report: &str) -> (r: Option<String>)
    ensures
        match r {
            Some(t) => level_text(report@) == Some(t@),
            None => level_text(report@) is None,
        },
{
    let v = chars_of(report);
    let pat = chars_of(BRIGHTNESS_LABEL);
    proof {
        reveal_strlit("Brightness:");
    }
    match find_labelled_line(&v, &pat) {
        Some((lo, hi)) => {
            let stripped = remove_label(&v, lo, hi, &pat);
            Some(remove_white_space(&stripped))
        },
        None => None,
    }
}

/// What the verbose report of the display tool says of the brightness.
#[derive(Debug, Clone)]
pub enum Reading {
    /// The query could not be run, or it wrote to its error stream.
    Failed,
    /// No line of the report holds the label.
    Absent,
    /// The text of the level, as the report gives it.
    Level(String),
}

/// `r` is what a query that printed `stdout` and `stderr` says.
pub open spec fn reads_as(r: &Reading, stdout: Seq<char>, stderr: Seq<char>) -> bool {
    if stderr.len() > 0 {
        r is Failed
    } else {
        match level_text(stdout) {
            Some(t) => match r {
                Reading::Level(l) => l@ == t,
                _ => false,
            },
            None => r is Absent,
        }
    }
}

/// Interprets the output of the verbose query: any text on the error stream makes it a
/// failure, whatever the report holds; otherwise the level is read from the report.
pub fn interpret_report(stdout: &str, stderr: &str) -> (r: Reading)
    ensures
        reads_as(&r, stdout@, stderr@),
        stderr@.len() > 0 ==> r is Failed,
{
    if !stderr.is_empty() {
        return Reading::Failed;
    }
    match brightness_level_text(stdout) {
        Some(t) => Reading::Level(t),
        None => Reading::Absent,
    }
}

} // verus!
