//! Finding the primary connected output in the display tool's listing.
use vstd::prelude::*;
use crate::text::{chars_of, occurs_at};

verus! {

/// The text that follows an output's name on the line of the primary output.
pub const PRIMARY_MARKER: &'static str = " connected primary";

/// The characters that may make up an output's name: digits, capital letters and `-`.
pub open spec fn is_name_char(c: char) -> bool {
    ('0' <= c && c <= '9') || ('A' <= c && c <= 'Z') || c == '-'
}

/// The marker as a sequence of characters.
pub open spec fn marker() -> Seq<char> {
    PRIMARY_MARKER@
}

/// `s[i..j]` is a non-empty name followed directly by the marker.
pub open spec fn is_primary_at(s: Seq<char>, i: int, j: int) -> bool {
    &&& 0 <= i < j
    &&& j + marker().len() <= s.len()
    &&& forall|k: int| i <= k < j ==> is_name_char(#[trigger] s[k])
    &&& s.subrange(j, j + marker().len()) == marker()
}

/// Whether `c` may be part of an output's name.
fn name_char(c: char) -> (r: bool)
    ensures
        r == is_name_char(c),
{
    ('0' <= c && c <= '9') || ('A' <= c && c <= 'Z') || c == '-'
}

/// `name` is the name of the primary output in `s`: the name of the leftmost match.
pub open spec fn primary_output_is(s: Seq<char>, name: Seq<char>) -> bool {
    exists|i: int, j: int|
        {
            &&& is_primary_at(s, i, j)
            &&& name == s.subrange(i, j)
            &&& forall|i2: int, j2: int| is_primary_at(s, i2, j2) ==> i <= i2
        }
}

/// Some line of `s` names a primary connected output.
pub open spec fn has_primary_output(s: Seq<char>) -> bool {
    exists|i: int, j: int| is_primary_at(s, i, j)
}

/// The name of the primary connected output in `listing`: the leftmost non-empty run of
/// digits, capital letters and `-` that is directly followed by " connected primary".
pub fn find_primary_output(listing: &str) -> (r: Option<String>)
    ensures
        match r {
            Some(name) => primary_output_is(listing@, name@),
            None => !has_primary_output(listing@),
        },
{
    let v = chars_of(listing);
    let m = chars_of(PRIMARY_MARKER);
    proof {
        reveal_strlit(" connected primary");
    }
    assert(m@[0] == ' ');
    let n = v.len();
    let mut start: usize = 0;
    let mut p: usize = 0;
    while p < n
        invariant
            n == v.len(),
            v@ == listing@,
            m@ == marker(),
            m@[0] == ' ',
            m@.len() > 0,
            start <= p <= n,
            forall|k: int| start <= k < p ==> is_name_char(#[trigger] v@[k]),
            start == 0 || !is_name_char(v@[start - 1]),
            forall|i: int, j: int| is_primary_at(listing@, i, j) ==> j >= p,
        decreases n - p,
    {
        if name_char(v[p]) {
            p += 1;
        } else {
            if start < p && occurs_at(&v, p, &m) {
                assert(is_primary_at(listing@, start as int, p as int));
                assert forall|i2: int, j2: int| is_primary_at(listing@, i2, j2) implies start <= i2 by {
                    if i2 < start {
                        assert(is_name_char(v@[start - 1]));
                    }
                }
                let name = listing.substring_char(start, p);
                return Some(name.to_owned());
            }
            assert forall|i: int, j: int| is_primary_at(listing@, i, j) implies j >= p + 1 by {
                if j == p {
                    if start == p {
                        assert(is_name_char(v@[p - 1]));
                    } else {
                        assert(listing@.subrange(j, j + marker().len()) == m@);
                    }
                }
            }
            p += 1;
            start = p;
        }
    }
    assert forall|i: int, j: int| !is_primary_at(listing@, i, j) by {
        if is_primary_at(listing@, i, j) {
            assert(j + marker().len() <= n);
        }
    }
    None
}

/// The text, without its leading space, that must follow a name for it to count.
pub const CONNECTED_PRIMARY: &'static str = "connected primary";

/// A listing in which "connected primary" never occurs names no primary output.
pub proof fn lemma_no_marker_no_output(s: Seq<char>)
    requires
        forall|k: int|
            0 <= k && k + CONNECTED_PRIMARY@.len() <= s.len() ==> #[trigger] s.subrange(
                k,
                k + CONNECTED_PRIMARY@.len(),
            ) != CONNECTED_PRIMARY@,
    ensures
        !has_primary_output(s),
{
    reveal_strlit(" connected primary");
    reveal_strlit("connected primary");
    assert forall|i: int, j: int| !is_primary_at(s, i, j) by {
        if is_primary_at(s, i, j) {
            let k = j + 1;
            assert(s.subrange(k, k + CONNECTED_PRIMARY@.len()) =~= marker().subrange(
                1,
                marker().len() as int,
            ));
            assert(marker().subrange(1, marker().len() as int) =~= CONNECTED_PRIMARY@);
        }
    }
}

/// A listing names at most one primary output: the resolved name is determined by the
/// listing.
pub proof fn lemma_primary_output_unique(s: Seq<char>, a: Seq<char>, b: Seq<char>)
    requires
        primary_output_is(s, a),
        primary_output_is(s, b),
    ensures
        a == b,
{
    reveal_strlit(" connected primary");
    let (i1, j1) = choose|i: int, j: int|
        {
            &&& is_primary_at(s, i, j)
            &&& a == s.subrange(i, j)
            &&& forall|i2: int, j2: int| is_primary_at(s, i2, j2) ==> i <= i2
        };
    let (i2, j2) = choose|i: int, j: int|
        {
            &&& is_primary_at(s, i, j)
            &&& b == s.subrange(i, j)
            &&& forall|i3: int, j3: int| is_primary_at(s, i3, j3) ==> i <= i3
        };
    assert(i1 == i2);
    if j1 < j2 {
        assert(s.subrange(j1, j1 + marker().len())[0] == s[j1]);
        assert(is_name_char(s[j1]));
    } else if j2 < j1 {
        assert(s.subrange(j2, j2 + marker().len())[0] == s[j2]);
        assert(is_name_char(s[j2]));
    }
}

} // verus!
