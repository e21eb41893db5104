//! Splitting a text into its lines.
//!
//! A line ends at a bare newline or at a carriage return followed by a
//! newline; the terminator is not part of the line, and a terminator at the
//! very end of the text does not open a final empty line.

use vstd::prelude::*;
use vstd::string::StrSliceExecFns;

verus! {

/// The position of the first newline in `s`, or `s.len()` if there is none.
pub open spec fn first_nl(s: Seq<char>) -> int
    decreases s.len(),
{
    if s.len() == 0 {
        0
    } else if s[0] == '\n' {
        0
    } else {
        1 + first_nl(s.subrange(1, s.len() as int))
    }
}

/// The line that ends at the newline at position `i` of `s`: everything
/// before the newline, with a carriage return just before it stripped.
pub open spec fn line_before(s: Seq<char>, i: int) -> Seq<char> {
    if i > 0 && s[i - 1] == '\r' {
        s.subrange(0, i - 1)
    } else {
        s.subrange(0, i)
    }
}

/// The lines of `s`: split at each newline, strip a carriage return standing
/// just before a newline, and let a terminator at the end close its line
/// without opening an empty one.
pub open spec fn spec_lines(s: Seq<char>) -> Seq<Seq<char>>
    decreases s.len(),
{
    if s.len() == 0 {
        Seq::empty()
    } else {
        let i = first_nl(s);
        if 0 <= i < s.len() {
            seq![line_before(s, i)] + spec_lines(s.subrange(i + 1, s.len() as int))
        } else {
            seq![s]
        }
    }
}

/// `first_nl` finds exactly the position whose prefix is newline-free and
/// which holds a newline itself (or is the end of the text).
pub proof fn lemma_first_nl_at(s: Seq<char>, i: int)
    requires
        0 <= i <= s.len(),
        forall|j: int| 0 <= j < i ==> s[j] != '\n',
        i == s.len() || s[i] == '\n',
    ensures
        first_nl(s) == i,
    decreases i,
{
    if i == 0 {
        if s.len() != 0 {
            assert(s[0] == '\n');
        }
    } else {
        assert(s[0] != '\n');
        let t = s.subrange(1, s.len() as int);
        assert forall|j: int| 0 <= j < i - 1 implies t[j] != '\n' by {
            assert(t[j] == s[j + 1]);
        }
        if i < s.len() {
            assert(t[i - 1] == s[i]);
        }
        lemma_first_nl_at(t, i - 1);
    }
}

/// What `first_nl` finds, for any text: a position within bounds, holding a
/// newline unless it is the end, with no newline before it.
pub proof fn lemma_first_nl_props(s: Seq<char>)
    ensures
        0 <= first_nl(s) <= s.len(),
        first_nl(s) < s.len() ==> s[first_nl(s)] == '\n',
        forall|j: int| 0 <= j < first_nl(s) ==> s[j] != '\n',
    decreases s.len(),
{
    if s.len() == 0 {
    } else if s[0] == '\n' {
    } else {
        let t = s.subrange(1, s.len() as int);
        lemma_first_nl_props(t);
        assert forall|j: int| 0 <= j < first_nl(s) implies s[j] != '\n' by {
            if j > 0 {
                assert(s[j] == t[j - 1]);
            }
        }
        if first_nl(s) < s.len() {
            assert(s[first_nl(s)] == t[first_nl(t)]);
        }
    }
}

/// A newline added at the end of a text that does not already end in a
/// terminator character closes the final line without opening an empty one:
/// the lines are exactly those of the text without it.
pub proof fn lemma_trailing_newline(t: Seq<char>)
    requires
        t.len() > 0,
        t.last() != '\n',
        t.last() != '\r',
    ensures
        spec_lines(t.push('\n')) == spec_lines(t),
    decreases t.len(),
{
    let n = t.len() as int;
    let s = t.push('\n');
    lemma_first_nl_props(t);
    let i = first_nl(t);
    if i == n {
        lemma_first_nl_at(s, n);
        assert(line_before(s, n) =~= t);
        assert(s.subrange(n + 1, n + 1).len() == 0);
        assert(spec_lines(s.subrange(n + 1, n + 1)) =~= Seq::<Seq<char>>::empty());
        assert(spec_lines(s) =~= seq![t]);
        assert(spec_lines(t) == seq![t]);
    } else {
        lemma_first_nl_at(s, i);
        assert(line_before(s, i) =~= line_before(t, i));
        let rest = t.subrange(i + 1, n);
        assert(t.last() == rest.last());
        assert(rest.len() > 0) by {
            if i == n - 1 {
                assert(t[n - 1] == '\n');
            }
        }
        assert(s.subrange(i + 1, n + 1) =~= rest.push('\n'));
        lemma_trailing_newline(rest);
        assert(spec_lines(s) =~= spec_lines(t));
    }
}

/// A carriage return and newline added at the end of a text that does not
/// already end in a terminator character behave as the newline alone does:
/// they close the final line without opening an empty one.
pub proof fn lemma_trailing_crlf(t: Seq<char>)
    requires
        t.len() > 0,
        t.last() != '\n',
        t.last() != '\r',
    ensures
        spec_lines(t + seq!['\r', '\n']) == spec_lines(t),
    decreases t.len(),
{
    let n = t.len() as int;
    let s = t + seq!['\r', '\n'];
    lemma_first_nl_props(t);
    let i = first_nl(t);
    if i == n {
        assert(s[n] == '\r');
        assert(s[n + 1] == '\n');
        lemma_first_nl_at(s, n + 1);
        assert(line_before(s, n + 1) =~= t);
        assert(s.subrange(n + 2, n + 2).len() == 0);
        assert(spec_lines(s.subrange(n + 2, n + 2)) =~= Seq::<Seq<char>>::empty());
        assert(spec_lines(s) =~= seq![t]);
        assert(spec_lines(t) == seq![t]);
    } else {
        lemma_first_nl_at(s, i);
        assert(line_before(s, i) =~= line_before(t, i));
        let rest = t.subrange(i + 1, n);
        assert(t.last() == rest.last());
        assert(rest.len() > 0) by {
            if i == n - 1 {
                assert(t[n - 1] == '\n');
            }
        }
        assert(s.subrange(i + 1, n + 2) =~= rest + seq!['\r', '\n']);
        lemma_trailing_crlf(rest);
        assert(spec_lines(s) =~= spec_lines(t));
    }
}

/// No returned line retains a newline: the terminators split the text and
/// are stripped from it.
pub proof fn lemma_terminators_stripped(s: Seq<char>)
    ensures
        forall|k: int| 0 <= k < spec_lines(s).len() ==> !spec_lines(s)[k].contains('\n'),
    decreases s.len(),
{
    if s.len() == 0 {
    } else {
        lemma_first_nl_props(s);
        let i = first_nl(s);
        if i < s.len() {
            let head = line_before(s, i);
            assert(!head.contains('\n')) by {
                assert forall|j: int| 0 <= j < head.len() implies head[j] != '\n' by {
                    assert(head[j] == s[j]);
                }
            }
            let rest = s.subrange(i + 1, s.len() as int);
            lemma_terminators_stripped(rest);
            assert forall|k: int| 0 <= k < spec_lines(s).len() implies !spec_lines(
                s,
            )[k].contains('\n') by {
                if k > 0 {
                    assert(spec_lines(s)[k] == spec_lines(rest)[k - 1]);
                }
            }
        } else {
            assert(!s.contains('\n')) by {
                assert forall|j: int| 0 <= j < s.len() implies s[j] != '\n' by {}
            }
        }
    }
}

/// Splits a text into its lines, as `spec_lines` describes.
pub fn split_lines(s: &str) -> (r: Vec<String>)
    ensures
        r@.map_values(|t: String| t@) == spec_lines(s@),
{
    let n = s.unicode_len();
    let mut r: Vec<String> = Vec::new();
    let mut start: usize = 0;
    let mut i: usize = 0;
    proof {
        assert(s@.subrange(0, n as int) =~= s@);
        assert(r@.map_values(|t: String| t@) + spec_lines(s@) =~= spec_lines(s@));
    }
    while i < n
        invariant
            start <= i <= n,
            n == s@.len(),
            forall|j: int| start <= j < i ==> s@[j] != '\n',
            spec_lines(s@) == r@.map_values(|t: String| t@) + spec_lines(
                s@.subrange(start as int, n as int),
            ),
        decreases n - i,
    {
        if s.get_char(i) == '\n' {
            let end: usize = if i > start && s.get_char(i - 1) == '\r' {
                i - 1
            } else {
                i
            };
            let line = s.substring_char(start, end).to_owned();
            proof {
                let suffix = s@.subrange(start as int, n as int);
                assert forall|j: int| 0 <= j < i - start implies suffix[j] != '\n' by {
                    assert(suffix[j] == s@[start + j]);
                }
                assert(suffix[i - start] == s@[i as int]);
                lemma_first_nl_at(suffix, i - start);
                assert(line_before(suffix, i - start) =~= s@.subrange(start as int, end as int));
                assert(suffix.subrange(i - start + 1, suffix.len() as int) =~= s@.subrange(
                    i + 1,
                    n as int,
                ));
                assert(spec_lines(suffix) == seq![line@] + spec_lines(
                    s@.subrange(i + 1, n as int),
                ));
                assert((r@ + seq![line]).map_values(|t: String| t@) =~= r@.map_values(
                    |t: String| t@,
                ) + seq![line@]);
            }
            r.push(line);
            start = i + 1;
        }
        i += 1;
    }
    if start < n {
        let line = s.substring_char(start, n).to_owned();
        proof {
            let suffix = s@.subrange(start as int, n as int);
            assert forall|j: int| 0 <= j < suffix.len() implies suffix[j] != '\n' by {
                assert(suffix[j] == s@[start + j]);
            }
            lemma_first_nl_at(suffix, suffix.len() as int);
            assert(suffix =~= s@.subrange(start as int, n as int));
            assert(spec_lines(suffix) == seq![suffix]);
            assert((r@ + seq![line]).map_values(|t: String| t@) =~= r@.map_values(|t: String| t@)
                + seq![line@]);
        }
        r.push(line);
    } else {
        proof {
            assert(s@.subrange(start as int, n as int).len() == 0);
            assert(r@.map_values(|t: String| t@) + spec_lines(s@.subrange(start as int, n as int))
                =~= r@.map_values(|t: String| t@));
        }
    }
    r
}

} // verus!
