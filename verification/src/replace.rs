//! Whole-buffer substring replacement, as plain text.
//!
//! The buffer is treated as a sequence of characters, not as pattern
//! syntax: every non-overlapping occurrence of `from` is replaced with
//! `to`, left to right.
use vstd::prelude::*;
use vstd::string::StrSliceExecFns;
use vstd::string::StringExecFns;

verus! {

/// `s` with every non-overlapping occurrence of `from` replaced by `to`,
/// left to right.  An empty `from` occurs at every character boundary,
/// including both ends.
pub open spec fn replace_text(s: Seq<char>, from: Seq<char>, to: Seq<char>) -> Seq<char>
    decreases s.len(),
{
    if s.len() == 0 {
        if from.len() == 0 {
            to
        } else {
            s
        }
    } else if from.len() <= s.len() && s.subrange(0, from.len() as int) == from {
        if from.len() == 0 {
            to + seq![s[0]] + replace_text(s.subrange(1, s.len() as int), from, to)
        } else {
            to + replace_text(s.subrange(from.len() as int, s.len() as int), from, to)
        }
    } else {
        seq![s[0]] + replace_text(s.subrange(1, s.len() as int), from, to)
    }
}

/// Replacing an empty `from` in one more character appends that character
/// and one more copy of `to`.
proof fn lemma_replace_empty_push(t: Seq<char>, c: char, from: Seq<char>, to: Seq<char>)
    requires
        from.len() == 0,
    ensures
        replace_text(t.push(c), from, to) == replace_text(t, from, to) + seq![c] + to,
    decreases t.len(),
{
    let tc = t.push(c);
    assert(tc.subrange(0, 0) =~= from);
    if t.len() == 0 {
        assert(tc[0] == c);
        assert(tc.subrange(1, tc.len() as int) =~= Seq::<char>::empty());
        assert(replace_text(Seq::<char>::empty(), from, to) == to);
        assert(replace_text(tc, from, to) == to + seq![c] + replace_text(
            tc.subrange(1, tc.len() as int),
            from,
            to,
        ));
        assert(replace_text(t, from, to) == to);
        assert(replace_text(tc, from, to) =~= replace_text(t, from, to) + seq![c] + to);
    } else {
        let t1 = t.subrange(1, t.len() as int);
        assert(tc[0] == t[0]);
        assert(tc.subrange(1, tc.len() as int) =~= t1.push(c));
        lemma_replace_empty_push(t1, c, from, to);
        assert(t.subrange(0, 0) =~= from);
        assert(replace_text(tc, from, to) =~= replace_text(t, from, to) + seq![c] + to);
    }
}

/// True when `from` occurs in `s` at character position `i`.
fn matches_at(s: &str, i: usize, from: &str, n: usize, m: usize) -> (found: bool)
    requires
        n == s@.len(),
        m == from@.len(),
        i + m <= n,
    ensures
        found == (s@.subrange(i as int, i + m) == from@),
{
    let mut j: usize = 0;
    while j < m
        invariant
            j <= m,
            i + m <= n,
            n == s@.len(),
            m == from@.len(),
            forall|k: int| 0 <= k < j ==> s@[i + k] == from@[k],
        decreases m - j,
    {
        if s.get_char(i + j) != from.get_char(j) {
            proof {
                let sub = s@.subrange(i as int, i + m);
                assert(sub[j as int] == s@[i + j]);
            }
            return false;
        }
        j += 1;
    }
    proof {
        assert(s@.subrange(i as int, i + m) =~= from@);
    }
    true
}

/// `s` with every non-overlapping occurrence of `from` replaced by `to`,
/// left to right, as a fresh string.
pub fn replace_str(s: &str, from: &str, to: &str) -> (result: String)
    ensures
        result@ == replace_text(s@, from@, to@),
{
    let n: usize = s.unicode_len();
    let m: usize = from.unicode_len();
    let mut out: String = String::new();
    if m == 0 {
        out.append(to);
        assert(s@.subrange(0, 0) =~= Seq::<char>::empty());
        assert(out@ =~= replace_text(s@.subrange(0, 0), from@, to@));
        let mut i: usize = 0;
        while i < n
            invariant
                i <= n,
                n == s@.len(),
                from@.len() == 0,
                out@ == replace_text(s@.subrange(0, i as int), from@, to@),
            decreases n - i,
        {
            let piece = s.substring_char(i, i + 1);
            out.append(piece);
            out.append(to);
            proof {
                let prefix = s@.subrange(0, i as int);
                lemma_replace_empty_push(prefix, s@[i as int], from@, to@);
                assert(s@.subrange(0, i + 1) =~= prefix.push(s@[i as int]));
                assert(piece@ =~= seq![s@[i as int]]);
                assert(out@ =~= replace_text(s@.subrange(0, i + 1), from@, to@));
            }
            i += 1;
        }
        proof {
            assert(s@.subrange(0, n as int) =~= s@);
        }
        return out;
    }
    let mut i: usize = 0;
    assert(s@.subrange(0, n as int) =~= s@);
    assert(out@ + replace_text(s@.subrange(0, n as int), from@, to@) =~= replace_text(
        s@,
        from@,
        to@,
    ));
    while i < n
        invariant
            i <= n,
            n == s@.len(),
            m == from@.len(),
            m > 0,
            replace_text(s@, from@, to@) == out@ + replace_text(
                s@.subrange(i as int, n as int),
                from@,
                to@,
            ),
        decreases n - i,
    {
        let tail_matches: bool = if m <= n - i {
            matches_at(s, i, from, n, m)
        } else {
            false
        };
        proof {
            let t = s@.subrange(i as int, n as int);
            if m <= n - i {
                assert(t.subrange(0, m as int) =~= s@.subrange(i as int, i + m));
            }
        }
        if tail_matches {
            out.append(to);
            proof {
                let t = s@.subrange(i as int, n as int);
                assert(t.subrange(m as int, t.len() as int) =~= s@.subrange(i + m, n as int));
                assert(out@ + replace_text(s@.subrange(i + m, n as int), from@, to@)
                    =~= replace_text(s@, from@, to@));
            }
            i += m;
        } else {
            let piece = s.substring_char(i, i + 1);
            out.append(piece);
            proof {
                let t = s@.subrange(i as int, n as int);
                assert(t[0] == s@[i as int]);
                assert(t.subrange(1, t.len() as int) =~= s@.subrange(i + 1, n as int));
                assert(piece@ =~= seq![t[0]]);
                assert(out@ + replace_text(s@.subrange(i + 1, n as int), from@, to@)
                    =~= replace_text(s@, from@, to@));
            }
            i += 1;
        }
    }
    proof {
        let t = s@.subrange(n as int, n as int);
        assert(t =~= Seq::<char>::empty());
        assert(out@ + replace_text(t, from@, to@) =~= out@);
    }
    out
}

} // verus!
