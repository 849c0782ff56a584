//! Redaction: literal substring replacement applied to every captured output
//! line before it is buffered or logged (used for path masking and secret
//! redaction).
//!
//! Replacements are applied in the order the mapping lists them; each
//! replaces every occurrence of its source text, scanning left to right. An
//! empty source text replaces nothing.

use vstd::prelude::*;
use crate::command::pairs_view;

verus! {

/// Replacement of every occurrence of `from` by `to` in `s`, scanning left
/// to right: at each position, if `from` starts there, `to` is emitted and
/// the scan resumes after the occurrence; otherwise the character is kept.
/// An empty `from` leaves `s` unchanged.
pub open spec fn spec_replace(s: Seq<char>, from: Seq<char>, to: Seq<char>) -> Seq<char>
    decreases s.len(),
{
    if from.len() == 0 || s.len() < from.len() {
        s
    } else if s.subrange(0, from.len() as int) == from {
        to + spec_replace(s.skip(from.len() as int), from, to)
    } else {
        seq![s[0]] + spec_replace(s.skip(1), from, to)
    }
}

/// All replacements of a mapping applied to `s`, first entry first.
pub open spec fn spec_redact(s: Seq<char>, reps: Seq<(Seq<char>, Seq<char>)>) -> Seq<char>
    decreases reps.len(),
{
    if reps.len() == 0 {
        s
    } else {
        spec_redact(spec_replace(s, reps[0].0, reps[0].1), reps.skip(1))
    }
}

/// Whether `pat` occurs in `s` starting at character position `i`.
fn matches_at(s: &str, i: usize, pat: &str, n: usize, plen: usize) -> (r: bool)
    requires
        n == s@.len(),
        plen == pat@.len(),
        i + plen <= n,
    ensures
        r == (s@.subrange(i as int, i + pat@.len()) == pat@),
{
    let mut j: usize = 0;
    while j < plen
        invariant
            0 <= j <= plen,
            n == s@.len(),
            plen == pat@.len(),
            i + plen <= n,
            forall|k: int| 0 <= k < j ==> s@[i + k] == pat@[k],
        decreases plen - j,
    {
        if s.get_char(i + j) != pat.get_char(j) {
            proof {
                let sub = s@.subrange(i as int, i + pat@.len());
                assert(sub[j as int] == s@[i + j]);
                assert(sub != pat@);
            }
            return false;
        }
        j += 1;
    }
    proof {
        assert(s@.subrange(i as int, i + pat@.len()) =~= pat@);
    }
    true
}

/// Replace every occurrence of `from` in `s` by `to`, scanning left to
/// right; occurrences introduced by a replacement are not scanned again.
pub fn replace_str(s: &str, from: &str, to: &str) -> (r: String)
    ensures
        r@ == spec_replace(s@, from@, to@),
{
    let n = s.unicode_len();
    let flen = from.unicode_len();
    if flen == 0 {
        return String::from_str(s);
    }
    let mut out = String::new();
    let mut i: usize = 0;
    proof {
        assert(s@.skip(0) =~= s@);
        assert(out@ + spec_replace(s@, from@, to@) =~= spec_replace(s@, from@, to@));
    }
    while i < n
        invariant
            0 <= i <= n,
            n == s@.len(),
            flen == from@.len(),
            flen >= 1,
            out@ + spec_replace(s@.skip(i as int), from@, to@) == spec_replace(s@, from@, to@),
        decreases n - i,
    {
        let ghost rest = s@.skip(i as int);
        if flen <= n - i && matches_at(s, i, from, n, flen) {
            proof {
                assert(rest.subrange(0, from@.len() as int) =~= s@.subrange(
                    i as int,
                    i + from@.len(),
                ));
                assert(spec_replace(rest, from@, to@) == to@ + spec_replace(
                    rest.skip(from@.len() as int),
                    from@,
                    to@,
                ));
                assert(rest.skip(from@.len() as int) =~= s@.skip(i + from@.len()));
            }
            out.append(to);
            i += flen;
        } else {
            proof {
                if rest.len() < from@.len() {
                    assert(spec_replace(rest, from@, to@) == rest);
                    assert(rest.skip(1) =~= s@.skip(i + 1));
                    assert(rest == seq![s@[i as int]] + rest.skip(1));
                } else {
                    assert(rest.subrange(0, from@.len() as int) =~= s@.subrange(
                        i as int,
                        i + from@.len(),
                    ));
                    assert(spec_replace(rest, from@, to@) == seq![rest[0]] + spec_replace(
                        rest.skip(1),
                        from@,
                        to@,
                    ));
                    assert(rest.skip(1) =~= s@.skip(i + 1));
                }
            }
            let c = s.substring_char(i, i + 1);
            out.append(c);
            proof {
                assert(c@ =~= seq![s@[i as int]]);
            }
            i += 1;
        }
    }
    proof {
        assert(s@.skip(n as int) =~= Seq::<char>::empty());
        assert(spec_replace(s@.skip(n as int), from@, to@) =~= Seq::<char>::empty());
        assert(out@ =~= out@ + Seq::<char>::empty());
    }
    out
}

/// Apply every replacement of the mapping to one line, in mapping order.
pub fn redact_line(line: &str, replacements: &Vec<(String, String)>) -> (r: String)
    ensures
        r@ == spec_redact(line@, pairs_view(replacements@)),
{
    let mut cur = String::from_str(line);
    let mut k: usize = 0;
    proof {
        assert(pairs_view(replacements@).skip(0) =~= pairs_view(replacements@));
    }
    while k < replacements.len()
        invariant
            0 <= k <= replacements@.len(),
            spec_redact(cur@, pairs_view(replacements@).skip(k as int)) == spec_redact(
                line@,
                pairs_view(replacements@),
            ),
        decreases replacements@.len() - k,
    {
        let ghost reps = pairs_view(replacements@);
        proof {
            assert(reps.skip(k as int)[0] == (replacements@[k as int].0@, replacements@[k as int].1@));
            assert(reps.skip(k as int).skip(1) =~= reps.skip(k + 1));
        }
        let next = replace_str(cur.as_str(), replacements[k].0.as_str(), replacements[k].1.as_str());
        cur = next;
        k += 1;
    }
    proof {
        assert(pairs_view(replacements@).skip(replacements@.len() as int) =~= Seq::<(
            Seq<char>,
            Seq<char>,
        )>::empty());
    }
    cur
}

} // verus!
