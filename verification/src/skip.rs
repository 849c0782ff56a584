//! Skip conditions: the yes/no gate evaluated before a build step runs. A
//! skip holds a list of conditions, each with the position it was parsed
//! from, and optionally the result of evaluating them.

use vstd::prelude::*;

verus! {

/// A position in a parsed source document.
#[derive(Debug, Clone, Copy, PartialEq, Eq, Structural)]
pub struct SourcePos {
    /// Line, counted from one.
    pub line: usize,
    /// Column, counted from one.
    pub column: usize,
}

/// The range of a parsed node in its source document, when known.
#[derive(Debug, Clone, Copy, PartialEq, Eq, Structural)]
pub struct Span {
    /// Where the node starts, when known.
    pub start: Option<SourcePos>,
    /// Where the node ends, when known.
    pub end: Option<SourcePos>,
}

impl Span {
    /// A span pointing nowhere, for conditions that were not parsed from a
    /// document.
    pub fn new_blank() -> (r: Self)
        ensures
            r.start is None,
            r.end is None,
    {
        Self { start: None, end: None }
    }
}

/// Merged evaluation results: true when either is true, false when both are
/// false, and unevaluated otherwise.
pub open spec fn spec_merge_eval(a: Option<bool>, b: Option<bool>) -> Option<bool> {
    if a == Some(true) || b == Some(true) {
        Some(true)
    } else if a == Some(false) && b == Some(false) {
        Some(false)
    } else {
        None
    }
}

/// The result evaluating a condition list yields: the first error, or true
/// as soon as one condition is true, or false once all are false.
pub open spec fn spec_with_eval(evals: Seq<Result<bool, String>>) -> Result<bool, Seq<char>>
    decreases evals.len(),
{
    if evals.len() == 0 {
        Ok(false)
    } else {
        match evals[0] {
            Ok(b) => if b {
                Ok(true)
            } else {
                spec_with_eval(evals.skip(1))
            },
            Err(e) => Err(e@),
        }
    }
}

/// A set of skip conditions with their source positions, and the result of
/// evaluating them once that has happened.
#[derive(Debug, Clone)]
pub struct Skip(pub Vec<(String, Span)>, pub Option<bool>);

impl Default for Skip {
    /// No conditions, not evaluated.
    fn default() -> (r: Self)
        ensures
            r.0@.len() == 0,
            r.1 is None,
    {
        Skip(Vec::new(), None)
    }
}

impl Skip {
    /// Whether there are no conditions.
    pub fn is_empty(&self) -> (r: bool)
        ensures
            r == (self.0@.len() == 0),
    {
        self.0.len() == 0
    }

    /// Merge two skips by combining their conditions. If both are already
    /// evaluated, the evaluations merge by or: if either is true, the merged
    /// result is true. Otherwise the evaluation is reset.
    pub fn merge(self, other: Skip) -> (r: Self)
        ensures
            r.0@ == self.0@ + other.0@,
            r.1 == spec_merge_eval(self.1, other.1),
    {
        let Skip(mut conditions, eval) = self;
        let Skip(mut other_conditions, other_eval) = other;
        conditions.append(&mut other_conditions);
        let merged_eval = match (eval, other_eval) {
            (Some(true), _) | (_, Some(true)) => Some(true),
            (Some(false), Some(false)) => Some(false),
            _ => None,
        };
        Skip(conditions, merged_eval)
    }

    /// Record the outcome of evaluating the conditions, one outcome per
    /// condition in order: the first error is returned, a first true
    /// condition evaluates the skip to true, and all-false evaluates it to
    /// false. Outcomes past the first decisive one are ignored, as a
    /// short-circuiting evaluator never produces them.
    pub fn with_eval(self, evals: &Vec<Result<bool, String>>) -> (r: Result<Skip, String>)
        requires
            evals@.len() == self.0@.len(),
        ensures
            spec_with_eval(evals@) matches Ok(b) ==> (r matches Ok(s) && s.0 == self.0 && s.1
                == Some(b)),
            spec_with_eval(evals@) matches Err(m) ==> (r matches Err(e) && e@ == m),
    {
        let ghost ev = evals@;
        let mut i: usize = 0;
        proof {
            assert(ev.skip(0) =~= ev);
        }
        let n = evals.len();
        while i < n
            invariant
                0 <= i <= n,
                ev == evals@,
                n == ev.len(),
                spec_with_eval(ev.skip(i as int)) == spec_with_eval(ev),
            decreases n - i,
        {
            let ghost rest = ev.skip(i as int);
            proof {
                assert(rest[0] == ev[i as int]);
                assert(rest.skip(1) =~= ev.skip(i + 1));
            }
            match &evals[i] {
                Ok(true) => {
                    return Ok(Skip(self.0, Some(true)));
                },
                Ok(false) => {},
                Err(e) => {
                    return Err(e.clone());
                },
            }
            i += 1;
        }
        proof {
            assert(ev.skip(n as int) =~= Seq::<Result<bool, String>>::empty());
        }
        Ok(Skip(self.0, Some(false)))
    }

    /// Whether the step is skipped: an unevaluated skip counts as skipped.
    pub fn eval(&self) -> (r: bool)
        ensures
            r == match self.1 {
                Some(b) => b,
                None => true,
            },
    {
        match self.1 {
            Some(b) => b,
            None => true,
        }
    }
}

/// Merging evaluations is symmetric and or-like: a true side wins, two
/// false sides stay false, and an unevaluated side without a true on the
/// other resets the merge.
pub proof fn lemma_merge_eval_or(a: Option<bool>, b: Option<bool>)
    ensures
        spec_merge_eval(a, b) == spec_merge_eval(b, a),
        spec_merge_eval(a, b) == Some(true) <==> (a == Some(true) || b == Some(true)),
        spec_merge_eval(a, b) == Some(false) <==> (a == Some(false) && b == Some(false)),
{
}

} // verus!
