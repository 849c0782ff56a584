//! Volume mounts: a filesystem path together with the access mode under which
//! it is exposed inside an isolated execution environment.

use vstd::prelude::*;

verus! {

/// Access mode for volume mounts.
#[derive(Debug, Clone, Copy, PartialEq, Eq, Structural)]
pub enum VolumeAccessMode {
    /// Read-only access
    ReadOnly,
    /// Read-write access
    ReadWrite,
}

/// A volume mount specification with path and access mode.
#[derive(Debug, Clone)]
pub struct VolumeMount {
    /// The path to mount
    pub path: String,
    /// The access mode for this mount
    pub access_mode: VolumeAccessMode,
}

impl VolumeMount {
    /// Create a new read-only volume mount.
    pub fn read_only(path: String) -> (r: Self)
        ensures
            r.path == path,
            r.access_mode == VolumeAccessMode::ReadOnly,
    {
        Self { path, access_mode: VolumeAccessMode::ReadOnly }
    }

    /// Create a new read-write volume mount.
    pub fn read_write(path: String) -> (r: Self)
        ensures
            r.path == path,
            r.access_mode == VolumeAccessMode::ReadWrite,
    {
        Self { path, access_mode: VolumeAccessMode::ReadWrite }
    }
}

/// View of a mount list as path/mode pairs.
pub open spec fn mounts_view(s: Seq<VolumeMount>) -> Seq<(Seq<char>, VolumeAccessMode)> {
    s.map_values(|m: VolumeMount| (m.path@, m.access_mode))
}

/// A sequence without repeated elements.
pub open spec fn no_dups(s: Seq<Seq<char>>) -> bool {
    forall|i: int, j: int| 0 <= i < j < s.len() ==> s[i] != s[j]
}

/// Position of the last `/` in a path, `-1` when there is none.
pub open spec fn spec_last_slash(s: Seq<char>) -> int
    decreases s.len(),
{
    if s.len() == 0 {
        -1
    } else if s[s.len() - 1] == '/' {
        s.len() - 1
    } else {
        spec_last_slash(s.take(s.len() - 1))
    }
}

proof fn lemma_last_slash(s: Seq<char>)
    ensures
        -1 <= spec_last_slash(s) < s.len(),
        spec_last_slash(s) >= 0 ==> s[spec_last_slash(s)] == '/',
        forall|k: int| spec_last_slash(s) < k < s.len() ==> s[k] != '/',
    decreases s.len(),
{
    if s.len() == 0 {
    } else if s[s.len() - 1] == '/' {
    } else {
        let t = s.take(s.len() - 1);
        lemma_last_slash(t);
        assert(forall|k: int| 0 <= k < t.len() ==> t[k] == s[k]);
    }
}

/// The parent directory of a path, read from its text: everything before
/// the last `/`, the root for a top-level entry, nothing for a relative
/// name without separator or for the root itself.
pub open spec fn spec_parent(s: Seq<char>) -> Option<Seq<char>> {
    let j = spec_last_slash(s);
    if j > 0 {
        Some(s.subrange(0, j))
    } else if j == 0 && s.len() > 1 {
        Some(seq!['/'])
    } else {
        None
    }
}

/// The parent directory of a path, when it has one.
pub fn parent_of(path: &str) -> (r: Option<String>)
    ensures
        (r is Some) == (spec_parent(path@) is Some),
        r matches Some(p) ==> spec_parent(path@) matches Some(q) && p@ == q,
{
    let n = path.unicode_len();
    let mut j: usize = n;
    proof {
        lemma_last_slash(path@);
    }
    while j > 0
        invariant
            0 <= j <= n,
            n == path@.len(),
            forall|k: int| j <= k < n ==> path@[k] != '/',
        decreases j,
    {
        if path.get_char(j - 1) == '/' {
            proof {
                lemma_last_slash(path@);
                assert(path@[j - 1] == '/');
                let l = spec_last_slash(path@);
                if l > j - 1 {
                    assert(path@[l] != '/');
                }
                if l < j - 1 {
                    assert(path@[j - 1] != '/');
                }
                assert(spec_last_slash(path@) == j - 1);
            }
            if j - 1 > 0 {
                return Some(path.substring_char(0, j - 1).to_owned());
            } else if n > 1 {
                let root = String::from_str("/");
                proof {
                    reveal_strlit("/");
                    assert(root@ =~= seq!['/']);
                }
                return Some(root);
            } else {
                return None;
            }
        }
        j -= 1;
    }
    proof {
        lemma_last_slash(path@);
        let l = spec_last_slash(path@);
        if l >= 0 {
            assert(path@[l] != '/');
        }
        assert(spec_last_slash(path@) == -1);
    }
    None
}

/// Whether some string of `v` has the text `x`.
pub(crate) fn contains_string(v: &Vec<String>, x: &String) -> (r: bool)
    ensures
        r == crate::command::strs_view(v@).contains(x@),
{
    let ghost sv = crate::command::strs_view(v@);
    let mut i: usize = 0;
    while i < v.len()
        invariant
            0 <= i <= v@.len(),
            sv == crate::command::strs_view(v@),
            forall|k: int| 0 <= k < i ==> sv[k] != x@,
        decreases v@.len() - i,
    {
        if v[i].eq(x) {
            proof {
                assert(sv[i as int] == x@);
            }
            return true;
        }
        i += 1;
    }
    proof {
        assert(forall|k: int| 0 <= k < sv.len() ==> sv[k] != x@);
    }
    false
}

/// Each path followed by its parent directory, in input order.
pub open spec fn spec_expand(ps: Seq<Seq<char>>) -> Seq<Seq<char>>
    decreases ps.len(),
{
    if ps.len() == 0 {
        Seq::empty()
    } else {
        let head = match spec_parent(ps[0]) {
            Some(q) => seq![ps[0], q],
            None => seq![ps[0]],
        };
        head + spec_expand(ps.skip(1))
    }
}

/// First occurrences of `s`, appended in order to `acc`.
pub open spec fn spec_dedup_from(s: Seq<Seq<char>>, acc: Seq<Seq<char>>) -> Seq<Seq<char>>
    decreases s.len(),
{
    if s.len() == 0 {
        acc
    } else if acc.contains(s[0]) {
        spec_dedup_from(s.skip(1), acc)
    } else {
        spec_dedup_from(s.skip(1), acc.push(s[0]))
    }
}

/// The resolved mount list for a set of paths: each path and its parent
/// directory, deduplicated, keeping the first occurrence of each. The
/// result is a function of the input alone, so resolution is deterministic.
pub open spec fn spec_resolve(ps: Seq<Seq<char>>) -> Seq<Seq<char>> {
    spec_dedup_from(spec_expand(ps), Seq::empty())
}

proof fn lemma_dedup_from_props(s: Seq<Seq<char>>, acc: Seq<Seq<char>>)
    ensures
        forall|x: Seq<char>|
            spec_dedup_from(s, acc).contains(x) <==> (acc.contains(x) || s.contains(x)),
        no_dups(acc) ==> no_dups(spec_dedup_from(s, acc)),
    decreases s.len(),
{
    if s.len() == 0 {
        assert(forall|x: Seq<char>| !s.contains(x));
    } else {
        let rest = s.skip(1);
        assert(forall|x: Seq<char>|
            s.contains(x) <==> (x == s[0] || rest.contains(x))) by {
            assert forall|x: Seq<char>| s.contains(x) implies (x == s[0] || rest.contains(x)) by {
                let i = choose|i: int| 0 <= i < s.len() && s[i] == x;
                if i > 0 {
                    assert(rest[i - 1] == x);
                }
            }
            assert forall|x: Seq<char>| x == s[0] || rest.contains(x) implies s.contains(x) by {
                if x == s[0] {
                    assert(s.contains(x));
                } else {
                    let i = choose|i: int| 0 <= i < rest.len() && rest[i] == x;
                    assert(s[i + 1] == x);
                }
            }
        }
        if acc.contains(s[0]) {
            lemma_dedup_from_props(rest, acc);
        } else {
            lemma_dedup_from_props(rest, acc.push(s[0]));
            assert(forall|x: Seq<char>|
                acc.push(s[0]).contains(x) <==> (acc.contains(x) || x == s[0])) by {
                assert forall|x: Seq<char>|
                    acc.push(s[0]).contains(x) implies (acc.contains(x) || x == s[0]) by {
                    let i = choose|i: int| 0 <= i < acc.push(s[0]).len() && acc.push(s[0])[i] == x;
                    if i < acc.len() {
                        assert(acc[i] == x);
                    }
                }
                assert forall|x: Seq<char>|
                    acc.contains(x) || x == s[0] implies acc.push(s[0]).contains(x) by {
                    if acc.contains(x) {
                        let i = choose|i: int| 0 <= i < acc.len() && acc[i] == x;
                        assert(acc.push(s[0])[i] == x);
                    } else {
                        assert(acc.push(s[0])[acc.len() as int] == x);
                    }
                }
            }
            if no_dups(acc) {
                assert(no_dups(acc.push(s[0])));
            }
        }
    }
}

proof fn lemma_expand_contains(ps: Seq<Seq<char>>)
    ensures
        forall|i: int|
            0 <= i < ps.len() ==> spec_expand(ps).contains(ps[i]),
        forall|i: int|
            0 <= i < ps.len() && spec_parent(ps[i]) is Some ==> spec_expand(ps).contains(
                spec_parent(ps[i])->Some_0,
            ),
    decreases ps.len(),
{
    if ps.len() == 0 {
    } else {
        lemma_expand_contains(ps.skip(1));
        let head_len: int = if spec_parent(ps[0]) is Some { 2 } else { 1 };
        assert(spec_expand(ps)[0] == ps[0]);
        if spec_parent(ps[0]) is Some {
            assert(spec_expand(ps)[1] == spec_parent(ps[0])->Some_0);
        }
        assert forall|i: int| 1 <= i < ps.len() implies spec_expand(ps).contains(ps[i])
            && (spec_parent(ps[i]) is Some ==> spec_expand(ps).contains(spec_parent(ps[i])->Some_0)) by {
            let rest = ps.skip(1);
            assert(rest[i - 1] == ps[i]);
            assert(spec_expand(rest).contains(rest[i - 1]));
            let j = choose|j: int| 0 <= j < spec_expand(rest).len() && spec_expand(rest)[j] == ps[i];
            assert(spec_expand(ps)[head_len + j] == ps[i]);
            if spec_parent(ps[i]) is Some {
                assert(spec_expand(rest).contains(spec_parent(rest[i - 1])->Some_0));
                let q = spec_parent(ps[i])->Some_0;
                let k = choose|k: int| 0 <= k < spec_expand(rest).len() && spec_expand(rest)[k] == q;
                assert(spec_expand(ps)[head_len + k] == q);
            }
        }
    }
}

/// The law the resolved mount list obeys: every input path is present,
/// every input path's parent directory is present (whether or not the path
/// exists on disk), and no path appears twice. Together with
/// `lemma_resolution_deterministic` this is the contract of
/// `resolve_mount_paths`.
pub proof fn lemma_resolution_complete(ps: Seq<Seq<char>>)
    ensures
        forall|i: int| 0 <= i < ps.len() ==> spec_resolve(ps).contains(ps[i]),
        forall|i: int|
            0 <= i < ps.len() && spec_parent(ps[i]) is Some ==> spec_resolve(ps).contains(
                spec_parent(ps[i])->Some_0,
            ),
        no_dups(spec_resolve(ps)),
{
    lemma_expand_contains(ps);
    lemma_dedup_from_props(spec_expand(ps), Seq::empty());
}

/// Resolution is deterministic: identical path lists resolve to identical
/// mount lists, on every call.
pub proof fn lemma_resolution_deterministic(a: Seq<Seq<char>>, b: Seq<Seq<char>>)
    requires
        a == b,
    ensures
        spec_resolve(a) == spec_resolve(b),
{
}

/// Resolve a list of mount paths: include each path and its parent
/// directory, then drop duplicates, keeping first occurrences. The caller
/// canonicalizes the paths first, best-effort; a path that cannot be
/// canonicalized is resolved as given.
pub fn resolve_mount_paths(paths: &Vec<String>) -> (r: Vec<String>)
    ensures
        crate::command::strs_view(r@) == spec_resolve(crate::command::strs_view(paths@)),
{
    let ghost pv = crate::command::strs_view(paths@);
    let mut expanded: Vec<String> = Vec::new();
    let mut i: usize = 0;
    proof {
        assert(pv.skip(0) =~= pv);
        assert(crate::command::strs_view(expanded@) + spec_expand(pv) =~= spec_expand(pv));
    }
    while i < paths.len()
        invariant
            0 <= i <= paths@.len(),
            pv == crate::command::strs_view(paths@),
            crate::command::strs_view(expanded@) + spec_expand(pv.skip(i as int)) == spec_expand(
                pv,
            ),
        decreases paths@.len() - i,
    {
        let ghost pre = crate::command::strs_view(expanded@);
        let ghost rest = pv.skip(i as int);
        expanded.push(paths[i].clone());
        match parent_of(paths[i].as_str()) {
            Some(par) => {
                expanded.push(par);
                proof {
                    assert(rest[0] == pv[i as int]);
                    assert(crate::command::strs_view(expanded@) =~= pre + seq![
                        rest[0],
                        spec_parent(rest[0])->Some_0,
                    ]);
                    assert(rest.skip(1) =~= pv.skip(i + 1));
                    assert(crate::command::strs_view(expanded@) + spec_expand(pv.skip(i + 1))
                        =~= spec_expand(pv));
                }
            },
            None => {
                proof {
                    assert(rest[0] == pv[i as int]);
                    assert(crate::command::strs_view(expanded@) =~= pre + seq![rest[0]]);
                    assert(rest.skip(1) =~= pv.skip(i + 1));
                    assert(crate::command::strs_view(expanded@) + spec_expand(pv.skip(i + 1))
                        =~= spec_expand(pv));
                }
            },
        }
        i += 1;
    }
    proof {
        assert(pv.skip(paths@.len() as int) =~= Seq::<Seq<char>>::empty());
        assert(crate::command::strs_view(expanded@) + Seq::<Seq<char>>::empty() =~= crate::command::strs_view(
            expanded@,
        ));
        assert(crate::command::strs_view(expanded@) == spec_expand(pv));
    }
    let ghost ev = crate::command::strs_view(expanded@);
    let mut out: Vec<String> = Vec::new();
    let mut k: usize = 0;
    proof {
        assert(ev.skip(0) =~= ev);
        assert(crate::command::strs_view(out@) =~= Seq::<Seq<char>>::empty());
    }
    while k < expanded.len()
        invariant
            0 <= k <= expanded@.len(),
            ev == crate::command::strs_view(expanded@),
            spec_dedup_from(ev.skip(k as int), crate::command::strs_view(out@)) == spec_dedup_from(
                ev,
                Seq::empty(),
            ),
        decreases expanded@.len() - k,
    {
        let ghost rest = ev.skip(k as int);
        let ghost acc = crate::command::strs_view(out@);
        proof {
            assert(rest[0] == ev[k as int]);
            assert(rest.skip(1) =~= ev.skip(k + 1));
        }
        if !contains_string(&out, &expanded[k]) {
            out.push(expanded[k].clone());
            proof {
                assert(crate::command::strs_view(out@) =~= acc.push(rest[0]));
            }
        }
        k += 1;
    }
    proof {
        assert(ev.skip(expanded@.len() as int) =~= Seq::<Seq<char>>::empty());
    }
    out
}

} // verus!
