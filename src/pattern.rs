//! Artifact naming patterns: the placeholders `%version%`, `%arch%`, `%os%`
//! and `%target%` stand for the requested version, the raw architecture, the
//! raw OS name and the canonical platform string.
use vstd::prelude::*;
use vstd::string::StrSliceExecFns;
use vstd::string::StringExecFns;
use crate::target::{is_target_error, target_triple, triple_of, TargetError};

verus! {

pub open spec fn version_tag() -> Seq<char> {
    seq!['%', 'v', 'e', 'r', 's', 'i', 'o', 'n', '%']
}

pub open spec fn arch_tag() -> Seq<char> {
    seq!['%', 'a', 'r', 'c', 'h', '%']
}

pub open spec fn os_tag() -> Seq<char> {
    seq!['%', 'o', 's', '%']
}

pub open spec fn target_tag() -> Seq<char> {
    seq!['%', 't', 'a', 'r', 'g', 'e', 't', '%']
}

/// Whether `p` begins with `tag`.
pub open spec fn begins_with(p: Seq<char>, tag: Seq<char>) -> bool {
    tag.len() <= p.len() && p.take(tag.len() as int) == tag
}

/// The values that the placeholders of a pattern stand for.
pub struct Substitution {
    pub version: String,
    pub arch: String,
    pub os: String,
    pub target: String,
}

/// `p` with each placeholder replaced, scanning left to right; a `%` that
/// does not start a placeholder is kept as it is.
pub open spec fn expand(
    p: Seq<char>,
    version: Seq<char>,
    arch: Seq<char>,
    os: Seq<char>,
    target: Seq<char>,
) -> Seq<char>
    decreases p.len(),
{
    if p.len() == 0 {
        Seq::empty()
    } else if begins_with(p, version_tag()) {
        version + expand(p.skip(9), version, arch, os, target)
    } else if begins_with(p, arch_tag()) {
        arch + expand(p.skip(6), version, arch, os, target)
    } else if begins_with(p, os_tag()) {
        os + expand(p.skip(4), version, arch, os, target)
    } else if begins_with(p, target_tag()) {
        target + expand(p.skip(8), version, arch, os, target)
    } else {
        seq![p[0]] + expand(p.skip(1), version, arch, os, target)
    }
}

/// Whether `tag` occurs in `p` at character position `i`.
fn tag_at(p: &str, n: usize, i: usize, tag: &str) -> (r: bool)
    requires
        n == p@.len(),
        i <= n,
    ensures
        r == begins_with(p@.skip(i as int), tag@),
{
    let m = tag.unicode_len();
    if m > n - i {
        return false;
    }
    let mut k: usize = 0;
    while k < m
        invariant
            n == p@.len(),
            m == tag@.len(),
            i + m <= n,
            k <= m,
            p@.subrange(i as int, i + k) == tag@.subrange(0, k as int),
        decreases m - k,
    {
        if p.get_char(i + k) != tag.get_char(k) {
            assert(p@.skip(i as int).take(m as int)[k as int] != tag@[k as int]);
            return false;
        }
        assert(p@.subrange(i as int, i + k + 1) =~= p@.subrange(i as int, i + k).push(p@[i + k]));
        assert(tag@.subrange(0, k + 1) =~= tag@.subrange(0, k as int).push(tag@[k as int]));
        k = k + 1;
    }
    assert(p@.skip(i as int).take(m as int) =~= p@.subrange(i as int, i + m));
    assert(tag@ =~= tag@.subrange(0, m as int));
    true
}

proof fn lemma_skip_skip(p: Seq<char>, i: int, k: int)
    requires
        0 <= i,
        0 <= k,
        i + k <= p.len(),
    ensures
        p.skip(i).skip(k) == p.skip(i + k),
{
    assert(p.skip(i).skip(k) =~= p.skip(i + k));
}

/// Replaces every placeholder of `pattern` by its value in `s`.
pub fn substitute(pattern: &str, s: &Substitution) -> (r: String)
    ensures
        r@ == expand(pattern@, s.version@, s.arch@, s.os@, s.target@),
{
    proof {
        reveal_strlit("%version%");
        reveal_strlit("%arch%");
        reveal_strlit("%os%");
        reveal_strlit("%target%");
        assert("%version%"@ =~= version_tag());
        assert("%arch%"@ =~= arch_tag());
        assert("%os%"@ =~= os_tag());
        assert("%target%"@ =~= target_tag());
    }
    let ghost p = pattern@;
    let ghost (v, a, o, t) = (s.version@, s.arch@, s.os@, s.target@);
    let n = pattern.unicode_len();
    let mut out = String::new();
    let mut i: usize = 0;
    assert(p.skip(0) =~= p);
    while i < n
        invariant
            n == p.len(),
            p == pattern@,
            v == s.version@,
            a == s.arch@,
            o == s.os@,
            t == s.target@,
            i <= n,
            "%version%"@ == version_tag(),
            "%arch%"@ == arch_tag(),
            "%os%"@ == os_tag(),
            "%target%"@ == target_tag(),
            out@ + expand(p.skip(i as int), v, a, o, t) == expand(p, v, a, o, t),
        decreases n - i,
    {
        let ghost rest = p.skip(i as int);
        if tag_at(pattern, n, i, "%version%") {
            proof { lemma_skip_skip(p, i as int, 9); }
            out.append(s.version.as_str());
            i = i + 9;
        } else if tag_at(pattern, n, i, "%arch%") {
            proof { lemma_skip_skip(p, i as int, 6); }
            out.append(s.arch.as_str());
            i = i + 6;
        } else if tag_at(pattern, n, i, "%os%") {
            proof { lemma_skip_skip(p, i as int, 4); }
            out.append(s.os.as_str());
            i = i + 4;
        } else if tag_at(pattern, n, i, "%target%") {
            proof { lemma_skip_skip(p, i as int, 8); }
            out.append(s.target.as_str());
            i = i + 8;
        } else {
            proof { lemma_skip_skip(p, i as int, 1); }
            let c = pattern.substring_char(i, i + 1);
            assert(c@ =~= seq![rest[0]]);
            out.append(c);
            i = i + 1;
        }
        proof {
            assert(out@ + expand(p.skip(i as int), v, a, o, t) =~= expand(p, v, a, o, t));
        }
    }
    assert(p.skip(n as int) =~= Seq::<char>::empty());
    assert(out@ =~= out@ + expand(p.skip(n as int), v, a, o, t));
    out
}

/// The artifact name that `pattern` asks for, for a version on a platform;
/// fails when the platform has no canonical platform string.
pub fn artifact_name(pattern: &str, version: &str, arch: &str, os: &str) -> (r: Result<
    String,
    TargetError,
>)
    ensures
        match triple_of(arch@, os@) {
            Some(t) => r matches Ok(name) && name@ == expand(pattern@, version@, arch@, os@, t),
            None => r matches Err(e) && is_target_error(arch@, os@, e),
        },
{
    match target_triple(arch, os) {
        Ok(target) => {
            let s = Substitution {
                version: String::from_str(version),
                arch: String::from_str(arch),
                os: String::from_str(os),
                target,
            };
            Ok(substitute(pattern, &s))
        },
        Err(e) => Err(e),
    }
}

} // verus!
