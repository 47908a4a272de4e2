//! Version strings: their canonical form and their key.

use crate::key::{KeyView, VersionKey};
use crate::pattern::{captures, regex_captures};
use crate::text::{chars_of, number_or_zero, parse_number};
use vstd::prelude::*;

verus! {

/// The shape of a version: major and minor number, an optional patch number,
/// and whatever follows as the prerelease tag.
pub const VERSION_PATTERN: &'static str = r"^(\d+)\.(\d+)(?:\.(\d+))?(.*)$";

/// Whether `s` starts with the marker `v`.
pub open spec fn has_v_prefix(s: Seq<char>) -> bool {
    s.len() >= 1 && s[0] == 'v'
}

/// Whether `s` starts with the runtime's name, `go`.
pub open spec fn has_go_prefix(s: Seq<char>) -> bool {
    s.len() >= 2 && s[0] == 'g' && s[1] == 'o'
}

/// Whether `s` starts with neither prefix.
pub open spec fn is_bare(s: Seq<char>) -> bool {
    !has_v_prefix(s) && !has_go_prefix(s)
}

/// The canonical form of a version string: what is left of it once the
/// markers `v` and `go` at its start are gone, in whatever order they stood.
pub open spec fn canonical(s: Seq<char>) -> Seq<char>
    decreases s.len(),
{
    if has_v_prefix(s) {
        canonical(s.skip(1))
    } else if has_go_prefix(s) {
        canonical(s.skip(2))
    } else {
        s
    }
}

/// Brings a version string into canonical form.
pub fn normalize(version: &str) -> (out: String)
    ensures
        out@ == canonical(version@),
{
    let v = chars_of(version);
    let n: usize = v.len();
    let mut i: usize = 0;
    assert(v@.skip(0) =~= v@);
    loop
        invariant
            i <= n,
            n == v@.len(),
            v@ == version@,
            canonical(v@) == canonical(v@.skip(i as int)),
        ensures
            i <= n,
            canonical(v@) == v@.skip(i as int),
        decreases n - i,
    {
        if i < n && v[i] == 'v' {
            assert(v@.skip(i as int).skip(1) =~= v@.skip(i + 1));
            i += 1;
        } else if i < n && n - i >= 2 && v[i] == 'g' && v[i + 1] == 'o' {
            assert(v@.skip(i as int).skip(2) =~= v@.skip(i + 2));
            i += 2;
        } else {
            break ;
        }
    }
    assert(v@.subrange(i as int, n as int) =~= v@.skip(i as int));
    version.substring_char(i, n).to_owned()
}

/// A canonical form starts with neither prefix.
pub proof fn canonical_is_bare(s: Seq<char>)
    ensures
        is_bare(canonical(s)),
    decreases s.len(),
{
    if has_v_prefix(s) {
        canonical_is_bare(s.skip(1));
    } else if has_go_prefix(s) {
        canonical_is_bare(s.skip(2));
    }
}

/// Canonical form is idempotent: a canonical string is its own canonical form.
pub proof fn canonical_idempotent(s: Seq<char>)
    ensures
        canonical(canonical(s)) == canonical(s),
{
    canonical_is_bare(s);
}

/// A canonical form is what stands at the end of the string it came from.
pub proof fn canonical_is_suffix(s: Seq<char>)
    ensures
        canonical(s).is_suffix_of(s),
    decreases s.len(),
{
    if has_v_prefix(s) {
        canonical_is_suffix(s.skip(1));
        let c = canonical(s.skip(1));
        let t = s.skip(1);
        assert(t.skip(t.len() - c.len()) == c);
        assert(s.skip(s.len() - c.len()) =~= t.skip(t.len() - c.len()));
    } else if has_go_prefix(s) {
        canonical_is_suffix(s.skip(2));
        let c = canonical(s.skip(2));
        let t = s.skip(2);
        assert(t.skip(t.len() - c.len()) == c);
        assert(s.skip(s.len() - c.len()) =~= t.skip(t.len() - c.len()));
    } else {
        assert(s.skip(0) =~= s);
    }
}

/// The canonical strings are those that start with neither prefix.
pub proof fn canonical_fixed_points(s: Seq<char>)
    ensures
        canonical(s) == s <==> is_bare(s),
{
    if !is_bare(s) {
        if has_v_prefix(s) {
            canonical_is_suffix(s.skip(1));
        } else {
            canonical_is_suffix(s.skip(2));
        }
    }
}

/// One marker `v` and one runtime name before a string that starts with
/// neither are stripped, whichever comes first, and so is either alone.
pub proof fn canonical_strips_prefixes(rest: Seq<char>)
    requires
        is_bare(rest),
    ensures
        canonical(rest) == rest,
        canonical(seq!['v'] + rest) == rest,
        canonical(seq!['g', 'o'] + rest) == rest,
        canonical(seq!['v', 'g', 'o'] + rest) == rest,
        canonical(seq!['g', 'o', 'v'] + rest) == rest,
{
    let v = seq!['v'] + rest;
    let g = seq!['g', 'o'] + rest;
    let vg = seq!['v', 'g', 'o'] + rest;
    let gv = seq!['g', 'o', 'v'] + rest;
    assert(canonical(rest) == rest);
    assert(v.skip(1) =~= rest);
    assert(canonical(v) == rest);
    assert(g.skip(2) =~= rest);
    assert(canonical(g) == rest);
    assert(vg.skip(1) =~= g);
    assert(canonical(vg) == canonical(g));
    assert(gv.skip(2) =~= v);
    assert(canonical(gv) == canonical(v));
}

/// The number in group `i` of `groups`; zero where there is no such group.
pub open spec fn group_number(groups: Seq<Option<Seq<char>>>, i: int) -> nat {
    if 0 <= i < groups.len() && groups[i] is Some {
        number_or_zero(groups[i]->0)
    } else {
        0
    }
}

/// The text of group `i` of `groups`; empty where there is no such group.
pub open spec fn group_text(groups: Seq<Option<Seq<char>>>, i: int) -> Seq<char> {
    if 0 <= i < groups.len() && groups[i] is Some {
        groups[i]->0
    } else {
        Seq::empty()
    }
}

/// The key that a match of [`VERSION_PATTERN`] stands for. Without a match
/// the key is all zeros and carries the whole string as its tag.
pub open spec fn key_from_groups(
    groups: Option<Seq<Option<Seq<char>>>>,
    input: Seq<char>,
) -> KeyView {
    match groups {
        Some(g) => KeyView {
            major: group_number(g, 1),
            minor: group_number(g, 2),
            patch: group_number(g, 3),
            prerelease: group_text(g, 4),
        },
        None => KeyView { major: 0, minor: 0, patch: 0, prerelease: input },
    }
}

/// The key of a version string.
pub open spec fn key_of(v: Seq<char>) -> KeyView {
    key_from_groups(regex_captures(VERSION_PATTERN@, v), v)
}

fn number_at(groups: &Vec<Option<String>>, i: usize) -> (n: u32)
    ensures
        n as nat == group_number(groups.deep_view(), i as int),
{
    if i < groups.len() {
        match &groups[i] {
            Some(s) => parse_number(s.as_str()),
            None => 0,
        }
    } else {
        0
    }
}

fn text_at(groups: &Vec<Option<String>>, i: usize) -> (t: String)
    ensures
        t@ == group_text(groups.deep_view(), i as int),
{
    if i < groups.len() {
        match &groups[i] {
            Some(s) => s.clone(),
            None => String::new(),
        }
    } else {
        String::new()
    }
}

/// Builds the key from the groups that a match of [`VERSION_PATTERN`] on
/// `input` captured, or from `input` alone where nothing matched.
pub fn key_from_captures(groups: &Option<Vec<Option<String>>>, input: &str) -> (key: VersionKey)
    ensures
        key@ == key_from_groups(groups.deep_view(), input@),
{
    match groups {
        Some(g) => VersionKey {
            major: number_at(g, 1),
            minor: number_at(g, 2),
            patch: number_at(g, 3),
            prerelease: text_at(g, 4),
        },
        None => VersionKey { major: 0, minor: 0, patch: 0, prerelease: input.to_owned() },
    }
}

/// Reads a version string into its key. A string of another shape is not an
/// error: its key is the lowest that carries the string itself.
pub fn parse(v: &str) -> (key: VersionKey)
    ensures
        key@ == key_of(v@),
{
    let groups = captures(VERSION_PATTERN, v);
    key_from_captures(&groups, v)
}

} // verus!
