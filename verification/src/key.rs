//! The comparable key of a version, and its order.

use crate::text::{chars_of, code_of};
use vstd::prelude::*;

verus! {

/// What a version is ordered by.
#[derive(Debug)]
pub struct VersionKey {
    pub major: u32,
    pub minor: u32,
    pub patch: u32,
    pub prerelease: String,
}

/// The mathematical value of a [`VersionKey`].
pub struct KeyView {
    pub major: nat,
    pub minor: nat,
    pub patch: nat,
    pub prerelease: Seq<char>,
}

impl View for VersionKey {
    type V = KeyView;

    open spec fn view(&self) -> KeyView {
        KeyView {
            major: self.major as nat,
            minor: self.minor as nat,
            patch: self.patch as nat,
            prerelease: self.prerelease@,
        }
    }
}

impl DeepView for VersionKey {
    type V = KeyView;

    open spec fn deep_view(&self) -> KeyView {
        self@
    }
}

/// Lexicographic order on texts, character by character.
pub open spec fn lex_less(a: Seq<char>, b: Seq<char>) -> bool
    decreases a.len(),
{
    if b.len() == 0 {
        false
    } else if a.len() == 0 {
        true
    } else if a[0] != b[0] {
        (a[0] as int) < (b[0] as int)
    } else {
        lex_less(a.skip(1), b.skip(1))
    }
}

/// Order on prerelease tags: a release (no tag) is above every tagged
/// version, and two tags are ordered as texts.
pub open spec fn tag_less(a: Seq<char>, b: Seq<char>) -> bool {
    if a.len() == 0 {
        false
    } else if b.len() == 0 {
        true
    } else {
        lex_less(a, b)
    }
}

/// The order of versions: by major, minor and patch number, then by tag.
pub open spec fn key_less(a: KeyView, b: KeyView) -> bool {
    if a.major != b.major {
        a.major < b.major
    } else if a.minor != b.minor {
        a.minor < b.minor
    } else if a.patch != b.patch {
        a.patch < b.patch
    } else {
        tag_less(a.prerelease, b.prerelease)
    }
}

/// No text is below itself.
pub proof fn lex_less_irreflexive(a: Seq<char>)
    ensures
        !lex_less(a, a),
    decreases a.len(),
{
    if a.len() > 0 {
        lex_less_irreflexive(a.skip(1));
    }
}

/// The order on texts is transitive.
pub proof fn lex_less_transitive(a: Seq<char>, b: Seq<char>, c: Seq<char>)
    requires
        lex_less(a, b),
        lex_less(b, c),
    ensures
        lex_less(a, c),
    decreases a.len(),
{
    if a.len() > 0 && b.len() > 0 && c.len() > 0 {
        if a[0] == b[0] && b[0] == c[0] {
            lex_less_transitive(a.skip(1), b.skip(1), c.skip(1));
        }
    }
}

/// Of two different texts one is below the other.
pub proof fn lex_less_total(a: Seq<char>, b: Seq<char>)
    requires
        a != b,
    ensures
        lex_less(a, b) || lex_less(b, a),
    decreases a.len(),
{
    if a.len() > 0 && b.len() > 0 && a[0] == b[0] {
        if a.skip(1) == b.skip(1) {
            assert(a =~= seq![a[0]] + a.skip(1));
            assert(b =~= seq![b[0]] + b.skip(1));
        }
        lex_less_total(a.skip(1), b.skip(1));
    } else if a.len() == 0 && b.len() == 0 {
        assert(a =~= b);
    }
}

/// No version is below itself.
pub proof fn key_less_irreflexive(a: KeyView)
    ensures
        !key_less(a, a),
{
    lex_less_irreflexive(a.prerelease);
}

/// If one version is below another, the other is not below it.
pub proof fn key_less_asymmetric(a: KeyView, b: KeyView)
    requires
        key_less(a, b),
    ensures
        !key_less(b, a),
{
    if key_less(b, a) {
        key_less_transitive(a, b, a);
        key_less_irreflexive(a);
    }
}

/// The order of versions is transitive.
pub proof fn key_less_transitive(a: KeyView, b: KeyView, c: KeyView)
    requires
        key_less(a, b),
        key_less(b, c),
    ensures
        key_less(a, c),
{
    if a.major == b.major && b.major == c.major && a.minor == b.minor && b.minor == c.minor
        && a.patch == b.patch && b.patch == c.patch {
        if a.prerelease.len() > 0 && b.prerelease.len() > 0 && c.prerelease.len() > 0 {
            lex_less_transitive(a.prerelease, b.prerelease, c.prerelease);
        }
    }
}

/// Of two different versions one is below the other.
pub proof fn key_less_total(a: KeyView, b: KeyView)
    requires
        a != b,
    ensures
        key_less(a, b) || key_less(b, a),
{
    if a.major == b.major && a.minor == b.minor && a.patch == b.patch {
        assert(a.prerelease != b.prerelease);
        if a.prerelease.len() > 0 && b.prerelease.len() > 0 {
            lex_less_total(a.prerelease, b.prerelease);
        } else if a.prerelease.len() == 0 && b.prerelease.len() == 0 {
            assert(a.prerelease =~= b.prerelease);
        }
    }
}

/// Whether text `a` is below text `b`.
pub fn text_less(a: &str, b: &str) -> (r: bool)
    ensures
        r == lex_less(a@, b@),
{
    let x = chars_of(a);
    let y = chars_of(b);
    let mut i: usize = 0;
    assert(x@.skip(0) =~= x@);
    assert(y@.skip(0) =~= y@);
    while i < x.len() && i < y.len()
        invariant
            i <= x.len(),
            i <= y.len(),
            x@ == a@,
            y@ == b@,
            lex_less(x@, y@) == lex_less(x@.skip(i as int), y@.skip(i as int)),
        decreases x.len() - i,
    {
        let cx: char = x[i];
        let cy: char = y[i];
        if cx != cy {
            return code_of(cx) < code_of(cy);
        }
        assert(x@.skip(i as int).skip(1) =~= x@.skip(i + 1));
        assert(y@.skip(i as int).skip(1) =~= y@.skip(i + 1));
        i += 1;
    }
    i < y.len()
}

impl VersionKey {
    /// Whether this version is below `other`.
    pub fn less_than(&self, other: &VersionKey) -> (r: bool)
        ensures
            r == key_less(self@, other@),
    {
        if self.major != other.major {
            self.major < other.major
        } else if self.minor != other.minor {
            self.minor < other.minor
        } else if self.patch != other.patch {
            self.patch < other.patch
        } else {
            let a = self.prerelease.as_str();
            let b = other.prerelease.as_str();
            if a.unicode_len() == 0 {
                false
            } else if b.unicode_len() == 0 {
                true
            } else {
                text_less(a, b)
            }
        }
    }
}

} // verus!
