//! `==` and `<` on version keys.

use crate::key::{key_less, VersionKey};
use std::cmp::Ordering;
use vstd::prelude::*;
use vstd::std_specs::cmp::{PartialEqSpecImpl, PartialOrdSpecImpl};

verus! {

impl PartialEq for VersionKey {
    fn eq(&self, other: &VersionKey) -> (r: bool) {
        self.major == other.major && self.minor == other.minor && self.patch == other.patch
            && self.prerelease == other.prerelease
    }
}

impl PartialEqSpecImpl for VersionKey {
    open spec fn obeys_eq_spec() -> bool {
        true
    }

    /// Two keys are equal when their numbers and their tags are.
    open spec fn eq_spec(&self, other: &VersionKey) -> bool {
        self@ == other@
    }
}

impl PartialOrd for VersionKey {
    fn partial_cmp(&self, other: &VersionKey) -> (r: Option<Ordering>) {
        if self.less_than(other) {
            Some(Ordering::Less)
        } else if other.less_than(self) {
            Some(Ordering::Greater)
        } else {
            Some(Ordering::Equal)
        }
    }
}

impl PartialOrdSpecImpl for VersionKey {
    open spec fn obeys_partial_cmp_spec() -> bool {
        true
    }

    /// Keys are ordered by [`key_less`]; no two keys are incomparable.
    open spec fn partial_cmp_spec(&self, other: &VersionKey) -> Option<Ordering> {
        if key_less(self@, other@) {
            Some(Ordering::Less)
        } else if key_less(other@, self@) {
            Some(Ordering::Greater)
        } else {
            Some(Ordering::Equal)
        }
    }
}

} // verus!
