//! A cache that keeps a computed result while the inputs it was computed
//! from stay the same, so that a settled view costs nothing to redraw.
//!
//! Inputs are compared by their words: integers as they are and real
//! numbers by their bit patterns, so that a result is reused only for
//! exactly the same input.

use vstd::prelude::*;

verus! {

/// The revision a rebuilt result gets after `revision`: the next one,
/// skipping 0 (which marks a result never built) when the count wraps.
pub open spec fn next_revision(revision: u64) -> u64 {
    if revision == u64::MAX {
        1
    } else {
        (revision + 1) as u64
    }
}

/// Whether two input words are the same, word by word.
fn same_words(a: &Vec<u64>, b: &Vec<u64>) -> (same: bool)
    ensures
        same == (a@ == b@),
{
    if a.len() != b.len() {
        return false;
    }
    let mut i: usize = 0;
    while i < a.len()
        invariant
            a.len() == b.len(),
            i <= a.len(),
            forall|j: int| 0 <= j < i ==> a@[j] == b@[j],
        decreases a.len() - i,
    {
        if a[i] != b[i] {
            return false;
        }
        i += 1;
    }
    assert(a@ =~= b@);
    true
}

/// A result, the input words it was computed from (none before the first
/// computation or after an invalidation) and its revision.
#[derive(Debug)]
pub struct ResultCache<V> {
    key: Option<Vec<u64>>,
    value: V,
    revision: u64,
}

impl<V> ResultCache<V> {
    /// The input words of the cached result, if it is current for any.
    pub closed spec fn spec_key(self) -> Option<Seq<u64>> {
        match self.key {
            Some(words) => Some(words@),
            None => None,
        }
    }

    pub closed spec fn spec_value(self) -> V {
        self.value
    }

    pub closed spec fn spec_revision(self) -> u64 {
        self.revision
    }

    /// An empty cache holding `initial` at revision 0, current for no input.
    pub fn new(initial: V) -> (cache: Self)
        ensures
            cache.spec_key() is None,
            cache.spec_value() == initial,
            cache.spec_revision() == 0,
    {
        ResultCache { key: None, value: initial, revision: 0 }
    }

    /// Whether the cached result was computed from exactly `key`.
    pub fn is_current(&self, key: &Vec<u64>) -> (current: bool)
        ensures
            current == (self.spec_key() == Some(key@)),
    {
        match &self.key {
            Some(words) => same_words(words, key),
            None => false,
        }
    }

    /// Keeps the cached result when it was computed from `key`; otherwise
    /// builds a new one with `build`, handing it the next revision. Tells
    /// whether it rebuilt.
    pub fn update<F: FnOnce(u64) -> V>(&mut self, key: Vec<u64>, build: F) -> (rebuilt: bool)
        requires
            build.requires((next_revision(old(self).spec_revision()),)),
        ensures
            rebuilt == (old(self).spec_key() != Some(key@)),
            final(self).spec_key() == Some(key@),
            rebuilt ==> {
                &&& final(self).spec_revision() == next_revision(old(self).spec_revision())
                &&& build.ensures((final(self).spec_revision(),), final(self).spec_value())
            },
            !rebuilt ==> final(self).spec_value() == old(self).spec_value() && final(self).spec_revision()
                == old(self).spec_revision(),
    {
        if self.is_current(&key) {
            return false;
        }
        let revision = if self.revision == u64::MAX {
            1
        } else {
            self.revision + 1
        };
        self.value = build(revision);
        self.revision = revision;
        self.key = Some(key);
        true
    }

    /// Forgets the input the result was computed from, so that the next
    /// update rebuilds it; the result itself stays until then.
    pub fn invalidate(&mut self)
        ensures
            final(self).spec_key() is None,
            final(self).spec_value() == old(self).spec_value(),
            final(self).spec_revision() == old(self).spec_revision(),
    {
        self.key = None;
    }

    /// The cached result.
    pub fn value(&self) -> (value: &V)
        ensures
            *value == self.spec_value(),
    {
        &self.value
    }

    /// The revision of the cached result.
    pub fn revision(&self) -> (revision: u64)
        ensures
            revision == self.spec_revision(),
    {
        self.revision
    }

    /// The cached result if it was computed from exactly `key`.
    pub fn current(&self, key: &Vec<u64>) -> (value: Option<&V>)
        ensures
            value is Some <==> self.spec_key() == Some(key@),
            value matches Some(v) ==> *v == self.spec_value(),
    {
        if self.is_current(key) {
            Some(&self.value)
        } else {
            None
        }
    }

    /// The cached result if it is current for any input.
    pub fn last(&self) -> (value: Option<&V>)
        ensures
            value is Some <==> self.spec_key() is Some,
            value matches Some(v) ==> *v == self.spec_value(),
    {
        match &self.key {
            Some(_) => Some(&self.value),
            None => None,
        }
    }
}

/// A rebuilt result never keeps the revision of the one it replaces, and
/// never takes revision 0, which marks a result never built.
pub proof fn rebuilds_always_change_the_revision(revision: u64)
    ensures
        next_revision(revision) != revision,
        next_revision(revision) != 0,
{
}

} // verus!
