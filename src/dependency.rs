//! A dependency of a target: a file path and the fingerprint its content had
//! when the target was last built.
use vstd::prelude::*;

use crate::fingerprint::{content_view, fingerprint, fingerprint_spec};

verus! {

/// Dependency of a target that decides whether the target must be rebuilt.
#[derive(Debug, Clone, PartialEq, Eq)]
pub struct Dependency {
    /// Path of the file whose content the target depends on.
    pub name: String,
    /// Fingerprint recorded at the last build; empty if never computed.
    pub hash: String,
}

/// A dependency as plain values.
pub struct DependencyView {
    pub name: Seq<char>,
    pub hash: Seq<char>,
}

impl View for Dependency {
    type V = DependencyView;

    open spec fn view(&self) -> DependencyView {
        DependencyView { name: self.name@, hash: self.hash@ }
    }
}

impl Dependency {
    /// A dependency on `name` whose fingerprint was never computed.
    pub fn new(name: String) -> (r: Dependency)
        ensures
            r@ == (DependencyView { name: name@, hash: Seq::empty() }),
    {
        Dependency { name, hash: String::new() }
    }

    /// A copy with the same path and fingerprint.
    pub fn duplicate(&self) -> (r: Dependency)
        ensures
            r@ == self@,
    {
        Dependency { name: self.name.clone(), hash: self.hash.clone() }
    }

    /// Fingerprint of the file named by `name`, given what reading it gave
    /// (`None` when it could not be opened or read).
    pub fn compute_hash(&self, content: &Option<Vec<u8>>) -> (r: String)
        ensures
            r@ == fingerprint_spec(content_view(*content)),
    {
        fingerprint(content)
    }

    /// Records the fingerprint of the file's current content.
    pub fn update_hash(&mut self, content: &Option<Vec<u8>>)
        ensures
            final(self)@ == (DependencyView {
                name: old(self)@.name,
                hash: fingerprint_spec(content_view(*content)),
            }),
    {
        self.hash = self.compute_hash(content);
    }

    /// A dependency needs an update when the recorded fingerprint differs
    /// from the fingerprint of the file's current content.
    pub fn needs_update(&self, content: &Option<Vec<u8>>) -> (r: bool)
        ensures
            r == (fingerprint_spec(content_view(*content)) != self@.hash),
    {
        let current = self.compute_hash(content);
        !(current == self.hash)
    }
}

} // verus!
