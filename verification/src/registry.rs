//! The registry: the fixed, ordered list of migration scripts that defines
//! the schema's history. A script's position is its index in that list.

use crate::fingerprint::{fingerprint, is_fingerprint, sha256_hex};
use vstd::prelude::*;

verus! {

/// One migration: its place in the registry and its statement batch.
#[derive(Debug, PartialEq, Eq)]
pub struct MigrationScript {
    pub position: usize,
    pub text: String,
}

/// The scripts in the order in which they are to be applied.
pub struct Registry {
    texts: Vec<String>,
}

/// The fingerprints of `texts`, position by position.
pub open spec fn fingerprints_of(texts: Seq<Seq<char>>) -> Seq<Seq<char>> {
    Seq::new(texts.len(), |i: int| sha256_hex(texts[i]))
}

impl View for Registry {
    type V = Seq<Seq<char>>;

    /// The texts of the scripts, in registry order.
    closed spec fn view(&self) -> Seq<Seq<char>> {
        self.texts.deep_view()
    }
}

impl Registry {
    /// A registry that holds `texts` in the order given.
    pub fn new(texts: Vec<String>) -> (registry: Registry)
        ensures
            registry@ == texts.deep_view(),
    {
        Registry { texts }
    }

    /// The number of scripts.
    pub fn len(&self) -> (n: usize)
        ensures
            n == self@.len(),
    {
        self.texts.len()
    }

    /// The text of the script at `position`, or `None` past the end of the
    /// registry.
    pub fn text(&self, position: usize) -> (text: Option<&String>)
        ensures
            position < self@.len() <==> text is Some,
            text matches Some(t) ==> t@ == self@[position as int],
    {
        if position < self.texts.len() {
            Some(&self.texts[position])
        } else {
            None
        }
    }

    /// The script at `position`, or `None` past the end of the registry.
    pub fn script(&self, position: usize) -> (script: Option<MigrationScript>)
        ensures
            position < self@.len() <==> script is Some,
            script matches Some(s) ==> s.position == position && s.text@
                == self@[position as int],
    {
        if position < self.texts.len() {
            Some(MigrationScript { position, text: self.texts[position].clone() })
        } else {
            None
        }
    }

    /// The fingerprint of every script, in registry order. Computed afresh
    /// on every call.
    pub fn fingerprints(&self) -> (known: Vec<String>)
        ensures
            known.deep_view() == fingerprints_of(self@),
            forall|i: int| 0 <= i < known.len() ==> is_fingerprint(#[trigger] known[i]@),
    {
        let mut known: Vec<String> = Vec::new();
        let mut i: usize = 0;
        while i < self.texts.len()
            invariant
                i <= self.texts.len(),
                known.len() == i,
                forall|j: int| 0 <= j < i ==> #[trigger] known[j]@ == sha256_hex(self.texts[j]@),
                forall|j: int| 0 <= j < i ==> is_fingerprint(#[trigger] known[j]@),
            decreases self.texts.len() - i,
        {
            let fp = fingerprint(self.texts[i].as_str());
            known.push(fp);
            i += 1;
        }
        assert(known.deep_view() =~= fingerprints_of(self@));
        known
    }
}

} // verus!
