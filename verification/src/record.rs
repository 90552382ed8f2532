//! The record store: a model of the one-file log of image identifiers, with
//! atomic replacement through a staged copy, idempotent append, and the laws
//! that make the log durable and crash-safe.
//!
//! The store models exactly the two on-disk paths the tool uses: the
//! canonical log file and the temporary file that a replacement is staged in.
//! The process edge mirrors `stage` as a write of the temporary file and
//! `commit` as the atomic rename over the canonical path.

use vstd::prelude::*;

use crate::textops::lemma_split_of_join;
use crate::textops::spec_join;
use crate::textops::spec_split;
use crate::textops::split_on;
use crate::textops::join_lines;
use crate::textops::str_eq;

verus! {

/// The identifiers already in `log`, with `hash` appended when it occurs
/// nowhere in `log`; `log` unchanged otherwise.
pub open spec fn spec_append_if_absent(log: Seq<Seq<char>>, hash: Seq<char>) -> Seq<Seq<char>> {
    if log.contains(hash) {
        log
    } else {
        log.push(hash)
    }
}

/// Appending the same identifier twice changes the log exactly as much as
/// appending it once.
pub proof fn lemma_append_if_absent_idempotent(log: Seq<Seq<char>>, hash: Seq<char>)
    ensures
        spec_append_if_absent(spec_append_if_absent(log, hash), hash) == spec_append_if_absent(
            log,
            hash,
        ),
{
    if !log.contains(hash) {
        assert(log.push(hash)[log.len() as int] == hash);
        assert(log.push(hash).contains(hash));
    }
}

/// Returns a new log: `log` itself when `hash` already occurs in it, and
/// `log` with `hash` appended otherwise. Does not persist anything.
pub fn append_if_absent(log: &Vec<String>, hash: &String) -> (r: Vec<String>)
    ensures
        r.deep_view() == spec_append_if_absent(log.deep_view(), hash@),
{
    broadcast use vstd::std_specs::vec::group_vec_axioms;

    let ghost dv = log.deep_view();
    let mut found = false;
    let mut i: usize = 0;
    while i < log.len()
        invariant
            i <= log@.len(),
            dv == log.deep_view(),
            dv.len() == log@.len(),
            found == exists|k: int| 0 <= k < i && dv[k] == hash@,
        decreases log@.len() - i,
    {
        if str_eq(log[i].as_str(), hash.as_str()) {
            proof {
                assert(dv[i as int] == hash@);
            }
            found = true;
        }
        i += 1;
    }
    proof {
        assert(found == dv.contains(hash@));
    }
    let mut r = log.clone();
    proof {
        assert(r.deep_view() =~~= dv);
    }
    if !found {
        let ghost pre = r.deep_view();
        r.push(hash.clone());
        proof {
            assert(r.deep_view() =~~= pre.push(hash@));
        }
    }
    r
}

/// The store: the canonical log file and the staged (temporary) copy a
/// replacement writes first. `None` stands for a path with no file behind it.
pub struct Store {
    /// The canonical log file; `None` when no file exists behind the path.
    pub canonical: Option<String>,
    /// The staged (temporary) copy a replacement writes first.
    pub staged: Option<String>,
}

impl Store {
    /// The text of the canonical log file, if that file exists.
    pub open spec fn stored(self) -> Option<Seq<char>> {
        match self.canonical {
            Some(c) => Some(c@),
            None => None,
        }
    }

    /// The text of the staged copy, if one has been written.
    pub open spec fn staged_content(self) -> Option<Seq<char>> {
        match self.staged {
            Some(c) => Some(c@),
            None => None,
        }
    }

    /// What `load` returns: the empty log when the canonical file does not
    /// exist, and otherwise its text split at every newline.
    pub open spec fn spec_load(self) -> Seq<Seq<char>> {
        match self.stored() {
            None => Seq::<Seq<char>>::empty(),
            Some(c) => spec_split(c, '\n'),
        }
    }

    /// A store with no file behind either path.
    pub fn new() -> (r: Store)
        ensures
            r.stored() is None,
            r.staged_content() is None,
    {
        Store { canonical: None, staged: None }
    }

    /// A store whose canonical file holds the given text, or does not exist.
    pub fn from_content(content: Option<String>) -> (r: Store)
        ensures
            content matches Some(c) ==> r.stored() == Some(c@),
            content is None ==> r.stored() is None,
            r.staged_content() is None,
    {
        Store { canonical: content, staged: None }
    }

    /// The text of the canonical log file, for the caller that persists it.
    pub fn content(&self) -> (r: Option<&String>)
        ensures
            self.stored() matches Some(c) ==> r matches Some(s) && s@ == c,
            self.stored() is None ==> r is None,
    {
        match &self.canonical {
            Some(c) => Some(c),
            None => None,
        }
    }

    /// Reads the whole log: the empty sequence when the canonical file does
    /// not exist, and otherwise one identifier per line.
    pub fn load(&self) -> (r: Vec<String>)
        ensures
            r.deep_view() == self.spec_load(),
    {
        match &self.canonical {
            None => {
                let r: Vec<String> = Vec::new();
                proof {
                    assert(r.deep_view() =~~= Seq::<Seq<char>>::empty());
                }
                r
            },
            Some(c) => split_on(c.as_str(), '\n'),
        }
    }

    /// Writes the new text to the staged path. The canonical file, and with
    /// it everything `load` returns, is untouched: a crash after this step
    /// loses nothing.
    pub fn stage(&mut self, content: String)
        ensures
            final(self).stored() == old(self).stored(),
            final(self).spec_load() == old(self).spec_load(),
            final(self).staged_content() == Some(content@),
    {
        self.staged = Some(content);
    }

    /// Atomically renames the staged copy over the canonical path.
    pub fn commit(&mut self)
        requires
            old(self).staged_content() is Some,
        ensures
            final(self).stored() == old(self).staged_content(),
            final(self).staged_content() is None,
    {
        let staged = self.staged.take();
        self.canonical = staged;
    }

    /// Durably overwrites the stored log with exactly the given sequence,
    /// by staging the new text and then committing it.
    pub fn replace(&mut self, log: &Vec<String>)
        ensures
            final(self).stored() == Some(spec_join(log.deep_view(), '\n')),
            final(self).staged_content() is None,
    {
        let text = join_lines(log);
        self.stage(text);
        self.commit();
    }
}

/// Loading gives back exactly what was replaced: round trip for every log
/// that is nonempty and whose identifiers hold no newline.
pub proof fn lemma_load_after_replace(s: Store, log: Seq<Seq<char>>)
    requires
        s.stored() == Some(spec_join(log, '\n')),
        log.len() > 0,
        forall|i: int| 0 <= i < log.len() ==> !(#[trigger] log[i]).contains('\n'),
    ensures
        s.spec_load() == log,
{
    lemma_split_of_join(log, '\n');
}

/// A replacement interrupted after the staged write but before the rename
/// leaves every later load with the pre-replacement content.
pub proof fn lemma_interrupted_replace_preserves_load(pre: Store, post: Store)
    requires
        post.stored() == pre.stored(),
    ensures
        post.spec_load() == pre.spec_load(),
{
}

/// Loads the log, appends `hash` unless it is already recorded, and durably
/// replaces the stored log with the result.
pub fn log_image(store: &mut Store, hash: &String)
    ensures
        final(store).stored() == Some(
            spec_join(spec_append_if_absent(old(store).spec_load(), hash@), '\n'),
        ),
        final(store).staged_content() is None,
{
    let log = store.load();
    let updated = append_if_absent(&log, hash);
    store.replace(&updated);
}

} // verus!
