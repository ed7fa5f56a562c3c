//! The template cache: a process-wide, version-keyed mapping from template id
//! to the locally materialized template bundle, together with a model of
//! which version directories are materialized on disk.
//!
//! The shell around the core writes a bundle's bytes to
//! `<template-root>/<version-id>/` before calling `install`, and deletes the
//! directory `install` or `clear_all` hand back; under that discipline the
//! cache's invariant says exactly that every cached entry points at a
//! directory that is still on disk.

use vstd::prelude::*;
use crate::assoc::{assoc_map, keys_unique, lemma_assoc_contains, lemma_assoc_index,
    lemma_assoc_push, lemma_assoc_update, lemma_keys_unique_push, lemma_keys_unique_update};
use crate::formats::ExportFormat;

verus! {

broadcast use vstd::seq_lib::group_seq_properties;

/// The in-memory index of one materialized template bundle.
pub struct TemplateStorageEntry {
    /// Version of the bundle under `<template-root>/<version-id>/`.
    pub version_id: u128,
    /// What the on-disk bundle declares, one entry per export format.
    pub export_formats: Vec<ExportFormat>,
}

/// The shared template cache.
pub struct TemplateCache {
    entries: Vec<(u128, TemplateStorageEntry)>,
    /// Version directories currently materialized under the template root.
    disk: Vec<u128>,
}

impl TemplateCache {
    /// The mapping from template id to cached entry.
    pub closed spec fn view(&self) -> Map<u128, TemplateStorageEntry> {
        assoc_map(self.entries@)
    }

    /// Whether the version directory `v` is materialized on disk.
    pub closed spec fn disk_has(&self, v: u128) -> bool {
        self.disk@.contains(v)
    }

    /// Cache coherence invariant: template ids are unique and each cached
    /// entry's version directory is on disk.
    pub closed spec fn wf(&self) -> bool {
        &&& keys_unique(self.entries@)
        &&& forall|i: int|
            0 <= i < self.entries@.len() ==> self.disk_has(
                (#[trigger] self.entries@[i]).1.version_id,
            )
    }

    pub fn new() -> (c: TemplateCache)
        ensures
            c.wf(),
            c@ == Map::<u128, TemplateStorageEntry>::empty(),
            forall|v: u128| !c.disk_has(v),
    {
        TemplateCache { entries: Vec::new(), disk: Vec::new() }
    }

    /// Index of the entry for template `t`, if any.
    fn find(&self, t: u128) -> (r: Option<usize>)
        ensures
            match r {
                Some(i) => i < self.entries@.len() && self.entries@[i as int].0 == t,
                None => forall|i: int|
                    0 <= i < self.entries@.len() ==> (#[trigger] self.entries@[i]).0 != t,
            },
    {
        let mut i: usize = 0;
        while i < self.entries.len()
            invariant
                i <= self.entries@.len(),
                forall|j: int| 0 <= j < i ==> (#[trigger] self.entries@[j]).0 != t,
            decreases self.entries@.len() - i,
        {
            if self.entries[i].0 == t {
                return Some(i);
            }
            i = i + 1;
        }
        None
    }

    /// Whether any entry (other than the one at `skip`) holds version `v`.
    fn version_held_elsewhere(&self, v: u128, skip: usize) -> (r: bool)
        ensures
            r == exists|i: int|
                0 <= i < self.entries@.len() && i != skip && (#[trigger] self.entries@[
                    i
                ]).1.version_id == v,
    {
        let mut i: usize = 0;
        while i < self.entries.len()
            invariant
                i <= self.entries@.len(),
                forall|j: int|
                    0 <= j < i ==> !(j != skip && (#[trigger] self.entries@[j]).1.version_id == v),
            decreases self.entries@.len() - i,
        {
            if i != skip && self.entries[i].1.version_id == v {
                return true;
            }
            i = i + 1;
        }
        false
    }

    /// Whether version directory `v` is recorded as on disk.
    fn disk_contains(&self, v: u128) -> (r: bool)
        ensures
            r == self.disk_has(v),
    {
        let mut i: usize = 0;
        while i < self.disk.len()
            invariant
                i <= self.disk@.len(),
                forall|j: int| 0 <= j < i ==> self.disk@[j] != v,
            decreases self.disk@.len() - i,
        {
            if self.disk[i] == v {
                return true;
            }
            i = i + 1;
        }
        false
    }

    /// Drops every occurrence of `v` from the disk model.
    fn disk_remove(&mut self, v: u128)
        ensures
            forall|w: u128| final(self).disk_has(w) == (old(self).disk_has(w) && w != v),
            final(self).entries@ == old(self).entries@,
    {
        let mut kept: Vec<u128> = Vec::new();
        let mut i: usize = 0;
        while i < self.disk.len()
            invariant
                i <= self.disk@.len(),
                self.disk@ == old(self).disk@,
                self.entries@ == old(self).entries@,
                forall|w: u128| kept@.contains(w) == (old(self).disk@.take(i as int).contains(w)
                    && w != v),
            decreases self.disk@.len() - i,
        {
            let d = self.disk[i];
            proof {
                assert(old(self).disk@.take(i as int + 1) =~= old(self).disk@.take(i as int).push(
                    d,
                ));
            }
            if d != v {
                kept.push(d);
            }
            i = i + 1;
        }
        proof {
            assert(old(self).disk@.take(self.disk@.len() as int) =~= old(self).disk@);
        }
        self.disk = kept;
    }

    /// Pure read: the cached entry for template `t`, if any.
    pub fn lookup(&self, t: u128) -> (r: Option<&TemplateStorageEntry>)
        requires
            self.wf(),
        ensures
            match r {
                Some(e) => self@.contains_key(t) && *e == self@[t],
                None => !self@.contains_key(t),
            },
    {
        proof {
            lemma_assoc_contains(self.entries@, t);
        }
        match self.find(t) {
            Some(i) => {
                proof {
                    lemma_assoc_index(self.entries@, i as int);
                }
                Some(&self.entries[i].1)
            },
            None => None,
        }
    }

    /// True exactly when a cached entry for `t` exists and its version
    /// matches `v`.
    pub fn has_version(&self, t: u128, v: u128) -> (r: bool)
        requires
            self.wf(),
        ensures
            r == (self@.contains_key(t) && self@[t].version_id == v),
    {
        match self.lookup(t) {
            Some(e) => e.version_id == v,
            None => false,
        }
    }

    /// Installs a bundle for template `t` at version `v`.  The caller has
    /// already materialized `<template-root>/<v>/` on disk.  Replaces any
    /// prior entry; exactly when the prior entry held a different version
    /// directory that no other entry still needs, that directory leaves the
    /// disk model and is handed back for deletion.
    pub fn install(&mut self, t: u128, v: u128, export_formats: Vec<ExportFormat>) -> (stale:
        Option<u128>)
        requires
            old(self).wf(),
        ensures
            final(self).wf(),
            final(self)@ == old(self)@.insert(
                t,
                TemplateStorageEntry { version_id: v, export_formats },
            ),
            final(self).disk_has(v),
            stale is Some <==> (old(self)@.contains_key(t) && old(self)@[t].version_id != v
                && !version_held_by_other(old(self)@, t, old(self)@[t].version_id)),
            match stale {
                Some(w) => {
                    &&& w == old(self)@[t].version_id
                    &&& forall|x: u128|
                        final(self).disk_has(x) == ((old(self).disk_has(x) || x == v) && x != w)
                },
                None => forall|x: u128|
                    x != v ==> final(self).disk_has(x) == old(self).disk_has(x),
            },
    {
        let entry = TemplateStorageEntry { version_id: v, export_formats };
        if !self.disk_contains(v) {
            self.disk.push(v);
        }
        proof {
            if !old(self).disk_has(v) {
                assert(self.disk@ == old(self).disk@.push(v));
                assert(self.disk@.last() == v);
            }
            assert forall|w: u128| #[trigger] self.disk_has(w) == (old(self).disk_has(w) || w
                == v) by {
                if !old(self).disk_has(v) {
                    if self.disk@.contains(w) {
                        let i = choose|i: int|
                            0 <= i < self.disk@.len() && self.disk@[i] == w;
                        if i < old(self).disk@.len() {
                            assert(old(self).disk@[i] == w);
                        }
                    }
                    if old(self).disk@.contains(w) {
                        let i = choose|i: int|
                            0 <= i < old(self).disk@.len() && old(self).disk@[i] == w;
                        assert(self.disk@[i] == w);
                    }
                    if w == v {
                        assert(self.disk@.last() == v);
                    }
                }
            }
            assert(self.entries@ == old(self).entries@);
        }
        proof {
            lemma_assoc_contains(self.entries@, t);
        }
        match self.find(t) {
            Some(i) => {
                proof {
                    lemma_assoc_index(self.entries@, i as int);
                }
                let old_version = self.entries[i].1.version_id;
                proof {
                    lemma_assoc_update(self.entries@, i as int, entry);
                    lemma_keys_unique_update(self.entries@, i as int, entry);
                }
                self.entries.set(i, (t, entry));
                let held = self.version_held_elsewhere(old_version, i);
                proof {
                    assert(held == version_held_by_other(old(self)@, t, old_version)) by {
                        if held {
                            let j = choose|j: int|
                                0 <= j < self.entries@.len() && j != i && (
                                #[trigger] self.entries@[j]).1.version_id == old_version;
                            assert(self.entries@[j] == old(self).entries@[j]);
                            lemma_assoc_index(old(self).entries@, j);
                            assert(old(self).entries@[j].0 != t);
                            assert(version_held_by_other(old(self)@, t, old_version));
                        }
                        if version_held_by_other(old(self)@, t, old_version) {
                            let t2 = choose|t2: u128|
                                t2 != t && #[trigger] old(self)@.contains_key(t2) && old(
                                self,
                            )@[t2].version_id == old_version;
                            lemma_assoc_contains(old(self).entries@, t2);
                            let j = choose|j: int|
                                0 <= j < old(self).entries@.len() && (#[trigger] old(
                                self,
                            ).entries@[j]).0 == t2;
                            lemma_assoc_index(old(self).entries@, j);
                            assert(j != i);
                            assert(self.entries@[j] == old(self).entries@[j]);
                            assert(self.entries@[j].1.version_id == old_version);
                            assert(held);
                        }
                    }
                }
                if old_version != v && !held {
                    self.disk_remove(old_version);
                    Some(old_version)
                } else {
                    None
                }
            },
            None => {
                proof {
                    lemma_assoc_push(self.entries@, t, entry);
                    lemma_keys_unique_push(self.entries@, t, entry);
                }
                self.entries.push((t, entry));
                None
            },
        }
    }

    /// Startup reset: drops every cached entry and hands back the version
    /// directories whose on-disk bundles should now be deleted.
    pub fn clear_all(&mut self) -> (dirs: Vec<u128>)
        ensures
            final(self).wf(),
            final(self)@ == Map::<u128, TemplateStorageEntry>::empty(),
            forall|v: u128| !final(self).disk_has(v),
            forall|v: u128| old(self).disk_has(v) == dirs@.contains(v),
    {
        self.entries = Vec::new();
        let mut dirs = Vec::new();
        core::mem::swap(&mut dirs, &mut self.disk);
        dirs
    }
}

/// Some other template's cached entry (any but `t`) still holds the
/// version directory `w`.
pub open spec fn version_held_by_other(
    m: Map<u128, TemplateStorageEntry>,
    t: u128,
    w: u128,
) -> bool {
    exists|t2: u128| t2 != t && #[trigger] m.contains_key(t2) && m[t2].version_id == w
}

/// Cache coherence: under the cache invariant, `has_version(t, v)` holds
/// exactly when the in-memory entry for `t` carries version `v` and the
/// version directory `v` is materialized on disk.  (`has_version` ensures
/// the left-hand side; coherence adds that the directory is then on disk.)
pub proof fn lemma_cache_coherence(c: TemplateCache, t: u128, v: u128)
    requires
        c.wf(),
    ensures
        (c@.contains_key(t) && c@[t].version_id == v) <==> (c@.contains_key(t)
            && c@[t].version_id == v && c.disk_has(v)),
{
    lemma_assoc_contains(c.view_entries(), t);
    if c@.contains_key(t) && c@[t].version_id == v {
        let i = choose|i: int| 0 <= i < c.view_entries().len() && (#[trigger] c.view_entries()[
            i
        ]).0 == t;
        lemma_assoc_index(c.view_entries(), i);
    }
}

impl TemplateCache {
    /// The raw entry sequence, for coherence proofs about the invariant.
    pub closed spec fn view_entries(&self) -> Seq<(u128, TemplateStorageEntry)> {
        self.entries@
    }
}

} // verus!
