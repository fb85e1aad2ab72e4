//! Pending project paths handed to windows that are not ready yet: one
//! process-wide slot for a path received before any window existed, and a
//! per-label map for paths assigned to freshly created windows. The host
//! layer guards these with its own locks.

use vstd::prelude::*;

use crate::keyed::{find_index, has_key, key_index, lemma_key_index, lookup, Keyed};
use crate::text::str_eq;

verus! {

/// A project path received (via file association) before the frontend was
/// ready, waiting to be claimed exactly once.
#[derive(Debug)]
pub struct PendingOpenPath {
    pub path: Option<String>,
}

impl PendingOpenPath {
    /// An empty slot.
    pub fn new(path: Option<String>) -> (r: PendingOpenPath)
        ensures
            r.path == path,
    {
        PendingOpenPath { path }
    }

    /// Claims the pending path, leaving the slot empty.
    pub fn take(&mut self) -> (r: Option<String>)
        ensures
            r == old(self).path,
            final(self).path is None,
    {
        let mut out: Option<String> = None;
        core::mem::swap(&mut self.path, &mut out);
        out
    }
}

/// One window's pending project path.
#[derive(Debug)]
pub struct PendingPath {
    pub label: String,
    pub path: String,
}

impl Keyed for PendingPath {
    open spec fn key(&self) -> Seq<char> {
        self.label@
    }

    fn matches(&self, k: &str) -> (r: bool) {
        str_eq(self.label.as_str(), k)
    }
}

/// Pending project paths for newly created windows, by window label.
#[derive(Debug)]
pub struct PendingWindowPaths {
    pub entries: Vec<PendingPath>,
}

impl PendingWindowPaths {
    /// An empty map.
    pub fn new() -> (r: PendingWindowPaths)
        ensures
            r.entries@.len() == 0,
    {
        PendingWindowPaths { entries: Vec::new() }
    }

    /// Assigns a pending path to a window label.
    pub fn insert(&mut self, label: String, path: String)
        ensures
            final(self).entries@ == old(self).entries@.push(
                PendingPath { label: label, path: path },
            ),
    {
        self.entries.push(PendingPath { label, path });
    }

    /// Claims the pending path of one window, removing it.
    pub fn take(&mut self, label: &str) -> (r: Option<String>)
        ensures
            match lookup(old(self).entries@, label@) {
                Some(e) => r == Some(e.path) && final(self).entries@ == old(
                    self,
                ).entries@.remove(key_index(old(self).entries@, label@)),
                None => r is None && final(self).entries@ == old(self).entries@,
            },
    {
        match find_index(&self.entries, label) {
            Some(i) => {
                let e = self.entries.remove(i);
                proof {
                    lemma_key_index(old(self).entries@, label@);
                }
                Some(e.path)
            },
            None => {
                proof {
                    lemma_key_index(old(self).entries@, label@);
                }
                None
            },
        }
    }
}

} // verus!
