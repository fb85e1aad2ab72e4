//! The window registry: label-addressed per-window entries holding project
//! identity, the diagram mirror and the generated-artifact mirror, plus the
//! last-active pointer and the global catalog.

use vstd::prelude::*;

use crate::keyed::{find_index, has_key, key_index, lemma_key_index, lookup, Keyed};
use crate::model::{ArtifactFile, Catalog, Diagram};
use crate::text::str_eq;

verus! {

/// State for a single registered window.
#[derive(Debug)]
pub struct WindowEntry {
    pub label: String,
    pub project_name: Option<String>,
    pub project_path: Option<String>,
    pub diagram: Option<Diagram>,
    pub artifacts: Option<Vec<ArtifactFile>>,
}

impl Keyed for WindowEntry {
    open spec fn key(&self) -> Seq<char> {
        self.label@
    }

    fn matches(&self, k: &str) -> (r: bool) {
        str_eq(self.label.as_str(), k)
    }
}

/// A freshly created entry: no project bound, no mirrors.
pub open spec fn fresh_entry(e: WindowEntry, label: Seq<char>) -> bool {
    &&& e.label@ == label
    &&& e.project_name is None
    &&& e.project_path is None
    &&& e.diagram is None
    &&& e.artifacts is None
}

impl WindowEntry {
    /// A new entry for the given label.
    pub fn new(label: String) -> (e: WindowEntry)
        ensures
            fresh_entry(e, label@),
            e.label == label,
    {
        WindowEntry {
            label,
            project_name: None,
            project_path: None,
            diagram: None,
            artifacts: None,
        }
    }
}

/// The label-to-entry directory and the last-active-window pointer.
#[derive(Debug)]
pub struct Registry {
    pub windows: Vec<WindowEntry>,
    pub last_active: Option<String>,
}

/// The whole shared state of the bridge: the registry and the catalog.
#[derive(Debug)]
pub struct BridgeState {
    pub registry: Registry,
    pub catalog: Catalog,
}

impl BridgeState {
    /// A fresh state: no windows, no active pointer, an empty catalog.
    pub fn new() -> (s: BridgeState)
        ensures
            s.registry.windows@.len() == 0,
            s.registry.last_active is None,
            s.catalog.types@.len() == 0,
    {
        BridgeState {
            registry: Registry { windows: Vec::new(), last_active: None },
            catalog: Catalog::empty(),
        }
    }
}

/// The entry registered under `label`, if any.
pub open spec fn window_lookup(reg: Registry, label: Seq<char>) -> Option<WindowEntry> {
    lookup(reg.windows@, label)
}

/// A window with this label is registered.
pub open spec fn has_window(reg: Registry, label: Seq<char>) -> bool {
    has_key(reg.windows@, label)
}

/// Index of the entry registered under `label`.
pub fn window_index(reg: &Registry, label: &str) -> (r: Option<usize>)
    ensures
        match r {
            Some(i) => i < reg.windows@.len() && window_lookup(*reg, label@) == Some(
                reg.windows@[i as int],
            ) && i == key_index(reg.windows@, label@),
            None => !has_window(*reg, label@),
        },
{
    let r = find_index(&reg.windows, label);
    proof {
        lemma_key_index(reg.windows@, label@);
    }
    r
}

/// Registers a window label, creating its entry if absent (idempotent).
pub fn mcp_register_window(reg: &mut Registry, label: String)
    ensures
        has_window(*old(reg), label@) ==> final(reg).windows@ == old(reg).windows@,
        !has_window(*old(reg), label@) ==> final(reg).windows@.len() == old(reg).windows@.len()
            + 1 && final(reg).windows@.subrange(0, old(reg).windows@.len() as int) == old(
            reg,
        ).windows@ && fresh_entry(final(reg).windows@.last(), label@),
        final(reg).last_active == old(reg).last_active,
{
    let present = crate::keyed::contains_key(&reg.windows, label.as_str());
    if !present {
        let ghost pre = reg.windows@;
        reg.windows.push(WindowEntry::new(label));
        proof {
            assert(reg.windows@.subrange(0, pre.len() as int) =~= pre);
        }
    }
}

/// Unregisters a window label: its entry is removed and the active pointer
/// is cleared if it pointed there.
pub fn mcp_unregister_window(reg: &mut Registry, label: &str)
    ensures
        final(reg).windows@ == old(reg).windows@.filter(|e: WindowEntry| e.label@ != label@),
        final(reg).last_active == (match old(reg).last_active {
            Some(l) => if l@ == label@ {
                None::<String>
            } else {
                Some(l)
            },
            None => None::<String>,
        }),
{
    let ghost keep = |e: WindowEntry| e.label@ != label@;
    let mut tmp: Vec<WindowEntry> = Vec::new();
    core::mem::swap(&mut reg.windows, &mut tmp);
    let ghost orig = tmp@;
    let mut rev = vec_entries_reversed(&mut tmp);
    let n = rev.len();
    let mut j: usize = 0;
    proof {
        reveal(Seq::filter);
        assert(orig.subrange(0, 0) =~= Seq::<WindowEntry>::empty());
    }
    while j < n
        invariant
            n == orig.len(),
            j <= n,
            rev@.len() == n - j,
            forall|i: int| 0 <= i < rev@.len() ==> #[trigger] rev@[i] == orig[n - 1 - i],
            reg.windows@ == orig.subrange(0, j as int).filter(keep),
            reg.last_active == old(reg).last_active,
            keep == (|e: WindowEntry| e.label@ != label@),
        decreases n - j,
    {
        let e = rev.pop().unwrap();
        proof {
            assert(e == orig[j as int]);
        }
        if !str_eq(e.label.as_str(), label) {
            reg.windows.push(e);
        }
        proof {
            reveal(Seq::filter);
            let pre = orig.subrange(0, j as int);
            let post = orig.subrange(0, j + 1);
            assert(post.drop_last() =~= pre);
            assert(post.last() == orig[j as int]);
        }
        j = j + 1;
    }
    proof {
        assert(orig.subrange(0, n as int) =~= orig);
    }
    let clear = match &reg.last_active {
        Some(l) => str_eq(l.as_str(), label),
        None => false,
    };
    if clear {
        reg.last_active = None;
    }
}

/// Empties the vector into a new one in reverse order, preserving values.
fn vec_entries_reversed(v: &mut Vec<WindowEntry>) -> (r: Vec<WindowEntry>)
    ensures
        final(v)@.len() == 0,
        r@ == old(v)@.reverse(),
{
    let ghost orig = v@;
    let mut r: Vec<WindowEntry> = Vec::new();
    while v.len() > 0
        invariant
            v@ == orig.subrange(0, v@.len() as int),
            r@.len() + v@.len() == orig.len(),
            forall|i: int| 0 <= i < r@.len() ==> #[trigger] r@[i] == orig[orig.len() - 1 - i],
        decreases v@.len(),
    {
        let x = v.pop().unwrap();
        r.push(x);
    }
    proof {
        assert(r@ =~= orig.reverse());
    }
    r
}

/// Marks a window as the most recently active one.
pub fn mcp_set_active_window(reg: &mut Registry, label: String)
    ensures
        final(reg).windows@ == old(reg).windows@,
        final(reg).last_active == Some(label),
{
    reg.last_active = Some(label);
}

/// How an entry changes when a project is bound to it: empty strings mean
/// "no project"; unbinding the project name clears both mirrors.
pub open spec fn project_bound(
    e_old: WindowEntry,
    e_new: WindowEntry,
    name: Seq<char>,
    path: Seq<char>,
) -> bool {
    &&& e_new.label == e_old.label
    &&& (if name.len() == 0 {
        e_new.project_name is None
    } else {
        e_new.project_name is Some && e_new.project_name->0@ == name
    })
    &&& (if path.len() == 0 {
        e_new.project_path is None
    } else {
        e_new.project_path is Some && e_new.project_path->0@ == path
    })
    &&& (if name.len() == 0 {
        e_new.diagram is None && e_new.artifacts is None
    } else {
        e_new.diagram == e_old.diagram && e_new.artifacts == e_old.artifacts
    })
}

/// Takes the entry at `i` out of the vector.
pub(crate) fn take_entry(windows: &mut Vec<WindowEntry>, i: usize) -> (e: WindowEntry)
    requires
        i < old(windows)@.len(),
    ensures
        e == old(windows)@[i as int],
        final(windows)@ == old(windows)@.remove(i as int),
{
    windows.remove(i)
}

/// Puts an entry back at `i`.
pub(crate) fn put_entry(windows: &mut Vec<WindowEntry>, i: usize, e: WindowEntry)
    requires
        i <= old(windows)@.len(),
    ensures
        final(windows)@ == old(windows)@.insert(i as int, e),
{
    windows.insert(i, e);
}

/// Binds (or unbinds) a project to a window, creating the entry if absent.
pub fn mcp_set_window_project(reg: &mut Registry, label: String, name: String, path: String)
    ensures
        final(reg).last_active == old(reg).last_active,
        has_window(*old(reg), label@) ==> {
            let i = key_index(old(reg).windows@, label@);
            &&& final(reg).windows@.len() == old(reg).windows@.len()
            &&& final(reg).windows@ =~= old(reg).windows@.update(
                i,
                final(reg).windows@[i],
            )
            &&& project_bound(old(reg).windows@[i], final(reg).windows@[i], name@, path@)
        },
        !has_window(*old(reg), label@) ==> final(reg).windows@.len() == old(
            reg,
        ).windows@.len() + 1 && final(reg).windows@.subrange(
            0,
            old(reg).windows@.len() as int,
        ) == old(reg).windows@ && project_bound(
            WindowEntry {
                label: label,
                project_name: None,
                project_path: None,
                diagram: None,
                artifacts: None,
            },
            final(reg).windows@.last(),
            name@,
            path@,
        ) && final(reg).windows@.last().label@ == label@,
{
    let ix = window_index(reg, label.as_str());
    let ghost pre = reg.windows@;
    let i: usize = match ix {
        Some(i) => i,
        None => {
            let fresh = WindowEntry::new(label);
            reg.windows.push(fresh);
            proof {
                assert(reg.windows@.subrange(0, pre.len() as int) =~= pre);
            }
            reg.windows.len() - 1
        },
    };
    let ghost mid = reg.windows@;
    let mut e = take_entry(&mut reg.windows, i);
    let name_empty = name.as_str().is_empty();
    let path_empty = path.as_str().is_empty();
    e.project_name = if name_empty {
        None
    } else {
        Some(name)
    };
    e.project_path = if path_empty {
        None
    } else {
        Some(path)
    };
    if name_empty {
        e.diagram = None;
        e.artifacts = None;
    }
    put_entry(&mut reg.windows, i, e);
    proof {
        assert(reg.windows@ =~= mid.update(i as int, reg.windows@[i as int]));
        lemma_key_index(pre, label@);
        if has_key(pre, label@) {
            assert(reg.windows@ =~= pre.update(key_index(pre, label@), reg.windows@[i as int]));
        } else {
            assert(reg.windows@.subrange(0, pre.len() as int) =~= pre);
        }
    }
}

/// Replaces a window's diagram mirror wholesale, creating the entry if
/// absent.
pub fn mcp_sync_diagram(reg: &mut Registry, label: String, d: Diagram)
    ensures
        final(reg).last_active == old(reg).last_active,
        has_window(*old(reg), label@) ==> {
            let i = key_index(old(reg).windows@, label@);
            &&& final(reg).windows@ =~= old(reg).windows@.update(i, final(reg).windows@[i])
            &&& final(reg).windows@[i] == (WindowEntry {
                diagram: Some(d),
                ..old(reg).windows@[i]
            })
        },
        !has_window(*old(reg), label@) ==> final(reg).windows@.len() == old(
            reg,
        ).windows@.len() + 1 && final(reg).windows@.subrange(
            0,
            old(reg).windows@.len() as int,
        ) == old(reg).windows@ && final(reg).windows@.last() == (WindowEntry {
            label: label,
            project_name: None,
            project_path: None,
            diagram: Some(d),
            artifacts: None,
        }),
{
    let ix = window_index(reg, label.as_str());
    let ghost pre = reg.windows@;
    let i: usize = match ix {
        Some(i) => i,
        None => {
            let fresh = WindowEntry::new(label);
            reg.windows.push(fresh);
            proof {
                assert(reg.windows@.subrange(0, pre.len() as int) =~= pre);
            }
            reg.windows.len() - 1
        },
    };
    let ghost mid = reg.windows@;
    let mut e = take_entry(&mut reg.windows, i);
    e.diagram = Some(d);
    put_entry(&mut reg.windows, i, e);
    proof {
        assert(reg.windows@ =~= mid.update(i as int, reg.windows@[i as int]));
        lemma_key_index(pre, label@);
        if has_key(pre, label@) {
            assert(reg.windows@ =~= pre.update(key_index(pre, label@), reg.windows@[i as int]));
        } else {
            assert(reg.windows@.subrange(0, pre.len() as int) =~= pre);
        }
    }
}

/// Replaces a window's generated-artifact mirror wholesale, creating the
/// entry if absent. (The wake-up of waiters is the caller's concern.)
pub fn mcp_sync_hcl_files(reg: &mut Registry, label: String, files: Vec<ArtifactFile>)
    ensures
        final(reg).last_active == old(reg).last_active,
        has_window(*old(reg), label@) ==> {
            let i = key_index(old(reg).windows@, label@);
            &&& final(reg).windows@ =~= old(reg).windows@.update(i, final(reg).windows@[i])
            &&& final(reg).windows@[i] == (WindowEntry {
                artifacts: Some(files),
                ..old(reg).windows@[i]
            })
        },
        !has_window(*old(reg), label@) ==> final(reg).windows@.len() == old(
            reg,
        ).windows@.len() + 1 && final(reg).windows@.subrange(
            0,
            old(reg).windows@.len() as int,
        ) == old(reg).windows@ && final(reg).windows@.last() == (WindowEntry {
            label: label,
            project_name: None,
            project_path: None,
            diagram: None,
            artifacts: Some(files),
        }),
{
    let ix = window_index(reg, label.as_str());
    let ghost pre = reg.windows@;
    let i: usize = match ix {
        Some(i) => i,
        None => {
            let fresh = WindowEntry::new(label);
            reg.windows.push(fresh);
            proof {
                assert(reg.windows@.subrange(0, pre.len() as int) =~= pre);
            }
            reg.windows.len() - 1
        },
    };
    let ghost mid = reg.windows@;
    let mut e = take_entry(&mut reg.windows, i);
    e.artifacts = Some(files);
    put_entry(&mut reg.windows, i, e);
    proof {
        assert(reg.windows@ =~= mid.update(i as int, reg.windows@[i as int]));
        lemma_key_index(pre, label@);
        if has_key(pre, label@) {
            assert(reg.windows@ =~= pre.update(key_index(pre, label@), reg.windows@[i as int]));
        } else {
            assert(reg.windows@.subrange(0, pre.len() as int) =~= pre);
        }
    }
}

/// Replaces the global resource type catalog wholesale.
pub fn mcp_sync_resource_types(state: &mut BridgeState, types: Vec<crate::model::ResourceTypeDescriptor>)
    ensures
        final(state).catalog.types == types,
        final(state).registry == old(state).registry,
{
    state.catalog = Catalog { types };
}

} // verus!
