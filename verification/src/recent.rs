//! The recent-projects list: pure list maintenance. Loading and saving the
//! backing file are the host layer's concern.

use vstd::prelude::*;

use crate::keyed::Keyed;
use crate::text::str_eq;

verus! {

/// How many recent projects are kept.
pub const MAX_RECENT: usize = 10;

/// One recently opened project.
#[derive(Debug)]
pub struct RecentProject {
    pub name: String,
    pub path: String,
    /// Epoch milliseconds of the last open.
    pub opened_at: u64,
}

impl Clone for RecentProject {
    fn clone(&self) -> (r: Self)
        ensures
            r == *self,
    {
        RecentProject {
            name: self.name.clone(),
            path: self.path.clone(),
            opened_at: self.opened_at,
        }
    }
}

impl Keyed for RecentProject {
    open spec fn key(&self) -> Seq<char> {
        self.path@
    }

    fn matches(&self, k: &str) -> (r: bool) {
        str_eq(self.path.as_str(), k)
    }
}

/// The list with every entry of the given path removed.
pub open spec fn without_path(s: Seq<RecentProject>, path: Seq<char>) -> Seq<RecentProject> {
    s.filter(|e: RecentProject| e.path@ != path)
}

/// Adds a project to the front of the recent list: any entry with the same
/// path is removed first, and the list is capped at ten entries.
pub fn add_recent(projects: Vec<RecentProject>, name: String, path: String, opened_at: u64) -> (r:
    Vec<RecentProject>)
    ensures
        r@.len() >= 1,
        r@[0].name == name,
        r@[0].path == path,
        r@[0].opened_at == opened_at,
        r@.len() <= 10,
        r@.subrange(1, r@.len() as int) == (if 1 + without_path(projects@, path@).len() <= 10 {
            without_path(projects@, path@)
        } else {
            without_path(projects@, path@).subrange(0, 9)
        }),
{
    let ghost orig = projects@;
    let ghost pathv = path@;
    let ghost namev = name@;
    let rest = remove_recent(projects, path.as_str());
    let mut r: Vec<RecentProject> = Vec::new();
    r.push(RecentProject { name, path, opened_at });
    let ghost head = r@[0];
    let mut i: usize = 0;
    while i < rest.len() && i < 9
        invariant
            i <= rest@.len(),
            i <= 9,
            r@.len() == i + 1,
            r@[0] == head,
            forall|j: int| 1 <= j < r@.len() ==> #[trigger] r@[j] == rest@[j - 1],
            rest@ == without_path(orig, pathv),
        decreases rest@.len() - i,
    {
        r.push(rest[i].clone());
        i = i + 1;
    }
    proof {
        if 1 + rest@.len() <= 10 {
            assert(r@.subrange(1, r@.len() as int) =~= rest@);
        } else {
            assert(r@.subrange(1, r@.len() as int) =~= rest@.subrange(0, 9));
        }
    }
    r
}

/// Removes every entry with the given path from the recent list.
pub fn remove_recent(projects: Vec<RecentProject>, path: &str) -> (r: Vec<RecentProject>)
    ensures
        r@ == without_path(projects@, path@),
{
    let ghost keep = |e: RecentProject| e.path@ != path@;
    let mut out: Vec<RecentProject> = Vec::new();
    let n = projects.len();
    let mut i: usize = 0;
    proof {
        reveal(Seq::filter);
        assert(projects@.subrange(0, 0) =~= Seq::<RecentProject>::empty());
    }
    while i < n
        invariant
            n == projects@.len(),
            i <= n,
            out@ == projects@.subrange(0, i as int).filter(keep),
            keep == (|e: RecentProject| e.path@ != path@),
        decreases n - i,
    {
        if !str_eq(projects[i].path.as_str(), path) {
            out.push(projects[i].clone());
        }
        proof {
            reveal(Seq::filter);
            let pre = projects@.subrange(0, i as int);
            let post = projects@.subrange(0, i + 1);
            assert(post.drop_last() =~= pre);
            assert(post.last() == projects@[i as int]);
        }
        i = i + 1;
    }
    proof {
        assert(projects@.subrange(0, n as int) =~= projects@);
    }
    out
}

} // verus!
