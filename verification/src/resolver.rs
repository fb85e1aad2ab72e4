//! Window resolution: turning an optional addressing hint into exactly one
//! registered window label.

use vstd::prelude::*;

use crate::keyed::has_key;
use crate::registry::{Registry, WindowEntry};
use crate::text::{eq_ignore_case, lower, str_eq};

verus! {

/// The entry's bound project display name matches the hint, ignoring ASCII
/// case.
pub open spec fn name_matches(e: WindowEntry, hint: Seq<char>) -> bool {
    match e.project_name {
        Some(n) => lower(n@) == lower(hint),
        None => false,
    }
}

/// The entry's bound project path equals the hint exactly.
pub open spec fn path_matches(e: WindowEntry, hint: Seq<char>) -> bool {
    match e.project_path {
        Some(p) => p@ == hint,
        None => false,
    }
}

/// The entry has a project bound.
pub open spec fn has_project(e: WindowEntry) -> bool {
    e.project_name is Some
}

/// Some entry satisfies the name match.
pub open spec fn exists_name_match(ws: Seq<WindowEntry>, hint: Seq<char>) -> bool {
    exists|i: int| 0 <= i < ws.len() && name_matches(#[trigger] ws[i], hint)
}

/// Some entry satisfies the path match.
pub open spec fn exists_path_match(ws: Seq<WindowEntry>, hint: Seq<char>) -> bool {
    exists|i: int| 0 <= i < ws.len() && path_matches(#[trigger] ws[i], hint)
}

/// Some entry has a project bound.
pub open spec fn exists_project(ws: Seq<WindowEntry>) -> bool {
    exists|i: int| 0 <= i < ws.len() && has_project(#[trigger] ws[i])
}

/// Index of the first entry with a case-insensitive name match.
pub open spec fn first_name_match(ws: Seq<WindowEntry>, hint: Seq<char>) -> int
    decreases ws.len(),
{
    if ws.len() == 0 {
        0
    } else if name_matches(ws[0], hint) {
        0
    } else {
        1 + first_name_match(ws.drop_first(), hint)
    }
}

/// Index of the first entry with an exact path match.
pub open spec fn first_path_match(ws: Seq<WindowEntry>, hint: Seq<char>) -> int
    decreases ws.len(),
{
    if ws.len() == 0 {
        0
    } else if path_matches(ws[0], hint) {
        0
    } else {
        1 + first_path_match(ws.drop_first(), hint)
    }
}

/// Index of the first entry with a bound project.
pub open spec fn first_project(ws: Seq<WindowEntry>) -> int
    decreases ws.len(),
{
    if ws.len() == 0 {
        0
    } else if has_project(ws[0]) {
        0
    } else {
        1 + first_project(ws.drop_first())
    }
}

/// A resolution failure: either the hint matched nothing, or there was no
/// hint and no window at all.
#[derive(Clone, Copy, Debug, PartialEq, Eq, Structural)]
pub enum ResolveFault {
    ProjectNotFound,
    NoProject,
}

/// What resolution must return for a given registry and hint, by the fixed
/// precedence: project name, window label, project path; with no hint, the
/// still-registered last-active window, the first window with a project,
/// then the first window at all.
pub open spec fn resolve_spec(reg: Registry, hint: Option<Seq<char>>) -> Result<
    Seq<char>,
    ResolveFault,
> {
    match hint {
        Some(h) => if exists_name_match(reg.windows@, h) {
            Ok(reg.windows@[first_name_match(reg.windows@, h)].label@)
        } else if has_key(reg.windows@, h) {
            Ok(h)
        } else if exists_path_match(reg.windows@, h) {
            Ok(reg.windows@[first_path_match(reg.windows@, h)].label@)
        } else {
            Err(ResolveFault::ProjectNotFound)
        },
        None => {
            let active_ok = match reg.last_active {
                Some(l) => has_key(reg.windows@, l@),
                None => false,
            };
            if active_ok {
                Ok(reg.last_active->0@)
            } else if exists_project(reg.windows@) {
                Ok(reg.windows@[first_project(reg.windows@)].label@)
            } else if reg.windows@.len() > 0 {
                Ok(reg.windows@[0].label@)
            } else {
                Err(ResolveFault::NoProject)
            }
        },
    }
}

proof fn lemma_first_name_match(ws: Seq<WindowEntry>, hint: Seq<char>, i: int)
    requires
        0 <= i <= ws.len(),
        forall|j: int| 0 <= j < i ==> !name_matches(#[trigger] ws[j], hint),
        i < ws.len() ==> name_matches(ws[i], hint),
    ensures
        first_name_match(ws, hint) == i,
    decreases i,
{
    if i == 0 {
    } else {
        assert(!name_matches(ws[0], hint));
        assert(forall|j: int|
            0 <= j < i - 1 ==> !name_matches(#[trigger] ws.drop_first()[j], hint) || ws.drop_first()[j]
                != ws[j + 1]);
        assert forall|j: int| 0 <= j < i - 1 implies !name_matches(
            #[trigger] ws.drop_first()[j],
            hint,
        ) by {
            assert(ws.drop_first()[j] == ws[j + 1]);
        }
        if i - 1 < ws.drop_first().len() {
            assert(ws.drop_first()[i - 1] == ws[i]);
        }
        lemma_first_name_match(ws.drop_first(), hint, i - 1);
    }
}

proof fn lemma_first_path_match(ws: Seq<WindowEntry>, hint: Seq<char>, i: int)
    requires
        0 <= i <= ws.len(),
        forall|j: int| 0 <= j < i ==> !path_matches(#[trigger] ws[j], hint),
        i < ws.len() ==> path_matches(ws[i], hint),
    ensures
        first_path_match(ws, hint) == i,
    decreases i,
{
    if i == 0 {
    } else {
        assert forall|j: int| 0 <= j < i - 1 implies !path_matches(
            #[trigger] ws.drop_first()[j],
            hint,
        ) by {
            assert(ws.drop_first()[j] == ws[j + 1]);
        }
        if i - 1 < ws.drop_first().len() {
            assert(ws.drop_first()[i - 1] == ws[i]);
        }
        lemma_first_path_match(ws.drop_first(), hint, i - 1);
    }
}

proof fn lemma_first_project(ws: Seq<WindowEntry>, i: int)
    requires
        0 <= i <= ws.len(),
        forall|j: int| 0 <= j < i ==> !has_project(#[trigger] ws[j]),
        i < ws.len() ==> has_project(ws[i]),
    ensures
        first_project(ws) == i,
    decreases i,
{
    if i == 0 {
    } else {
        assert forall|j: int| 0 <= j < i - 1 implies !has_project(
            #[trigger] ws.drop_first()[j],
        ) by {
            assert(ws.drop_first()[j] == ws[j + 1]);
        }
        if i - 1 < ws.drop_first().len() {
            assert(ws.drop_first()[i - 1] == ws[i]);
        }
        lemma_first_project(ws.drop_first(), i - 1);
    }
}

/// Resolves an optional addressing hint to exactly one registered window
/// label: case-insensitive project name first, then window label, then
/// project path; with no hint, the last-active window if still registered,
/// else the first window with a bound project, else the first window.
pub fn resolve_window_label(reg: &Registry, hint: Option<&String>) -> (r: Result<
    String,
    ResolveFault,
>)
    ensures
        match r {
            Ok(label) => resolve_spec(*reg, match hint {
                Some(h) => Some(h@),
                None => None,
            }) == Ok::<Seq<char>, ResolveFault>(label@),
            Err(f) => resolve_spec(*reg, match hint {
                Some(h) => Some(h@),
                None => None,
            }) == Err::<Seq<char>, ResolveFault>(f),
        },
{
    match hint {
        Some(h) => {
            let n = reg.windows.len();
            let mut i: usize = 0;
            while i < n
                invariant
                    hint == Some(h),
                    n == reg.windows@.len(),
                    i <= n,
                    forall|j: int| 0 <= j < i ==> !name_matches(#[trigger] reg.windows@[j], h@),
                decreases n - i,
            {
                let e = &reg.windows[i];
                let m = match &e.project_name {
                    Some(pn) => eq_ignore_case(pn.as_str(), h.as_str()),
                    None => false,
                };
                if m {
                    proof {
                        assert(name_matches(reg.windows@[i as int], h@));
                        assert(exists_name_match(reg.windows@, h@));
                        lemma_first_name_match(reg.windows@, h@, i as int);
                    }
                    return Ok(e.label.clone());
                }
                i = i + 1;
            }
            proof {
                assert(!exists_name_match(reg.windows@, h@));
            }
            if crate::keyed::contains_key(&reg.windows, h.as_str()) {
                return Ok(h.clone());
            }
            let mut i: usize = 0;
            while i < n
                invariant
                    hint == Some(h),
                    n == reg.windows@.len(),
                    i <= n,
                    forall|j: int| 0 <= j < i ==> !path_matches(#[trigger] reg.windows@[j], h@),
                    !exists_name_match(reg.windows@, h@),
                    !has_key(reg.windows@, h@),
                decreases n - i,
            {
                let e = &reg.windows[i];
                let m = match &e.project_path {
                    Some(pp) => str_eq(pp.as_str(), h.as_str()),
                    None => false,
                };
                if m {
                    proof {
                        assert(path_matches(reg.windows@[i as int], h@));
                        assert(exists_path_match(reg.windows@, h@));
                        lemma_first_path_match(reg.windows@, h@, i as int);
                    }
                    return Ok(e.label.clone());
                }
                i = i + 1;
            }
            proof {
                assert(!exists_path_match(reg.windows@, h@));
            }
            Err(ResolveFault::ProjectNotFound)
        },
        None => {
            let active_ok = match &reg.last_active {
                Some(l) => crate::keyed::contains_key(&reg.windows, l.as_str()),
                None => false,
            };
            if active_ok {
                let l = match &reg.last_active {
                    Some(l) => l.clone(),
                    None => String::new(),
                };
                return Ok(l);
            }
            let n = reg.windows.len();
            let mut i: usize = 0;
            while i < n
                invariant
                    hint is None,
                    n == reg.windows@.len(),
                    i <= n,
                    forall|j: int| 0 <= j < i ==> !has_project(#[trigger] reg.windows@[j]),
                    match reg.last_active {
                        Some(l) => !has_key(reg.windows@, l@),
                        None => true,
                    },
                decreases n - i,
            {
                let e = &reg.windows[i];
                let m = match &e.project_name {
                    Some(_) => true,
                    None => false,
                };
                if m {
                    proof {
                        assert(has_project(reg.windows@[i as int]));
                        assert(exists_project(reg.windows@));
                        lemma_first_project(reg.windows@, i as int);
                    }
                    return Ok(e.label.clone());
                }
                i = i + 1;
            }
            proof {
                assert(!exists_project(reg.windows@));
            }
            if n > 0 {
                return Ok(reg.windows[0].label.clone());
            }
            Err(ResolveFault::NoProject)
        },
    }
}

} // verus!
