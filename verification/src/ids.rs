//! Globally unique instance ids and generated resource names.

use vstd::prelude::*;
use vstd::string::*;

use crate::diagram::has_node;
use crate::names::{slug_of, type_slug};
use crate::registry::Registry;
use crate::text::{push_char, take_prefix};

verus! {

/// Relies on `uuid::Uuid::new_v4` and its `Display` impl: a random
/// version-4 UUID rendered in the hyphenated form, which is exactly 36
/// ASCII characters. Nothing is assumed about which UUID comes back.
#[verifier::external_body]
fn random_uuid_string() -> (r: String)
    ensures
        r@.len() == 36,
        string_is_ascii(&r),
{
    uuid::Uuid::new_v4().to_string()
}

/// The id is carried by some node of some window's diagram mirror.
pub open spec fn id_in_use(reg: Registry, id: Seq<char>) -> bool {
    exists|w: int|
        0 <= w < reg.windows@.len() && (match (#[trigger] reg.windows@[w]).diagram {
            Some(d) => has_node(d.nodes@, id),
            None => false,
        })
}

/// Whether any window's mirror already holds a node with this id.
pub fn id_in_use_exec(reg: &Registry, id: &str) -> (r: bool)
    ensures
        r == id_in_use(*reg, id@),
{
    let n = reg.windows.len();
    let mut w: usize = 0;
    while w < n
        invariant
            n == reg.windows@.len(),
            w <= n,
            forall|j: int|
                0 <= j < w ==> !(match (#[trigger] reg.windows@[j]).diagram {
                    Some(d) => has_node(d.nodes@, id@),
                    None => false,
                }),
        decreases n - w,
    {
        let used = match &reg.windows[w].diagram {
            Some(d) => crate::diagram::node_exists(d, id),
            None => false,
        };
        if used {
            return true;
        }
        w = w + 1;
    }
    false
}

/// Every node id of this window entry is no longer than `m` characters.
pub open spec fn window_ids_bounded(e: crate::registry::WindowEntry, m: nat) -> bool {
    match e.diagram {
        Some(d) => forall|j: int|
            0 <= j < d.nodes@.len() ==> (#[trigger] d.nodes@[j]).id@.len() <= m,
        None => true,
    }
}

/// A length no node id of any window mirror exceeds.
fn longest_id_len(reg: &Registry) -> (m: usize)
    ensures
        forall|w: int|
            0 <= w < reg.windows@.len() ==> window_ids_bounded(
                #[trigger] reg.windows@[w],
                m as nat,
            ),
{
    let n = reg.windows.len();
    let mut m: usize = 0;
    let mut w: usize = 0;
    while w < n
        invariant
            n == reg.windows@.len(),
            w <= n,
            forall|q: int|
                0 <= q < w ==> window_ids_bounded(#[trigger] reg.windows@[q], m as nat),
        decreases n - w,
    {
        let ghost m_before_window = m;
        match &reg.windows[w].diagram {
            Some(d) => {
                let c = d.nodes.len();
                let mut j: usize = 0;
                while j < c
                    invariant
                        c == d.nodes@.len(),
                        j <= c,
                        m_before_window <= m,
                        forall|q: int|
                            0 <= q < w ==> window_ids_bounded(
                                #[trigger] reg.windows@[q],
                                m_before_window as nat,
                            ),
                        forall|q: int|
                            0 <= q < j ==> (#[trigger] d.nodes@[q]).id@.len() <= m,
                    decreases c - j,
                {
                    let l = d.nodes[j].id.as_str().unicode_len();
                    if l > m {
                        m = l;
                    }
                    j = j + 1;
                }
            },
            None => {},
        }
        proof {
            assert forall|q: int| 0 <= q < w + 1 implies window_ids_bounded(
                #[trigger] reg.windows@[q],
                m as nat,
            ) by {
                if q < w {
                    assert(window_ids_bounded(reg.windows@[q], m_before_window as nat));
                }
            }
        }
        w = w + 1;
    }
    m
}

/// Produces an instance id unused in every window mirror, guaranteeing
/// process-global uniqueness of freshly added node ids. A random UUID is
/// drawn; in the vanishingly unlikely event of a collision, the id is
/// padded until it is longer than every id in use.
pub fn fresh_instance_id(reg: &Registry) -> (id: String)
    ensures
        !id_in_use(*reg, id@),
{
    let mut candidate = random_uuid_string();
    if !id_in_use_exec(reg, candidate.as_str()) {
        return candidate;
    }
    let bound = longest_id_len(reg);
    let mut len = candidate.as_str().unicode_len();
    while len <= bound
        invariant
            len == candidate@.len(),
            forall|w: int|
                0 <= w < reg.windows@.len() ==> window_ids_bounded(
                    #[trigger] reg.windows@[w],
                    bound as nat,
                ),
        decreases bound + 1 - len,
    {
        push_char(&mut candidate, 'x');
        len = candidate.as_str().unicode_len();
    }
    proof {
        if id_in_use(*reg, candidate@) {
            let w = choose|w: int|
                0 <= w < reg.windows@.len() && (match (#[trigger] reg.windows@[w]).diagram {
                    Some(d) => has_node(d.nodes@, candidate@),
                    None => false,
                });
            match reg.windows@[w].diagram {
                Some(d) => {
                    crate::keyed::lemma_key_index(d.nodes@, candidate@);
                    let j = crate::keyed::key_index(d.nodes@, candidate@);
                    assert(d.nodes@[j].id@.len() <= bound);
                },
                None => {},
            }
        }
    }
    candidate
}

/// A generated resource name is the type id's truncated last path segment,
/// an underscore, and an eight-character random suffix.
pub open spec fn tf_name_ok(tid: Seq<char>, r: Seq<char>) -> bool {
    &&& r.len() == slug_of(tid).len() + 9
    &&& r.subrange(0, slug_of(tid).len() as int) == slug_of(tid)
    &&& r[slug_of(tid).len() as int] == '_'
}

/// Produces a generated resource name for a new node of the given type.
pub fn generate_terraform_name(type_id: &str) -> (r: String)
    ensures
        tf_name_ok(type_id@, r@),
{
    let mut slug = type_slug(type_id);
    let uuid = random_uuid_string();
    let suffix = take_prefix(uuid.as_str(), 8);
    push_char(&mut slug, '_');
    slug.append(suffix.as_str());
    proof {
        assert(slug@.subrange(0, slug_of(type_id@).len() as int) =~= slug_of(type_id@));
    }
    slug
}

} // verus!
