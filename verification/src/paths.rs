//! Validated file-name and path logic: rejecting traversal in file names
//! and secret ids, confining targets to a base directory, building project
//! file paths, and reading a project directory out of launch arguments.
//! All of it works on plain strings; the host layer does the actual I/O
//! and canonicalization.

use vstd::prelude::*;
use vstd::string::*;

use crate::text::{contains_char, contains_sub, is_substring_of, str_eq};

verus! {

/// A file name that names exactly one entry: non-empty, no null byte, no
/// path separator, not a dot or traversal sequence.
pub open spec fn filename_ok(s: Seq<char>) -> bool {
    &&& s.len() > 0
    &&& !s.contains('\u{0}')
    &&& !s.contains('/')
    &&& !s.contains('\\')
    &&& s != "."@
    &&& !is_substring_of(".."@, s)
}

/// Rejects file names containing path separators, traversal sequences or
/// null bytes.
pub fn sanitize_filename<'a>(name: &'a str) -> (r: Result<&'a str, String>)
    ensures
        match r {
            Ok(s) => s@ == name@ && filename_ok(name@),
            Err(_) => !filename_ok(name@),
        },
{
    if name.unicode_len() == 0 {
        return Err(String::from_str("Filename cannot be empty"));
    }
    if contains_char(name, '\u{0}') {
        return Err(crate::protocol::msg2("Filename contains null byte: ", name));
    }
    if contains_char(name, '/') || contains_char(name, '\\') {
        return Err(crate::protocol::msg2("Filename contains path separator: ", name));
    }
    if str_eq(name, ".") || contains_sub(name, "..") {
        return Err(crate::protocol::msg2("Filename contains path traversal: ", name));
    }
    Ok(name)
}

/// A canonical target lies within (or equals) a canonical base directory.
pub open spec fn within_base(base: Seq<char>, target: Seq<char>) -> bool {
    ||| target == base
    ||| (target.len() > base.len() && target.subrange(0, base.len() as int) == base && target[
        base.len() as int
    ] == '/')
}

/// Ensures a target path is within (or equal to) a base directory. Both
/// paths must already be canonical; the host layer canonicalizes before
/// calling.
pub fn ensure_within(base: &str, target: &str) -> (r: Result<String, String>)
    ensures
        match r {
            Ok(t) => t@ == target@ && within_base(base@, target@),
            Err(_) => !within_base(base@, target@),
        },
{
    if str_eq(target, base) {
        return Ok(String::from_str(target));
    }
    let blen = base.unicode_len();
    let tlen = target.unicode_len();
    if tlen > blen && crate::text::starts_with(target, base) && target.get_char(blen) == '/' {
        return Ok(String::from_str(target));
    }
    let mut m = crate::protocol::msg2("Path ", target);
    m.append(" is outside allowed directory ");
    m.append(base);
    Err(m)
}

/// A well-formed secrets id: non-empty, ASCII alphanumerics and hyphens.
pub open spec fn secrets_id_ok(s: Seq<char>) -> bool {
    s.len() > 0 && forall|i: int| 0 <= i < s.len() ==> alnum_dash(#[trigger] s[i])
}

/// ASCII alphanumeric or hyphen.
pub open spec fn alnum_dash(c: char) -> bool {
    ('a' <= c && c <= 'z') || ('A' <= c && c <= 'Z') || ('0' <= c && c <= '9') || c == '-'
}

/// The secrets file name for a validated id: `{id}.json`. The id must be
/// non-empty and contain only ASCII alphanumerics and hyphens.
pub fn get_secrets_path(secrets_id: &str) -> (r: Result<String, String>)
    ensures
        match r {
            Ok(f) => secrets_id_ok(secrets_id@) && f@ == secrets_id@ + ".json"@,
            Err(_) => !secrets_id_ok(secrets_id@),
        },
{
    let n = secrets_id.unicode_len();
    if n == 0 {
        return Err(crate::protocol::msg2("Invalid secrets ID: ", secrets_id));
    }
    let mut i: usize = 0;
    while i < n
        invariant
            n == secrets_id@.len(),
            i <= n,
            forall|j: int| 0 <= j < i ==> alnum_dash(#[trigger] secrets_id@[j]),
        decreases n - i,
    {
        let c = secrets_id.get_char(i);
        let ok = ('a' <= c && c <= 'z') || ('A' <= c && c <= 'Z') || ('0' <= c && c <= '9') || c
            == '-';
        if !ok {
            return Err(crate::protocol::msg2("Invalid secrets ID: ", secrets_id));
        }
        i = i + 1;
    }
    Ok(crate::protocol::msg2(secrets_id, ".json"))
}

/// A well-formed user-template id: non-empty, ASCII alphanumerics, hyphens
/// and underscores.
pub open spec fn template_id_ok_spec(s: Seq<char>) -> bool {
    s.len() > 0 && forall|i: int|
        0 <= i < s.len() ==> alnum_dash(#[trigger] s[i]) || s[i] == '_'
}

/// Whether a user-template id may be used as a file-name stem.
pub fn template_id_ok(id: &str) -> (r: bool)
    ensures
        r == template_id_ok_spec(id@),
{
    let n = id.unicode_len();
    if n == 0 {
        return false;
    }
    let mut i: usize = 0;
    while i < n
        invariant
            n == id@.len(),
            i <= n,
            forall|j: int| 0 <= j < i ==> alnum_dash(#[trigger] id@[j]) || id@[j] == '_',
        decreases n - i,
    {
        let c = id.get_char(i);
        let ok = ('a' <= c && c <= 'z') || ('A' <= c && c <= 'Z') || ('0' <= c && c <= '9') || c
            == '-' || c == '_';
        if !ok {
            return false;
        }
        i = i + 1;
    }
    true
}

/// The canonical project file path: `{project_dir}/{name}.tstudio`.
pub fn project_file_path(project_dir: &str, name: &str) -> (r: String)
    ensures
        r@ == project_dir@ + "/"@ + name@ + "."@ + "tstudio"@,
{
    let mut r = String::from_str(project_dir);
    r.append("/");
    r.append(name);
    r.append(".");
    r.append("tstudio");
    r
}

/// One user template on disk, listed by category.
#[derive(Debug)]
pub struct UserTemplateEntry {
    pub category: String,
    pub filename: String,
    pub path: String,
}

impl Clone for UserTemplateEntry {
    fn clone(&self) -> (r: Self)
        ensures
            r == *self,
    {
        UserTemplateEntry {
            category: self.category.clone(),
            filename: self.filename.clone(),
            path: self.path.clone(),
        }
    }
}

/// Builds one template listing entry from the walk of
/// `{templates_dir}/{category}/{filename}`.
pub fn user_template_entry(templates_dir: &str, category: &str, filename: &str) -> (r:
    UserTemplateEntry)
    ensures
        r.category@ == category@,
        r.filename@ == filename@,
        r.path@ == templates_dir@ + "/"@ + category@ + "/"@ + filename@,
{
    let mut path = String::from_str(templates_dir);
    path.append("/");
    path.append(category);
    path.append("/");
    path.append(filename);
    UserTemplateEntry {
        category: crate::props::clone_str(category),
        filename: crate::props::clone_str(filename),
        path,
    }
}

/// The argument names a project file: it is not a flag and ends with the
/// project file extension.
pub open spec fn is_tstudio_arg(a: Seq<char>) -> bool {
    &&& !(a.len() > 0 && a[0] == '-')
    &&& a.len() >= 8
    &&& a.subrange(a.len() - 8, a.len() as int) == ".tstudio"@
}

/// The directory part of a path: everything before the last `/`, empty
/// when there is none.
pub open spec fn parent_dir(s: Seq<char>) -> Seq<char>
    decreases s.len(),
{
    if s.len() == 0 {
        s
    } else if s[s.len() - 1] == '/' {
        s.subrange(0, s.len() - 1)
    } else {
        parent_dir(s.drop_last())
    }
}

proof fn lemma_parent_dir_drop(s: Seq<char>, k: int)
    requires
        0 <= k < s.len(),
        s[k] == '/',
        forall|j: int| k < j < s.len() ==> s[j] != '/',
    ensures
        parent_dir(s) == s.subrange(0, k),
    decreases s.len(),
{
    if k == s.len() - 1 {
    } else {
        lemma_parent_dir_drop(s.drop_last(), k);
        assert(s.drop_last().subrange(0, k) =~= s.subrange(0, k));
    }
}

proof fn lemma_parent_dir_none(s: Seq<char>)
    requires
        forall|j: int| 0 <= j < s.len() ==> s[j] != '/',
    ensures
        parent_dir(s) == Seq::<char>::empty(),
    decreases s.len(),
{
    if s.len() > 0 {
        lemma_parent_dir_none(s.drop_last());
    } else {
        assert(parent_dir(s) =~= Seq::<char>::empty());
    }
}

/// The directory before the last `/` of a path (empty without one).
fn dirname(s: &str) -> (r: String)
    ensures
        r@ == parent_dir(s@),
{
    let n = s.unicode_len();
    let mut i: usize = n;
    while i > 0
        invariant
            n == s@.len(),
            i <= n,
            forall|j: int| i <= j < n ==> s@[j] != '/',
        decreases i,
    {
        if s.get_char(i - 1) == '/' {
            let head = s.substring_char(0, i - 1);
            proof {
                lemma_parent_dir_drop(s@, i - 1);
            }
            return String::from_str(head);
        }
        i = i - 1;
    }
    proof {
        lemma_parent_dir_none(s@);
    }
    String::new()
}

/// Extracts the project directory from launch arguments holding a project
/// file path: the parent directory of the first non-flag argument (after
/// the program name) that ends in the project file extension.
pub fn extract_tstudio_path(args: &Vec<String>) -> (r: Option<String>)
    ensures
        match r {
            Some(dir) => exists|i: int|
                1 <= i < args@.len() && is_tstudio_arg((#[trigger] args@[i])@) && dir@
                    == parent_dir(args@[i]@) && (forall|j: int|
                    1 <= j < i ==> !is_tstudio_arg((#[trigger] args@[j])@)),
            None => forall|j: int| 1 <= j < args@.len() ==> !is_tstudio_arg((#[trigger] args@[j])@),
        },
{
    let n = args.len();
    let mut i: usize = 1;
    while i < n
        invariant
            n == args@.len(),
            1 <= i,
            i <= n || n < 1,
            forall|j: int| 1 <= j < i ==> !is_tstudio_arg((#[trigger] args@[j])@),
        decreases n - i,
    {
        let a = &args[i];
        let is_flag = if a.as_str().unicode_len() > 0 {
            a.as_str().get_char(0) == '-'
        } else {
            false
        };
        if !is_flag && crate::text::ends_with(a.as_str(), ".tstudio") {
            let dir = dirname(a.as_str());
            proof {
                reveal_strlit(".tstudio");
                assert(is_tstudio_arg(args@[i as int]@));
            }
            return Some(dir);
        }
        i = i + 1;
    }
    None
}

} // verus!
