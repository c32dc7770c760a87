use vstd::prelude::*;

verus! {

/// A path separator on some platform: `/` everywhere, `\` on Windows.
pub open spec fn is_separator(c: char) -> bool {
    c == '/' || c == '\\'
}

/// A base directory whose joins go the same way on every platform: non-empty
/// and not starting with `\\` (no Windows UNC or verbatim prefix).
pub open spec fn simple_base(base: Seq<char>) -> bool {
    &&& base.len() > 0
    &&& !(base.len() >= 2 && base[0] == '\\' && base[1] == '\\')
}

/// A base that needs a separator before what is joined to it: it ends in
/// neither a separator nor `:` (a bare Windows drive).
pub open spec fn needs_separator(base: Seq<char>) -> bool {
    &&& !is_separator(base.last())
    &&& base.last() != ':'
}

/// A path that is relative on every platform: non-empty, not starting with a
/// separator, and holding no `:` (so it has neither a root nor a Windows
/// prefix).
pub open spec fn relative_part(rel: Seq<char>) -> bool {
    &&& rel.len() > 0
    &&& !is_separator(rel[0])
    &&& forall|i: int| 0 <= i < rel.len() ==> rel[i] != ':'
}

/// A relative path joined to a base that does not end in a separator.
pub open spec fn plain_join(base: Seq<char>, rel: Seq<char>) -> bool {
    simple_base(base) && needs_separator(base) && relative_part(rel)
}

/// A relative path joined to a base that ends in `/`.
pub open spec fn slash_join(base: Seq<char>, rel: Seq<char>) -> bool {
    simple_base(base) && base.last() == '/' && relative_part(rel)
}

/// An empty path joined to a base that does not end in a separator.
pub open spec fn empty_join(base: Seq<char>, rel: Seq<char>) -> bool {
    simple_base(base) && needs_separator(base) && rel.len() == 0
}

/// `joined` is `base`, one separator, then `rel`.
pub open spec fn joined_with_separator(joined: Seq<char>, base: Seq<char>, rel: Seq<char>) -> bool {
    exists|sep: char| is_separator(sep) && joined == base + seq![sep] + rel
}

/// What a join gives on every platform: a relative path (or nothing) extends
/// the base after one separator, and a base that already ends in `/` is
/// extended directly.
pub open spec fn join_outcome(joined: Seq<char>, base: Seq<char>, rel: Seq<char>) -> bool {
    &&& plain_join(base, rel) ==> joined_with_separator(joined, base, rel)
    &&& slash_join(base, rel) ==> joined == base + rel
    &&& empty_join(base, rel) ==> joined_with_separator(joined, base, rel)
}

/// Joins a path to a base directory with `VirtualPath::join` (from
/// warpgate_api, re-exported by moon_pdk_api), which is `Path::join` on the
/// inner path, and returns the text of the joined path.
///
/// `Path::join` (like `PathBuf::push`) extends the base with a relative path,
/// adding one separator unless the base already ends in one; that is stated
/// for the joins that go the same way on every platform. Which separator is
/// added (the platform's main one), and what other forms of `rel` do (replace
/// the base, or part of it), depends on the platform and is not stated.
#[verifier::external_body]
fn join_path(base: &str, rel: &str) -> (joined: String)
    ensures
        join_outcome(joined@, base@, rel@),
{
    moon_pdk_api::VirtualPath::new(base).join(rel).to_string_lossy().into_owned()
}

/// The directory that the environment setup works in: the workspace root
/// joined with the project's workspace-relative source directory, or the
/// workspace root itself when no project is given.
pub fn setup_project_root(workspace_root: &str, project_source: Option<&str>) -> (root: String)
    ensures
        project_source is None ==> root@ == workspace_root@,
        project_source matches Some(source) ==> join_outcome(root@, workspace_root@, source@),
{
    match project_source {
        Some(source) => join_path(workspace_root, source),
        None => workspace_root.to_owned(),
    }
}

/// Whether `id` is the part of the task target `target` before its first `:`
/// (all of `target` when it holds no `:`).
pub open spec fn is_project_id_of(id: Seq<char>, target: Seq<char>) -> bool {
    &&& id.len() <= target.len()
    &&& id == target.take(id.len() as int)
    &&& forall|i: int| 0 <= i < id.len() ==> id[i] != ':'
    &&& (id.len() == target.len() || target[id.len() as int] == ':')
}

/// The project part of a task target such as `app:build`: everything before
/// the first `:`.
pub fn project_id_from_target(target: &str) -> (id: String)
    ensures
        is_project_id_of(id@, target@),
{
    let len: usize = target.unicode_len();
    let mut end: usize = 0;
    while end < len
        invariant
            len == target@.len(),
            end <= len,
            forall|i: int| 0 <= i < end ==> target@[i] != ':',
        ensures
            end <= len,
            forall|i: int| 0 <= i < end ==> target@[i] != ':',
            end == len || target@[end as int] == ':',
        decreases len - end,
    {
        if target.get_char(end) == ':' {
            break;
        }
        end = end + 1;
    }
    let id = target.substring_char(0, end).to_owned();
    assert(id@ == target@.take(end as int));
    id
}

/// The root of the project that a task belongs to: the workspace root joined
/// with the project part of the task's target.
pub fn task_project_root(workspace_root: &str, target: &str) -> (root: String)
    ensures
        exists|id: Seq<char>|
            is_project_id_of(id, target@) && #[trigger] join_outcome(root@, workspace_root@, id),
{
    let id = project_id_from_target(target);
    join_path(workspace_root, id.as_str())
}

} // verus!
