//! Where the pipeline's files lie: a kernel's artifacts, and the `.target`
//! file that records for which architecture they were emitted.
//!
//! Paths are texts. What is said of them holds on every platform, on those
//! that know no separator but `/` and on those that take `\` for one as well
//! and begin some paths with a drive.

use std::path::Path;
use vstd::prelude::*;
use crate::text::optional_text;

verus! {

/// `text` contains `c`.
pub open spec fn has_char(text: Seq<char>, c: char) -> bool {
    exists|i: int| 0 <= i < text.len() && text[i] == c
}

/// Where the part of `text` after its last `c` begins.
pub open spec fn start_after(text: Seq<char>, c: char) -> nat
    decreases text.len(),
{
    if text.len() == 0 || text.last() == c {
        text.len()
    } else {
        start_after(text.drop_last(), c)
    }
}

/// What stands before the last component of `path`, with its `/`.
pub open spec fn dir_part(path: Seq<char>) -> Seq<char> {
    path.take(start_after(path, '/') as int)
}

/// The last component of `path`: what stands after its last `/`.
pub open spec fn name_part(path: Seq<char>) -> Seq<char> {
    path.skip(start_after(path, '/') as int)
}

/// What stands after the last `\` of `name`.
pub open spec fn after_backslash(name: Seq<char>) -> Seq<char> {
    name.skip(start_after(name, '\\') as int)
}

/// Where the last `.` of `name` stands, or -1.
pub open spec fn last_dot(name: Seq<char>) -> int
    decreases name.len(),
{
    if name.len() == 0 {
        -1
    } else if name.last() == '.' {
        name.len() - 1
    } else {
        last_dot(name.drop_last())
    }
}

/// A file name without its extension. A `.` at the very front begins no
/// extension.
pub open spec fn stem_part(name: Seq<char>) -> Seq<char> {
    if last_dot(name) > 0 {
        name.take(last_dot(name))
    } else {
        name
    }
}

/// `path` without the `/` and the `.` components at its back. The root stays,
/// and so does a `.` that is all there is.
pub open spec fn bare(path: Seq<char>) -> Seq<char>
    decreases path.len(),
{
    if path.len() > 1 && path.last() == '/' {
        bare(path.drop_last())
    } else if path.len() > 1 && path.last() == '.' && path[path.len() - 2] == '/' {
        bare(path.drop_last())
    } else {
        path
    }
}

/// A character that separates components on some platform.
pub open spec fn is_separator(c: char) -> bool {
    c == '/' || c == '\\'
}

/// `path` begins with two separators, which some platforms read as the front
/// of a share or of a device.
pub open spec fn begins_double(path: Seq<char>) -> bool {
    path.len() >= 2 && is_separator(path[0]) && is_separator(path[1])
}

/// `path` begins as if with a drive.
pub open spec fn has_drive(path: Seq<char>) -> bool {
    path.len() >= 2 && !is_separator(path[0]) && path[1] == ':'
}

/// `path` is a drive and nothing more.
pub open spec fn is_drive(path: Seq<char>) -> bool {
    path.len() == 2 && has_drive(path)
}

/// Where the part of the last component begins that every platform counts to
/// it: after a `\` in it, or after a drive that nothing stands before.
pub open spec fn inner_start(path: Seq<char>) -> nat {
    let start = start_after(path, '/');
    if has_char(name_part(path), '\\') {
        start + start_after(name_part(path), '\\')
    } else if start == 0 && has_drive(path) {
        2
    } else {
        start
    }
}

/// The part of the last component that every platform counts to it.
pub open spec fn inner_part(path: Seq<char>) -> Seq<char> {
    path.skip(inner_start(path) as int)
}

/// No platform reads the end of `path` as part of a share's or a device's
/// name: a path that begins with two separators has two more components, each
/// with a separator after it, before its last one. One that goes on with a `?`
/// is left out.
pub open spec fn is_deep(path: Seq<char>) -> bool {
    begins_double(path) ==> path[2] != '?' && exists|i: int|
        2 <= i < inner_start(path) - 1 && #[trigger] is_separator(path[i])
}

/// Every platform takes what follows the last `/` of `path` for one component.
pub open spec fn is_split_alike(path: Seq<char>) -> bool {
    is_deep(path) && inner_start(path) == start_after(path, '/')
}

/// `path` ends in the name of a file. Where a `\` or a drive stands before the
/// name, the name has an extension. A name that is `.` without its extension,
/// such as `..a`, is left out.
pub open spec fn names_file(path: Seq<char>) -> bool {
    let name = inner_part(bare(path));
    &&& is_deep(bare(path))
    &&& name.len() > 0
    &&& name != seq!['.']
    &&& name != seq!['.', '.']
    &&& stem_part(name) != seq!['.']
    &&& is_split_alike(bare(path)) || last_dot(name) > 0
}

/// `path` names no file: it is empty, the root, `.`, or ends in `..`.
pub open spec fn names_no_file(path: Seq<char>) -> bool {
    let name = name_part(bare(path));
    &&& is_split_alike(bare(path))
    &&& name.len() == 0 || name == seq!['.'] || name == seq!['.', '.']
}

/// `path` with the extension of its file name replaced by `extension`, or with
/// `extension` added where the name has none. What follows the name is gone.
pub open spec fn replaced_extension(path: Seq<char>, extension: Seq<char>) -> Seq<char> {
    dir_part(bare(path)) + stem_part(name_part(bare(path))) + seq!['.'] + extension
}

/// Calls [`Path::with_extension`]. Where the path ends in a file's name, the
/// extension of that name is replaced, or added if there was none, and the `/`
/// and `.` components after the name are gone; where the path names no file,
/// it is left as it is.
///
/// Nothing is said where platforms differ on what the file's name is: of a path
/// that may be no more than a share or a device, and of a name without an
/// extension after a `\` or a leading drive. Nor is anything said of a file
/// name that is `.` without its extension.
#[verifier::external_body]
fn with_extension(path: &str, extension: &str) -> (changed: String)
    requires
        extension@.len() > 0,
        !has_char(extension@, '/'),
        !has_char(extension@, '\\'),
    ensures
        names_file(path@) ==> changed@ == replaced_extension(path@, extension@),
        names_no_file(path@) ==> changed@ == path@,
{
    Path::new(path).with_extension(extension).display().to_string()
}

/// Calls [`Path::file_stem`]: the file name without its extension, if the path
/// names a file. The `/` and `.` components after the name do not matter.
///
/// Nothing is said of a path that may be no more than a share or a device, of
/// one whose last component holds a `\` or is all there is and begins with a
/// drive, nor of a file name that is `.` without its extension.
#[verifier::external_body]
fn file_stem(path: &str) -> (stem: Option<String>)
    ensures
        names_file(path@) && is_split_alike(bare(path@)) ==> optional_text(stem) == Some(
            stem_part(name_part(bare(path@))),
        ),
        names_no_file(path@) ==> stem is None,
{
    Path::new(path).file_stem().and_then(|stem| stem.to_str()).map(|stem| stem.to_string())
}

/// The directory before the last component, without the `/` and the `.`
/// components at its back.
pub open spec fn parent_text(path: Seq<char>) -> Seq<char> {
    bare(dir_part(bare(path)))
}

/// Every platform takes `dir` for a directory whose last component is a name:
/// it does not end in a `\`, nor in a `.` after one, and a path that begins
/// with two separators has a component that a separator stands before.
pub open spec fn ends_in_name(dir: Seq<char>) -> bool {
    let last = name_part(dir);
    &&& has_char(last, '\\') ==> after_backslash(last).len() > 0 && after_backslash(last) != seq![
        '.',
    ]
    &&& begins_double(dir) ==> exists|i: int| 2 <= i < dir.len() && #[trigger] is_separator(dir[i])
}

/// `path` ends in a component that every platform takes off alike.
pub open spec fn has_parent(path: Seq<char>) -> bool {
    &&& is_split_alike(bare(path))
    &&& name_part(bare(path)).len() > 0
    &&& ends_in_name(parent_text(path))
    &&& begins_double(bare(path)) ==> begins_double(parent_text(path))
}

/// `path` is empty or the root.
pub open spec fn has_no_parent(path: Seq<char>) -> bool {
    is_split_alike(bare(path)) && name_part(bare(path)).len() == 0
}

/// `dir` is the directory `parent`. The root of a drive or of a share keeps
/// its `/` on some platforms.
pub open spec fn is_parent(parent: Seq<char>, dir: Seq<char>) -> bool {
    dir == parent || (is_drive(parent) || begins_double(parent)) && dir == parent + seq!['/']
}

/// Calls [`Path::parent`]: the path without its last component, and without
/// the `/` and `.` components around it. The empty path and the root have no
/// parent.
///
/// Nothing is said of a path that may be no more than a share or a device, of
/// one whose last component holds a `\` or is all there is and begins with a
/// drive, nor where the directory before it ends in a `\`, or in a `.` after
/// one.
#[verifier::external_body]
fn parent(path: &str) -> (dir: Option<String>)
    ensures
        has_parent(path@) ==> dir is Some && is_parent(
            parent_text(path@),
            optional_text(dir)->Some_0,
        ),
        has_no_parent(path@) ==> dir is None,
{
    Path::new(path).parent().map(|dir| dir.display().to_string())
}

/// Every platform reads `file` as relative to `dir`, or as beginning at the
/// root or with a drive: neither begins with a device or a share of its own,
/// nor `file` with a `\`. A directory on a share takes no `file` that begins
/// at the root.
pub open spec fn can_join(dir: Seq<char>, file: Seq<char>) -> bool {
    &&& begins_double(dir) ==> dir.len() == 2 || dir[2] != '?'
    &&& !begins_double(file)
    &&& file.len() > 0 ==> file[0] != '\\'
    &&& begins_double(dir) && file.len() > 0 ==> file[0] != '/'
}

/// `joined` is the path of `file` in the directory `dir`: the two texts, with
/// the platform's separator between them where `dir` needs one. A `file` that
/// begins at the root stays as it is, but for a drive of `dir`, and one that
/// begins with a drive stays as it is on some platforms.
pub open spec fn is_joined(dir: Seq<char>, file: Seq<char>, joined: Seq<char>) -> bool {
    if file.len() > 0 && file[0] == '/' {
        joined == file || has_drive(dir) && joined == dir.take(2) + file
    } else if has_drive(file) && joined == file {
        true
    } else if dir.len() == 0 || dir.last() == '/' {
        joined == dir + file
    } else {
        ||| joined == dir + seq!['/'] + file
        ||| joined == dir + seq!['\\'] + file
        ||| (dir.last() == '\\' || is_drive(dir)) && joined == dir + file
    }
}

/// Calls [`Path::join`]: the path of `file` in the directory `dir`. Which
/// separator stands between the two, whether one is needed after a `\` or a
/// drive, and whether a `file` that begins with a drive stands for itself,
/// depends on the platform.
///
/// Nothing is said where `file` begins with a `\` or with two separators, nor
/// where `dir` begins with two separators and a `?`, or with two separators
/// and `file` with a `/`.
#[verifier::external_body]
fn join(dir: &str, file: &str) -> (joined: String)
    ensures
        can_join(dir@, file@) ==> is_joined(dir@, file@, joined@),
{
    Path::new(dir).join(file).display().to_string()
}

/// `target` is where the target of the artifact at `path` is recorded: next to
/// the artifact, with `target` for its extension.
pub open spec fn is_target_path(path: Seq<char>, target: Seq<char>) -> bool {
    &&& names_file(path) ==> target == replaced_extension(path, "target"@)
    &&& names_no_file(path) ==> target == path
}

/// The `.target` file that belongs to the artifact at `ll_path`.
pub fn emitted_target_path(ll_path: &str) -> (target: String)
    ensures
        is_target_path(ll_path@, target@),
{
    proof {
        reveal_strlit("target");
    }
    with_extension(ll_path, "target")
}

/// Every platform agrees on what is derived from the file at `path`.
pub open spec fn is_regular(path: Seq<char>) -> bool {
    &&& is_split_alike(bare(path))
    &&& names_file(path) || names_no_file(path)
    &&& has_parent(path) || has_no_parent(path)
}

/// The name, without extension, that files derived from the one at `path`
/// have: its own, or `kernel` if it has none.
pub open spec fn derived_stem(path: Seq<char>) -> Seq<char> {
    if names_no_file(path) {
        "kernel"@
    } else {
        stem_part(name_part(bare(path)))
    }
}

/// The directory in which files derived from the one at `path` lie: its own,
/// or the current one if it has none.
pub open spec fn derived_dir(path: Seq<char>) -> Seq<char> {
    if has_no_parent(path) {
        "."@
    } else {
        parent_text(path)
    }
}

/// The name of a file: its stem, a `.` and its extension.
pub open spec fn file_name(stem: Seq<char>, extension: Seq<char>) -> Seq<char> {
    stem + "."@ + extension
}

/// `sibling` is the path next to the file at `path`, of the same stem with
/// another extension.
pub open spec fn is_sibling(path: Seq<char>, extension: Seq<char>, sibling: Seq<char>) -> bool {
    is_regular(path) ==> is_joined(
        derived_dir(path),
        file_name(derived_stem(path), extension),
        sibling,
    )
}

/// The path next to the file at `path`, of the same stem with `extension`.
pub fn sibling_path(path: &str, extension: &str) -> (sibling: String)
    ensures
        is_sibling(path@, extension@, sibling@),
{
    let stem = match file_stem(path) {
        Some(stem) => stem,
        None => String::from_str("kernel"),
    };
    let dir = match parent(path) {
        Some(dir) => dir,
        None => String::from_str("."),
    };
    let file = stem.concat(".").concat(extension);
    proof {
        if is_regular(path@) {
            lemma_regular(path@);
            lemma_derived_parts(path@, extension@);
            assert(file@ == file_name(derived_stem(path@), extension@));
            if has_parent(path@) && dir@ != parent_text(path@) {
                lemma_rooted_parent(path@, dir@);
            }
        }
    }
    join(dir.as_str(), file.as_str())
}

/// `path` is that of the kernel `name`'s artifact with `extension` in `dir`.
pub open spec fn is_artifact_path(
    dir: Seq<char>,
    name: Seq<char>,
    extension: Seq<char>,
    path: Seq<char>,
) -> bool {
    can_join(dir, file_name(name, extension)) ==> is_joined(dir, file_name(name, extension), path)
}

/// The path of the kernel `name`'s artifact with `extension` in `dir`.
pub fn artifact_path(dir: &str, name: &str, extension: &str) -> (path: String)
    ensures
        is_artifact_path(dir@, name@, extension@, path@),
{
    let file = String::from_str(name).concat(".").concat(extension);
    join(dir, file.as_str())
}

/// The directory to search for kernel artifacts.
pub open spec fn search_dir(
    manifest_variable: Option<Seq<char>>,
    current_dir: Option<Seq<char>>,
) -> Seq<char> {
    match (manifest_variable, current_dir) {
        (Some(dir), _) => dir,
        (None, Some(dir)) => dir,
        (None, None) => "."@,
    }
}

/// Directory to search for kernel artifacts (`.cubin` / `.ptx` / `.ll` /
/// `.ltoir`): the value of `CARGO_MANIFEST_DIR` if that is set, else the
/// current working directory if that is known, else `.`.
pub fn manifest_dir(manifest_variable: Option<String>, current_dir: Option<String>) -> (dir: String)
    ensures
        dir@ == search_dir(optional_text(manifest_variable), optional_text(current_dir)),
        manifest_variable matches Some(text) ==> dir@ == text@,
        manifest_variable is None ==> (current_dir matches Some(text) ==> dir@ == text@),
        manifest_variable is None && current_dir is None ==> dir@ == "."@,
{
    if let Some(dir) = manifest_variable {
        return dir;
    }
    match current_dir {
        Some(dir) => dir,
        None => String::from_str("."),
    }
}

pub(crate) proof fn lemma_start_after(text: Seq<char>, c: char)
    ensures
        0 <= start_after(text, c) <= text.len(),
        !has_char(text.skip(start_after(text, c) as int), c),
        start_after(text, c) > 0 ==> text[start_after(text, c) - 1] == c,
    decreases text.len(),
{
    if text.len() > 0 && text.last() != c {
        let front = text.drop_last();
        lemma_start_after(front, c);
        let start = start_after(text, c) as int;
        assert forall|i: int| 0 <= i < text.skip(start).len() implies text.skip(start)[i] != c by {
            if i < front.skip(start).len() {
                assert(text.skip(start)[i] == front.skip(start)[i]);
            }
        }
    }
}

pub(crate) proof fn lemma_last_dot(name: Seq<char>)
    ensures
        -1 <= last_dot(name) < name.len(),
        last_dot(name) >= 0 ==> name[last_dot(name)] == '.',
    decreases name.len(),
{
    if name.len() > 0 && name.last() != '.' {
        lemma_last_dot(name.drop_last());
    }
}

pub(crate) proof fn lemma_bare(path: Seq<char>)
    ensures
        bare(path).len() <= path.len(),
        bare(path) == path.take(bare(path).len() as int),
        bare(path).len() > 1 ==> bare(path).last() != '/',
    decreases path.len(),
{
    if path.len() > 1 && (path.last() == '/' || path.last() == '.' && path[path.len() - 2] == '/') {
        lemma_bare(path.drop_last());
        assert(path.drop_last().take(bare(path).len() as int) =~= path.take(
            bare(path).len() as int,
        ));
    } else {
        assert(path.take(path.len() as int) =~= path);
    }
}

proof fn lemma_regular(path: Seq<char>)
    requires
        is_regular(path),
    ensures
        names_file(path) <==> !names_no_file(path),
        has_parent(path) <==> !has_no_parent(path),
        inner_part(bare(path)) == name_part(bare(path)),
{
}

/// What the root of a drive or of a share is joined to.
proof fn lemma_rooted_parent(path: Seq<char>, dir: Seq<char>)
    requires
        is_regular(path),
        has_parent(path),
        dir == parent_text(path) + seq!['/'],
        is_parent(parent_text(path), dir),
    ensures
        begins_double(parent_text(path)) ==> begins_double(dir) && dir.len() > 2 && dir[2]
            == parent_text(path)[2],
        parent_text(path).len() > 1,
        parent_text(path).last() != '/',
        begins_double(dir) ==> begins_double(parent_text(path)),
        dir.last() == '/',
{
    let parent = parent_text(path);
    lemma_bare(dir_part(bare(path)));
    assert(begins_double(parent) ==> parent.len() > 2);
    assert(is_drive(parent) ==> dir[0] == parent[0]);
    assert(parent.len() >= 2 ==> dir[0] == parent[0] && dir[1] == parent[1]);
}

proof fn lemma_derived_parts(path: Seq<char>, extension: Seq<char>)
    requires
        is_regular(path),
    ensures
        can_join(derived_dir(path), file_name(derived_stem(path), extension)),
        ({
            let file = file_name(derived_stem(path), extension);
            file.len() > 0 && !is_separator(file[0])
        }),
{
    reveal_strlit(".");
    reveal_strlit("kernel");
    let b = bare(path);
    let name = name_part(b);
    let stem = derived_stem(path);
    lemma_regular(path);
    lemma_bare(path);
    lemma_start_after(b, '/');
    let dir = dir_part(b);
    lemma_bare(dir);
    lemma_last_dot(name);
    let parent = bare(dir);
    assert(parent.len() > 2 ==> parent[2] == b[2]);
    assert(begins_double(parent) ==> begins_double(b));
    let file = file_name(stem, extension);
    assert(stem.len() > 0);
    assert(file[0] == stem[0]);
    if !names_no_file(path) {
        assert(stem[0] == name[0]);
        assert(!is_separator(name[0])) by {
            lemma_start_after(name, '\\');
            if name[0] == '\\' {
                assert(has_char(name, '\\'));
                assert(name.skip(0) =~= name);
            }
        }
    }
}

} // verus!
