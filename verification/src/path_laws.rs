//! Where files lie, for paths of a directory, a `/`, a name and an extension.

use vstd::prelude::*;
use crate::load::{are_artifacts_of, ArtifactsView, Load, load_kernel_module};
use crate::paths::{
    after_backslash,
    bare,
    begins_double,
    can_join,
    dir_part,
    ends_in_name,
    file_name,
    has_char,
    has_drive,
    inner_part,
    inner_start,
    is_artifact_path,
    is_separator,
    is_sibling,
    is_target_path,
    lemma_start_after,
    name_part,
    names_no_file,
    start_after,
    stem_part,
};
use crate::pipeline::{are_files_of, FilesView};
use crate::siblings::{
    extended,
    has_one_record,
    is_base,
    law_record_replaces_extension,
    lemma_extended,
    lemma_inner,
    lemma_joined_base,
    lemma_last_dot_before,
    lemma_nothing_after,
    lemma_start_behind,
    lemma_tail_parts,
};

verus! {

/// `c` does not occur in `text`.
pub open spec fn lacks(text: Seq<char>, c: char) -> bool {
    forall|i: int| 0 <= i < text.len() ==> text[i] != c
}

/// A name that every platform reads as one: not empty, without separators, not
/// beginning with a drive, and not `.`. It may hold dots.
pub open spec fn is_name(name: Seq<char>) -> bool {
    &&& name.len() > 0
    &&& lacks(name, '/')
    &&& lacks(name, '\\')
    &&& name.len() > 1 ==> name[1] != ':'
    &&& name != seq!['.']
}

/// A directory that every platform reads alike, written without what could be
/// left out: not empty, not beginning with two separators or a drive, and not
/// ending in a separator nor in a `.` after one.
pub open spec fn is_dir(dir: Seq<char>) -> bool {
    &&& dir.len() > 0
    &&& dir.last() != '/' && dir.last() != '\\'
    &&& dir.len() > 1 ==> dir[1] != ':'
    &&& dir.len() > 1 ==> !((dir[0] == '/' || dir[0] == '\\') && (dir[1] == '/' || dir[1] == '\\'))
    &&& dir.len() > 1 && dir.last() == '.' ==> dir[dir.len() - 2] != '/' && dir[dir.len() - 2]
        != '\\'
}

proof fn lemma_lacks(text: Seq<char>, c: char)
    ensures
        lacks(text, c) <==> !has_char(text, c),
{
}

proof fn lemma_name_is_base(name: Seq<char>)
    requires
        is_name(name),
    ensures
        is_base(name),
        inner_part(name) == name,
        start_after(name, '/') == 0,
        name_part(name) == name,
{
    lemma_lacks(name, '/');
    lemma_lacks(name, '\\');
    lemma_nothing_after(name, '/');
    assert(name_part(name) =~= name);
    lemma_nothing_after(name, '\\');
    assert(inner_part(name) =~= name);
    assert(!begins_double(name));
}

/// A front that is empty or ends in `/`, with a name behind.
proof fn lemma_named(front: Seq<char>, name: Seq<char>)
    requires
        is_name(name),
        front.len() == 0 || front.last() == '/',
        !begins_double(front),
    ensures
        is_base(front + name),
        dir_part(front + name) == front,
        name_part(front + name) == name,
        inner_start(front + name) == front.len(),
{
    lemma_name_is_base(name);
    lemma_joined_base(front, name);
    lemma_start_behind(front, name, '/');
    assert(dir_part(front + name) =~= front);
    assert(name_part(front + name) =~= name);
    lemma_lacks(name, '\\');
    if front.len() == 0 {
        assert(front + name =~= name);
    }
}

/// The record of the target of `<dir>/<name>.<extension>` is
/// `<dir>/<name>.target`, and that of `<name>.<extension>` is `<name>.target`.
/// `dir` may be any text that does not begin with two separators.
pub proof fn law_record_lies_beside(
    dir: Seq<char>,
    name: Seq<char>,
    extension: Seq<char>,
    target: Seq<char>,
)
    requires
        is_name(name),
        extension.len() > 0,
        lacks(extension, '/'),
        lacks(extension, '\\'),
        lacks(extension, '.'),
        dir.len() > 1 ==> !((dir[0] == '/' || dir[0] == '\\') && (dir[1] == '/' || dir[1] == '\\')),
        dir.len() == 1 ==> dir[0] != '/' && dir[0] != '\\',
    ensures
        dir.len() > 0 && is_target_path(dir + seq!['/'] + name + seq!['.'] + extension, target)
            ==> target == dir + seq!['/'] + name + ".target"@,
        is_target_path(name + seq!['.'] + extension, target) ==> target == name + ".target"@,
{
    reveal_strlit(".target");
    reveal_strlit("target");
    assert(".target"@ =~= seq!['.'] + "target"@);
    lemma_lacks(extension, '/');
    lemma_lacks(extension, '\\');
    lemma_lacks(extension, '.');
    lemma_name_is_base(name);
    lemma_extended(name, extension, "target"@);
    assert(extended(name, "target"@) =~= name + ".target"@);
    if dir.len() > 0 {
        let front = dir + seq!['/'];
        assert(!begins_double(front)) by {
            assert(front[0] == dir[0]);
            assert(dir.len() > 1 ==> front[1] == dir[1]);
        }
        lemma_named(front, name);
        lemma_extended(front + name, extension, "target"@);
        assert(extended(front + name, "target"@) =~= dir + seq!['/'] + name + ".target"@);
        assert(extended(front + name, extension) =~= dir + seq!['/'] + name + seq!['.']
            + extension);
    }
}

/// What is derived from `<dir>/<name>.<extension>` lies in `dir`, and what is
/// derived from `<name>.<extension>` lies where that does, both under `<name>`
/// with the new extension.
pub proof fn law_sibling_lies_beside(
    dir: Seq<char>,
    name: Seq<char>,
    extension: Seq<char>,
    other: Seq<char>,
    sibling: Seq<char>,
)
    requires
        is_dir(dir),
        is_name(name),
        extension.len() > 0,
        lacks(extension, '/'),
        lacks(extension, '\\'),
        lacks(extension, '.'),
    ensures
        is_sibling(dir + seq!['/'] + name + seq!['.'] + extension, other, sibling) ==> sibling
            == dir + seq!['/'] + name + seq!['.'] + other || sibling == dir + seq!['\\'] + name
            + seq!['.'] + other,
        is_sibling(name + seq!['.'] + extension, other, sibling) ==> sibling == name + seq!['.']
            + other,
{
    reveal_strlit(".");
    assert("."@ =~= seq!['.']);
    let front = dir + seq!['/'];
    assert(front[0] == dir[0]);
    assert(dir.len() > 1 ==> front[1] == dir[1]);
    assert(!begins_double(front));
    assert(bare(front) == bare(front.drop_last()));
    assert(front.drop_last() =~= dir);
    assert(bare(dir) == dir);
    lemma_dir_end(dir);
    lemma_sibling_parts(front, name, extension, other);
    let file = file_name(name, other);
    assert(file =~= name + seq!['.'] + other);
    assert(front + name + seq!['.'] + extension =~= dir + seq!['/'] + name + seq!['.'] + extension);
    assert(dir + seq!['/'] + file =~= dir + seq!['/'] + name + seq!['.'] + other);
    assert(dir + seq!['\\'] + file =~= dir + seq!['\\'] + name + seq!['.'] + other);
    lemma_sibling_parts(Seq::empty(), name, extension, other);
    assert(Seq::<char>::empty() + name + seq!['.'] + extension =~= name + seq!['.'] + extension);
    assert(Seq::<char>::empty() + file =~= file);
}

proof fn lemma_dir_end(dir: Seq<char>)
    requires
        is_dir(dir),
    ensures
        ends_in_name(dir),
        dir.last() != '\\',
        !begins_double(dir),
        !has_drive(dir),
{
    let last = name_part(dir);
    lemma_start_after(dir, '/');
    lemma_start_after(last, '\\');
    assert(last.last() == dir.last());
    let inner = after_backslash(last);
    if has_char(last, '\\') {
        lemma_nothing_after(last, '\\');
        if inner.len() == 0 {
            assert(last[start_after(last, '\\') - 1] == last.last());
        }
        if inner == seq!['.'] {
            assert(inner[0] == last.last());
            assert(last[start_after(last, '\\') - 1] == dir[dir.len() - 2]);
        }
    }
}

/// The parts from which a sibling is made.
proof fn lemma_sibling_parts(
    front: Seq<char>,
    name: Seq<char>,
    extension: Seq<char>,
    other: Seq<char>,
)
    requires
        is_name(name),
        front.len() == 0 || front.last() == '/',
        !begins_double(front),
        ends_in_name(bare(front)),
        !begins_double(bare(front)),
        extension.len() > 0,
        lacks(extension, '/'),
        lacks(extension, '\\'),
        lacks(extension, '.'),
    ensures
        ({
            let path = front + name + seq!['.'] + extension;
            let file = file_name(name, other);
            &&& crate::paths::is_regular(path)
            &&& crate::paths::derived_dir(path) == bare(front)
            &&& crate::paths::derived_stem(path) == name
            &&& !has_drive(file)
            &&& file.len() > 0
            &&& file[0] != '/'
        }),
{
    reveal_strlit(".");
    assert("."@ =~= seq!['.']);
    let base = front + name;
    let path = extended(base, extension);
    assert(path =~= front + name + seq!['.'] + extension);
    lemma_lacks(extension, '/');
    lemma_lacks(extension, '\\');
    lemma_lacks(extension, '.');
    lemma_named(front, name);
    lemma_extended(base, extension, other);
    assert(path.last() == extension.last());
    assert(bare(path) == path);
    let tail = seq!['.'] + extension;
    assert(path =~= base + tail);
    assert forall|i: int| 0 <= i < tail.len() implies tail[i] != '/' && tail[i] != '\\' by {
        if i > 0 {
            assert(tail[i] == extension[i - 1]);
        }
    }
    lemma_lacks(tail, '/');
    lemma_lacks(tail, '\\');
    lemma_tail_parts(base, tail);
    lemma_inner(path);
    assert(name_part(path) =~= extended(name, extension));
    lemma_last_dot_before(name, extension);
    assert(stem_part(name_part(path)) =~= name);
    assert(start_after(path, '/') == front.len());
    assert(inner_start(path) == front.len());
    assert(begins_double(path) == false) by {
        assert(front.len() >= 2 ==> path[0] == front[0] && path[1] == front[1]);
        assert(front.len() == 1 ==> path[1] == name[0]);
        assert(front.len() == 0 ==> path[0] == name[0]);
    }
    assert(name_part(path).last() == extension.last());
    assert(!names_no_file(path)) by {
        assert(seq!['.'].last() == '.' && seq!['.', '.'].last() == '.');
    }
    let file = file_name(name, other);
    assert(file[0] == name[0]);
    assert(name.len() > 1 ==> file[1] == name[1]);
    assert(name.len() == 1 ==> file[1] == '.');
}

/// `mid` is nothing but separators and `.` components: it begins with a `/`,
/// holds nothing but `/` and `.`, and no `.` beside another.
pub open spec fn is_nothing(mid: Seq<char>) -> bool {
    &&& mid.len() > 0
    &&& mid[0] == '/'
    &&& forall|i: int| 0 <= i < mid.len() ==> #[trigger] mid[i] == '/' || mid[i] == '.'
    &&& forall|i: int|
        0 < i < mid.len() ==> #[trigger] mid[i] == '.' ==> mid[i - 1] == '/'
}

proof fn lemma_bare_of(path: Seq<char>, mid: Seq<char>)
    requires
        path.len() > 0,
        path.last() != '/',
        path.len() > 1 && path.last() == '.' ==> path[path.len() - 2] != '/',
        is_nothing(mid),
    ensures
        bare(path + mid) == path,
    decreases mid.len(),
{
    let whole = path + mid;
    let front = mid.drop_last();
    assert(whole.last() == mid.last());
    assert(whole.drop_last() =~= path + front);
    if mid.len() == 1 {
        assert(path + front =~= path);
        assert(bare(path) == path);
    } else {
        assert(mid.last() == '.' ==> whole[whole.len() - 2] == mid[mid.len() - 2]);
        assert(is_nothing(front));
        lemma_bare_of(path, front);
    }
}

/// Repeated separators and `.` components do not matter: not behind a file's
/// name, where they are left out of the record's path, nor before it, where
/// they are left out of the paths of what is derived from the file.
pub proof fn law_needless_parts_do_not_matter(
    dir: Seq<char>,
    mid: Seq<char>,
    name: Seq<char>,
    extension: Seq<char>,
    end: Seq<char>,
    other: Seq<char>,
    result: Seq<char>,
)
    requires
        is_dir(dir),
        is_nothing(mid),
        mid.last() == '/',
        is_name(name),
        extension.len() > 0,
        lacks(extension, '/'),
        lacks(extension, '\\'),
        lacks(extension, '.'),
        is_nothing(end),
    ensures
        is_target_path(dir + mid + name + seq!['.'] + extension + end, result) ==> result == dir
            + mid + name + ".target"@,
        is_sibling(dir + mid + name + seq!['.'] + extension, other, result) ==> result == dir
            + seq!['/'] + name + seq!['.'] + other || result == dir + seq!['\\'] + name + seq!['.']
            + other,
{
    reveal_strlit(".target");
    reveal_strlit("target");
    reveal_strlit(".");
    assert("."@ =~= seq!['.']);
    assert(".target"@ =~= seq!['.'] + "target"@);
    let front = dir + mid;
    let base = front + name;
    let path = extended(base, extension);
    assert(front[0] == dir[0]);
    assert(dir.len() > 1 ==> front[1] == dir[1]);
    assert(dir.len() == 1 ==> dir[0] == dir.last());
    assert(!begins_double(front));
    lemma_dir_end(dir);
    lemma_bare_of(dir, mid);
    lemma_lacks(extension, '/');
    lemma_lacks(extension, '\\');
    lemma_lacks(extension, '.');
    lemma_named(front, name);
    lemma_extended(base, extension, "target"@);
    assert(path.last() == extension.last());
    lemma_bare_of(path, end);
    assert(bare(path) == path);
    assert(dir + mid + name + seq!['.'] + extension + end =~= path + end);
    assert(extended(base, "target"@) =~= dir + mid + name + ".target"@);
    lemma_sibling_parts(front, name, extension, other);
    let file = file_name(name, other);
    assert(front + name + seq!['.'] + extension =~= dir + mid + name + seq!['.'] + extension);
    assert(dir + seq!['/'] + file =~= dir + seq!['/'] + name + seq!['.'] + other);
    assert(dir + seq!['\\'] + file =~= dir + seq!['\\'] + name + seq!['.'] + other);
}

/// A path that ends in `..` names no file: it is its own record's path, and
/// what is derived from it lies in the directory before the `..` and is called
/// `kernel`.
pub proof fn law_nameless_file_is_called_kernel(
    dir: Seq<char>,
    extension: Seq<char>,
    result: Seq<char>,
)
    requires
        is_dir(dir),
    ensures
        is_target_path(dir + "/.."@, result) ==> result == dir + "/.."@,
        is_sibling(dir + "/.."@, extension, result) ==> result == dir + "/kernel."@ + extension
            || result == dir + "\\kernel."@ + extension,
        is_target_path(Seq::empty(), result) ==> result.len() == 0,
        is_sibling(Seq::empty(), extension, result) ==> result == "./kernel."@ + extension || result
            == ".\\kernel."@ + extension,
{
    reveal_strlit("/..");
    reveal_strlit(".");
    reveal_strlit("kernel");
    reveal_strlit("/kernel.");
    reveal_strlit("\\kernel.");
    reveal_strlit("./kernel.");
    reveal_strlit(".\\kernel.");
    let front = dir + seq!['/'];
    let path = dir + "/.."@;
    let name = seq!['.', '.'];
    lemma_dir_end(dir);
    assert(path =~= front + name);
    assert(front[0] == dir[0]);
    assert(dir.len() > 1 ==> front[1] == dir[1]);
    lemma_start_behind(front, name, '/');
    assert(start_after(name, '/') == 0) by {
        lemma_lacks(name, '/');
        lemma_nothing_after(name, '/');
    }
    assert(name_part(path) =~= name);
    assert(dir_part(path) =~= front);
    assert(path[path.len() - 2] == '.');
    assert(bare(path) == path);
    assert(bare(front) == bare(front.drop_last()));
    assert(front.drop_last() =~= dir);
    assert(bare(dir) == dir);
    lemma_lacks(name, '\\');
    assert(path[0] == dir[0] && path[1] == front[1]);
    assert(!begins_double(path));
    let file = file_name("kernel"@, extension);
    assert(file[0] == 'k' && file[1] == 'e');
    assert(dir + seq!['/'] + file =~= dir + "/kernel."@ + extension);
    assert(dir + seq!['\\'] + file =~= dir + "\\kernel."@ + extension);
    let nothing = Seq::<char>::empty();
    assert(bare(nothing) == nothing);
    assert(start_after(nothing, '/') == 0);
    assert(name_part(nothing).len() == 0);
    assert("."@ + seq!['/'] + file =~= "./kernel."@ + extension);
    assert("."@ + seq!['\\'] + file =~= ".\\kernel."@ + extension);
}

/// The artifact of a kernel whose name begins at the root lies there, whatever
/// the directory is, if that has no drive.
pub proof fn law_rooted_artifact_lies_at_root(
    dir: Seq<char>,
    name: Seq<char>,
    extension: Seq<char>,
    path: Seq<char>,
)
    requires
        is_artifact_path(dir, name, extension, path),
        name.len() > 1,
        name[0] == '/' && name[1] != '/' && name[1] != '\\',
        dir.len() > 1 ==> dir[1] != ':',
        dir.len() > 1 ==> !((dir[0] == '/' || dir[0] == '\\') && (dir[1] == '/' || dir[1] == '\\')),
    ensures
        path == name + seq!['.'] + extension,
{
    reveal_strlit(".");
    assert("."@ =~= seq!['.']);
    let file = file_name(name, extension);
    assert(file =~= name + seq!['.'] + extension);
    assert(file[0] == name[0] && file[1] == name[1]);
}

/// A kernel's artifact lies in its directory, under the kernel's name with its
/// extension; the platform's separator stands between the two.
pub proof fn law_artifact_lies_in_dir(
    dir: Seq<char>,
    name: Seq<char>,
    extension: Seq<char>,
    path: Seq<char>,
)
    requires
        is_artifact_path(dir, name, extension, path),
        name.len() > 0,
        name[0] != '/' && name[0] != '\\',
        name.len() > 1 ==> name[1] != ':',
        dir.len() > 1 ==> !((dir[0] == '/' || dir[0] == '\\') && (dir[1] == '/' || dir[1] == '\\')),
    ensures
        dir.len() == 0 ==> path == name + seq!['.'] + extension,
        dir.len() > 0 && dir.last() == '/' ==> path == dir + name + seq!['.'] + extension,
        dir.len() > 0 && dir.last() != '/' && dir.last() != '\\' && !(dir.len() == 2 && dir[1]
            == ':') ==> path == dir + seq!['/'] + name + seq!['.'] + extension || path == dir
            + seq!['\\'] + name + seq!['.'] + extension,
{
    reveal_strlit(".");
    assert("."@ =~= seq!['.']);
    let file = file_name(name, extension);
    assert(file =~= name + seq!['.'] + extension);
    assert(file[0] == name[0]);
    assert(name.len() > 1 ==> file[1] == name[1]);
    assert(name.len() == 1 ==> file[1] == '.');
    assert(can_join(dir, file));
    assert(dir + file =~= dir + name + seq!['.'] + extension);
    assert(dir + seq!['/'] + file =~= dir + seq!['/'] + name + seq!['.'] + extension);
    assert(dir + seq!['\\'] + file =~= dir + seq!['\\'] + name + seq!['.'] + extension);
    assert(Seq::<char>::empty() + file =~= file);
}

/// The files of a build of `<dir>/<name>.ll`: its record, its LTOIR and its
/// cubin lie beside it, each under its own extension.
pub proof fn law_build_files_lie_beside(dir: Seq<char>, name: Seq<char>, files: FilesView)
    requires
        is_dir(dir),
        is_name(name),
        are_files_of(dir + seq!['/'] + name + ".ll"@, files),
    ensures
        files.ll == dir + seq!['/'] + name + ".ll"@,
        files.target == dir + seq!['/'] + name + ".target"@,
        files.ltoir == dir + seq!['/'] + name + ".ltoir"@ || files.ltoir == dir + seq!['\\'] + name
            + ".ltoir"@,
        files.cubin == dir + seq!['/'] + name + ".cubin"@ || files.cubin == dir + seq!['\\'] + name
            + ".cubin"@,
{
    reveal_strlit(".ll");
    reveal_strlit("ll");
    reveal_strlit(".ltoir");
    reveal_strlit("ltoir");
    reveal_strlit(".cubin");
    reveal_strlit("cubin");
    let path = dir + seq!['/'] + name + ".ll"@;
    assert(path =~= dir + seq!['/'] + name + seq!['.'] + "ll"@);
    lemma_dir_end(dir);
    law_record_lies_beside(dir, name, "ll"@, files.target);
    law_sibling_lies_beside(dir, name, "ll"@, "ltoir"@, files.ltoir);
    law_sibling_lies_beside(dir, name, "ll"@, "cubin"@, files.cubin);
    assert(dir + seq!['/'] + name + seq!['.'] + "ltoir"@ =~= dir + seq!['/'] + name + ".ltoir"@);
    assert(dir + seq!['\\'] + name + seq!['.'] + "ltoir"@ =~= dir + seq!['\\'] + name + ".ltoir"@);
    assert(dir + seq!['/'] + name + seq!['.'] + "cubin"@ =~= dir + seq!['/'] + name + ".cubin"@);
    assert(dir + seq!['\\'] + name + seq!['.'] + "cubin"@ =~= dir + seq!['\\'] + name + ".cubin"@);
}

/// `path` is `<dir>/<name><end>`, with the platform's separator.
pub open spec fn is_in(dir: Seq<char>, name: Seq<char>, end: Seq<char>, path: Seq<char>) -> bool {
    path == dir + seq!['/'] + name + end || path == dir + seq!['\\'] + name + end
}

/// The artifacts of the kernel `name` lie in `dir`, each under its own
/// extension, and so does the record of each NVVM output's target.
pub proof fn law_kernel_artifacts_lie_in_dir(
    dir: Seq<char>,
    name: Seq<char>,
    artifacts: ArtifactsView,
)
    requires
        is_dir(dir),
        is_name(name),
        are_artifacts_of(dir, name, artifacts),
    ensures
        artifacts.dir == dir,
        artifacts.name == name,
        is_in(dir, name, ".ptx"@, artifacts.ptx),
        is_in(dir, name, ".cubin"@, artifacts.cubin),
        is_in(dir, name, ".ll"@, artifacts.ir.ll),
        is_in(dir, name, ".ltoir"@, artifacts.ltoir),
        is_in(dir, name, ".target"@, artifacts.ir.target),
        is_in(dir, name, ".target"@, artifacts.ltoir_target),
        artifacts.ir.ll == dir + seq!['/'] + name + ".ll"@ ==> is_in(
            dir,
            name,
            ".cubin"@,
            artifacts.ir.cubin,
        ) && is_in(dir, name, ".ltoir"@, artifacts.ir.ltoir),
{
    reveal_strlit(".ptx");
    reveal_strlit("ptx");
    reveal_strlit(".ll");
    reveal_strlit("ll");
    reveal_strlit(".ltoir");
    reveal_strlit("ltoir");
    reveal_strlit(".cubin");
    reveal_strlit("cubin");
    reveal_strlit(".target");
    reveal_strlit("target");
    lemma_dir_end(dir);
    law_artifact_lies_in_dir(dir, name, "ptx"@, artifacts.ptx);
    law_artifact_lies_in_dir(dir, name, "cubin"@, artifacts.cubin);
    law_artifact_lies_in_dir(dir, name, "ll"@, artifacts.ir.ll);
    law_artifact_lies_in_dir(dir, name, "ltoir"@, artifacts.ltoir);
    let slash = dir + seq!['/'] + name;
    let backslash = dir + seq!['\\'] + name;
    assert(slash + seq!['.'] + "ptx"@ =~= slash + ".ptx"@);
    assert(backslash + seq!['.'] + "ptx"@ =~= backslash + ".ptx"@);
    assert(slash + seq!['.'] + "cubin"@ =~= slash + ".cubin"@);
    assert(backslash + seq!['.'] + "cubin"@ =~= backslash + ".cubin"@);
    assert(extended(slash, "ll"@) =~= slash + ".ll"@);
    assert(extended(backslash, "ll"@) =~= backslash + ".ll"@);
    assert(extended(slash, "ltoir"@) =~= slash + ".ltoir"@);
    assert(extended(backslash, "ltoir"@) =~= backslash + ".ltoir"@);
    assert(extended(slash, "target"@) =~= slash + ".target"@);
    assert(extended(backslash, "target"@) =~= backslash + ".target"@);
    lemma_name_is_base(name);
    lemma_front(dir, '/');
    lemma_front(dir, '\\');
    lemma_joined_base(dir + seq!['/'], name);
    lemma_joined_base(dir + seq!['\\'], name);
    if artifacts.ir.ll == slash + ".ll"@ {
        law_record_replaces_extension(slash, "ll"@, artifacts.ir.target);
        law_build_files_lie_beside(dir, name, artifacts.ir);
    } else {
        law_record_replaces_extension(backslash, "ll"@, artifacts.ir.target);
    }
    if artifacts.ltoir == slash + ".ltoir"@ {
        law_record_replaces_extension(slash, "ltoir"@, artifacts.ltoir_target);
    } else {
        law_record_replaces_extension(backslash, "ltoir"@, artifacts.ltoir_target);
    }
}

/// A load of the kernel `name` from `dir` goes by one record, whichever NVVM
/// output there is, and that lies in `dir`.
pub proof fn law_call_finds_one_record(dir: &str, name: &str, load: Load)
    requires
        is_dir(dir@),
        is_name(name@),
        call_ensures(load_kernel_module, (dir, name), load),
    ensures
        load@.artifacts.ltoir_target == load@.artifacts.ir.target,
        is_in(dir@, name@, ".target"@, load@.artifacts.ir.target),
{
    lemma_dir_end(dir@);
    lemma_name_is_base(name@);
    law_kernel_artifacts_lie_in_dir(dir@, name@, load@.artifacts);
    assert(dir@ != seq!['\\']) by {
        assert(seq!['\\'].last() == '\\');
    }
    assert(has_one_record(dir@, name@));
}

proof fn lemma_front(dir: Seq<char>, separator: char)
    requires
        is_dir(dir),
        is_separator(separator),
    ensures
        crate::siblings::is_front(dir + seq![separator]),
        (dir + seq![separator]).last() == separator,
{
    let front = dir + seq![separator];
    assert(front[0] == dir[0]);
    assert(dir.len() > 1 ==> front[1] == dir[1]);
    assert(dir.len() == 1 ==> dir[0] == dir.last());
}

} // verus!
