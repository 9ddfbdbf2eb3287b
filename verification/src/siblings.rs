//! The files of one kernel share one record of their target.

use vstd::prelude::*;
use crate::arch::ArchView;
use crate::error::ErrorView;
use crate::load_runs::{law_recorded_target_is_found, lookup_outcome};
use crate::paths::{
    bare,
    begins_double,
    can_join,
    derived_stem,
    dir_part,
    file_name,
    has_char,
    has_drive,
    has_parent,
    inner_part,
    inner_start,
    is_deep,
    is_drive,
    is_joined,
    is_separator,
    is_sibling,
    is_split_alike,
    is_target_path,
    last_dot,
    lemma_bare,
    lemma_last_dot,
    lemma_start_after,
    name_part,
    names_file,
    names_no_file,
    parent_text,
    replaced_extension,
    start_after,
    stem_part,
};
use crate::pipeline::{are_files_of, FilesView};
use crate::request::{ReplyView, RequestView};
use crate::runs::{answers_all, recorded_target};
use crate::target::{law_sidecar_round_trip, sidecar_text};
use crate::text::is_tight;

verus! {

/// `base` with an extension.
pub open spec fn extended(base: Seq<char>, extension: Seq<char>) -> Seq<char> {
    base + seq!['.'] + extension
}

/// `extension` is not empty and has no character that ends a component or an
/// extension.
pub open spec fn is_plain_extension(extension: Seq<char>) -> bool {
    &&& extension.len() > 0
    &&& !has_char(extension, '/')
    &&& !has_char(extension, '\\')
    &&& !has_char(extension, '.')
}

/// With an extension, `base` is the path of a file. Its last component may
/// hold dots.
pub open spec fn is_base(base: Seq<char>) -> bool {
    &&& is_deep(base)
    &&& inner_part(base).len() > 0
    &&& inner_part(base) != seq!['.']
}

/// `path` without the extension of its file name.
pub open spec fn base_of(path: Seq<char>) -> Seq<char> {
    dir_part(bare(path)) + stem_part(name_part(bare(path)))
}

/// A kernel `name` in `dir` has one record, however the platform joins the
/// two: `name` with an extension is the path of a file, and so it is in `dir`.
pub open spec fn has_one_record(dir: Seq<char>, name: Seq<char>) -> bool {
    &&& is_base(name)
    &&& can_join(dir, name)
    &&& dir != seq!['\\']
    &&& begins_double(dir) ==> exists|i: int|
        2 <= i < dir.len() - 1 && #[trigger] is_separator(dir[i])
}

proof fn lemma_start_of_tail(text: Seq<char>, tail: Seq<char>, c: char)
    requires
        !has_char(tail, c),
    ensures
        start_after(text + tail, c) == start_after(text, c),
    decreases tail.len(),
{
    if tail.len() == 0 {
        assert(text + tail =~= text);
    } else {
        let front = tail.drop_last();
        assert(tail.last() != c);
        assert((text + tail).drop_last() =~= text + front);
        assert(!has_char(front, c)) by {
            assert forall|i: int| 0 <= i < front.len() implies front[i] != c by {
                assert(front[i] == tail[i]);
            }
        }
        lemma_start_of_tail(text, front, c);
    }
}

pub(crate) proof fn lemma_start_behind(front: Seq<char>, text: Seq<char>, c: char)
    requires
        front.len() == 0 || front.last() == c || has_char(text, c),
    ensures
        start_after(front + text, c) == front.len() + start_after(text, c),
    decreases text.len(),
{
    if text.len() == 0 {
        assert(front + text =~= front);
    } else if text.last() != c {
        let rest = text.drop_last();
        assert((front + text).drop_last() =~= front + rest);
        if has_char(text, c) {
            let i = choose|i: int| 0 <= i < text.len() && text[i] == c;
            assert(rest[i] == c);
        }
        lemma_start_behind(front, rest, c);
    }
}

/// A prefix of a text without `c` has none either.
proof fn lemma_prefix_lacks(text: Seq<char>, n: int, c: char)
    requires
        0 <= n <= text.len(),
        !has_char(text, c),
    ensures
        !has_char(text.take(n), c),
{
    assert forall|i: int| 0 <= i < n implies text.take(n)[i] != c by {
        assert(text.take(n)[i] == text[i]);
    }
}

pub(crate) proof fn lemma_nothing_after(text: Seq<char>, c: char)
    ensures
        !has_char(text, c) <==> start_after(text, c) == 0,
{
    lemma_start_after(text, c);
    if start_after(text, c) == 0 {
        assert(text.skip(0) =~= text);
    }
}

pub(crate) proof fn lemma_last_dot_before(name: Seq<char>, extension: Seq<char>)
    requires
        !has_char(extension, '.'),
    ensures
        last_dot(extended(name, extension)) == name.len(),
    decreases extension.len(),
{
    let whole = extended(name, extension);
    if extension.len() == 0 {
        assert(whole.last() == '.');
    } else {
        let front = extension.drop_last();
        assert(extension.last() != '.');
        assert(whole.drop_last() =~= extended(name, front));
        lemma_prefix_lacks(extension, extension.len() - 1, '.');
        assert(front =~= extension.take(extension.len() - 1));
        lemma_last_dot_before(name, front);
    }
}

proof fn lemma_last_dot_behind(front: Seq<char>, name: Seq<char>)
    requires
        last_dot(name) >= 0,
    ensures
        last_dot(front + name) == front.len() + last_dot(name),
    decreases name.len(),
{
    if name.last() != '.' {
        assert((front + name).drop_last() =~= front + name.drop_last());
        lemma_last_dot_behind(front, name.drop_last());
    }
}

proof fn lemma_stem_is_prefix(name: Seq<char>)
    ensures
        stem_part(name).len() <= name.len(),
        stem_part(name) == name.take(stem_part(name).len() as int),
        name.len() > 0 ==> stem_part(name).len() > 0,
{
    lemma_last_dot(name);
    assert(name.take(name.len() as int) =~= name);
}

/// Where the inner part of a path stands.
pub(crate) proof fn lemma_inner(path: Seq<char>)
    ensures
        0 <= start_after(path, '/') <= inner_start(path) <= path.len(),
        name_part(path) == path.subrange(start_after(path, '/') as int, inner_start(path) as int)
            + inner_part(path),
        !has_char(inner_part(path), '/'),
        !has_char(inner_part(path), '\\'),
{
    let name = name_part(path);
    lemma_start_after(path, '/');
    lemma_start_after(name, '\\');
    let lead = (inner_start(path) - start_after(path, '/')) as int;
    assert(inner_part(path) =~= name.skip(lead));
    assert forall|i: int| 0 <= i < inner_part(path).len() implies inner_part(path)[i] != '/'
        && inner_part(path)[i] != '\\' by {
        assert(inner_part(path)[i] == name[lead + i]);
    }
    assert(name =~= path.subrange(start_after(path, '/') as int, inner_start(path) as int)
        + inner_part(path));
}

/// Of two paths that begin alike up to where their inner parts begin, both are
/// deep or none is.
proof fn lemma_deep(a: Seq<char>, b: Seq<char>)
    requires
        is_deep(a),
        begins_double(a) == begins_double(b),
        inner_start(a) == inner_start(b),
        inner_start(b) <= b.len(),
        inner_start(a) <= a.len(),
        forall|i: int| 0 <= i < inner_start(a) ==> a[i] == b[i],
    ensures
        is_deep(b),
{
    if begins_double(a) {
        let i = choose|i: int| 2 <= i < inner_start(a) - 1 && #[trigger] is_separator(a[i]);
        assert(is_separator(b[i]));
        assert(a[2] == b[2]);
    }
}

/// What a tail without separators leaves as it was.
pub(crate) proof fn lemma_tail_parts(base: Seq<char>, tail: Seq<char>)
    requires
        base.len() > 0,
        !has_char(tail, '/'),
        !has_char(tail, '\\'),
        tail.len() > 0 ==> tail[0] != ':',
    ensures
        dir_part(base + tail) == dir_part(base),
        name_part(base + tail) == name_part(base) + tail,
        inner_start(base + tail) == inner_start(base),
        inner_part(base + tail) == inner_part(base) + tail,
        is_deep(base) <==> is_deep(base + tail),
{
    let path = base + tail;
    let name = name_part(base);
    lemma_inner(base);
    lemma_start_of_tail(base, tail, '/');
    assert(dir_part(path) =~= dir_part(base));
    assert(name_part(path) =~= name + tail);
    lemma_start_of_tail(name, tail, '\\');
    lemma_nothing_after(name, '\\');
    lemma_nothing_after(name + tail, '\\');
    if tail.len() > 0 {
        if is_separator(tail[0]) {
            assert(has_char(tail, tail[0]));
        }
        assert(base.len() == 1 ==> path[1] == tail[0]);
    }
    assert(base.len() > 1 ==> path[1] == base[1]);
    assert(has_drive(path) == has_drive(base));
    assert(begins_double(path) == begins_double(base));
    assert(inner_part(path) =~= inner_part(base) + tail);
    if is_deep(base) {
        lemma_deep(base, path);
    }
    if is_deep(path) {
        lemma_deep(path, base);
    }
}

/// A path with an extension, taken apart.
pub(crate) proof fn lemma_extended(base: Seq<char>, extension: Seq<char>, other: Seq<char>)
    requires
        is_base(base),
        is_plain_extension(extension),
    ensures
        names_file(extended(base, extension)),
        dir_part(bare(extended(base, extension))) == dir_part(base),
        replaced_extension(extended(base, extension), other) == extended(base, other),
{
    let path = extended(base, extension);
    let tail = seq!['.'] + extension;
    let inner = inner_part(base);
    let stem = name_part(base);
    assert(path =~= base + tail);
    assert(path.last() == extension.last());
    assert(bare(path) == path);
    assert forall|i: int| 0 <= i < tail.len() implies tail[i] != '/' && tail[i] != '\\' by {
        if i > 0 {
            assert(tail[i] == extension[i - 1]);
        }
    }
    lemma_tail_parts(base, tail);
    assert(inner_part(path) =~= extended(inner, extension));
    assert(name_part(path) =~= extended(stem, extension));
    lemma_last_dot_before(inner, extension);
    lemma_last_dot_before(stem, extension);
    lemma_inner(base);
    assert(stem_part(inner_part(path)) =~= inner);
    assert(stem_part(name_part(path)) =~= stem);
    assert(inner_part(path).last() == extension.last());
    assert(extension.last() != '.');
    assert(seq!['.'].last() == '.' && seq!['.', '.'].last() == '.');
    assert(dir_part(base) + stem =~= base);
    assert(replaced_extension(path, other) =~= extended(base, other));
}

proof fn lemma_base_of(path: Seq<char>)
    requires
        names_file(path),
    ensures
        is_base(base_of(path)),
        dir_part(base_of(path)) == dir_part(bare(path)),
        name_part(base_of(path)) == stem_part(name_part(bare(path))),
        inner_part(base_of(path)) == stem_part(inner_part(bare(path))),
{
    let b = bare(path);
    let base = base_of(path);
    let name = name_part(b);
    let inner = inner_part(b);
    let stem = stem_part(inner);
    let lead = b.subrange(start_after(b, '/') as int, inner_start(b) as int);
    lemma_inner(b);
    lemma_last_dot(inner);
    lemma_last_dot(name);
    lemma_stem_is_prefix(inner);
    if last_dot(inner) >= 0 {
        lemma_last_dot_behind(lead, inner);
    }
    if lead.len() == 0 {
        assert(name =~= inner);
    }
    assert(stem_part(name) =~= lead + stem);
    let rest = inner.skip(stem.len() as int);
    assert(b =~= base + rest);
    assert(last_dot(inner) > 0 ==> rest[0] == inner[last_dot(inner)]);
    assert forall|i: int| 0 <= i < rest.len() implies rest[i] != '/' && rest[i] != '\\' by {
        assert(rest[i] == inner[stem.len() + i]);
    }
    assert(base.len() > 0);
    lemma_tail_parts(base, rest);
    lemma_inner(base);
    assert(inner_part(base) =~= stem);
    assert(name_part(base) =~= lead + stem);
}

/// Only the last extension of an artifact's name is replaced: the target of
/// `<base>.<extension>` is recorded in `<base>.target`.
pub proof fn law_record_replaces_extension(
    base: Seq<char>,
    extension: Seq<char>,
    target: Seq<char>,
)
    requires
        is_base(base),
        is_plain_extension(extension),
        is_target_path(extended(base, extension), target),
    ensures
        target == extended(base, "target"@),
{
    lemma_extended(base, extension, "target"@);
}

/// Two artifacts in one directory, of one name but for their extensions, have
/// one record.
pub proof fn law_same_stem_shares_record(
    path: Seq<char>,
    sibling: Seq<char>,
    target: Seq<char>,
    sibling_target: Seq<char>,
)
    requires
        names_file(path),
        names_file(sibling),
        dir_part(bare(path)) == dir_part(bare(sibling)),
        stem_part(name_part(bare(path))) == stem_part(name_part(bare(sibling))),
        is_target_path(path, target),
        is_target_path(sibling, sibling_target),
    ensures
        target == sibling_target,
{
}

/// Replacing an extension twice is replacing it once.
pub proof fn law_extension_is_replaced_once(path: Seq<char>)
    requires
        names_file(path),
    ensures
        names_file(replaced_extension(path, "target"@)),
        replaced_extension(replaced_extension(path, "target"@), "target"@) == replaced_extension(
            path,
            "target"@,
        ),
{
    reveal_strlit("target");
    lemma_base_of(path);
    lemma_extended(base_of(path), "target"@, "target"@);
}

/// A record's path is its own record's path.
pub proof fn law_record_is_its_own_record(path: Seq<char>, target: Seq<char>, again: Seq<char>)
    requires
        names_file(path) || names_no_file(path),
        is_target_path(path, target),
        is_target_path(target, again),
    ensures
        again == target,
{
    if names_file(path) {
        law_extension_is_replaced_once(path);
    }
}

/// A record that was written for one artifact is read back for every artifact
/// in its directory that has its name but for the extension: the very target,
/// with its suffix, if the parser knows it by the name that was recorded.
pub proof fn law_record_is_read_back(
    world: spec_fn(RequestView) -> ReplyView,
    path: Seq<char>,
    sibling: Seq<char>,
    target: Seq<char>,
    sibling_target: Seq<char>,
    arch: ArchView,
)
    requires
        answers_all(world),
        names_file(path),
        names_file(sibling),
        dir_part(bare(path)) == dir_part(bare(sibling)),
        stem_part(name_part(bare(path))) == stem_part(name_part(bare(sibling))),
        is_target_path(path, target),
        is_target_path(sibling, sibling_target),
        is_tight(arch.sm),
        world(RequestView::ReadText { path: target }) == ReplyView::Text(
            Ok(Some(sidecar_text(arch))),
        ),
        world(RequestView::ParseTarget { text: arch.sm }) == ReplyView::Target(Ok(arch)),
    ensures
        recorded_target(world, sibling_target) == Ok::<Option<ArchView>, ErrorView>(Some(arch)),
        lookup_outcome(world, Some(sibling_target)) == Ok::<ArchView, ErrorView>(arch),
{
    law_same_stem_shares_record(path, sibling, target, sibling_target);
    law_sidecar_round_trip(arch);
    law_recorded_target_is_found(world, sibling_target, arch);
}

/// What may stand before a name for the two to be one path: nothing, a
/// directory with a separator, or a drive.
pub(crate) open spec fn is_front(front: Seq<char>) -> bool {
    &&& front.len() == 0 || is_separator(front.last()) || is_drive(front)
    &&& begins_double(front) ==> front[2] != '?' && exists|i: int|
        2 <= i < front.len() - 1 && #[trigger] is_separator(front[i])
}

proof fn lemma_inner_behind(front: Seq<char>, name: Seq<char>)
    requires
        front.len() == 0 || is_separator(front.last()) || is_drive(front),
        inner_part(name).len() > 0,
    ensures
        front.len() <= inner_start(front + name) <= (front + name).len(),
        inner_part(front + name) == inner_part(name) || name.len() > 0 && inner_part(front + name)
            == name && (has_drive(name) || inner_part(name) == name),
{
    let base = front + name;
    lemma_inner(name);
    lemma_inner(base);
    lemma_nothing_after(name, '/');
    lemma_nothing_after(name, '\\');
    assert(front.len() == 0 ==> base =~= name);
    if start_after(name, '/') > 0 {
        lemma_start_behind(front, name, '/');
        assert(name_part(base) =~= name_part(name));
        assert(inner_part(base) =~= inner_part(name));
    } else {
        assert(name_part(name) =~= name);
        if front.len() > 0 && front.last() == '/' {
            lemma_start_behind(front, name, '/');
            assert(name_part(base) =~= name);
            assert(has_char(name, '\\') ==> inner_part(base) =~= inner_part(name));
            assert(!has_char(name, '\\') ==> inner_part(base) =~= name);
        } else if front.len() > 0 {
            let head = name_part(front);
            lemma_start_after(front, '/');
            lemma_start_of_tail(front, name, '/');
            assert(name_part(base) =~= head + name);
            if front.last() == '\\' {
                assert(head.last() == '\\');
                assert((head + name)[head.len() - 1] == '\\');
                lemma_start_behind(head, name, '\\');
            } else {
                assert(head =~= front);
                if has_char(name, '\\') {
                    let i = choose|i: int| 0 <= i < name.len() && name[i] == '\\';
                    assert((head + name)[2 + i] == '\\');
                    lemma_start_behind(head, name, '\\');
                } else {
                    assert forall|i: int| 0 <= i < base.len() implies base[i] != '\\' by {
                        if i >= 2 {
                            assert(base[i] == name[i - 2]);
                        }
                    }
                    assert(base[0] == front[0] && base[1] == front[1]);
                }
            }
            assert(has_char(name, '\\') ==> inner_part(base) =~= inner_part(name));
            assert(!has_char(name, '\\') ==> inner_part(base) =~= name);
        }
    }
}

pub(crate) proof fn lemma_joined_base(front: Seq<char>, name: Seq<char>)
    requires
        is_front(front),
        is_base(name),
        front.len() > 0 && is_separator(front.last()) ==> !is_separator(name[0]),
    ensures
        is_base(front + name),
{
    let base = front + name;
    lemma_inner(name);
    lemma_inner_behind(front, name);
    if front.len() == 0 {
        assert(base =~= name);
    } else if begins_double(base) {
        assert(front.len() == 1 ==> base[1] == name[0]);
        assert(base[0] == front[0]);
        assert(front.len() >= 2 ==> base[1] == front[1]);
        assert(begins_double(front));
        let i = choose|i: int| 2 <= i < front.len() - 1 && #[trigger] is_separator(front[i]);
        assert(is_separator(base[i]));
        assert(base[2] == front[2]);
    }
    assert(has_drive(name) ==> name.len() > 1);
}

/// What stands before `file` in its path in a directory.
spec fn joined_front(file: Seq<char>, joined: Seq<char>) -> Seq<char> {
    joined.take(joined.len() - file.len())
}

proof fn lemma_joined_front(dir: Seq<char>, file: Seq<char>, joined: Seq<char>)
    requires
        can_join(dir, file),
        is_joined(dir, file, joined),
        dir != seq!['\\'],
        begins_double(dir) ==> exists|i: int|
            2 <= i < dir.len() - 1 && #[trigger] is_separator(dir[i]),
        file.len() > 0,
    ensures
        joined == joined_front(file, joined) + file,
        is_front(joined_front(file, joined)),
        joined_front(file, joined).len() > 0 && is_separator(
            joined_front(file, joined).last(),
        ) ==> !is_separator(file[0]),
{
    let front = joined_front(file, joined);
    let slash = dir + seq!['/'];
    let backslash = dir + seq!['\\'];
    if file[0] == '/' {
        if joined == file {
            assert(front =~= Seq::empty());
            assert(joined =~= front + file);
        } else {
            assert(front =~= dir.take(2));
            assert(joined =~= front + file);
            assert(!is_separator(front[1]));
        }
    } else if has_drive(file) && joined == file {
        assert(front =~= Seq::empty());
        assert(joined =~= front + file);
    } else {
        assert(front =~= dir || front =~= slash || front =~= backslash);
        assert(joined =~= front + file);
        if dir.len() == 1 {
            assert(dir =~= seq![dir[0]]);
        }
        if dir.len() >= 2 {
            assert(front[0] == dir[0] && front[1] == dir[1]);
        }
        if begins_double(front) {
            assert(begins_double(dir)) by {
                assert(dir.len() >= 2);
            }
            let i = choose|i: int| 2 <= i < dir.len() - 1 && #[trigger] is_separator(dir[i]);
            assert(is_separator(front[i]));
            assert(front[2] == dir[2]);
        }
    }
}

/// The records of two artifacts whose paths begin with one path of a kernel.
pub(crate) proof fn lemma_one_record(
    dir: Seq<char>,
    name: Seq<char>,
    joined: Seq<char>,
    ll_target: Seq<char>,
    ltoir_target: Seq<char>,
)
    requires
        has_one_record(dir, name),
        is_joined(dir, file_name(name, "l"@), joined),
        is_target_path(joined + "l"@, ll_target),
        is_target_path(joined + "toir"@, ltoir_target),
    ensures
        ll_target == ltoir_target,
{
    reveal_strlit(".");
    reveal_strlit("l");
    reveal_strlit("toir");
    reveal_strlit("ll");
    reveal_strlit("ltoir");
    assert("."@ =~= seq!['.']);
    let file = file_name(name, "l"@);
    lemma_inner(name);
    assert(file[0] == name[0]);
    lemma_longer_can_join(dir, name, "l"@);
    lemma_joined_front(dir, file, joined);
    let front = joined_front(file, joined);
    lemma_joined_base(front, name);
    let base = front + name;
    assert(joined + "l"@ =~= extended(base, "ll"@));
    assert(joined + "toir"@ =~= extended(base, "ltoir"@));
    law_record_replaces_extension(base, "ll"@, ll_target);
    law_record_replaces_extension(base, "ltoir"@, ltoir_target);
}

/// A name that can be joined can be joined with an extension.
pub(crate) proof fn lemma_longer_can_join(dir: Seq<char>, name: Seq<char>, extension: Seq<char>)
    requires
        has_one_record(dir, name),
    ensures
        can_join(dir, file_name(name, extension)),
{
    reveal_strlit(".");
    let file = file_name(name, extension);
    lemma_inner(name);
    assert(file[0] == name[0]);
    assert(name.len() >= 2 ==> file[1] == name[1]);
    assert(name.len() == 1 ==> file[1] == '.');
}

/// The path of a longer file name is the longer path.
pub(crate) proof fn lemma_joined_longer(
    dir: Seq<char>,
    file: Seq<char>,
    joined: Seq<char>,
    tail: Seq<char>,
)
    requires
        file.len() >= 2,
        can_join(dir, file) ==> is_joined(dir, file, joined),
    ensures
        can_join(dir, file + tail) ==> is_joined(dir, file + tail, joined + tail),
{
    let longer = file + tail;
    assert(longer[0] == file[0] && longer[1] == file[1]);
    if can_join(dir, longer) {
        assert(dir + file + tail =~= dir + longer);
        assert(dir + seq!['/'] + file + tail =~= dir + seq!['/'] + longer);
        assert(dir + seq!['\\'] + file + tail =~= dir + seq!['\\'] + longer);
        assert(dir.take(2) + file + tail =~= dir.take(2) + longer);
    }
}

/// The stem of a file's path is no path of its own.
proof fn lemma_stem(path: Seq<char>)
    requires
        names_file(path),
        is_split_alike(bare(path)),
    ensures
        derived_stem(path) == name_part(base_of(path)),
        base_of(path) == dir_part(bare(path)) + derived_stem(path),
        derived_stem(path).len() > 0,
        derived_stem(path) != seq!['.'],
        !has_char(derived_stem(path), '/'),
        !has_char(derived_stem(path), '\\'),
        !is_separator(derived_stem(path)[0]),
{
    let name = name_part(bare(path));
    let stem = stem_part(name);
    lemma_base_of(path);
    lemma_inner(bare(path));
    lemma_stem_is_prefix(name);
    assert(inner_part(bare(path)) =~= name);
    lemma_prefix_lacks(name, stem.len() as int, '/');
    lemma_prefix_lacks(name, stem.len() as int, '\\');
    if is_separator(stem[0]) {
        assert(has_char(stem, stem[0]));
    }
}

proof fn lemma_parent(path: Seq<char>)
    requires
        has_parent(path),
    ensures
        ({
            let parent = parent_text(path);
            &&& parent.len() > 1 ==> parent.last() != '/'
            &&& parent.len() > 0 ==> parent.last() != '\\'
            &&& parent.len() <= dir_part(bare(path)).len()
            &&& parent == dir_part(bare(path)).take(parent.len() as int)
            &&& begins_double(parent) ==> parent[2] != '?'
        }),
{
    let b = bare(path);
    let dir = dir_part(b);
    let parent = parent_text(path);
    lemma_start_after(b, '/');
    lemma_bare(dir);
    lemma_start_after(parent, '/');
    let last = name_part(parent);
    if parent.len() > 0 && parent.last() == '\\' {
        assert(last.last() == '\\');
        assert(has_char(last, '\\'));
        assert(start_after(last, '\\') == last.len());
    }
    if begins_double(parent) {
        assert(parent[0] == b[0] && parent[1] == b[1] && parent[2] == b[2]);
    }
}

/// A build's LTOIR goes by the same record as the NVVM IR that it was made
/// from, if their paths name the directory alike.
pub proof fn law_ltoir_shares_record(ll_path: Seq<char>, files: FilesView, target: Seq<char>)
    requires
        names_file(ll_path),
        has_parent(ll_path),
        are_files_of(ll_path, files),
        dir_part(files.ltoir) == dir_part(bare(ll_path)),
        is_target_path(files.ltoir, target),
    ensures
        target == files.target,
{
    reveal_strlit("ltoir");
    reveal_strlit(".");
    assert("."@ =~= seq!['.']);
    let base = base_of(ll_path);
    let dir = dir_part(bare(ll_path));
    let stem = derived_stem(ll_path);
    let parent = parent_text(ll_path);
    let file = file_name(stem, "ltoir"@);
    let tail = seq!['\\'] + file;
    lemma_base_of(ll_path);
    lemma_stem(ll_path);
    lemma_parent(ll_path);
    lemma_start_after(bare(ll_path), '/');
    lemma_start_after(parent, '/');
    assert(file =~= extended(stem, "ltoir"@));
    assert(file[0] == stem[0]);
    assert forall|i: int| 0 <= i < file.len() implies file[i] != '/' by {
        if i < stem.len() {
            assert(file[i] == stem[i]);
        }
    }
    assert forall|i: int| 0 <= i < tail.len() implies tail[i] != '/' by {
        if i > 0 {
            assert(tail[i] == file[i - 1]);
        }
    }
    lemma_nothing_after(file, '/');
    assert(dir.len() > 0 ==> dir.last() == '/');
    if parent.len() > 0 && parent.last() != '/' && dir.len() <= parent.len() {
        assert(parent =~= dir);
    }
    if files.ltoir == file {
        assert(dir.len() == 0);
        assert(files.ltoir =~= dir + file);
    } else if parent.len() == 0 || parent.last() == '/' {
        lemma_start_behind(parent, file, '/');
        assert(dir_part(parent + file) =~= parent);
        assert(files.ltoir =~= dir + file);
    } else {
        let slashed = parent + seq!['/'];
        lemma_start_behind(slashed, file, '/');
        assert(dir_part(slashed + file) =~= slashed);
        lemma_start_of_tail(parent, tail, '/');
        lemma_start_of_tail(parent, file, '/');
        assert(parent + seq!['\\'] + file =~= parent + tail);
        assert(files.ltoir =~= dir + file);
    }
    assert(files.ltoir =~= extended(base, "ltoir"@));
    law_record_replaces_extension(base, "ltoir"@, target);
}

/// However a path names the directory of its NVVM IR, the record of the LTOIR
/// lies in it, next to the LTOIR, under the name of the NVVM IR.
pub proof fn law_ltoir_record_is_sibling(ll_path: Seq<char>, files: FilesView, target: Seq<char>)
    requires
        names_file(ll_path),
        has_parent(ll_path),
        is_base(derived_stem(ll_path)),
        are_files_of(ll_path, files),
        is_target_path(files.ltoir, target),
    ensures
        is_sibling(ll_path, "target"@, target),
{
    reveal_strlit("ltoir");
    reveal_strlit("target");
    reveal_strlit(".");
    assert("."@ =~= seq!['.']);
    let stem = derived_stem(ll_path);
    let parent = parent_text(ll_path);
    let file = file_name(stem, "ltoir"@);
    let record = file_name(stem, "target"@);
    lemma_stem(ll_path);
    lemma_parent(ll_path);
    assert(file =~= extended(stem, "ltoir"@));
    assert(record =~= extended(stem, "target"@));
    assert(file[0] == stem[0] && record[0] == stem[0]);
    assert(stem.len() > 1 ==> file[1] == stem[1] && record[1] == stem[1]);
    assert(stem.len() == 1 ==> file[1] == '.' && record[1] == '.');
    assert(has_drive(file) == has_drive(record));
    let joined = files.ltoir;
    let slash = parent + seq!['/'];
    let backslash = parent + seq!['\\'];
    let front = if joined == file && has_drive(file) {
        Seq::empty()
    } else if parent.len() == 0 || parent.last() == '/' || joined == parent + file {
        parent
    } else if joined == slash + file {
        slash
    } else {
        backslash
    };
    assert(joined =~= front + file);
    assert(is_front(front)) by {
        if parent.len() >= 2 {
            assert(front.len() > 0 ==> front[0] == parent[0] && front[1] == parent[1]);
        }
        if begins_double(front) {
            assert(begins_double(parent));
            let i = choose|i: int| 2 <= i < parent.len() && #[trigger] is_separator(parent[i]);
            assert(parent.last() != '/' && parent.last() != '\\');
            assert(is_separator(front[i]));
            assert(front[2] == parent[2]);
        }
    }
    lemma_joined_base(front, stem);
    assert(joined =~= extended(front + stem, "ltoir"@));
    law_record_replaces_extension(front + stem, "ltoir"@, target);
    assert(target =~= front + record);
}

/// Once a target is recorded for NVVM IR, its LTOIR can be loaded without it:
/// the lookup for the LTOIR finds that target, whether or not the NVVM IR is
/// still there, and whatever is set explicitly.
pub proof fn law_ltoir_target_is_found(
    world: spec_fn(RequestView) -> ReplyView,
    ll_path: Seq<char>,
    files: FilesView,
    target: Seq<char>,
    arch: ArchView,
)
    requires
        answers_all(world),
        names_file(ll_path),
        has_parent(ll_path),
        are_files_of(ll_path, files),
        dir_part(files.ltoir) == dir_part(bare(ll_path)),
        is_target_path(files.ltoir, target),
        is_tight(arch.sm),
        world(RequestView::ReadText { path: files.target }) == ReplyView::Text(
            Ok(Some(sidecar_text(arch))),
        ),
        world(RequestView::ParseTarget { text: arch.sm }) == ReplyView::Target(Ok(arch)),
    ensures
        lookup_outcome(world, Some(target)) == Ok::<ArchView, ErrorView>(arch),
{
    law_ltoir_shares_record(ll_path, files, target);
    law_recorded_target_is_found(world, target, arch);
}

} // verus!
