//! The key a local file is stored under: the final component of its path.
//!
//! Paths are read as text in which `/` separates components. Empty
//! components and `.` stand for nothing, so `a//b/` and `a/b/.` both end in
//! `b`; a path that ends in `..`, or has no component at all, has no file
//! name.

use vstd::prelude::*;
use vstd::string::*;

verus! {

/// The character that separates the components of a path.
pub const SEPARATOR: char = '/';

/// Where the last segment of `path` starts: just behind its last separator,
/// or at 0 when it has none.
pub open spec fn last_segment_start(path: Seq<char>) -> int
    decreases path.len(),
{
    if path.len() == 0 || path.last() == SEPARATOR {
        path.len() as int
    } else {
        last_segment_start(path.drop_last())
    }
}

/// The component `.`, which names the directory it stands in.
pub open spec fn current_dir() -> Seq<char> {
    seq!['.']
}

/// The component `..`, which names the directory above.
pub open spec fn parent_dir() -> Seq<char> {
    seq!['.', '.']
}

/// Whether `name` can be the file name of a path: it is not empty, holds no
/// separator and is neither `.` nor `..`.
pub open spec fn is_file_name(name: Seq<char>) -> bool {
    &&& name.len() > 0
    &&& !name.contains(SEPARATOR)
    &&& name != current_dir()
    &&& name != parent_dir()
}

/// The final component of `path`, if it names a file.
///
/// Trailing separators and trailing `.` components are passed over. What is
/// then last is the file name, unless it is `..` or nothing is left.
pub open spec fn file_name_of(path: Seq<char>) -> Option<Seq<char>>
    decreases path.len(),
{
    let start = last_segment_start(path);
    let segment = path.subrange(start, path.len() as int);
    if segment.len() == 0 || segment == current_dir() {
        if 0 < start <= path.len() {
            file_name_of(path.subrange(0, start - 1))
        } else {
            None
        }
    } else if segment == parent_dir() {
        None
    } else {
        Some(segment)
    }
}

/// The start of the last segment lies within the path, the segment holds no
/// separator, and a separator stands right before it unless it starts the path.
pub proof fn lemma_last_segment(path: Seq<char>)
    ensures
        0 <= last_segment_start(path) <= path.len(),
        !path.subrange(last_segment_start(path), path.len() as int).contains(SEPARATOR),
        last_segment_start(path) > 0 ==> path[last_segment_start(path) - 1] == SEPARATOR,
    decreases path.len(),
{
    let start = last_segment_start(path);
    if path.len() == 0 || path.last() == SEPARATOR {
        assert(path.subrange(start, path.len() as int) =~= Seq::<char>::empty());
    } else {
        let shorter = path.drop_last();
        lemma_last_segment(shorter);
        let segment = path.subrange(start, path.len() as int);
        assert forall|i: int| 0 <= i < segment.len() implies segment[i] != SEPARATOR by {
            if i < segment.len() - 1 {
                assert(shorter.subrange(start, shorter.len() as int)[i] == segment[i]);
            }
        }
    }
}

/// A file name is a component that names a file: whenever a path has a file
/// name, that name is not empty, holds no separator, and is neither `.` nor
/// `..`.
pub proof fn lemma_file_name_is_component(path: Seq<char>)
    ensures
        file_name_of(path) matches Some(name) ==> is_file_name(name),
    decreases path.len(),
{
    lemma_last_segment(path);
    let start = last_segment_start(path);
    let segment = path.subrange(start, path.len() as int);
    if segment.len() == 0 || segment == current_dir() {
        if 0 < start <= path.len() {
            lemma_file_name_is_component(path.subrange(0, start - 1));
        }
    }
}

/// The last segment of `directory`, a separator and `name` is `name`, given
/// that `name` holds no separator.
proof fn lemma_last_segment_of_join(directory: Seq<char>, name: Seq<char>)
    requires
        !name.contains(SEPARATOR),
    ensures
        last_segment_start(directory.push(SEPARATOR) + name) == directory.len() + 1,
    decreases name.len(),
{
    let joined = directory.push(SEPARATOR) + name;
    if name.len() == 0 {
        assert(joined =~= directory.push(SEPARATOR));
    } else {
        assert(name.contains(name.last()));
        assert(joined.last() == name.last());
        assert(joined.drop_last() =~= directory.push(SEPARATOR) + name.drop_last());
        assert forall|i: int| 0 <= i < name.drop_last().len() implies name.drop_last()[i]
            != SEPARATOR by {
            assert(name.contains(name[i]));
        }
        lemma_last_segment_of_join(directory, name.drop_last());
    }
}

/// Directory components are always stripped: whatever stands before the last
/// separator, the file name of `directory/name` is `name`.
pub proof fn lemma_directory_is_stripped(directory: Seq<char>, name: Seq<char>)
    requires
        is_file_name(name),
    ensures
        file_name_of(directory.push(SEPARATOR) + name) == Some(name),
{
    let joined = directory.push(SEPARATOR) + name;
    lemma_last_segment_of_join(directory, name);
    assert(joined.subrange(directory.len() as int + 1, joined.len() as int) =~= name);
}

/// A bare file name is its own file name.
pub proof fn lemma_bare_name_is_kept(name: Seq<char>)
    requires
        is_file_name(name),
    ensures
        file_name_of(name) == Some(name),
{
    lemma_last_segment_start_of_bare(name);
    assert(name.subrange(0, name.len() as int) =~= name);
}

/// A text without separator is one segment.
proof fn lemma_last_segment_start_of_bare(name: Seq<char>)
    requires
        !name.contains(SEPARATOR),
    ensures
        last_segment_start(name) == 0,
    decreases name.len(),
{
    if name.len() > 0 {
        assert(name.contains(name.last()));
        assert forall|i: int| 0 <= i < name.drop_last().len() implies name.drop_last()[i]
            != SEPARATOR by {
            assert(name.contains(name[i]));
        }
        lemma_last_segment_start_of_bare(name.drop_last());
    }
}

/// The characters of `text`, one by one.
fn chars_of(text: &str) -> (chars: Vec<char>)
    ensures
        chars@ == text@,
{
    let mut chars: Vec<char> = Vec::new();
    for c in it: text.chars()
        invariant
            it.seq() == text@,
            chars@ == text@.take(it.index() as int),
    {
        chars.push(c);
    }
    chars
}

/// The file name of `path`: its final component, with every directory before
/// it stripped. `None` when the path has no file name.
pub fn file_name(path: &str) -> (name: Option<String>)
    ensures
        name.deep_view() == file_name_of(path@),
{
    let chars = chars_of(path);
    let mut end: usize = chars.len();
    assert(path@.take(end as int) =~= path@);
    loop
        invariant
            chars@ == path@,
            end <= chars.len(),
            file_name_of(path@) == file_name_of(path@.take(end as int)),
        decreases end,
    {
        let ghost prefix = path@.take(end as int);
        let mut start: usize = end;
        while start > 0 && chars[start - 1] != SEPARATOR
            invariant
                chars@ == path@,
                start <= end <= chars.len(),
                prefix == path@.take(end as int),
                last_segment_start(prefix) == last_segment_start(path@.take(start as int)),
            decreases start,
        {
            proof {
                assert(path@.take(start as int).drop_last() =~= path@.take(start - 1));
            }
            start -= 1;
        }
        proof {
            assert(last_segment_start(prefix) == start);
            assert(prefix.subrange(start as int, end as int) =~= path@.subrange(
                start as int,
                end as int,
            ));
        }
        let ghost segment = path@.subrange(start as int, end as int);
        let length: usize = end - start;
        let blank = length == 0 || (length == 1 && chars[start] == '.');
        proof {
            if length == 1 && chars[start as int] == '.' {
                assert(segment =~= current_dir());
            }
            if segment == current_dir() {
                assert(segment.len() == 1 && segment[0] == '.');
            }
        }
        if blank {
            if start == 0 {
                return None;
            }
            proof {
                assert(prefix.subrange(0, start - 1) =~= path@.take(start - 1));
            }
            end = start - 1;
        } else if length == 2 && chars[start] == '.' && chars[start + 1] == '.' {
            proof {
                assert(segment =~= parent_dir());
            }
            return None;
        } else {
            proof {
                if segment == parent_dir() {
                    assert(segment.len() == 2 && segment[0] == '.' && segment[1] == '.');
                }
            }
            return Some(path.substring_char(start, end).to_owned());
        }
    }
}

} // verus!
