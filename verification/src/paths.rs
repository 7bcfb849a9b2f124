//! Paths as text.
use vstd::prelude::*;

use crate::text;

verus! {

/// How paths are written.
#[derive(Debug, Clone, Copy, PartialEq, Eq, Structural)]
pub enum Platform {
    /// With `/` between the parts.
    Unix,
    /// With a backslash between the parts.
    Windows,
}

/// The path of `name` in the directory `dir`. An absolute name stands for itself.
pub open spec fn joined(dir: Seq<char>, name: Seq<char>) -> Seq<char> {
    if dir.len() == 0 || (name.len() > 0 && name[0] == '/') {
        name
    } else if dir.last() == '/' {
        dir + name
    } else {
        dir.push('/') + name
    }
}

/// The path of `name` in the directory `dir`.
pub fn join_path(dir: &str, name: &str) -> (path: String)
    ensures
        path@ == joined(dir@, name@),
{
    let n: usize = dir.unicode_len();
    if n == 0 || (name.unicode_len() > 0 && name.get_char(0) == '/') {
        return name.to_owned();
    }
    let mut path = dir.to_owned();
    if dir.get_char(n - 1) != '/' {
        path.push('/');
    }
    path.push_str(name);
    path
}

/// A path of Windows that needs no backslash before a name: one that is empty, ends
/// in a separator or is a drive.
pub open spec fn windows_ready(dir: Seq<char>) -> bool {
    ||| dir.len() == 0
    ||| dir.last() == '/'
    ||| dir.last() == '\\'
    ||| dir.len() == 2 && dir[1] == ':' && ('a' <= dir[0] <= 'z' || 'A' <= dir[0] <= 'Z')
}

/// The path of a name without separators in the directory `dir`.
pub open spec fn named_in(platform: Platform, dir: Seq<char>, name: Seq<char>) -> Seq<char> {
    match platform {
        Platform::Unix => joined(dir, name),
        Platform::Windows => if windows_ready(dir) {
            dir + name
        } else {
            dir.push('\\') + name
        },
    }
}

/// The path of a name without separators in the directory `dir`.
pub fn name_path(platform: Platform, dir: &str, name: &str) -> (path: String)
    ensures
        path@ == named_in(platform, dir@, name@),
{
    match platform {
        Platform::Unix => join_path(dir, name),
        Platform::Windows => {
            let n: usize = dir.unicode_len();
            let mut path = dir.to_owned();
            let mut ready = true;
            if n > 0 {
                let end = dir.get_char(n - 1);
                ready = end == '/' || end == '\\';
            }
            if n == 2 {
                let drive = dir.get_char(0);
                let lower = 'a' <= drive && drive <= 'z';
                let upper = 'A' <= drive && drive <= 'Z';
                if (lower || upper) && dir.get_char(1) == ':' {
                    ready = true;
                }
            }
            if !ready {
                path.push('\\');
            }
            path.push_str(name);
            path
        },
    }
}

/// A name of a file in a directory, and not of the directory itself, the one above
/// it or a file elsewhere.
pub open spec fn is_plain(name: Seq<char>) -> bool {
    &&& name.len() > 0
    &&& name != "."@
    &&& name != ".."@
    &&& !name.contains('/')
}

/// The path names a file in the directory itself.
pub open spec fn lies_in(dir: Seq<char>, path: Seq<char>) -> bool {
    exists|name: Seq<char>| #[trigger] is_plain(name) && path == joined(dir, name)
}

/// Tests whether a name is one of a file in a directory.
pub fn is_plain_name(name: &str) -> (b: bool)
    ensures
        b == is_plain(name@),
{
    let n: usize = name.unicode_len();
    if n == 0 || text::same_text(name, ".") || text::same_text(name, "..") {
        return false;
    }
    let mut i: usize = 0;
    while i < n
        invariant
            i <= n,
            n == name@.len(),
            forall|j: int| 0 <= j < i ==> name@[j] != '/',
        decreases n - i,
    {
        if name.get_char(i) == '/' {
            assert(name@[i as int] == '/');
            return false;
        }
        i = i + 1;
    }
    true
}

/// A file in a directory has the path of the directory in front of its own, and
/// nothing but its name behind it.
pub proof fn law_file_in_directory(dir: Seq<char>, path: Seq<char>)
    requires
        lies_in(dir, path),
    ensures
        dir.is_prefix_of(path),
        forall|i: int| dir.len() < i < path.len() ==> path[i] != '/',
        path.len() > dir.len(),
{
    let name = choose|name: Seq<char>| #[trigger] is_plain(name) && path == joined(dir, name);
    assert(!name.contains('/'));
    assert(name[0] != '/');
    assert(path == joined(dir, name));
    assert forall|i: int| dir.len() < i < path.len() implies path[i] != '/' by {
        if dir.len() == 0 {
            assert(path[i] == name[i]);
        } else if dir.last() == '/' {
            assert(path[i] == name[i - dir.len()]);
        } else {
            assert(path[i] == name[i - dir.len() - 1]);
        }
    }
}

/// A name in a directory is written behind it, with one separator between them.
pub proof fn law_name_in_directory(dir: Seq<char>, name: Seq<char>)
    requires
        dir.len() > 0,
        name.len() > 0,
        name[0] != '/',
    ensures
        dir.last() != '/' ==> joined(dir, name) == dir + seq!['/'] + name,
        dir.last() == '/' ==> joined(dir, name) == dir + name,
        named_in(Platform::Unix, dir, name) == joined(dir, name),
{
    assert(dir.push('/') + name =~= dir + seq!['/'] + name);
}

/// On Windows the separator is a backslash, and none is written behind a separator of
/// either kind or a drive.
pub proof fn law_name_in_windows_directory(dir: Seq<char>, name: Seq<char>)
    requires
        dir.len() > 2,
    ensures
        dir.last() != '/' && dir.last() != '\\' ==> named_in(Platform::Windows, dir, name) == dir
            + seq!['\\'] + name,
        dir.last() == '/' || dir.last() == '\\' ==> named_in(Platform::Windows, dir, name) == dir
            + name,
        named_in(Platform::Windows, seq!['C', ':'], name) == seq!['C', ':'] + name,
        named_in(Platform::Windows, Seq::empty(), name) == name,
{
    assert(dir.push('\\') + name =~= dir + seq!['\\'] + name);
    assert(Seq::<char>::empty() + name =~= name);
}

/// A plain name leads to no other directory.
pub proof fn law_plain_names(name: Seq<char>)
    ensures
        is_plain(name) ==> !name.contains('/') && name.len() > 0,
        !is_plain("."@) && !is_plain(".."@) && !is_plain(Seq::empty()),
        name.contains('/') ==> !is_plain(name),
        name.len() > 2 && !name.contains('/') ==> is_plain(name),
{
    reveal_strlit(".");
    reveal_strlit("..");
}

} // verus!
