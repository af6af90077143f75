//! Unix paths as text.
use vstd::prelude::*;
use vstd::string::*;

use crate::text::chars_of;

verus! {

/// `name` seen from the directory `base`: an absolute name stands for itself,
/// any other is put behind the base, with a slash between them where the base
/// has none.
pub open spec fn path_under(base: Seq<char>, name: Seq<char>) -> Seq<char> {
    if name.len() > 0 && name[0] == '/' {
        name
    } else if base.len() == 0 || base.last() == '/' {
        base + name
    } else {
        base.push('/') + name
    }
}

/// The position behind the last `c` in `text`, or 0 where there is none.
pub open spec fn behind_last(text: Seq<char>, c: char) -> int
    decreases text.len(),
{
    if text.len() == 0 {
        0
    } else if text.last() == c {
        text.len() as int
    } else {
        behind_last(text.drop_last(), c)
    }
}

/// What `path` holds behind its last slash.
pub open spec fn file_name(path: Seq<char>) -> Seq<char> {
    path.skip(behind_last(path, '/'))
}

/// What `path` holds up to its last slash.
pub open spec fn directory(path: Seq<char>) -> Seq<char> {
    path.take(behind_last(path, '/'))
}

/// Whether `name` names a file: not empty, and neither `.` nor `..`.
pub open spec fn names_a_file(name: Seq<char>) -> bool {
    name.len() > 0 && name != seq!['.'] && name != seq!['.', '.']
}

/// A file name without its extension. A dot in front begins no extension.
pub open spec fn stem(name: Seq<char>) -> Seq<char> {
    if behind_last(name, '.') <= 1 {
        name
    } else {
        name.take(behind_last(name, '.') - 1)
    }
}

/// Whether `path` ends in the name of a file that can be given an extension: one
/// that has but a dot before its extension, such as `..a`, cannot.
pub open spec fn takes_extension(path: Seq<char>) -> bool {
    names_a_file(file_name(path)) && stem(file_name(path)) != seq!['.']
}

/// `path` with the extension of its file name replaced, or added where it has
/// none.
pub open spec fn extended(path: Seq<char>, extension: Seq<char>) -> Seq<char> {
    directory(path) + stem(file_name(path)) + seq!['.'] + extension
}

/// The result of `std::path::Path::with_extension`.
pub uninterp spec fn std_with_extension(path: Seq<char>, extension: Seq<char>) -> Seq<char>;

/// `std::path::Path::with_extension`, from text to text. The result depends on
/// the path and the extension alone. Where the path ends in a file name, that
/// name's extension is replaced by the new one, or the new one is added where
/// it has none. What it does to a path that ends in a slash, in `.` or in `..`,
/// or in a name such as `..a`, is not said here. An extension with a slash in it
/// would panic.
#[verifier::external_body]
fn with_extension(path: &str, extension: &str) -> (r: String)
    requires
        extension@.len() > 0,
        !extension@.contains('/'),
    ensures
        r@ == std_with_extension(path@, extension@),
        takes_extension(path@) ==> r@ == extended(path@, extension@),
{
    std::path::Path::new(path).with_extension(extension).to_string_lossy().into_owned()
}

/// `name` seen from the directory `base`.
pub fn join_path(base: &str, name: &str) -> (r: String)
    ensures
        r@ == path_under(base@, name@),
{
    let b = chars_of(base);
    let n = chars_of(name);
    if n.len() > 0 && n[0] == '/' {
        return String::from_str(name);
    }
    let mut r = String::from_str(base);
    if b.len() > 0 && b[b.len() - 1] != '/' {
        r.push('/');
    }
    r.append(name);
    r
}

/// The lock file that guards `target`.
pub fn lock_path(target: &str) -> (r: String)
    ensures
        r@ == std_with_extension(target@, "lock"@),
        takes_extension(target@) ==> r@ == extended(target@, "lock"@),
{
    proof {
        reveal_strlit("lock");
    }
    with_extension(target, "lock")
}

} // verus!
