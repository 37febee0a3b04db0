//! Paths as text: joining, and what the file system says of them.

use vstd::prelude::*;

verus! {

/// The final component of the path `path`, if it has one: what
/// `std::path::Path::file_name` gives.
pub uninterp spec fn file_name_of(path: Seq<char>) -> Option<Seq<char>>;

/// Whether `child` is `parent` with something added behind it.
pub open spec fn extends(child: Seq<char>, parent: Seq<char>) -> bool {
    child.len() > parent.len() && child.subrange(0, parent.len() as int) == parent
}

/// The path `rel` taken from the directory `base`: `rel` itself where it is
/// absolute, else `base` and `rel` with one separator between them.
pub open spec fn joined(base: Seq<char>, rel: Seq<char>) -> Seq<char> {
    if rel.len() > 0 && rel[0] == '/' {
        rel
    } else if base.len() == 0 || base.last() == '/' {
        base + rel
    } else {
        base + seq!['/'] + rel
    }
}

/// `std::path::Path::file_name`: the final component of the path, which is
/// nothing where the path ends in `..` or is the root.
#[verifier::external_body]
pub(crate) fn file_name(path: &str) -> (name: Option<String>)
    ensures
        match name {
            Some(name) => file_name_of(path@) == Some(name@),
            None => file_name_of(path@) is None,
        },
{
    std::path::Path::new(path).file_name().map(|name| name.to_string_lossy().into_owned())
}

/// `std::path::Path::exists`: whether the path points at something on disk
/// at the time of the call. Nothing is claimed of the answer.
#[verifier::external_body]
pub(crate) fn path_exists(path: &str) -> (found: bool) {
    std::path::Path::new(path).exists()
}

/// `std::path::Path::is_dir`: whether the path points at a directory on disk
/// at the time of the call. Nothing is claimed of the answer.
#[verifier::external_body]
pub(crate) fn path_is_dir(path: &str) -> (found: bool) {
    std::path::Path::new(path).is_dir()
}

/// `std::path::Path::read_dir`: the paths of the entries of the directory,
/// each as text, or nothing in the place of one that is not Unicode; no
/// entries where the directory cannot be read. Each path is that of the
/// directory joined with the entry's name, so it extends the directory's.
#[verifier::external_body]
pub(crate) fn read_dir(path: &str) -> (entries: Vec<Option<String>>)
    ensures
        forall|i: int|
            0 <= i < entries.len() ==> (#[trigger] entries[i] matches Some(entry) ==> extends(
                entry@,
                path@,
            )),
{
    match std::path::Path::new(path).read_dir() {
        Ok(entries) => entries.flatten().map(
            |entry| entry.path().into_os_string().into_string().ok(),
        ).collect(),
        Err(_) => Vec::new(),
    }
}

/// Whether `text` begins with `prefix`.
pub fn starts_with(text: &Vec<char>, prefix: &str) -> (b: bool)
    ensures
        b == (text@.len() >= prefix@.len() && text@.subrange(0, prefix@.len() as int)
            == prefix@),
{
    let n = prefix.unicode_len();
    if text.len() < n {
        return false;
    }
    let mut i: usize = 0;
    while i < n
        invariant
            i <= n == prefix@.len() <= text.len(),
            forall|k: int| 0 <= k < i ==> text@[k] == prefix@[k],
        decreases n - i,
    {
        if text[i] != prefix.get_char(i) {
            assert(text@.subrange(0, n as int)[i as int] != prefix@[i as int]);
            return false;
        }
        i = i + 1;
    }
    assert(text@.subrange(0, n as int) =~= prefix@);
    true
}

/// The path `rel` taken from the directory `base`.
pub fn join(base: &str, rel: &str) -> (path: String)
    ensures
        path@ == joined(base@, rel@),
{
    let base_chars = crate::text::chars_of(base);
    let rel_chars = crate::text::chars_of(rel);
    if rel_chars.len() > 0 && rel_chars[0] == '/' {
        String::from_str(rel)
    } else if base_chars.len() == 0 || base_chars[base_chars.len() - 1] == '/' {
        String::from_str(base).concat(rel)
    } else {
        proof {
            reveal_strlit("/");
            assert("/"@ =~= seq!['/']);
        }
        String::from_str(base).concat("/").concat(rel)
    }
}

/// A path joined to a directory lies under it, unless it is absolute or empty.
pub proof fn lemma_joined_extends(base: Seq<char>, rel: Seq<char>)
    requires
        rel.len() > 0,
        rel[0] != '/',
    ensures
        extends(joined(base, rel), base),
{
    assert(joined(base, rel).subrange(0, base.len() as int) =~= base);
}

/// What extends an extension of a path extends the path.
pub proof fn lemma_extends_transitive(a: Seq<char>, b: Seq<char>, c: Seq<char>)
    requires
        extends(a, b),
        extends(b, c),
    ensures
        extends(a, c),
{
    assert(a.subrange(0, c.len() as int) =~= a.subrange(0, b.len() as int).subrange(
        0,
        c.len() as int,
    ));
}

} // verus!
