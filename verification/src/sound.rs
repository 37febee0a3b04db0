//! Where the sound of a phase lies on disk: a path given outright, or the
//! name of a sound looked for in the sound directories of the XDG data
//! directories.

use crate::dirs::{data_dirs, data_home, without_prefix};
use crate::paths::{
    extends, join, joined, lemma_extends_transitive, lemma_joined_extends, path_exists,
    path_is_dir, read_dir, starts_with,
};
use crate::text::chars_of;
use vstd::prelude::*;

verus! {

/// The file extensions tried for a sound, in this order.
pub open spec fn extensions() -> Seq<Seq<char>> {
    seq!["oga"@, "ogg"@, "wav"@, "mp3"@]
}

/// How many extensions are tried.
pub const EXTENSION_COUNT: usize = 4;

/// The directory of sounds below a data directory.
pub open spec fn sounds_dir() -> Seq<char> {
    "sounds"@
}

/// The directory below a sound directory in which themes keep their sounds.
pub open spec fn category_dir() -> Seq<char> {
    "stereo"@
}

/// The file name of the sound `name` with the extension `extension`.
pub open spec fn sound_file(name: Seq<char>, extension: Seq<char>) -> Seq<char> {
    name + seq!['.'] + extension
}

/// Whether `name` is a path rather than the name of a sound: absolute, or
/// relative to the current or to the parent directory.
pub open spec fn is_explicit(name: Seq<char>) -> bool {
    ||| name.len() >= 1 && name[0] == '/'
    ||| name.len() >= 2 && name.subrange(0, 2) == "./"@
    ||| name.len() >= 3 && name.subrange(0, 3) == "../"@
}

/// Whether `path` is one of the places in the directory `dir` where the
/// sound `name` is looked for: the directory itself and its category
/// directory, with each extension.
pub open spec fn probed_in(dir: Seq<char>, name: Seq<char>, path: Seq<char>) -> bool {
    exists|k: int|
        0 <= k < extensions().len() && (path == joined(dir, sound_file(name, #[trigger] extensions()[k]))
            || path == joined(joined(dir, category_dir()), sound_file(name, extensions()[k])))
}

/// Whether `path` is one of the places at or below the directory `dir`
/// where the sound `name` is looked for.
pub open spec fn probed_under(dir: Seq<char>, name: Seq<char>, path: Seq<char>) -> bool {
    exists|at: Seq<char>| (at == dir || extends(at, dir)) && #[trigger] probed_in(at, name, path)
}

/// The `k`-th extension tried.
pub fn extension(k: usize) -> (extension: &'static str)
    requires
        k < EXTENSION_COUNT,
    ensures
        extension@ == extensions()[k as int],
{
    if k == 0 {
        "oga"
    } else if k == 1 {
        "ogg"
    } else if k == 2 {
        "wav"
    } else {
        "mp3"
    }
}

/// The file name of the sound `name` with the `k`-th extension.
pub fn sound_file_name(name: &str, k: usize) -> (file: String)
    requires
        k < EXTENSION_COUNT,
    ensures
        file@ == sound_file(name@, extensions()[k as int]),
{
    proof {
        reveal_strlit(".");
        assert("."@ =~= seq!['.']);
    }
    String::from_str(name).concat(".").concat(extension(k))
}

pub fn is_explicit_path(name: &str) -> (explicit: bool)
    ensures
        explicit == is_explicit(name@),
{
    let chars = chars_of(name);
    proof {
        reveal_strlit("/");
        reveal_strlit("./");
        reveal_strlit("../");
        if chars@.len() >= 1 {
            assert(chars@.subrange(0, 1)[0] == chars@[0]);
            if chars@[0] == '/' {
                assert(chars@.subrange(0, 1) =~= "/"@);
            }
        }
    }
    starts_with(&chars, "/") || starts_with(&chars, "./") || starts_with(&chars, "../")
}

/// The `k`-th place in the directory `dir` at which the sound `name` is
/// looked for: its file name with the `k`-th extension.
pub fn place(dir: &str, name: &str, k: usize) -> (path: String)
    requires
        k < EXTENSION_COUNT,
    ensures
        path@ == joined(dir@, sound_file(name@, extensions()[k as int])),
{
    let file = sound_file_name(name, k);
    join(dir, file.as_str())
}

/// What a look at `path` yields: the path if something is present there,
/// nothing otherwise.
pub fn taken(path: String, present: bool) -> (found: Option<String>)
    ensures
        found == (if present {
            Some(path)
        } else {
            None
        }),
{
    if present {
        Some(path)
    } else {
        None
    }
}

/// The first of the places in `dir` at which there is a file for the sound
/// `name`: the extensions are tried in order.
fn probe(dir: &str, name: &str) -> (found: Option<String>)
    ensures
        found matches Some(path) ==> exists|k: int|
            0 <= k < extensions().len() && path@ == joined(
                dir@,
                sound_file(name@, #[trigger] extensions()[k]),
            ),
{
    let mut k: usize = 0;
    while k < EXTENSION_COUNT
        invariant
            k <= EXTENSION_COUNT,
        decreases EXTENSION_COUNT - k,
    {
        let path = place(dir, name, k);
        let present = path_exists(path.as_str());
        match taken(path, present) {
            Some(path) => {
                assert(path@ == joined(dir@, sound_file(name@, extensions()[k as int])));
                return Some(path);
            },
            None => {},
        }
        k = k + 1;
    }
    None
}

/// Find a sound file in a directory, trying various extensions: in the
/// directory itself, then in its category directory, then in each of its
/// subdirectories in the same way.
fn find_sound_in_dir(dir: &str, name: &str) -> (found: Option<String>)
    requires
        dir@.len() <= usize::MAX,
    ensures
        found matches Some(path) ==> probed_under(dir@, name@, path@),
    decreases usize::MAX - dir@.len(),
{
    if !path_exists(dir) {
        return None;
    }
    match probe(dir, name) {
        Some(path) => {
            assert(probed_in(dir@, name@, path@));
            return Some(path);
        },
        None => {},
    }
    let category = join(dir, "stereo");
    match probe(category.as_str(), name) {
        Some(path) => {
            assert(probed_in(dir@, name@, path@));
            return Some(path);
        },
        None => {},
    }
    let entries = read_dir(dir);
    let mut i: usize = 0;
    while i < entries.len()
        invariant
            i <= entries.len(),
            dir@.len() <= usize::MAX,
            forall|j: int|
                0 <= j < entries.len() ==> (#[trigger] entries[j] matches Some(entry) ==> extends(
                    entry@,
                    dir@,
                )),
        decreases entries.len() - i,
    {
        match &entries[i] {
            Some(entry) => {
                if path_is_dir(entry.as_str()) {
                    let _ = entry.as_str().unicode_len();
                    match find_sound_in_dir(entry.as_str(), name) {
                        Some(path) => {
                            proof {
                                let at = choose|at: Seq<char>|
                                    (at == entry@ || extends(at, entry@)) && #[trigger] probed_in(
                                        at,
                                        name@,
                                        path@,
                                    );
                                if at != entry@ {
                                    lemma_extends_transitive(at, entry@, dir@);
                                }
                                assert(probed_in(at, name@, path@));
                            }
                            return Some(path);
                        },
                        None => {},
                    }
                }
            },
            None => {},
        }
        i = i + 1;
    }
    None
}

/// Look in the sound directory of the data directory `data_dir`.
fn find_sound_in_data_dir(data_dir: &str, name: &str) -> (found: Option<String>)
    ensures
        found matches Some(path) ==> probed_under(joined(data_dir@, sounds_dir()), name@, path@),
{
    let sounds = join(data_dir, "sounds");
    let _ = sounds.as_str().unicode_len();
    find_sound_in_dir(sounds.as_str(), name)
}

/// Search for a sound in XDG data directories: the supplementary data
/// directories in their order of preference, then the user's own.
pub fn resolve_sound_in_xdg(name: &str) -> (found: Option<String>)
    ensures
        found matches Some(path) ==> exists|data_dir: Seq<char>| #[trigger]
            probed_under(joined(data_dir, sounds_dir()), name@, path@),
{
    let dirs = match without_prefix() {
        Some(dirs) => dirs,
        None => {
            return None;
        },
    };
    let shared = data_dirs(&dirs);
    let mut i: usize = 0;
    while i < shared.len()
        invariant
            i <= shared.len(),
        decreases shared.len() - i,
    {
        match &shared[i] {
            Some(data_dir) => match find_sound_in_data_dir(data_dir.as_str(), name) {
                Some(path) => {
                    return Some(path);
                },
                None => {},
            },
            None => {},
        }
        i = i + 1;
    }
    match data_home(&dirs) {
        Some(home) => find_sound_in_data_dir(home.as_str(), name),
        None => None,
    }
}

/// Resolve a sound name to a full path
///
/// Accepts:
/// - Absolute paths: `/path/to/sound.ogg`
/// - Relative paths: `./sounds/bell.wav`
/// - Sound theme names: `alarm-clock-elapsed` (searches XDG sound dirs)
///
/// An empty name resolves to nothing. A path resolves to itself if something
/// exists there and to nothing otherwise. A sound name resolves to the first
/// file found for it, which lies at one of the places looked at.
pub fn resolve_sound(name: &str) -> (found: Option<String>)
    ensures
        name@.len() == 0 ==> found is None,
        is_explicit(name@) ==> (found matches Some(path) ==> path@ == name@),
        !is_explicit(name@) ==> (found matches Some(path) ==> exists|data_dir: Seq<char>| #[trigger]
            probed_under(joined(data_dir, sounds_dir()), name@, path@)),
{
    if name.is_empty() {
        return None;
    }
    if is_explicit_path(name) {
        return taken(String::from_str(name), path_exists(name));
    }
    resolve_sound_in_xdg(name)
}

/// Every place at or below a directory where a sound is looked for lies
/// below that directory, if the sound's name is no absolute path.
pub proof fn lemma_probed_lies_below(dir: Seq<char>, name: Seq<char>, path: Seq<char>)
    requires
        probed_under(dir, name, path),
        name.len() > 0,
        name[0] != '/',
    ensures
        extends(path, dir),
{
    reveal_strlit("stereo");
    let at = choose|at: Seq<char>|
        (at == dir || extends(at, dir)) && #[trigger] probed_in(at, name, path);
    let k = choose|k: int|
        0 <= k < extensions().len() && (path == joined(at, sound_file(name, #[trigger] extensions()[k]))
            || path == joined(joined(at, category_dir()), sound_file(name, extensions()[k])));
    let file = sound_file(name, extensions()[k]);
    assert(file[0] == name[0]);
    lemma_joined_extends(at, file);
    lemma_joined_extends(at, category_dir());
    lemma_joined_extends(joined(at, category_dir()), file);
    if path != joined(at, file) {
        lemma_extends_transitive(path, joined(at, category_dir()), at);
    }
    if at != dir {
        lemma_extends_transitive(path, at, dir);
    }
}

} // verus!
