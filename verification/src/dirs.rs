//! The directories of the XDG base directory specification, as the `xdg`
//! crate finds them in the environment, and the paths it hands out, as text.

use vstd::prelude::*;

verus! {

/// `xdg::BaseDirectories`, the directories found in the environment:
/// carried, never looked into.
#[verifier::external_type_specification]
#[verifier::external_body]
pub struct ExBaseDirectories(xdg::BaseDirectories);

/// `xdg::BaseDirectories::with_prefix`: the base directories, with `prefix`
/// put before every path looked up. What it returns depends on the
/// environment; nothing is claimed of it.
#[verifier::external_body]
pub(crate) fn with_prefix(prefix: &str) -> (dirs: Option<xdg::BaseDirectories>) {
    xdg::BaseDirectories::with_prefix(prefix).ok()
}

/// `xdg::BaseDirectories::new`: the base directories without a prefix. What
/// it returns depends on the environment; nothing is claimed of it.
#[verifier::external_body]
pub(crate) fn without_prefix() -> (dirs: Option<xdg::BaseDirectories>) {
    xdg::BaseDirectories::new().ok()
}

/// `xdg::BaseDirectories::place_runtime_file`: the path for a runtime file,
/// with its leading directories created; nothing where there is no usable
/// runtime directory, the directories cannot be made, or the path is not
/// Unicode. Nothing is claimed of the path.
#[verifier::external_body]
pub(crate) fn place_runtime_file(dirs: &xdg::BaseDirectories, name: &str) -> (path: Option<String>) {
    dirs.place_runtime_file(name).ok().and_then(|path| path.into_os_string().into_string().ok())
}

/// `xdg::BaseDirectories::list_runtime_files`: the paths of the entries of
/// the directory `path` under the runtime directory, each as text, or nothing
/// in the place of one that is not Unicode. Nothing is claimed of them.
#[verifier::external_body]
pub(crate) fn list_runtime_files(dirs: &xdg::BaseDirectories, path: &str) -> (files: Vec<Option<String>>) {
    dirs.list_runtime_files(path).into_iter().map(|file| file.into_os_string().into_string().ok()).collect()
}

/// `xdg::BaseDirectories::get_data_dirs`: the supplementary data
/// directories, most preferred first, each as text, or nothing in the place
/// of one that is not Unicode. Nothing is claimed of them.
#[verifier::external_body]
pub(crate) fn data_dirs(dirs: &xdg::BaseDirectories) -> (paths: Vec<Option<String>>) {
    dirs.get_data_dirs().into_iter().map(|dir| dir.into_os_string().into_string().ok()).collect()
}

/// `xdg::BaseDirectories::get_data_home`: the user's data directory, as
/// text, or nothing if it is not Unicode. Nothing is claimed of it.
#[verifier::external_body]
pub(crate) fn data_home(dirs: &xdg::BaseDirectories) -> (path: Option<String>) {
    dirs.get_data_home().into_os_string().into_string().ok()
}

} // verus!
