//! Where a configuration lives: `<root>/<namespace>/<name>.<extension>`, one
//! candidate per format, the first existing one in lookup order winning.
//!
//! In contracts a path stands for its text, a `Seq<u8>`.

use crate::format::Format;
use crate::platform::{join, joined, path_text, set_extension, with_extension};
use std::path::PathBuf;
use vstd::prelude::*;

verus! {

/// A configuration file together with the format its extension announces.
#[derive(Debug)]
pub struct ConfigFile {
    pub path: PathBuf,
    pub format: Format,
}

/// A [`ConfigFile`] as contracts see it.
pub struct ConfigFileView {
    pub path: Seq<u8>,
    pub format: Format,
}

impl View for ConfigFile {
    type V = ConfigFileView;

    open spec fn view(&self) -> ConfigFileView {
        ConfigFileView { path: path_text(self.path), format: self.format }
    }
}

/// The text of an optional path.
pub open spec fn root_text(root: Option<PathBuf>) -> Option<Seq<u8>> {
    match root {
        Some(root) => Some(path_text(root)),
        None => None,
    }
}

/// The directory that holds the configurations of `namespace` under `root`.
pub open spec fn namespace_dir(root: Seq<u8>, namespace: Seq<char>) -> Seq<u8> {
    joined(root, namespace)
}

/// The file that holds configuration `name` of `namespace` under `root`
/// when it is written in `format`.
pub open spec fn candidate(
    root: Seq<u8>,
    namespace: Seq<char>,
    name: Seq<char>,
    format: Format,
) -> Seq<u8> {
    with_extension(joined(namespace_dir(root, namespace), name), format.extension_spec())
}

/// The first candidate at or after `from` in lookup order that is among the
/// `present` files, if there is one.
pub open spec fn located_from(
    root: Seq<u8>,
    namespace: Seq<char>,
    name: Seq<char>,
    present: Set<Seq<u8>>,
    from: Format,
) -> Option<ConfigFileView>
    decreases 2 - from.rank(),
{
    let path = candidate(root, namespace, name, from);
    if present.contains(path) {
        Some(ConfigFileView { path, format: from })
    } else {
        match from.successor_spec() {
            Some(next) => located_from(root, namespace, name, present, next),
            None => None,
        }
    }
}

/// The configuration file that a lookup settles on when exactly the
/// `present` files exist: the first existing candidate in lookup order.
pub open spec fn located(
    root: Seq<u8>,
    namespace: Seq<char>,
    name: Seq<char>,
    present: Set<Seq<u8>>,
) -> Option<ConfigFileView> {
    located_from(root, namespace, name, present, Format::first())
}

/// Builds the directory of `namespace` under `root`.
pub fn namespace_dir_path(root: &PathBuf, namespace: &str) -> (dir: PathBuf)
    ensures
        path_text(dir) == namespace_dir(path_text(*root), namespace@),
{
    join(root, namespace)
}

/// Builds the path of configuration `name` of `namespace` under `root` for
/// `format`.
pub fn candidate_path(
    root: &PathBuf,
    namespace: &str,
    name: &str,
    format: Format,
) -> (path: PathBuf)
    ensures
        path_text(path) == candidate(path_text(*root), namespace@, name@, format),
{
    let dir = namespace_dir_path(root, namespace);
    let stem = join(&dir, name);
    set_extension(&stem, format.extension())
}

} // verus!
