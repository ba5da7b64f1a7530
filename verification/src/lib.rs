//! Locating and loading per-user configuration files without performing any
//! I/O: the library decides, its driver touches the filesystem.
//!
//! A configuration lives at `<root>/<namespace>/<name>.<extension>`, where
//! `root` is the per-user configuration directory of the platform and the
//! extension is one of `toml`, `json` and `yml`, looked for in that order.
//! [`load`] and [`load_or_default`] start an operation and hand back its
//! first [`Step`]; see [`step`] for how a driver carries it to its end, and
//! [`world`] for what the operation as a whole then gives.

pub mod error;
pub mod format;
pub mod laws;
pub mod locate;
pub mod model;
pub mod platform;
pub mod step;
pub mod world;

pub use crate::error::{Error, FormatError};
pub use crate::format::Format;
pub use crate::locate::ConfigFile;
pub use crate::step::{CreateDir, Probe, Step, Write};

use crate::locate::root_text;
use crate::model::begin;
use crate::platform::config_dir;
use crate::step::find_config_file;
use std::path::PathBuf;
use vstd::prelude::*;

verus! {

/// Starts the loading of configuration `name` of `namespace` when the
/// platform gave `root` as its configuration directory.
///
/// Without a root the operation is over at once, with
/// `UnknownConfigDirectory`. With one, it turns to the first candidate.
pub fn load_in<'a, T>(root: Option<PathBuf>, namespace: &'a str, name: &'a str) -> (step: Step<'a, T>)
    ensures
        step@ == begin::<T>(root_text(root), namespace@, name@, None),
{
    find_config_file(root, namespace, name, None)
}

/// Starts the loading of configuration `name` of `namespace` when the
/// platform gave `root` as its configuration directory; where no file
/// exists, `default` is written and returned.
pub fn load_or_default_in<'a, T>(
    root: Option<PathBuf>,
    namespace: &'a str,
    name: &'a str,
    default: T,
) -> (step: Step<'a, T>)
    ensures
        step@ == begin(root_text(root), namespace@, name@, Some(default)),
{
    find_config_file(root, namespace, name, Some(default))
}

/// Starts the loading of configuration `name` of `namespace` in the
/// configuration directory of the platform, whichever that is.
pub fn load<'a, T>(namespace: &'a str, name: &'a str) -> (step: Step<'a, T>)
    ensures
        exists|root: Option<Seq<u8>>|
            step@ == #[trigger] begin::<T>(root, namespace@, name@, None),
{
    load_in(config_dir(), namespace, name)
}

/// Starts the loading of configuration `name` of `namespace` in the
/// configuration directory of the platform, whichever that is; where no
/// file exists, `default` is written and returned.
pub fn load_or_default<'a, T>(namespace: &'a str, name: &'a str, default: T) -> (step: Step<'a, T>)
    ensures
        exists|root: Option<Seq<u8>>|
            step@ == #[trigger] begin(root, namespace@, name@, Some(default)),
{
    load_or_default_in(config_dir(), namespace, name, default)
}

} // verus!
