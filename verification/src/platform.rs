//! Everything this library takes on trust from the platform: the types it
//! carries through without looking inside, and the few calls it makes into
//! `std::path` and the `dirs` crate. Nothing here is proved; each contract
//! restates what the called function documents.

use std::path::PathBuf;
use vstd::prelude::*;

verus! {

/// `std::path::PathBuf`, carried through opaquely.
#[verifier::external_type_specification]
#[verifier::external_body]
pub struct ExPathBuf(std::path::PathBuf);

/// `std::io::Error`, carried through opaquely as the cause of a failure.
#[verifier::external_type_specification]
#[verifier::external_body]
pub struct ExIoError(std::io::Error);

/// What a path holds: its text, byte for byte, in the encoding of the
/// platform the crate is built for.
pub uninterp spec fn path_text(path: PathBuf) -> Seq<u8>;

/// The text of the path that `Path::join` builds from a path with the text
/// `base` and from `part`.
pub uninterp spec fn joined(base: Seq<u8>, part: Seq<char>) -> Seq<u8>;

/// The text of the path that `Path::with_extension` builds from a path
/// with the text `path` and from `extension`.
pub uninterp spec fn with_extension(path: Seq<u8>, extension: Seq<char>) -> Seq<u8>;

/// True when `extension` holds no path separator of any platform.
pub open spec fn separator_free(extension: Seq<char>) -> bool {
    forall|i: int| 0 <= i < extension.len() ==> extension[i] != '/' && extension[i] != '\\'
}

/// Calls `dirs::config_dir`. The answer depends on who runs the process and
/// on how it was started, so nothing is claimed of it.
#[verifier::external_body]
pub(crate) fn config_dir() -> (root: Option<PathBuf>) {
    dirs::config_dir()
}

/// Calls `Path::join`, which adjoins `part` to `base` and returns the result
/// as a new path. The text of the result is a function of the text of
/// `base` and of `part`.
#[verifier::external_body]
pub(crate) fn join(base: &PathBuf, part: &str) -> (path: PathBuf)
    ensures
        path_text(path) == joined(path_text(*base), part@),
{
    base.join(part)
}

/// Calls `Path::with_extension`, which returns a copy of `path` with its
/// extension set to `extension`. The text of the result is a function of
/// the text of `path` and of `extension`. The call panics on an extension
/// that holds a path separator, so those are left out.
#[verifier::external_body]
pub(crate) fn set_extension(path: &PathBuf, extension: &str) -> (changed: PathBuf)
    requires
        separator_free(extension@),
    ensures
        path_text(changed) == with_extension(path_text(*path), extension@),
{
    path.with_extension(extension)
}

} // verus!
