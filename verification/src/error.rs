//! The ways in which loading a configuration can fail.

use vstd::prelude::*;

verus! {

/// What the format library reported when it could not read or write a
/// configuration: its message, word for word.
#[derive(Debug, PartialEq, Eq)]
pub struct FormatError {
    pub message: String,
}

/// Why an operation gave no configuration. A failure of the filesystem or of
/// the format library is kept, untouched, as the `source` of the variant that
/// names the step it stopped.
#[derive(Debug)]
#[allow(inconsistent_fields)]
pub enum Error {
    /// The platform names no per-user configuration directory.
    UnknownConfigDirectory,
    /// The namespace directory could not be created.
    FailedToCreateConfigDir { source: std::io::Error },
    /// The file for the default configuration could not be created.
    FailedToCreateDefaultConfigFile { source: std::io::Error },
    /// The default configuration could not be written in the default format.
    FailedToSerializeDefaultConfig { source: FormatError },
    /// No file of any supported extension exists.
    FailedToFindConfigFile,
    /// The file that was found could not be opened.
    FailedToOpenConfigFile { source: std::io::Error },
    /// The content of the file is not a configuration in the file's format.
    FailedToDeserializeConfigFile { source: FormatError },
}

} // verus!
