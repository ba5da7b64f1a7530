//! The two operations as contracts see them: a short chain of steps, each
//! a plain value, each but the last naming one thing that has to be done
//! outside and saying, for every outcome of it, which step follows.
//!
//! Paths stand for their text, strings for their characters; what the
//! filesystem and the format library report is kept as it is.

use crate::error::{Error, FormatError};
use crate::format::Format;
use crate::locate::{candidate, namespace_dir, ConfigFileView};
use vstd::prelude::*;

verus! {

/// What reading a configuration file gave: the file could not be opened, or
/// its content could not be understood, or the value it holds.
pub type ReadOutcome<T> = Result<Result<T, FormatError>, std::io::Error>;

/// What writing a configuration file gave: the file could not be created, or
/// the value could not be put in the format, or nothing went wrong.
pub type WriteOutcome = Result<Result<(), FormatError>, std::io::Error>;

/// What creating a directory gave.
pub type CreateDirOutcome = Result<(), std::io::Error>;

/// The lookup is at the candidate of `format` and waits to hear whether
/// that file exists. `fallback` is the default configuration of the
/// operation, if it has one.
pub struct ProbeView<T> {
    pub root: Seq<u8>,
    pub namespace: Seq<char>,
    pub name: Seq<char>,
    pub format: Format,
    pub fallback: Option<T>,
}

/// No configuration exists: the operation waits for the directory `dir` to
/// be created, with all its parents, before it writes `default` to `file`.
pub struct CreateDirView<T> {
    pub dir: Seq<u8>,
    pub file: Seq<u8>,
    pub default: T,
}

/// The operation waits for `value` to be written, in `format`, to a newly
/// created file at `path`.
pub struct WriteView<T> {
    pub path: Seq<u8>,
    pub format: Format,
    pub value: T,
}

/// Where an operation stands.
pub enum StepView<T> {
    Probe(ProbeView<T>),
    Read(ConfigFileView),
    CreateDir(CreateDirView<T>),
    Write(WriteView<T>),
    Done(Result<T, Error>),
}

/// The format in which a default configuration is written.
pub open spec fn default_format() -> Format {
    Format::TOML
}

/// What the caller of an operation gets once a file was found and
/// `outcome` came of reading it.
pub open spec fn deser_spec<T>(outcome: ReadOutcome<T>) -> Result<T, Error> {
    match outcome {
        Err(source) => Err(Error::FailedToOpenConfigFile { source }),
        Ok(Err(source)) => Err(Error::FailedToDeserializeConfigFile { source }),
        Ok(Ok(value)) => Ok(value),
    }
}

/// The first step of an operation on configuration `name` of `namespace`
/// when the platform gave `root` as its configuration directory. `fallback`
/// is the default configuration, which only `load_or_default` has.
pub open spec fn begin<T>(
    root: Option<Seq<u8>>,
    namespace: Seq<char>,
    name: Seq<char>,
    fallback: Option<T>,
) -> StepView<T> {
    match root {
        None => StepView::Done(Err(Error::UnknownConfigDirectory)),
        Some(root) => StepView::Probe(
            ProbeView { root, namespace, name, format: Format::first(), fallback },
        ),
    }
}

/// The step that writes a default configuration once no file was found and
/// the platform, asked again, gave `root` as its configuration directory.
pub open spec fn begin_default<T>(
    root: Option<Seq<u8>>,
    namespace: Seq<char>,
    name: Seq<char>,
    default: T,
) -> StepView<T> {
    match root {
        None => StepView::Done(Err(Error::UnknownConfigDirectory)),
        Some(root) => StepView::CreateDir(
            CreateDirView {
                dir: namespace_dir(root, namespace),
                file: candidate(root, namespace, name, default_format()),
                default,
            },
        ),
    }
}

impl<T> ProbeView<T> {
    /// The file whose existence is in question.
    pub open spec fn path(self) -> Seq<u8> {
        candidate(self.root, self.namespace, self.name, self.format)
    }

    /// True when the finding `exists` sends the operation back to the
    /// platform for its configuration directory: the file is missing, the
    /// lookup is at its last candidate, and there is a default to write.
    pub open spec fn asks_root_again(self, exists: bool) -> bool {
        !exists && self.format.successor_spec() is None && self.fallback is Some
    }

    /// The step that follows once it is known whether the file `exists`.
    /// `root_again` is what the platform gives as its configuration
    /// directory when it is asked a second time; it matters only where
    /// `asks_root_again` holds.
    pub open spec fn next(self, exists: bool, root_again: Option<Seq<u8>>) -> StepView<T> {
        if exists {
            StepView::Read(ConfigFileView { path: self.path(), format: self.format })
        } else {
            match self.format.successor_spec() {
                Some(format) => StepView::Probe(ProbeView { format, ..self }),
                None => match self.fallback {
                    None => StepView::Done(Err(Error::FailedToFindConfigFile)),
                    Some(default) => begin_default(root_again, self.namespace, self.name, default),
                },
            }
        }
    }
}

impl ConfigFileView {
    /// The last step: what the caller gets once `outcome` came of reading
    /// this file.
    pub open spec fn next<T>(self, outcome: ReadOutcome<T>) -> StepView<T> {
        StepView::Done(deser_spec(outcome))
    }
}

impl<T> CreateDirView<T> {
    /// The step that follows once `outcome` came of creating the directory:
    /// the failure, or the writing of the default.
    pub open spec fn next(self, outcome: CreateDirOutcome) -> StepView<T> {
        match outcome {
            Err(source) => StepView::Done(Err(Error::FailedToCreateConfigDir { source })),
            Ok(_) => StepView::Write(
                WriteView { path: self.file, format: default_format(), value: self.default },
            ),
        }
    }
}

impl<T> WriteView<T> {
    /// The last step: the failure that stopped the writing, or the value
    /// that was written, which the caller gets back.
    pub open spec fn next(self, outcome: WriteOutcome) -> StepView<T> {
        match outcome {
            Err(source) => StepView::Done(
                Err(Error::FailedToCreateDefaultConfigFile { source }),
            ),
            Ok(Err(source)) => StepView::Done(
                Err(Error::FailedToSerializeDefaultConfig { source }),
            ),
            Ok(Ok(_)) => StepView::Done(Ok(self.value)),
        }
    }
}

} // verus!
