//! The two operations as machines that never touch the outside world.
//!
//! An operation is a short chain of [`Step`]s. Each step but the last names
//! one thing the driver has to do (see whether a file exists, read a file,
//! create a directory, write a file); the driver does it and hands the
//! outcome to the step's `answer`, which yields the next step. The last
//! step, [`Step::Done`], carries what the operation returns.

use crate::error::Error;
use crate::format::Format;
use crate::locate::{candidate_path, namespace_dir_path, root_text, ConfigFile};
use crate::model::{
    begin, begin_default, deser_spec, CreateDirOutcome, CreateDirView, ProbeView, ReadOutcome,
    StepView, WriteOutcome, WriteView,
};
use crate::platform::{config_dir, path_text};
use std::path::PathBuf;
use vstd::prelude::*;

verus! {

/// The lookup is at the candidate of `format` and waits to hear whether
/// that file exists. `fallback` is the default configuration of the
/// operation, if it has one.
#[derive(Debug)]
pub struct Probe<'a, T> {
    pub root: PathBuf,
    pub namespace: &'a str,
    pub name: &'a str,
    pub format: Format,
    pub fallback: Option<T>,
}

/// No configuration exists: the operation waits for the directory `dir` to
/// be created, with all its parents, before it writes `default` to `file`.
#[derive(Debug)]
pub struct CreateDir<T> {
    pub dir: PathBuf,
    pub file: PathBuf,
    pub default: T,
}

/// The operation waits for `value` to be written, in `format`, to a newly
/// created file at `path`.
#[derive(Debug)]
pub struct Write<T> {
    pub path: PathBuf,
    pub format: Format,
    pub value: T,
}

/// Where an operation stands.
#[derive(Debug)]
pub enum Step<'a, T> {
    /// Does the file at `path()` exist?
    Probe(Probe<'a, T>),
    /// Open the file and read a configuration from it, in the file's format.
    Read(ConfigFile),
    /// Create the directory and its missing parents.
    CreateDir(CreateDir<T>),
    /// Create the file and write the value to it.
    Write(Write<T>),
    /// The operation is over and returns this.
    Done(Result<T, Error>),
}

impl<'a, T> View for Probe<'a, T> {
    type V = ProbeView<T>;

    open spec fn view(&self) -> ProbeView<T> {
        ProbeView {
            root: path_text(self.root),
            namespace: self.namespace@,
            name: self.name@,
            format: self.format,
            fallback: self.fallback,
        }
    }
}

impl<T> View for CreateDir<T> {
    type V = CreateDirView<T>;

    open spec fn view(&self) -> CreateDirView<T> {
        CreateDirView {
            dir: path_text(self.dir),
            file: path_text(self.file),
            default: self.default,
        }
    }
}

impl<T> View for Write<T> {
    type V = WriteView<T>;

    open spec fn view(&self) -> WriteView<T> {
        WriteView { path: path_text(self.path), format: self.format, value: self.value }
    }
}

impl<'a, T> View for Step<'a, T> {
    type V = StepView<T>;

    open spec fn view(&self) -> StepView<T> {
        match *self {
            Step::Probe(probe) => StepView::Probe(probe@),
            Step::Read(file) => StepView::Read(file@),
            Step::CreateDir(create) => StepView::CreateDir(create@),
            Step::Write(write) => StepView::Write(write@),
            Step::Done(result) => StepView::Done(result),
        }
    }
}

impl<'a, T> Probe<'a, T> {
    /// Builds the path of the file whose existence is in question.
    pub fn path(&self) -> (path: PathBuf)
        ensures
            path_text(path) == self@.path(),
    {
        candidate_path(&self.root, self.namespace, self.name, self.format)
    }

    /// Takes the driver's finding and, for the case that the platform has
    /// to be asked again, its answer `root_again`; yields the next step.
    pub fn answer_in(self, exists: bool, root_again: Option<PathBuf>) -> (next: Step<'a, T>)
        ensures
            next@ == self@.next(exists, root_text(root_again)),
    {
        if exists {
            let path = self.path();
            return Step::Read(ConfigFile { path, format: self.format });
        }
        let Probe { root, namespace, name, format, fallback } = self;
        match format.successor() {
            Some(format) => Step::Probe(Probe { root, namespace, name, format, fallback }),
            None => match fallback {
                None => Step::Done(Err(Error::FailedToFindConfigFile)),
                Some(default) => write_default_in(root_again, namespace, name, default),
            },
        }
    }

    /// Takes the driver's finding and yields the next step. Where the
    /// lookup has ended without a file and there is a default to write, the
    /// platform is asked for its configuration directory once more.
    pub fn answer(self, exists: bool) -> (next: Step<'a, T>)
        ensures
            !self@.asks_root_again(exists) ==> next@ == self@.next(exists, None),
            self@.asks_root_again(exists) ==> exists|root_again: Option<Seq<u8>>|
                next@ == #[trigger] self@.next(exists, root_again),
    {
        let again = !exists && self.format.successor().is_none() && self.fallback.is_some();
        let root_again = if again {
            config_dir()
        } else {
            None
        };
        self.answer_in(exists, root_again)
    }
}

impl ConfigFile {
    /// Takes what came of reading this file and ends the operation.
    pub fn answer<'a, T>(self, outcome: ReadOutcome<T>) -> (next: Step<'a, T>)
        ensures
            next@ == self@.next(outcome),
    {
        Step::Done(deser(outcome))
    }
}

impl<T> CreateDir<T> {
    /// Takes what came of creating the directory and yields the next step.
    pub fn answer<'a>(self, outcome: CreateDirOutcome) -> (next: Step<'a, T>)
        ensures
            next@ == self@.next(outcome),
    {
        match outcome {
            Err(source) => Step::Done(Err(Error::FailedToCreateConfigDir { source })),
            Ok(_) => Step::Write(
                Write { path: self.file, format: Format::TOML, value: self.default },
            ),
        }
    }
}

impl<T> Write<T> {
    /// Takes what came of writing the file and ends the operation.
    pub fn answer<'a>(self, outcome: WriteOutcome) -> (next: Step<'a, T>)
        ensures
            next@ == self@.next(outcome),
    {
        match outcome {
            Err(source) => Step::Done(Err(Error::FailedToCreateDefaultConfigFile { source })),
            Ok(Err(source)) => Step::Done(Err(Error::FailedToSerializeDefaultConfig { source })),
            Ok(Ok(_)) => Step::Done(Ok(self.value)),
        }
    }
}

/// Starts an operation in the configuration directory `root`, if the
/// platform gave one: the lookup begins at the first format. `fallback` is
/// the default configuration of the operation, if it has one.
pub fn find_config_file<'a, T>(
    root: Option<PathBuf>,
    namespace: &'a str,
    name: &'a str,
    fallback: Option<T>,
) -> (step: Step<'a, T>)
    ensures
        step@ == begin(root_text(root), namespace@, name@, fallback),
{
    match root {
        None => Step::Done(Err(Error::UnknownConfigDirectory)),
        Some(root) => Step::Probe(Probe { root, namespace, name, format: Format::TOML, fallback }),
    }
}

/// Starts the writing of `default` as configuration `name` of `namespace`
/// in the configuration directory `root`, if the platform gave one.
pub fn write_default_in<'a, T>(
    root: Option<PathBuf>,
    namespace: &'a str,
    name: &'a str,
    default: T,
) -> (step: Step<'a, T>)
    ensures
        step@ == begin_default(root_text(root), namespace@, name@, default),
{
    match root {
        None => Step::Done(Err(Error::UnknownConfigDirectory)),
        Some(root) => {
            let dir = namespace_dir_path(&root, namespace);
            let file = candidate_path(&root, namespace, name, Format::TOML);
            Step::CreateDir(CreateDir { dir, file, default })
        },
    }
}

/// Turns what came of reading a configuration file into what the caller
/// gets: the value, or the failure with its cause.
pub fn deser<T>(outcome: ReadOutcome<T>) -> (result: Result<T, Error>)
    ensures
        result == deser_spec(outcome),
{
    match outcome {
        Err(source) => Err(Error::FailedToOpenConfigFile { source }),
        Ok(Err(source)) => Err(Error::FailedToDeserializeConfigFile { source }),
        Ok(Ok(value)) => Ok(value),
    }
}

} // verus!
