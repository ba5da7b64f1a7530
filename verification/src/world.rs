//! What an operation gives as a whole, once a driver has carried it from
//! its first step to its last.
//!
//! The outside is a [`World`]: what the platform names as its configuration
//! directory, which files exist, and what comes of each thing a step can
//! ask for. [`run`] carries a step through a world; [`load_run`] and
//! [`load_or_default_run`] say outright what the two operations ask for and
//! return in a world, and the two theorems at the end show that running the
//! steps gives exactly that.

use crate::error::Error;
use crate::format::Format;
use crate::locate::{candidate, located, located_from, namespace_dir, ConfigFileView};
use crate::model::{
    begin, default_format, deser_spec, CreateDirOutcome, ProbeView, ReadOutcome, StepView,
    WriteOutcome,
};
use vstd::prelude::*;

verus! {

/// The outside as one operation meets it.
#[verifier::reject_recursive_types(T)]
pub struct World<T> {
    /// The configuration directory that the platform names when the
    /// operation starts.
    pub root: Option<Seq<u8>>,
    /// The one it names when it is asked again, before a default is
    /// written.
    pub root_again: Option<Seq<u8>>,
    /// The files that exist.
    pub present: Set<Seq<u8>>,
    /// What comes of reading a file in a format.
    pub read: spec_fn(Seq<u8>, Format) -> ReadOutcome<T>,
    /// What comes of creating a directory.
    pub create_dir: spec_fn(Seq<u8>) -> CreateDirOutcome,
    /// What comes of writing a value to a new file in a format.
    pub write: spec_fn(Seq<u8>, Format, T) -> WriteOutcome,
}

impl<T> World<T> {
    /// The world that a successful writing of `value` to `path` in `format`
    /// leaves behind: the file exists and reads back, in that format, as
    /// the value that was written, and the platform names the
    /// configuration directory that it named last.
    pub open spec fn once_written(self, path: Seq<u8>, format: Format, value: T) -> World<T> {
        World {
            root: self.root_again,
            root_again: self.root_again,
            present: self.present.insert(path),
            read: |at: Seq<u8>, as_format: Format|
                if at == path && as_format == format {
                    Ok(Ok(value))
                } else {
                    (self.read)(at, as_format)
                },
            create_dir: self.create_dir,
            write: self.write,
        }
    }
}

/// One thing an operation asks of its driver.
pub enum Request<T> {
    /// Does this file exist?
    Probe(Seq<u8>),
    /// Read a configuration from this file, in this format.
    Read(Seq<u8>, Format),
    /// Create this directory and its missing parents.
    CreateDir(Seq<u8>),
    /// Create this file and write this value to it, in this format.
    Write(Seq<u8>, Format, T),
}

impl<T> Request<T> {
    /// True of a request that leaves the filesystem as it is.
    pub open spec fn changes_nothing(self) -> bool {
        self is Probe || self is Read
    }
}

/// An operation from start to end: what it asked for, in order, and what
/// it returned.
pub struct Run<T> {
    pub requests: Seq<Request<T>>,
    pub result: Result<T, Error>,
}

impl<T> StepView<T> {
    /// A bound on the number of steps that can still follow.
    pub open spec fn remaining(self) -> nat {
        match self {
            StepView::Probe(probe) => (5 - probe.format.rank()) as nat,
            StepView::CreateDir(_) => 2,
            StepView::Read(_) => 1,
            StepView::Write(_) => 1,
            StepView::Done(_) => 0,
        }
    }

    /// What the step asks of the driver; the last step asks nothing.
    pub open spec fn request(self) -> Option<Request<T>> {
        match self {
            StepView::Probe(probe) => Some(Request::Probe(probe.path())),
            StepView::Read(file) => Some(Request::Read(file.path, file.format)),
            StepView::CreateDir(create) => Some(Request::CreateDir(create.dir)),
            StepView::Write(write) => Some(Request::Write(write.path, write.format, write.value)),
            StepView::Done(_) => None,
        }
    }

    /// The step that follows when the driver does in `world` what this step
    /// asks for.
    pub open spec fn advance(self, world: World<T>) -> StepView<T> {
        match self {
            StepView::Probe(probe) => probe.next(
                world.present.contains(probe.path()),
                world.root_again,
            ),
            StepView::Read(file) => file.next((world.read)(file.path, file.format)),
            StepView::CreateDir(create) => create.next((world.create_dir)(create.dir)),
            StepView::Write(write) => write.next(
                (world.write)(write.path, write.format, write.value),
            ),
            StepView::Done(_) => self,
        }
    }
}

/// Carries `step` through `world` to the end of its operation.
pub open spec fn run<T>(step: StepView<T>, world: World<T>) -> Run<T>
    decreases step.remaining(),
{
    match step.request() {
        None => Run { requests: Seq::empty(), result: step->Done_0 },
        Some(request) => {
            let rest = run(step.advance(world), world);
            Run { requests: seq![request] + rest.requests, result: rest.result }
        },
    }
}

/// The probes of a lookup that starts at the candidate of `from`: one for
/// each candidate in lookup order, up to and with the first that exists.
pub open spec fn lookup_requests<T>(
    root: Seq<u8>,
    namespace: Seq<char>,
    name: Seq<char>,
    present: Set<Seq<u8>>,
    from: Format,
) -> Seq<Request<T>>
    decreases 2 - from.rank(),
{
    let path = candidate(root, namespace, name, from);
    let probe = seq![Request::Probe(path)];
    if present.contains(path) {
        probe
    } else {
        match from.successor_spec() {
            Some(next) => probe + lookup_requests(root, namespace, name, present, next),
            None => probe,
        }
    }
}

/// What is asked for and returned once a lookup has settled on `file`.
pub open spec fn read_run<T>(world: World<T>, file: ConfigFileView) -> Run<T> {
    Run {
        requests: seq![Request::Read(file.path, file.format)],
        result: deser_spec((world.read)(file.path, file.format)),
    }
}

/// What is asked for and returned when `default` is written as
/// configuration `name` of `namespace`.
pub open spec fn write_default_run<T>(
    world: World<T>,
    namespace: Seq<char>,
    name: Seq<char>,
    default: T,
) -> Run<T> {
    match world.root_again {
        None => Run { requests: Seq::empty(), result: Err(Error::UnknownConfigDirectory) },
        Some(root) => {
            let dir = namespace_dir(root, namespace);
            let file = candidate(root, namespace, name, default_format());
            let create_dir = seq![Request::CreateDir(dir)];
            let write = seq![Request::Write(file, default_format(), default)];
            match (world.create_dir)(dir) {
                Err(source) => Run {
                    requests: create_dir,
                    result: Err(Error::FailedToCreateConfigDir { source }),
                },
                Ok(_) => Run {
                    requests: create_dir + write,
                    result: match (world.write)(file, default_format(), default) {
                        Err(source) => Err(Error::FailedToCreateDefaultConfigFile { source }),
                        Ok(Err(source)) => Err(Error::FailedToSerializeDefaultConfig { source }),
                        Ok(Ok(_)) => Ok(default),
                    },
                },
            }
        },
    }
}

/// What follows a lookup that has settled on `found`: the file is read;
/// without a file the default is written, or, where there is none, the
/// operation fails.
pub open spec fn settled_run<T>(
    world: World<T>,
    namespace: Seq<char>,
    name: Seq<char>,
    found: Option<ConfigFileView>,
    fallback: Option<T>,
) -> Run<T> {
    match found {
        Some(file) => read_run(world, file),
        None => match fallback {
            None => Run { requests: Seq::empty(), result: Err(Error::FailedToFindConfigFile) },
            Some(default) => write_default_run(world, namespace, name, default),
        },
    }
}

/// What an operation on configuration `name` of `namespace` asks for and
/// returns in `world`. `fallback` is the default configuration, which only
/// `load_or_default` has.
pub open spec fn operation_run<T>(
    world: World<T>,
    namespace: Seq<char>,
    name: Seq<char>,
    fallback: Option<T>,
) -> Run<T> {
    match world.root {
        None => Run { requests: Seq::empty(), result: Err(Error::UnknownConfigDirectory) },
        Some(root) => {
            let lookup = lookup_requests(root, namespace, name, world.present, Format::first());
            let found = located(root, namespace, name, world.present);
            let rest = settled_run(world, namespace, name, found, fallback);
            Run { requests: lookup + rest.requests, result: rest.result }
        },
    }
}

/// What `load` asks for and returns in `world`.
pub open spec fn load_run<T>(world: World<T>, namespace: Seq<char>, name: Seq<char>) -> Run<T> {
    operation_run(world, namespace, name, None)
}

/// What `load_or_default` asks for and returns in `world`.
pub open spec fn load_or_default_run<T>(
    world: World<T>,
    namespace: Seq<char>,
    name: Seq<char>,
    default: T,
) -> Run<T> {
    operation_run(world, namespace, name, Some(default))
}

/// Running the steps of a lookup from the candidate of `from` on gives the
/// probes of that lookup, and then what follows from its finding.
proof fn lemma_run_from<T>(
    world: World<T>,
    root: Seq<u8>,
    namespace: Seq<char>,
    name: Seq<char>,
    from: Format,
    fallback: Option<T>,
)
    ensures
        ({
            let step = StepView::Probe(ProbeView { root, namespace, name, format: from, fallback });
            let found = located_from(root, namespace, name, world.present, from);
            let rest = settled_run(world, namespace, name, found, fallback);
            &&& run(step, world).result == rest.result
            &&& run(step, world).requests == lookup_requests::<T>(
                root,
                namespace,
                name,
                world.present,
                from,
            ) + rest.requests
        }),
    decreases 2 - from.rank(),
{
    reveal_with_fuel(run, 4);
    let path = candidate(root, namespace, name, from);
    if !world.present.contains(path) {
        match from.successor_spec() {
            Some(next) => {
                lemma_run_from(world, root, namespace, name, next, fallback);
            },
            None => {},
        }
    }
}

/// Carried through any world, the steps of `load` ask for and return what
/// [`load_run`] says.
pub proof fn theorem_load<T>(world: World<T>, namespace: Seq<char>, name: Seq<char>)
    ensures
        run(begin::<T>(world.root, namespace, name, None), world) == load_run(
            world,
            namespace,
            name,
        ),
{
    if let Some(root) = world.root {
        lemma_run_from::<T>(world, root, namespace, name, Format::first(), None);
    }
}

/// Carried through any world, the steps of `load_or_default` ask for and
/// return what [`load_or_default_run`] says.
pub proof fn theorem_load_or_default<T>(
    world: World<T>,
    namespace: Seq<char>,
    name: Seq<char>,
    default: T,
)
    ensures
        run(begin(world.root, namespace, name, Some(default)), world) == load_or_default_run(
            world,
            namespace,
            name,
            default,
        ),
{
    if let Some(root) = world.root {
        lemma_run_from(world, root, namespace, name, Format::first(), Some(default));
    }
}

} // verus!
