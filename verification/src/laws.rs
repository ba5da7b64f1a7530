//! What holds of the two operations in every world.

use crate::error::{Error, FormatError};
use crate::format::Format;
use crate::locate::{candidate, located, located_from, namespace_dir, ConfigFileView};
use crate::model::{begin, deser_spec};
use crate::world::{
    lookup_requests, run, theorem_load, theorem_load_or_default, Request, Run, World,
};
use vstd::prelude::*;

verus! {

/// True when no candidate of configuration `name` of `namespace` exists
/// under `root` in `world`.
pub open spec fn nothing_present<T>(
    world: World<T>,
    root: Seq<u8>,
    namespace: Seq<char>,
    name: Seq<char>,
) -> bool {
    forall|format: Format| !world.present.contains(#[trigger] candidate(root, namespace, name, format))
}

/// True when, in `world`, `load_or_default` finds no configuration `name`
/// of `namespace` and nothing keeps it from writing `default`: the platform
/// names `root` at first and `root_again` then, no candidate exists, the
/// namespace directory can be created, and the file can be written.
pub open spec fn default_can_be_written<T>(
    world: World<T>,
    root: Seq<u8>,
    root_again: Seq<u8>,
    namespace: Seq<char>,
    name: Seq<char>,
    default: T,
) -> bool {
    &&& world.root == Some(root)
    &&& world.root_again == Some(root_again)
    &&& nothing_present(world, root, namespace, name)
    &&& (world.create_dir)(namespace_dir(root_again, namespace)) is Ok
    &&& (world.write)(candidate(root_again, namespace, name, Format::TOML), Format::TOML, default)
        == Ok::<Result<(), FormatError>, std::io::Error>(Ok(()))
}

/// Where the platform names no configuration directory, both operations
/// ask for nothing and fail with `UnknownConfigDirectory`.
pub proof fn law_unknown_config_directory<T>(
    world: World<T>,
    namespace: Seq<char>,
    name: Seq<char>,
    default: T,
)
    requires
        world.root is None,
    ensures
        run(begin::<T>(world.root, namespace, name, None), world) == (Run::<T> {
            requests: Seq::empty(),
            result: Err(Error::UnknownConfigDirectory),
        }),
        run(begin(world.root, namespace, name, Some(default)), world) == run(
            begin::<T>(world.root, namespace, name, None),
            world,
        ),
{
    theorem_load::<T>(world, namespace, name);
    theorem_load_or_default(world, namespace, name, default);
}

/// Where a configuration directory is known and no file of any supported
/// extension exists, `load` fails with `FailedToFindConfigFile`, having
/// looked for each of the three.
pub proof fn law_load_finds_nothing<T>(
    world: World<T>,
    root: Seq<u8>,
    namespace: Seq<char>,
    name: Seq<char>,
)
    requires
        world.root == Some(root),
        nothing_present(world, root, namespace, name),
    ensures
        run(begin::<T>(world.root, namespace, name, None), world).result == Err::<T, Error>(
            Error::FailedToFindConfigFile,
        ),
        run(begin::<T>(world.root, namespace, name, None), world).requests == seq![
            Request::<T>::Probe(candidate(root, namespace, name, Format::TOML)),
            Request::<T>::Probe(candidate(root, namespace, name, Format::JSON)),
            Request::<T>::Probe(candidate(root, namespace, name, Format::YAML)),
        ],
{
    theorem_load::<T>(world, namespace, name);
    reveal_with_fuel(located_from, 3);
    reveal_with_fuel(lookup_requests, 3);
}

/// `load` only ever looks and reads: it asks for no directory and no file
/// to be created.
pub proof fn law_load_is_read_only<T>(world: World<T>, namespace: Seq<char>, name: Seq<char>)
    ensures
        ({
            let requests = run(begin::<T>(world.root, namespace, name, None), world).requests;
            forall|i: int|
                0 <= i < requests.len() ==> (#[trigger] requests[i]).changes_nothing()
        }),
{
    theorem_load::<T>(world, namespace, name);
    reveal_with_fuel(located_from, 3);
    reveal_with_fuel(lookup_requests, 3);
}

/// Where no file exists and the filesystem lets the default be written,
/// `load_or_default` creates the namespace directory, writes the default as
/// TOML to `<root>/<namespace>/<name>.toml`, and returns the default.
pub proof fn law_default_is_written<T>(
    world: World<T>,
    root: Seq<u8>,
    root_again: Seq<u8>,
    namespace: Seq<char>,
    name: Seq<char>,
    default: T,
)
    requires
        default_can_be_written(world, root, root_again, namespace, name, default),
    ensures
        run(begin(world.root, namespace, name, Some(default)), world).result == Ok::<T, Error>(
            default,
        ),
        run(begin(world.root, namespace, name, Some(default)), world).requests == seq![
            Request::Probe(candidate(root, namespace, name, Format::TOML)),
            Request::Probe(candidate(root, namespace, name, Format::JSON)),
            Request::Probe(candidate(root, namespace, name, Format::YAML)),
            Request::CreateDir(namespace_dir(root_again, namespace)),
            Request::Write(
                candidate(root_again, namespace, name, Format::TOML),
                Format::TOML,
                default,
            ),
        ],
{
    theorem_load_or_default(world, namespace, name, default);
    reveal_with_fuel(located_from, 3);
    reveal_with_fuel(lookup_requests, 3);
}

/// Before a default is written the platform is asked for its
/// configuration directory once more: where it then names none,
/// `load_or_default` fails with `UnknownConfigDirectory`, having looked for
/// each of the three files and created nothing.
pub proof fn law_directory_is_asked_again<T>(
    world: World<T>,
    root: Seq<u8>,
    namespace: Seq<char>,
    name: Seq<char>,
    default: T,
)
    requires
        world.root == Some(root),
        world.root_again is None,
        nothing_present(world, root, namespace, name),
    ensures
        run(begin(world.root, namespace, name, Some(default)), world).result == Err::<T, Error>(
            Error::UnknownConfigDirectory,
        ),
        run(begin(world.root, namespace, name, Some(default)), world).requests == seq![
            Request::<T>::Probe(candidate(root, namespace, name, Format::TOML)),
            Request::<T>::Probe(candidate(root, namespace, name, Format::JSON)),
            Request::<T>::Probe(candidate(root, namespace, name, Format::YAML)),
        ],
{
    theorem_load_or_default(world, namespace, name, default);
    reveal_with_fuel(located_from, 3);
    reveal_with_fuel(lookup_requests, 3);
}

/// The first existing candidate in lookup order is the one that is read,
/// in its own format, by either operation; candidates after it are not
/// even looked for.
pub proof fn law_first_existing_is_read<T>(
    world: World<T>,
    root: Seq<u8>,
    namespace: Seq<char>,
    name: Seq<char>,
    format: Format,
    fallback: Option<T>,
)
    requires
        world.root == Some(root),
        world.present.contains(candidate(root, namespace, name, format)),
        forall|earlier: Format|
            earlier.rank() < format.rank() ==> !world.present.contains(
                #[trigger] candidate(root, namespace, name, earlier),
            ),
    ensures
        ({
            let path = candidate(root, namespace, name, format);
            let finished = run(begin(world.root, namespace, name, fallback), world);
            &&& located(root, namespace, name, world.present) == Some(ConfigFileView { path, format })
            &&& finished.result == deser_spec((world.read)(path, format))
            &&& finished.requests.len() == format.rank() + 2
            &&& finished.requests[format.rank()] == Request::<T>::Probe(path)
            &&& finished.requests.last() == Request::<T>::Read(path, format)
            &&& forall|i: int|
                0 <= i < format.rank() ==> (#[trigger] finished.requests[i]) is Probe
        }),
{
    match fallback {
        None => theorem_load::<T>(world, namespace, name),
        Some(default) => theorem_load_or_default(world, namespace, name, default),
    }
    reveal_with_fuel(located_from, 3);
    reveal_with_fuel(lookup_requests, 3);
    assert(Format::TOML.rank() == 0 && Format::JSON.rank() == 1 && Format::YAML.rank() == 2);
}

/// Where a TOML file exists it is the one that is read, by either
/// operation, whether or not a JSON or a YAML file exists beside it.
pub proof fn law_toml_comes_first<T>(
    world: World<T>,
    root: Seq<u8>,
    namespace: Seq<char>,
    name: Seq<char>,
    fallback: Option<T>,
)
    requires
        world.root == Some(root),
        world.present.contains(candidate(root, namespace, name, Format::TOML)),
    ensures
        ({
            let toml = candidate(root, namespace, name, Format::TOML);
            let finished = run(begin(world.root, namespace, name, fallback), world);
            &&& finished.result == deser_spec((world.read)(toml, Format::TOML))
            &&& finished.requests == seq![
                Request::<T>::Probe(toml),
                Request::<T>::Read(toml, Format::TOML),
            ]
        }),
{
    match fallback {
        None => theorem_load::<T>(world, namespace, name),
        Some(default) => theorem_load_or_default(world, namespace, name, default),
    }
}

/// Where a file exists, `load_or_default` does exactly what `load` does:
/// the default is neither written nor returned, whatever it is.
pub proof fn law_existing_file_beats_default<T>(
    world: World<T>,
    root: Seq<u8>,
    namespace: Seq<char>,
    name: Seq<char>,
    default: T,
)
    requires
        world.root == Some(root),
        located(root, namespace, name, world.present) is Some,
    ensures
        run(begin(world.root, namespace, name, Some(default)), world) == run(
            begin::<T>(world.root, namespace, name, None),
            world,
        ),
{
    theorem_load::<T>(world, namespace, name);
    theorem_load_or_default(world, namespace, name, default);
}

/// Where the file that was found does not hold a configuration in its
/// format, both operations fail with `FailedToDeserializeConfigFile`, and
/// the failure carries what the format library reported.
pub proof fn law_malformed_file<T>(
    world: World<T>,
    root: Seq<u8>,
    namespace: Seq<char>,
    name: Seq<char>,
    file: ConfigFileView,
    source: FormatError,
    fallback: Option<T>,
)
    requires
        world.root == Some(root),
        located(root, namespace, name, world.present) == Some(file),
        (world.read)(file.path, file.format) == Ok::<Result<T, FormatError>, std::io::Error>(
            Err(source),
        ),
    ensures
        run(begin(world.root, namespace, name, fallback), world).result == Err::<T, Error>(
            Error::FailedToDeserializeConfigFile { source },
        ),
{
    match fallback {
        None => theorem_load::<T>(world, namespace, name),
        Some(default) => theorem_load_or_default(world, namespace, name, default),
    }
}

/// A default that `load_or_default` has written is what `load` returns
/// afterwards, as long as the file reads back as what was written to it.
pub proof fn law_round_trip<T>(
    before: World<T>,
    root: Seq<u8>,
    root_again: Seq<u8>,
    namespace: Seq<char>,
    name: Seq<char>,
    written: T,
)
    requires
        default_can_be_written(before, root, root_again, namespace, name, written),
    ensures
        ({
            let file = candidate(root_again, namespace, name, Format::TOML);
            let after = before.once_written(file, Format::TOML, written);
            &&& run(begin(before.root, namespace, name, Some(written)), before).requests.last()
                == Request::Write(file, Format::TOML, written)
            &&& run(begin(before.root, namespace, name, Some(written)), before).result == Ok::<
                T,
                Error,
            >(written)
            &&& run(begin::<T>(after.root, namespace, name, None), after).result == Ok::<T, Error>(
                written,
            )
        }),
{
    let file = candidate(root_again, namespace, name, Format::TOML);
    let after = before.once_written(file, Format::TOML, written);
    law_default_is_written(before, root, root_again, namespace, name, written);
    law_toml_comes_first::<T>(after, root_again, namespace, name, None);
}

/// Once a default has been written, `load_or_default` returns what was
/// persisted, whatever default it is given then, and writes nothing.
pub proof fn law_second_call_returns_persisted<T>(
    before: World<T>,
    root: Seq<u8>,
    root_again: Seq<u8>,
    namespace: Seq<char>,
    name: Seq<char>,
    written: T,
    other: T,
)
    requires
        default_can_be_written(before, root, root_again, namespace, name, written),
    ensures
        ({
            let file = candidate(root_again, namespace, name, Format::TOML);
            let after = before.once_written(file, Format::TOML, written);
            let second = run(begin(after.root, namespace, name, Some(other)), after);
            &&& second.result == Ok::<T, Error>(written)
            &&& second.requests == seq![
                Request::<T>::Probe(file),
                Request::<T>::Read(file, Format::TOML),
            ]
        }),
{
    let file = candidate(root_again, namespace, name, Format::TOML);
    let after = before.once_written(file, Format::TOML, written);
    law_toml_comes_first(after, root_again, namespace, name, Some(other));
}

} // verus!
