//! Whole operations, carried out on a disk that lives in memory, with the
//! format library doing the reading and the writing.

use confdir::{load_in, load_or_default_in, Error, Format, FormatError, Step};
use serde::de::DeserializeOwned;
use serde::Serialize;
use std::collections::{BTreeMap, BTreeSet};
use std::io;
use std::path::PathBuf;

type Settings = BTreeMap<String, String>;

struct Disk {
    root: Option<PathBuf>,
    dirs: BTreeSet<PathBuf>,
    files: BTreeMap<PathBuf, Vec<u8>>,
    asked: Vec<String>,
}

fn disk() -> Disk {
    Disk {
        root: Some(PathBuf::from("/cfg")),
        dirs: BTreeSet::new(),
        files: BTreeMap::new(),
        asked: Vec::new(),
    }
}

fn disk_with(files: &[(&str, &str)]) -> Disk {
    let mut disk = disk();
    for (path, content) in files {
        disk.files.insert(PathBuf::from(path), content.as_bytes().to_vec());
    }
    disk
}

fn settings(pairs: &[(&str, &str)]) -> Settings {
    pairs.iter().map(|(key, value)| (key.to_string(), value.to_string())).collect()
}

fn outside_format(format: Format) -> polyglot::Format {
    match format {
        Format::TOML => polyglot::Format::TOML,
        Format::JSON => polyglot::Format::JSON,
        Format::YAML => polyglot::Format::YAML,
    }
}

fn reported(error: polyglot::Error) -> FormatError {
    FormatError { message: error.to_string() }
}

fn drive<T: DeserializeOwned + Serialize>(disk: &mut Disk, first: Step<'_, T>) -> Result<T, Error> {
    let mut step = first;
    loop {
        step = match step {
            Step::Probe(probe) => {
                let path = probe.path();
                disk.asked.push(format!("probe {}", path.display()));
                let exists = disk.files.contains_key(&path);
                probe.answer_in(exists, disk.root.clone())
            }
            Step::Read(file) => {
                disk.asked.push(format!("read {}", file.path.display()));
                let outcome = match disk.files.get(&file.path) {
                    None => Err(io::Error::new(io::ErrorKind::NotFound, "no such file")),
                    Some(bytes) => Ok(polyglot::from_reader(
                        bytes.as_slice(),
                        outside_format(file.format),
                    )
                    .map_err(reported)),
                };
                file.answer(outcome)
            }
            Step::CreateDir(create) => {
                disk.asked.push(format!("mkdir {}", create.dir.display()));
                disk.dirs.insert(create.dir.clone());
                create.answer(Ok(()))
            }
            Step::Write(write) => {
                disk.asked.push(format!("write {}", write.path.display()));
                let outcome = if disk.dirs.iter().any(|dir| write.path.starts_with(dir)) {
                    let mut bytes = Vec::new();
                    let written =
                        polyglot::to_writer(&mut bytes, &write.value, outside_format(write.format))
                            .map_err(reported);
                    disk.files.insert(write.path.clone(), bytes);
                    Ok(written)
                } else {
                    Err(io::Error::new(io::ErrorKind::NotFound, "no such directory"))
                };
                write.answer(outcome)
            }
            Step::Done(result) => return result,
        }
    }
}

fn load_on<T: DeserializeOwned + Serialize>(disk: &mut Disk) -> Result<T, Error> {
    let first = load_in(disk.root.clone(), "app", "main");
    drive(disk, first)
}

fn load_or_default_on<T: DeserializeOwned + Serialize>(
    disk: &mut Disk,
    default: T,
) -> Result<T, Error> {
    let first = load_or_default_in(disk.root.clone(), "app", "main", default);
    drive(disk, first)
}

#[test]
fn load_with_no_file_returns_failed_to_find_config_file() {
    let mut disk = disk();
    let result: Result<Settings, Error> = load_on(&mut disk);
    assert!(matches!(result, Err(Error::FailedToFindConfigFile)));
    assert_eq!(
        disk.asked,
        vec![
            "probe /cfg/app/main.toml",
            "probe /cfg/app/main.json",
            "probe /cfg/app/main.yml"
        ]
    );
    assert!(disk.files.is_empty());
    assert!(disk.dirs.is_empty());
}

#[test]
fn load_or_default_with_no_file_writes_the_default_as_toml() {
    let mut disk = disk();
    let default = settings(&[("name", "demo"), ("theme", "dark")]);
    let result = load_or_default_on(&mut disk, default.clone());
    assert_eq!(result.unwrap(), default);
    assert_eq!(
        disk.asked,
        vec![
            "probe /cfg/app/main.toml",
            "probe /cfg/app/main.json",
            "probe /cfg/app/main.yml",
            "mkdir /cfg/app",
            "write /cfg/app/main.toml"
        ]
    );
    assert!(disk.dirs.contains(&PathBuf::from("/cfg/app")));
    assert_eq!(disk.files.len(), 1);
    let content = String::from_utf8(disk.files[&PathBuf::from("/cfg/app/main.toml")].clone());
    assert_eq!(content.unwrap(), "name = \"demo\"\ntheme = \"dark\"\n");
}

#[test]
fn written_default_is_loaded_again() {
    let mut disk = disk();
    let default = settings(&[("name", "demo"), ("theme", "dark")]);
    assert_eq!(load_or_default_on(&mut disk, default.clone()).unwrap(), default);
    let again: Settings = load_on(&mut disk).unwrap();
    assert_eq!(again, default);
}

#[test]
fn second_load_or_default_returns_what_was_persisted() {
    let mut disk = disk();
    let persisted = settings(&[("name", "demo")]);
    assert_eq!(load_or_default_on(&mut disk, persisted.clone()).unwrap(), persisted);
    let content = disk.files.clone();
    disk.asked.clear();

    let other = settings(&[("name", "changed"), ("extra", "yes")]);
    assert_eq!(load_or_default_on(&mut disk, other).unwrap(), persisted);
    assert_eq!(disk.asked, vec!["probe /cfg/app/main.toml", "read /cfg/app/main.toml"]);
    assert_eq!(disk.files, content);
}

#[test]
fn toml_is_chosen_over_json() {
    let files = [
        ("/cfg/app/main.toml", "source = \"toml\"\n"),
        ("/cfg/app/main.json", "{\"source\": \"json\"}"),
    ];
    let mut disk = disk_with(&files);
    let loaded: Settings = load_on(&mut disk).unwrap();
    assert_eq!(loaded, settings(&[("source", "toml")]));
    assert_eq!(disk.asked, vec!["probe /cfg/app/main.toml", "read /cfg/app/main.toml"]);

    let mut disk = disk_with(&files);
    let loaded = load_or_default_on(&mut disk, settings(&[])).unwrap();
    assert_eq!(loaded, settings(&[("source", "toml")]));
    assert_eq!(disk.files.len(), 2);
}

#[test]
fn json_is_chosen_over_yml() {
    let mut disk = disk_with(&[
        ("/cfg/app/main.yml", "source: yml\n"),
        ("/cfg/app/main.json", "{\"source\": \"json\"}"),
    ]);
    let loaded: Settings = load_on(&mut disk).unwrap();
    assert_eq!(loaded, settings(&[("source", "json")]));
    assert_eq!(
        disk.asked,
        vec!["probe /cfg/app/main.toml", "probe /cfg/app/main.json", "read /cfg/app/main.json"]
    );
}

#[test]
fn yml_is_read_as_yaml() {
    let mut disk = disk_with(&[("/cfg/app/main.yml", "source: yml\nmode: fast\n")]);
    let loaded: Settings = load_on(&mut disk).unwrap();
    assert_eq!(loaded, settings(&[("source", "yml"), ("mode", "fast")]));
}

#[test]
fn yaml_extension_is_not_looked_for() {
    let mut disk = disk_with(&[("/cfg/app/main.yaml", "source: yaml\n")]);
    let result: Result<Settings, Error> = load_on(&mut disk);
    assert!(matches!(result, Err(Error::FailedToFindConfigFile)));
}

#[test]
fn malformed_toml_is_failed_to_deserialize_config_file() {
    let mut disk = disk_with(&[("/cfg/app/main.toml", "name = = \"demo\"\n")]);
    let result: Result<Settings, Error> = load_on(&mut disk);
    let expected = polyglot::from_str::<Settings>("name = = \"demo\"\n", polyglot::Format::TOML)
        .unwrap_err()
        .to_string();
    match result {
        Err(Error::FailedToDeserializeConfigFile { source }) => {
            assert!(source.message.starts_with("Polyglot/TOML Error: "));
            assert_eq!(source.message, expected);
        }
        other => panic!("unexpected {:?}", other),
    }
}

#[test]
fn malformed_toml_is_not_replaced_by_the_default() {
    let mut disk = disk_with(&[("/cfg/app/main.toml", "name = = \"demo\"\n")]);
    let result = load_or_default_on(&mut disk, settings(&[]));
    assert!(matches!(result, Err(Error::FailedToDeserializeConfigFile { .. })));
    assert_eq!(disk.files[&PathBuf::from("/cfg/app/main.toml")], b"name = = \"demo\"\n".to_vec());
}

#[test]
fn schema_mismatch_is_failed_to_deserialize_config_file() {
    let mut disk = disk_with(&[("/cfg/app/main.json", "[1, 2, 3]")]);
    let result: Result<Settings, Error> = load_on(&mut disk);
    match result {
        Err(Error::FailedToDeserializeConfigFile { source }) => {
            assert!(source.message.starts_with("Polyglot/JSON Error: "));
        }
        other => panic!("unexpected {:?}", other),
    }
}

#[test]
fn default_that_toml_cannot_hold_is_failed_to_serialize_default_config() {
    let mut disk = disk();
    let mut default: BTreeMap<String, ()> = BTreeMap::new();
    default.insert(String::from("limit"), ());
    let result = load_or_default_on(&mut disk, default);
    match result {
        Err(Error::FailedToSerializeDefaultConfig { source }) => {
            assert_eq!(source.message, "Polyglot/TOML Error: unsupported Rust type");
        }
        other => panic!("unexpected {:?}", other),
    }
    assert!(disk.files[&PathBuf::from("/cfg/app/main.toml")].is_empty());
}

#[test]
fn file_that_vanishes_after_the_probe_is_failed_to_open_config_file() {
    let mut disk = disk();
    let toml = match load_in::<Settings>(disk.root.clone(), "app", "main") {
        Step::Probe(probe) => probe,
        other => panic!("unexpected {:?}", other),
    };
    let result = drive(&mut disk, toml.answer_in(true, None));
    match result {
        Err(Error::FailedToOpenConfigFile { source }) => {
            assert_eq!(source.kind(), io::ErrorKind::NotFound);
        }
        other => panic!("unexpected {:?}", other),
    }
}
