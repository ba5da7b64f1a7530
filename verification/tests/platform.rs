//! The operations against the configuration directory that the platform
//! really names for whoever runs the tests.

use confdir::{load, load_in, load_or_default, Error, Format, Step};
use std::path::PathBuf;

#[test]
fn load_starts_in_the_directory_of_the_platform() {
    let step: Step<'_, i32> = load("confdir-tests", "settings");
    match (dirs::config_dir(), step) {
        (None, Step::Done(Err(Error::UnknownConfigDirectory))) => {}
        (Some(root), Step::Probe(probe)) => {
            assert_eq!(probe.root, root);
            assert_eq!(probe.format, Format::TOML);
            assert_eq!(probe.fallback, None);
            assert_eq!(
                probe.path(),
                root.join("confdir-tests").join("settings").with_extension("toml")
            );
        }
        (root, step) => panic!("{:?} does not lead to {:?}", root, step),
    }
}

#[test]
fn load_or_default_starts_in_the_directory_of_the_platform() {
    let step = load_or_default("confdir-tests", "settings", 7);
    match (dirs::config_dir(), step) {
        (None, Step::Done(Err(Error::UnknownConfigDirectory))) => {}
        (Some(root), Step::Probe(probe)) => {
            assert_eq!(probe.root, root);
            assert_eq!(probe.format, Format::TOML);
            assert_eq!(probe.fallback, Some(7));
        }
        (root, step) => panic!("{:?} does not lead to {:?}", root, step),
    }
}

#[test]
fn answer_without_default_never_turns_to_the_platform() {
    let root = Some(PathBuf::from("/cfg"));
    let toml = match load_in::<i32>(root, "app", "main") {
        Step::Probe(probe) => probe,
        other => panic!("unexpected {:?}", other),
    };
    let json = match toml.answer(false) {
        Step::Probe(probe) => probe,
        other => panic!("unexpected {:?}", other),
    };
    assert_eq!(json.format, Format::JSON);
    let yml = match json.answer(false) {
        Step::Probe(probe) => probe,
        other => panic!("unexpected {:?}", other),
    };
    assert_eq!(yml.format, Format::YAML);
    assert!(matches!(yml.answer(false), Step::Done(Err(Error::FailedToFindConfigFile))));
}

#[test]
fn answer_reads_an_existing_file() {
    let root = Some(PathBuf::from("/cfg"));
    let toml = match load_in::<i32>(root, "app", "main") {
        Step::Probe(probe) => probe,
        other => panic!("unexpected {:?}", other),
    };
    match toml.answer(true) {
        Step::Read(file) => {
            assert_eq!(file.path, PathBuf::from("/cfg/app/main.toml"));
            assert_eq!(file.format, Format::TOML);
        }
        other => panic!("unexpected {:?}", other),
    }
}

#[test]
fn answer_with_default_asks_the_platform_again() {
    let root = Some(PathBuf::from("/cfg"));
    let toml = match confdir::load_or_default_in(root, "app", "main", 7) {
        Step::Probe(probe) => probe,
        other => panic!("unexpected {:?}", other),
    };
    let json = match toml.answer(false) {
        Step::Probe(probe) => probe,
        other => panic!("unexpected {:?}", other),
    };
    let yml = match json.answer(false) {
        Step::Probe(probe) => probe,
        other => panic!("unexpected {:?}", other),
    };
    match (dirs::config_dir(), yml.answer(false)) {
        (None, Step::Done(Err(Error::UnknownConfigDirectory))) => {}
        (Some(again), Step::CreateDir(create)) => {
            assert_eq!(create.dir, again.join("app"));
            assert_eq!(create.file, again.join("app").join("main.toml"));
            assert_eq!(create.default, 7);
        }
        (again, step) => panic!("{:?} does not lead to {:?}", again, step),
    }
}
