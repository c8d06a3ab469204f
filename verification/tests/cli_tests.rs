use tupm::cli::{dispatch, CliCommand};
use tupm::Operation;

fn args(words: &[&str]) -> Vec<String> {
    words.iter().map(|w| String::from(*w)).collect()
}

#[test]
fn no_arguments_asks_for_usage() {
    assert_eq!(dispatch(&args(&["tupm"])), CliCommand::Usage);
    assert_eq!(dispatch(&args(&[])), CliCommand::Usage);
}

#[test]
fn install_with_package_dispatches() {
    assert_eq!(
        dispatch(&args(&["tupm", "install", "foo"])),
        CliCommand::Install(String::from("foo"))
    );
}

#[test]
fn uninstall_with_package_dispatches() {
    assert_eq!(
        dispatch(&args(&["tupm", "uninstall", "bar"])),
        CliCommand::Uninstall(String::from("bar"))
    );
}

#[test]
fn install_without_package_is_reported() {
    assert_eq!(
        dispatch(&args(&["tupm", "install"])),
        CliCommand::MissingPackage(Operation::Install)
    );
}

#[test]
fn uninstall_without_package_is_reported() {
    assert_eq!(
        dispatch(&args(&["tupm", "uninstall"])),
        CliCommand::MissingPackage(Operation::Uninstall)
    );
}

#[test]
fn unknown_command_is_reported_with_its_word() {
    assert_eq!(
        dispatch(&args(&["tupm", "frobnicate"])),
        CliCommand::Unknown(String::from("frobnicate"))
    );
}

#[test]
fn extra_arguments_after_package_are_ignored() {
    assert_eq!(
        dispatch(&args(&["tupm", "install", "foo", "bar"])),
        CliCommand::Install(String::from("foo"))
    );
}
