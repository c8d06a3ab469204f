use tupm::flow::{
    run_install, run_uninstall, FlowStage, InstallFlow, InstallOutcome, UninstallFlow,
    UninstallOutcome, UninstallStage,
};
use tupm::Platform;

fn one_source_config() -> Option<String> {
    Some(String::from("src \"http://s1/m.json\";"))
}

fn two_source_config() -> Option<String> {
    Some(String::from("src \"http://s1/m.json\";\nsrc \"http://s2/m.json\";"))
}

#[test]
fn install_happy_path_on_posix() {
    let bodies = vec![Some(String::from("{\"foo\": \"http://x/foo.bin\"}"))];
    let r = run_install(
        Platform::Posix,
        &String::from("foo"),
        true,
        &one_source_config(),
        &bodies,
        true,
        true,
    );
    assert_eq!(r, InstallOutcome::Installed);
}

#[test]
fn install_survives_failed_executable_bit() {
    let bodies = vec![Some(String::from("{\"foo\": \"http://x/foo.bin\"}"))];
    let r = run_install(
        Platform::Posix,
        &String::from("foo"),
        true,
        &one_source_config(),
        &bodies,
        true,
        false,
    );
    assert_eq!(r, InstallOutcome::Installed);
}

#[test]
fn install_denied_by_gate_stops_everything() {
    let bodies = vec![Some(String::from("{\"foo\": \"http://x/foo.bin\"}"))];
    let r = run_install(
        Platform::Posix,
        &String::from("foo"),
        false,
        &one_source_config(),
        &bodies,
        true,
        true,
    );
    assert_eq!(r, InstallOutcome::PermissionDenied);
}

#[test]
fn install_without_config_is_config_failure() {
    let r = run_install(Platform::Posix, &String::from("foo"), true, &None, &vec![], true, true);
    assert_eq!(r, InstallOutcome::ConfigFailure);
}

#[test]
fn install_with_empty_source_list_is_no_sources() {
    let r = run_install(
        Platform::Posix,
        &String::from("foo"),
        true,
        &Some(String::from("nothing valid here")),
        &vec![],
        true,
        true,
    );
    assert_eq!(r, InstallOutcome::NoSources);
}

#[test]
fn install_not_found_after_exhausting_sources() {
    let bodies = vec![Some(String::from("{}")), Some(String::from("{\"other\": \"http://o\"}"))];
    let r = run_install(
        Platform::Posix,
        &String::from("foo"),
        true,
        &two_source_config(),
        &bodies,
        true,
        true,
    );
    assert_eq!(r, InstallOutcome::NotFound);
}

#[test]
fn install_fetch_failure_is_fatal() {
    let bodies = vec![Some(String::from("{\"foo\": \"http://x/foo.bin\"}"))];
    let r = run_install(
        Platform::Posix,
        &String::from("foo"),
        true,
        &one_source_config(),
        &bodies,
        false,
        true,
    );
    assert_eq!(r, InstallOutcome::FetchFailed);
}

#[test]
fn machine_resolves_through_second_source() {
    let mut flow = InstallFlow::new(Platform::Posix, String::from("bar"));
    flow.on_gate(true);
    assert_eq!(flow.stage, FlowStage::AwaitConfig);
    flow.on_config(two_source_config());
    assert_eq!(flow.stage, FlowStage::Resolving);
    assert_eq!(flow.current_request(), "http://s1/m.json");
    flow.on_manifest(Some(String::from("not parsable json")));
    assert_eq!(flow.stage, FlowStage::Resolving);
    assert_eq!(flow.current_request(), "http://s2/m.json");
    flow.on_manifest(Some(String::from("{\"bar\":\"http://y/bar\"}")));
    assert_eq!(flow.stage, FlowStage::AwaitFetch);
    assert_eq!(flow.url, Some(String::from("http://y/bar")));
    assert_eq!(flow.target(), "/bin/bar");
    flow.on_fetch(true);
    assert_eq!(flow.stage, FlowStage::AwaitChmod);
    flow.on_chmod(false);
    assert_eq!(flow.stage, FlowStage::Done);
    assert_eq!(flow.outcome, Some(InstallOutcome::Installed));
}

#[test]
fn machine_finishes_on_windows_without_chmod() {
    let mut flow = InstallFlow::new(Platform::Windows, String::from("foo"));
    flow.on_gate(true);
    flow.on_config(one_source_config());
    flow.on_manifest(Some(String::from("{\"foo\": \"http://x/foo.bin\"}")));
    assert_eq!(flow.target(), "C:\\Program Files\\TUPM-Apps\\bin\\foo");
    flow.on_fetch(true);
    assert_eq!(flow.stage, FlowStage::Done);
    assert_eq!(flow.outcome, Some(InstallOutcome::Installed));
}

#[test]
fn uninstall_of_missing_target_reports_failure() {
    let r = run_uninstall(Platform::Posix, &String::from("foo"), true, false);
    assert_eq!(r, UninstallOutcome::RemovalFailed);
}

#[test]
fn uninstall_happy_path() {
    let r = run_uninstall(Platform::Posix, &String::from("foo"), true, true);
    assert_eq!(r, UninstallOutcome::Removed);
}

#[test]
fn uninstall_denied_by_gate() {
    let r = run_uninstall(Platform::Windows, &String::from("foo"), false, true);
    assert_eq!(r, UninstallOutcome::PermissionDenied);
}

#[test]
fn uninstall_machine_steps() {
    let mut flow = UninstallFlow::new(Platform::Posix, String::from("foo"));
    flow.on_gate(true);
    assert_eq!(flow.stage, UninstallStage::AwaitRemove);
    assert_eq!(flow.target(), "/bin/foo");
    flow.on_remove(false);
    assert_eq!(flow.stage, UninstallStage::Done);
    assert_eq!(flow.outcome, Some(UninstallOutcome::RemovalFailed));
}
