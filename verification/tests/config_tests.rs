use tupm::config::{default_config, get_config_path, load_or_init_plan};
use tupm::parser::parse_sources;
use tupm::paths::{bin_dir, probe_path, target_path};
use tupm::Platform;

#[test]
fn default_config_content() {
    assert_eq!(default_config(), "src \"80.51.80.42:9763/sources.json\";");
}

#[test]
fn default_config_parses_to_one_source() {
    let v = parse_sources(default_config().as_str()).unwrap();
    assert_eq!(v.len(), 1);
    assert_eq!(v[0], "http://80.51.80.42:9763/sources.json");
}

#[test]
fn config_path_per_platform() {
    assert_eq!(
        get_config_path(Platform::Windows),
        "C:\\Program Files\\TUPM-Apps\\config\\sourcelist.conf"
    );
    assert_eq!(get_config_path(Platform::Posix), "/etc/tupm/sourcelist.conf");
}

#[test]
fn existing_file_is_used_as_it_stands() {
    let plan = load_or_init_plan(Some(String::from("src \"http://a/m.json\";")));
    assert_eq!(plan.text, "src \"http://a/m.json\";");
    assert!(!plan.write_default);
}

#[test]
fn absent_file_is_healed_with_default() {
    let plan = load_or_init_plan(None);
    assert_eq!(plan.text, "src \"80.51.80.42:9763/sources.json\";");
    assert!(plan.write_default);
}

#[test]
fn second_run_reads_back_what_first_wrote() {
    let first = load_or_init_plan(None);
    assert!(first.write_default);
    let second = load_or_init_plan(Some(first.text.clone()));
    assert_eq!(second.text, first.text);
    assert!(!second.write_default);
}

#[test]
fn bin_dir_per_platform() {
    assert_eq!(bin_dir(Platform::Windows), "C:\\Program Files\\TUPM-Apps\\bin");
    assert_eq!(bin_dir(Platform::Posix), "/bin");
}

#[test]
fn target_path_per_platform() {
    assert_eq!(
        target_path(Platform::Windows, "foo"),
        "C:\\Program Files\\TUPM-Apps\\bin\\foo"
    );
    assert_eq!(target_path(Platform::Posix, "foo"), "/bin/foo");
}

#[test]
fn probe_path_per_platform() {
    assert_eq!(
        probe_path(Platform::Windows),
        "C:\\Program Files\\TUPM-Apps\\bin\\test_permissions"
    );
    assert_eq!(probe_path(Platform::Posix), "/bin/.tupm_permission_test");
}
