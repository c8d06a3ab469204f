use tupm::gate::{
    check_install_permissions, check_linux_permissions, check_uninstall_permissions,
    check_windows_admin_permissions, guidance_lines, run_gate, GateAction, Guidance,
};
use tupm::{Operation, Platform};

#[test]
fn posix_success_path_removes_probe_before_allowing() {
    let mut g = check_install_permissions(Platform::Posix);
    assert_eq!(g.next_action(), GateAction::WriteProbe);
    g.on_probe_written(true);
    assert_eq!(g.next_action(), GateAction::RemoveProbe);
    g.on_probe_removed();
    assert_eq!(g.next_action(), GateAction::Finished);
    let d = g.verdict();
    assert!(d.allowed);
    assert_eq!(d.guidance, None);
}

#[test]
fn posix_failure_as_ordinary_user_asks_for_sudo() {
    let mut g = check_install_permissions(Platform::Posix);
    g.on_probe_written(false);
    assert_eq!(g.next_action(), GateAction::QueryUser);
    g.on_user(Some(String::from("alice")));
    let d = g.verdict();
    assert!(!d.allowed);
    assert_eq!(d.guidance, Some(Guidance::RunWithSudo { op: Operation::Install }));
}

#[test]
fn posix_failure_as_root_points_at_filesystem() {
    let mut g = check_uninstall_permissions(Platform::Posix);
    g.on_probe_written(false);
    g.on_user(Some(String::from("root")));
    let d = g.verdict();
    assert!(!d.allowed);
    assert_eq!(d.guidance, Some(Guidance::CheckFilesystem));
}

#[test]
fn posix_failure_with_unknown_user_asks_for_sudo() {
    let mut g = check_uninstall_permissions(Platform::Posix);
    g.on_probe_written(false);
    g.on_user(None);
    let d = g.verdict();
    assert!(!d.allowed);
    assert_eq!(d.guidance, Some(Guidance::RunWithSudo { op: Operation::Uninstall }));
}

#[test]
fn windows_success_path_runs_both_probes() {
    let mut g = check_uninstall_permissions(Platform::Windows);
    assert_eq!(g.next_action(), GateAction::CreateDir);
    g.on_dir_created(true);
    assert_eq!(g.next_action(), GateAction::WriteProbe);
    g.on_probe_written(true);
    assert_eq!(g.next_action(), GateAction::RemoveProbe);
    g.on_probe_removed();
    let d = g.verdict();
    assert!(d.allowed);
    assert_eq!(d.guidance, None);
}

#[test]
fn windows_directory_failure_denies_at_once() {
    let mut g = check_windows_admin_permissions(Operation::Uninstall);
    g.on_dir_created(false);
    let d = g.verdict();
    assert!(!d.allowed);
    assert_eq!(
        d.guidance,
        Some(Guidance::RunAsAdministrator { op: Operation::Uninstall, at_dir: true })
    );
}

#[test]
fn windows_probe_failure_denies() {
    let mut g = check_windows_admin_permissions(Operation::Install);
    g.on_dir_created(true);
    g.on_probe_written(false);
    let d = g.verdict();
    assert!(!d.allowed);
    assert_eq!(
        d.guidance,
        Some(Guidance::RunAsAdministrator { op: Operation::Install, at_dir: false })
    );
}

#[test]
fn admin_guidance_lines_for_install_probe_failure() {
    let lines = guidance_lines(&Guidance::RunAsAdministrator {
        op: Operation::Install,
        at_dir: false,
    });
    assert_eq!(lines.len(), 3);
    assert_eq!(lines[0], "Error: Insufficient permissions to install packages.");
    assert_eq!(lines[1], "Please run this program as Administrator.");
    assert_eq!(
        lines[2],
        "Right-click on Command Prompt or PowerShell and select 'Run as Administrator'."
    );
}

#[test]
fn admin_guidance_lines_for_directory_failures() {
    let install = guidance_lines(&Guidance::RunAsAdministrator {
        op: Operation::Install,
        at_dir: true,
    });
    assert_eq!(
        install[0],
        "Error: Insufficient permissions to create installation directory."
    );
    let uninstall = guidance_lines(&Guidance::RunAsAdministrator {
        op: Operation::Uninstall,
        at_dir: true,
    });
    assert_eq!(
        uninstall[0],
        "Error: Insufficient permissions to access installation directory."
    );
}

#[test]
fn filesystem_guidance_lines() {
    let lines = guidance_lines(&Guidance::CheckFilesystem);
    assert_eq!(lines.len(), 2);
    assert_eq!(lines[0], "Error: Unable to write to /bin directory even as root.");
    assert_eq!(lines[1], "Please check filesystem permissions.");
}

#[test]
fn sudo_guidance_lines_name_the_operation() {
    let install = guidance_lines(&Guidance::RunWithSudo { op: Operation::Install });
    assert_eq!(install.len(), 3);
    assert_eq!(install[0], "Error: Insufficient permissions to install packages to /bin.");
    assert_eq!(install[1], "Please run this program with sudo:");
    assert_eq!(install[2], "  sudo tupm install <package>");
    let uninstall = guidance_lines(&Guidance::RunWithSudo { op: Operation::Uninstall });
    assert_eq!(uninstall[0], "Error: Insufficient permissions to uninstall packages from /bin.");
    assert_eq!(uninstall[2], "  sudo tupm uninstall <package>");
}

#[test]
fn linux_gate_starts_at_probe() {
    let g = check_linux_permissions(Operation::Install);
    assert_eq!(g.next_action(), GateAction::WriteProbe);
}

#[test]
fn whole_preflight_against_recorded_outcomes() {
    let d = run_gate(Platform::Posix, Operation::Install, true, true, &None);
    assert!(d.allowed);
    let d = run_gate(Platform::Posix, Operation::Install, true, false, &Some(String::from("root")));
    assert!(!d.allowed);
    assert_eq!(d.guidance, Some(Guidance::CheckFilesystem));
    let d = run_gate(Platform::Windows, Operation::Uninstall, false, true, &None);
    assert!(!d.allowed);
    assert_eq!(
        d.guidance,
        Some(Guidance::RunAsAdministrator { op: Operation::Uninstall, at_dir: true })
    );
    let d = run_gate(Platform::Windows, Operation::Install, true, true, &None);
    assert!(d.allowed);
    assert_eq!(d.guidance, None);
}
