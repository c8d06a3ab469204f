//! The permission gate: a platform-specific preflight check that verifies
//! the process can write to the privileged directory before any
//! destructive action is attempted.
//!
//! The probing itself — creating the directory tree, writing and deleting
//! the hidden probe file, reading the invoking user's name — is filesystem
//! and environment work done by the application. The preflight check is the protocol
//! around it: a state machine that names the next probe step, consumes its
//! outcome, and decides, with the guidance owed for each failure. A ghost
//! flag tracks whether the probe file currently exists, so the clean-up
//! obligation is part of the machine's invariant.

use vstd::prelude::*;
use vstd::string::*;

use crate::{Operation, Platform};

verus! {

/// The next step the application must perform to drive the preflight check.
#[derive(Clone, Copy, Debug, PartialEq, Eq, Structural)]
pub enum GateAction {
    CreateDir,
    WriteProbe,
    RemoveProbe,
    QueryUser,
    Finished,
}

#[derive(Clone, Copy, Debug, PartialEq, Eq, Structural)]
pub enum GateStage {
    AwaitDir,
    AwaitProbe,
    AwaitRemoval,
    AwaitUser,
    Decided,
}

/// The actionable guidance reported with a denial.
#[derive(Clone, Copy, Debug, PartialEq, Eq, Structural)]
pub enum Guidance {
    RunAsAdministrator { op: Operation, at_dir: bool },
    CheckFilesystem,
    RunWithSudo { op: Operation },
}

/// Whether the operation may go ahead, and the guidance to print when it
/// may not.
#[derive(Clone, Copy, Debug)]
pub struct GateDecision {
    pub allowed: bool,
    pub guidance: Option<Guidance>,
}

/// One run of the permission gate for one operation on one platform.
pub struct Gate {
    pub platform: Platform,
    pub op: Operation,
    pub stage: GateStage,
    pub decision: Option<GateDecision>,
    pub probe_present: Ghost<bool>,
}

impl Gate {
    pub open spec fn wf(&self) -> bool {
        &&& (self.stage is Decided <==> self.decision is Some)
        &&& (self.probe_present@ <==> self.stage is AwaitRemoval)
        &&& (self.platform is Posix ==> !(self.stage is AwaitDir))
        &&& (self.platform is Windows ==> !(self.stage is AwaitUser))
    }

    /// What the application must do next in the current stage.
    pub fn next_action(&self) -> (a: GateAction)
        ensures
            a == (match self.stage {
                GateStage::AwaitDir => GateAction::CreateDir,
                GateStage::AwaitProbe => GateAction::WriteProbe,
                GateStage::AwaitRemoval => GateAction::RemoveProbe,
                GateStage::AwaitUser => GateAction::QueryUser,
                GateStage::Decided => GateAction::Finished,
            }),
    {
        match self.stage {
            GateStage::AwaitDir => GateAction::CreateDir,
            GateStage::AwaitProbe => GateAction::WriteProbe,
            GateStage::AwaitRemoval => GateAction::RemoveProbe,
            GateStage::AwaitUser => GateAction::QueryUser,
            GateStage::Decided => GateAction::Finished,
        }
    }

    /// Consumes the outcome of creating the privileged directory tree
    /// (the Windows gate's first step). Failure denies at once, with an
    /// instruction to re-run elevated.
    pub fn on_dir_created(&mut self, ok: bool)
        requires
            old(self).wf(),
            old(self).stage == GateStage::AwaitDir,
        ensures
            final(self).wf(),
            final(self).platform == old(self).platform,
            final(self).op == old(self).op,
            !final(self).probe_present@,
            ok ==> final(self).stage == GateStage::AwaitProbe && final(self).decision is None,
            !ok ==> final(self).stage == GateStage::Decided && final(self).decision == (Some(
                GateDecision {
                    allowed: false,
                    guidance: Some(
                        Guidance::RunAsAdministrator { op: old(self).op, at_dir: true },
                    ),
                },
            )),
    {
        if ok {
            self.stage = GateStage::AwaitProbe;
        } else {
            self.stage = GateStage::Decided;
            self.decision = Some(
                GateDecision {
                    allowed: false,
                    guidance: Some(Guidance::RunAsAdministrator { op: self.op, at_dir: true }),
                },
            );
        }
    }

    /// Consumes the outcome of writing the probe file. Success means the
    /// probe now exists and must be removed before the check can decide.
    /// Failure denies: at once on Windows; on Posix only after the user's
    /// identity has been consulted for the failure message.
    pub fn on_probe_written(&mut self, ok: bool)
        requires
            old(self).wf(),
            old(self).stage == GateStage::AwaitProbe,
        ensures
            final(self).wf(),
            final(self).platform == old(self).platform,
            final(self).op == old(self).op,
            ok ==> final(self).stage == GateStage::AwaitRemoval && final(self).probe_present@
                && final(self).decision is None,
            !ok && old(self).platform is Windows ==> final(self).stage == GateStage::Decided
                && !final(self).probe_present@ && final(self).decision == (Some(
                GateDecision {
                    allowed: false,
                    guidance: Some(
                        Guidance::RunAsAdministrator { op: old(self).op, at_dir: false },
                    ),
                },
            )),
            !ok && old(self).platform is Posix ==> final(self).stage == GateStage::AwaitUser
                && !final(self).probe_present@ && final(self).decision is None,
    {
        if ok {
            self.stage = GateStage::AwaitRemoval;
            self.probe_present = Ghost(true);
        } else {
            match self.platform {
                Platform::Windows => {
                    self.stage = GateStage::Decided;
                    self.decision = Some(
                        GateDecision {
                            allowed: false,
                            guidance: Some(
                                Guidance::RunAsAdministrator { op: self.op, at_dir: false },
                            ),
                        },
                    );
                },
                Platform::Posix => {
                    self.stage = GateStage::AwaitUser;
                },
            }
        }
    }

    /// Consumes the removal of the probe file. The preflight then allows the
    /// operation: both probes succeeded.
    pub fn on_probe_removed(&mut self)
        requires
            old(self).wf(),
            old(self).stage == GateStage::AwaitRemoval,
        ensures
            final(self).wf(),
            final(self).platform == old(self).platform,
            final(self).op == old(self).op,
            !final(self).probe_present@,
            final(self).stage == GateStage::Decided,
            final(self).decision == (Some(GateDecision { allowed: true, guidance: None })),
    {
        self.stage = GateStage::Decided;
        self.probe_present = Ghost(false);
        self.decision = Some(GateDecision { allowed: true, guidance: None });
    }

    /// Consumes the invoking user's name after a failed Posix probe and
    /// denies: a root user whose probe still failed points to a broken
    /// filesystem, anyone else is told to re-run with elevation.
    pub fn on_user(&mut self, user: Option<String>)
        requires
            old(self).wf(),
            old(self).stage == GateStage::AwaitUser,
        ensures
            final(self).wf(),
            final(self).platform == old(self).platform,
            final(self).op == old(self).op,
            !final(self).probe_present@,
            final(self).stage == GateStage::Decided,
            final(self).decision == (Some(
                GateDecision {
                    allowed: false,
                    guidance: Some(
                        if user matches Some(u) && u@ == "root"@ {
                            Guidance::CheckFilesystem
                        } else {
                            Guidance::RunWithSudo { op: old(self).op }
                        },
                    ),
                },
            )),
    {
        let is_root = match &user {
            Some(u) => *u == String::from_str("root"),
            None => false,
        };
        self.stage = GateStage::Decided;
        self.decision = Some(
            GateDecision {
                allowed: false,
                guidance: Some(
                    if is_root {
                        Guidance::CheckFilesystem
                    } else {
                        Guidance::RunWithSudo { op: self.op }
                    },
                ),
            },
        );
    }

    /// The verdict, once the preflight has decided.
    pub fn verdict(&self) -> (r: GateDecision)
        requires
            self.wf(),
            self.stage == GateStage::Decided,
        ensures
            Some(r) == self.decision,
    {
        match &self.decision {
            Some(d) => GateDecision { allowed: d.allowed, guidance: d.guidance },
            None => GateDecision { allowed: false, guidance: None },
        }
    }
}

/// The Windows variant of the preflight: create the privileged directory tree,
/// then create and delete a probe file inside it.
pub fn check_windows_admin_permissions(op: Operation) -> (g: Gate)
    ensures
        g.wf(),
        g.platform == Platform::Windows,
        g.op == op,
        g.stage == GateStage::AwaitDir,
        g.decision is None,
        !g.probe_present@,
{
    Gate {
        platform: Platform::Windows,
        op,
        stage: GateStage::AwaitDir,
        decision: None,
        probe_present: Ghost(false),
    }
}

/// The Posix variant of the preflight: create and immediately delete a hidden
/// probe file inside the privileged directory.
pub fn check_linux_permissions(op: Operation) -> (g: Gate)
    ensures
        g.wf(),
        g.platform == Platform::Posix,
        g.op == op,
        g.stage == GateStage::AwaitProbe,
        g.decision is None,
        !g.probe_present@,
{
    Gate {
        platform: Platform::Posix,
        op,
        stage: GateStage::AwaitProbe,
        decision: None,
        probe_present: Ghost(false),
    }
}

/// The preflight guarding an install, for the given platform.
pub fn check_install_permissions(platform: Platform) -> (g: Gate)
    ensures
        g.wf(),
        g.platform == platform,
        g.op == Operation::Install,
        g.decision is None,
        !g.probe_present@,
        platform is Windows ==> g.stage == GateStage::AwaitDir,
        platform is Posix ==> g.stage == GateStage::AwaitProbe,
{
    match platform {
        Platform::Windows => check_windows_admin_permissions(Operation::Install),
        Platform::Posix => check_linux_permissions(Operation::Install),
    }
}

/// The preflight guarding an uninstall, for the given platform.
pub fn check_uninstall_permissions(platform: Platform) -> (g: Gate)
    ensures
        g.wf(),
        g.platform == platform,
        g.op == Operation::Uninstall,
        g.decision is None,
        !g.probe_present@,
        platform is Windows ==> g.stage == GateStage::AwaitDir,
        platform is Posix ==> g.stage == GateStage::AwaitProbe,
{
    match platform {
        Platform::Windows => check_windows_admin_permissions(Operation::Uninstall),
        Platform::Posix => check_linux_permissions(Operation::Uninstall),
    }
}

/// The permission gate never leaves its probe file behind: on the success
/// path the probe was removed before the check allowed the operation, and
/// on every failure path no probe exists either. Whenever a well-formed
/// gate has decided, the probe file is gone.
pub proof fn lemma_gate_leaves_no_probe(g: Gate)
    requires
        g.wf(),
        g.stage is Decided,
    ensures
        !g.probe_present@,
{
}

/// How the preflight must decide, given the outcome of each probe it may
/// perform: on Windows the directory creation and then the probe write
/// must both succeed; on Posix the probe write alone decides, and a
/// failure is blamed on the filesystem for `root` and on missing
/// elevation for anyone else.
pub open spec fn gate_outcome_spec(
    platform: Platform,
    op: Operation,
    dir_ok: bool,
    probe_ok: bool,
    user: Option<String>,
) -> GateDecision {
    match platform {
        Platform::Windows => if !dir_ok {
            GateDecision {
                allowed: false,
                guidance: Some(Guidance::RunAsAdministrator { op, at_dir: true }),
            }
        } else if !probe_ok {
            GateDecision {
                allowed: false,
                guidance: Some(Guidance::RunAsAdministrator { op, at_dir: false }),
            }
        } else {
            GateDecision { allowed: true, guidance: None }
        },
        Platform::Posix => if probe_ok {
            GateDecision { allowed: true, guidance: None }
        } else if user matches Some(u) && u@ == "root"@ {
            GateDecision { allowed: false, guidance: Some(Guidance::CheckFilesystem) }
        } else {
            GateDecision { allowed: false, guidance: Some(Guidance::RunWithSudo { op }) }
        },
    }
}

fn clone_user(user: &Option<String>) -> (r: Option<String>)
    ensures
        r == *user,
{
    match user {
        Some(u) => Some(u.clone()),
        None => None,
    }
}

/// Runs a whole preflight against recorded probe outcomes: the machine
/// driven from its first probe to its decision. `dir_ok` is consulted
/// only on Windows, `user` only on Posix and only after a failed probe.
pub fn run_gate(
    platform: Platform,
    op: Operation,
    dir_ok: bool,
    probe_ok: bool,
    user: &Option<String>,
) -> (r: GateDecision)
    ensures
        r == gate_outcome_spec(platform, op, dir_ok, probe_ok, *user),
{
    let mut g = match op {
        Operation::Install => check_install_permissions(platform),
        Operation::Uninstall => check_uninstall_permissions(platform),
    };
    if g.stage == GateStage::AwaitDir {
        g.on_dir_created(dir_ok);
    }
    if g.stage == GateStage::AwaitProbe {
        g.on_probe_written(probe_ok);
    }
    if g.stage == GateStage::AwaitRemoval {
        g.on_probe_removed();
    }
    if g.stage == GateStage::AwaitUser {
        g.on_user(clone_user(user));
    }
    g.verdict()
}

/// The first error line of an administrator denial, by operation and by
/// whether the directory creation or the probe write failed.
pub open spec fn admin_error_line(op: Operation, at_dir: bool) -> Seq<char> {
    if at_dir {
        match op {
            Operation::Install => "Error: Insufficient permissions to create installation directory."@,
            Operation::Uninstall => "Error: Insufficient permissions to access installation directory."@,
        }
    } else {
        match op {
            Operation::Install => "Error: Insufficient permissions to install packages."@,
            Operation::Uninstall => "Error: Insufficient permissions to uninstall packages."@,
        }
    }
}

/// The first error line of a Posix elevation denial.
pub open spec fn sudo_error_line(op: Operation) -> Seq<char> {
    match op {
        Operation::Install => "Error: Insufficient permissions to install packages to /bin."@,
        Operation::Uninstall => "Error: Insufficient permissions to uninstall packages from /bin."@,
    }
}

/// The command suggested by a Posix elevation denial.
pub open spec fn sudo_command_line(op: Operation) -> Seq<char> {
    match op {
        Operation::Install => "  sudo tupm install <package>"@,
        Operation::Uninstall => "  sudo tupm uninstall <package>"@,
    }
}

/// The lines of the message owed for a denial, exactly as the guidance
/// demands them.
pub fn guidance_lines(g: &Guidance) -> (r: Vec<String>)
    ensures
        match *g {
            Guidance::RunAsAdministrator { op, at_dir } => r@.len() == 3 && r@[0]@
                == admin_error_line(op, at_dir) && r@[1]@
                == "Please run this program as Administrator."@ && r@[2]@
                == "Right-click on Command Prompt or PowerShell and select 'Run as Administrator'."@,
            Guidance::CheckFilesystem => r@.len() == 2 && r@[0]@
                == "Error: Unable to write to /bin directory even as root."@ && r@[1]@
                == "Please check filesystem permissions."@,
            Guidance::RunWithSudo { op } => r@.len() == 3 && r@[0]@ == sudo_error_line(op) && r@[1]@
                == "Please run this program with sudo:"@ && r@[2]@ == sudo_command_line(op),
        },
{
    let mut r: Vec<String> = Vec::new();
    match g {
        Guidance::RunAsAdministrator { op, at_dir } => {
            if *at_dir {
                match op {
                    Operation::Install => r.push(
                        String::from_str(
                            "Error: Insufficient permissions to create installation directory.",
                        ),
                    ),
                    Operation::Uninstall => r.push(
                        String::from_str(
                            "Error: Insufficient permissions to access installation directory.",
                        ),
                    ),
                }
            } else {
                match op {
                    Operation::Install => r.push(
                        String::from_str("Error: Insufficient permissions to install packages."),
                    ),
                    Operation::Uninstall => r.push(
                        String::from_str("Error: Insufficient permissions to uninstall packages."),
                    ),
                }
            }
            r.push(String::from_str("Please run this program as Administrator."));
            r.push(
                String::from_str(
                    "Right-click on Command Prompt or PowerShell and select 'Run as Administrator'.",
                ),
            );
        },
        Guidance::CheckFilesystem => {
            r.push(String::from_str("Error: Unable to write to /bin directory even as root."));
            r.push(String::from_str("Please check filesystem permissions."));
        },
        Guidance::RunWithSudo { op } => {
            match op {
                Operation::Install => r.push(
                    String::from_str("Error: Insufficient permissions to install packages to /bin."),
                ),
                Operation::Uninstall => r.push(
                    String::from_str(
                        "Error: Insufficient permissions to uninstall packages from /bin.",
                    ),
                ),
            }
            r.push(String::from_str("Please run this program with sudo:"));
            match op {
                Operation::Install => r.push(String::from_str("  sudo tupm install <package>")),
                Operation::Uninstall => r.push(String::from_str("  sudo tupm uninstall <package>")),
            }
        },
    }
    r
}

} // verus!
