//! The install and uninstall workflows, as state machines.
//!
//! Each step of the original flow that touches the outside world — the
//! permission gate's probes, reading the configuration, fetching a
//! manifest, running the transfer utility, marking the file executable,
//! removing the target — is an event the application reports back; the
//! machine holds every decision in between. Every abort short-circuits the
//! remaining steps, and no partial clean-up is attempted.

use vstd::prelude::*;

use crate::manifest::body_lookup;
use crate::parser::{parse_sources, parse_spec, views_of};
use crate::paths::{target_path, target_path_spec};
use crate::resolver::{clone_body, lemma_resolve_spec_take, resolve_spec, Resolution};
use crate::Platform;

verus! {

#[derive(Clone, Copy, Debug, PartialEq, Eq, Structural)]
pub enum FlowStage {
    AwaitGate,
    AwaitConfig,
    Resolving,
    AwaitFetch,
    AwaitChmod,
    Done,
}

/// How an install run ends.
#[derive(Clone, Copy, Debug, PartialEq, Eq, Structural)]
pub enum InstallOutcome {
    PermissionDenied,
    ConfigFailure,
    NoSources,
    NotFound,
    FetchFailed,
    Installed,
}

/// One install run: gate, configuration, ordered resolution, transfer,
/// and (on Posix) the best-effort executable bit.
pub struct InstallFlow {
    pub platform: Platform,
    pub package: String,
    pub stage: FlowStage,
    pub resolution: Resolution,
    pub url: Option<String>,
    pub outcome: Option<InstallOutcome>,
}

impl InstallFlow {
    pub open spec fn wf(&self) -> bool {
        &&& (self.stage is Done <==> self.outcome is Some)
        &&& (self.stage is Resolving ==> self.resolution.wf() && self.resolution.package
            == self.package && self.resolution.next < self.resolution.sources@.len())
        &&& (self.stage is AwaitFetch || self.stage is AwaitChmod ==> self.url is Some)
        &&& (self.stage is AwaitChmod ==> self.platform is Posix)
    }

    /// A fresh install run, waiting for the permission gate's verdict.
    pub fn new(platform: Platform, package: String) -> (r: Self)
        ensures
            r.wf(),
            r.platform == platform,
            r.package == package,
            r.stage == FlowStage::AwaitGate,
            r.outcome is None,
            r.url is None,
    {
        InstallFlow {
            platform,
            package,
            stage: FlowStage::AwaitGate,
            resolution: Resolution::new(Vec::new(), String::new()),
            url: None,
            outcome: None,
        }
    }

    /// The path the artifact will be placed at.
    pub fn target(&self) -> (r: String)
        ensures
            r@ == target_path_spec(self.platform, self.package@),
    {
        target_path(self.platform, self.package.as_str())
    }

    /// Consumes the permission gate's verdict. A denial aborts before any
    /// further step; no network access or file change happens.
    pub fn on_gate(&mut self, allowed: bool)
        requires
            old(self).wf(),
            old(self).stage == FlowStage::AwaitGate,
        ensures
            final(self).wf(),
            final(self).platform == old(self).platform,
            final(self).package == old(self).package,
            !allowed ==> final(self).stage == FlowStage::Done && final(self).outcome == (Some(
                InstallOutcome::PermissionDenied,
            )),
            allowed ==> final(self).stage == FlowStage::AwaitConfig && final(self).outcome is None,
    {
        if allowed {
            self.stage = FlowStage::AwaitConfig;
        } else {
            self.stage = FlowStage::Done;
            self.outcome = Some(InstallOutcome::PermissionDenied);
        }
    }

    /// Consumes the configuration text the store produced (`None` when
    /// even the self-healing initialization failed). An unparsable or
    /// empty source list is a hard failure before any network access;
    /// otherwise resolution starts at the first declared source.
    pub fn on_config(&mut self, text: Option<String>)
        requires
            old(self).wf(),
            old(self).stage == FlowStage::AwaitConfig,
        ensures
            final(self).wf(),
            final(self).platform == old(self).platform,
            final(self).package == old(self).package,
            (match text {
                None => final(self).stage == FlowStage::Done && final(self).outcome == (Some(
                    InstallOutcome::ConfigFailure,
                )),
                Some(t) => if parse_spec(t@).len() == 0 {
                    final(self).stage == FlowStage::Done && final(self).outcome == (Some(
                        InstallOutcome::NoSources,
                    ))
                } else {
                    final(self).stage == FlowStage::Resolving && final(self).outcome is None
                        && views_of(final(self).resolution.sources@) == parse_spec(t@)
                        && final(self).resolution.next == 0 && final(self).resolution.offered@
                        == Seq::<Option<String>>::empty()
                        && final(self).resolution.package == old(self).package
                },
            }),
    {
        match &text {
            None => {
                self.stage = FlowStage::Done;
                self.outcome = Some(InstallOutcome::ConfigFailure);
            },
            Some(t) => match parse_sources(t.as_str()) {
                Err(_) => {
                    self.stage = FlowStage::Done;
                    self.outcome = Some(InstallOutcome::NoSources);
                },
                Ok(sources) => {
                    proof {
                        assert(views_of(sources@).len() == sources@.len());
                    }
                    self.resolution = Resolution::new(sources, self.package.clone());
                    self.stage = FlowStage::Resolving;
                },
            },
        }
    }

    /// The URL of the source manifest to fetch next.
    pub fn current_request(&self) -> (r: String)
        requires
            self.resolution.next < self.resolution.sources@.len(),
        ensures
            r == self.resolution.sources@[self.resolution.next as int],
    {
        self.resolution.pending_source()
    }

    /// Consumes one manifest fetch outcome. The first source that yields
    /// the package wins and resolution stops; a miss moves on, and a miss
    /// on the last source ends the run with "not found".
    pub fn on_manifest(&mut self, body: Option<String>)
        requires
            old(self).wf(),
            old(self).stage == FlowStage::Resolving,
        ensures
            final(self).wf(),
            final(self).platform == old(self).platform,
            final(self).package == old(self).package,
            final(self).resolution.sources == old(self).resolution.sources,
            final(self).resolution.package == old(self).resolution.package,
            final(self).resolution.offered@ == old(self).resolution.offered@.push(body),
            (match body_lookup(body, old(self).package@) {
                Some(u) => final(self).stage == FlowStage::AwaitFetch && final(self).url == Some(u)
                    && final(self).outcome is None && resolve_spec(
                    final(self).resolution.offered@,
                    old(self).package@,
                ) == Some(u),
                None => if old(self).resolution.next + 1 == old(self).resolution.sources@.len() {
                    final(self).stage == FlowStage::Done && final(self).outcome == (Some(
                        InstallOutcome::NotFound,
                    )) && resolve_spec(final(self).resolution.offered@, old(self).package@) is None
                        && final(self).resolution.offered@.len()
                        == final(self).resolution.sources@.len()
                } else {
                    final(self).stage == FlowStage::Resolving && final(self).outcome is None
                        && final(self).resolution.next == old(self).resolution.next + 1
                },
            }),
    {
        let offered = clone_body(&body);
        let found = self.resolution.offer(offered);
        match found {
            Some(u) => {
                self.url = Some(u);
                self.stage = FlowStage::AwaitFetch;
            },
            None => {
                if self.resolution.exhausted() {
                    self.stage = FlowStage::Done;
                    self.outcome = Some(InstallOutcome::NotFound);
                }
            },
        }
    }

    /// Consumes the transfer utility's exit status. A non-zero exit is a
    /// fatal fetch failure; on success, Posix still owes the executable
    /// bit while Windows is done.
    pub fn on_fetch(&mut self, ok: bool)
        requires
            old(self).wf(),
            old(self).stage == FlowStage::AwaitFetch,
        ensures
            final(self).wf(),
            final(self).platform == old(self).platform,
            final(self).package == old(self).package,
            final(self).url == old(self).url,
            !ok ==> final(self).stage == FlowStage::Done && final(self).outcome == (Some(
                InstallOutcome::FetchFailed,
            )),
            ok && old(self).platform is Windows ==> final(self).stage == FlowStage::Done
                && final(self).outcome == (Some(InstallOutcome::Installed)),
            ok && old(self).platform is Posix ==> final(self).stage == FlowStage::AwaitChmod
                && final(self).outcome is None,
    {
        if !ok {
            self.stage = FlowStage::Done;
            self.outcome = Some(InstallOutcome::FetchFailed);
        } else {
            match self.platform {
                Platform::Windows => {
                    self.stage = FlowStage::Done;
                    self.outcome = Some(InstallOutcome::Installed);
                },
                Platform::Posix => {
                    self.stage = FlowStage::AwaitChmod;
                },
            }
        }
    }

    /// Consumes the outcome of marking the artifact executable. The step
    /// is best-effort: its failure is logged by the application but never
    /// reverts the install.
    pub fn on_chmod(&mut self, _ok: bool)
        requires
            old(self).wf(),
            old(self).stage == FlowStage::AwaitChmod,
        ensures
            final(self).wf(),
            final(self).platform == old(self).platform,
            final(self).package == old(self).package,
            final(self).stage == FlowStage::Done,
            final(self).outcome == (Some(InstallOutcome::Installed)),
    {
        self.stage = FlowStage::Done;
        self.outcome = Some(InstallOutcome::Installed);
    }
}

/// `bodies` extended with "unreachable" to length `n`: the fetch outcome
/// recorded for each of `n` sources when only the first `bodies.len()`
/// outcomes were observed.
pub open spec fn padded(bodies: Seq<Option<String>>, n: nat) -> Seq<Option<String>> {
    Seq::new(n, |i: int| if 0 <= i < bodies.len() { bodies[i] } else { None })
}

/// How an install must end, given the environment's behaviour: the preflight's
/// verdict, the configuration text (or its absence), the fetch outcome of
/// each source in order, and the transfer utility's exit. The outcome does
/// not depend on the platform, nor on whether the executable bit could be
/// set.
pub open spec fn install_outcome_spec(
    package: Seq<char>,
    gate_ok: bool,
    config: Option<String>,
    bodies: Seq<Option<String>>,
    fetch_ok: bool,
) -> InstallOutcome {
    if !gate_ok {
        InstallOutcome::PermissionDenied
    } else if config is None {
        InstallOutcome::ConfigFailure
    } else if parse_spec(config.unwrap()@).len() == 0 {
        InstallOutcome::NoSources
    } else if resolve_spec(padded(bodies, parse_spec(config.unwrap()@).len()), package) is Some {
        if fetch_ok {
            InstallOutcome::Installed
        } else {
            InstallOutcome::FetchFailed
        }
    } else {
        InstallOutcome::NotFound
    }
}

/// Runs a whole install against recorded outcomes: the machine driven from
/// gate verdict to final outcome, with the fetch result of source `i`
/// taken from `bodies[i]` (missing entries count as unreachable sources).
pub fn run_install(
    platform: Platform,
    package: &String,
    gate_ok: bool,
    config: &Option<String>,
    bodies: &Vec<Option<String>>,
    fetch_ok: bool,
    chmod_ok: bool,
) -> (r: InstallOutcome)
    ensures
        r == install_outcome_spec(package@, gate_ok, *config, bodies@, fetch_ok),
{
    let mut flow = InstallFlow::new(platform, package.clone());
    flow.on_gate(gate_ok);
    if !gate_ok {
        return flow.outcome.unwrap();
    }
    let cfg = clone_body(config);
    if cfg.is_none() {
        flow.on_config(cfg);
        return flow.outcome.unwrap();
    }
    flow.on_config(cfg);
    if flow.stage == FlowStage::Done {
        return flow.outcome.unwrap();
    }
    let ghost srcs = parse_spec(config.unwrap()@);
    let ghost fed = padded(bodies@, srcs.len());
    proof {
        assert(fed.take(0) =~= Seq::<Option<String>>::empty());
    }
    let mut i: usize = 0;
    while flow.stage == FlowStage::Resolving
        invariant
            flow.wf(),
            flow.platform == platform,
            flow.package@ == package@,
            fed == padded(bodies@, srcs.len()),
            fed.len() == srcs.len(),
            bodies@.len() == bodies.len(),
            i <= srcs.len(),
            views_of(flow.resolution.sources@) == srcs,
            flow.stage == FlowStage::Resolving || flow.stage == FlowStage::AwaitFetch || flow.stage
                == FlowStage::Done,
            flow.stage == FlowStage::Resolving ==> flow.resolution.next == i
                && flow.resolution.offered@ == fed.take(i as int),
            flow.stage == FlowStage::AwaitFetch ==> flow.url is Some && resolve_spec(
                fed,
                package@,
            ) == flow.url,
            flow.stage == FlowStage::Done ==> flow.outcome == (Some(InstallOutcome::NotFound))
                && resolve_spec(fed, package@) is None,
        decreases srcs.len() - i,
    {
        let nsrc: usize = flow.resolution.sources.len();
        proof {
            assert(i < nsrc);
        }
        let body = if i < bodies.len() {
            clone_body(&bodies[i])
        } else {
            None
        };
        proof {
            assert(body == fed[i as int]);
        }
        flow.on_manifest(body);
        proof {
            assert(flow.resolution.offered@ =~= fed.take(i + 1));
            if flow.stage == FlowStage::AwaitFetch {
                lemma_resolve_spec_take(fed, package@, i + 1);
            }
            if flow.stage == FlowStage::Done {
                assert(fed.take(i + 1) =~= fed);
            }
        }
        i = i + 1;
    }
    if flow.stage == FlowStage::Done {
        return flow.outcome.unwrap();
    }
    flow.on_fetch(fetch_ok);
    if flow.stage == FlowStage::AwaitChmod {
        flow.on_chmod(chmod_ok);
    }
    flow.outcome.unwrap()
}

#[derive(Clone, Copy, Debug, PartialEq, Eq, Structural)]
pub enum UninstallStage {
    AwaitGate,
    AwaitRemove,
    Done,
}

/// How an uninstall run ends. A failed removal is reported, not a crash.
#[derive(Clone, Copy, Debug, PartialEq, Eq, Structural)]
pub enum UninstallOutcome {
    PermissionDenied,
    Removed,
    RemovalFailed,
}

/// One uninstall run: gate, then removal of the target file.
pub struct UninstallFlow {
    pub platform: Platform,
    pub package: String,
    pub stage: UninstallStage,
    pub outcome: Option<UninstallOutcome>,
}

impl UninstallFlow {
    pub open spec fn wf(&self) -> bool {
        self.stage is Done <==> self.outcome is Some
    }

    pub fn new(platform: Platform, package: String) -> (r: Self)
        ensures
            r.wf(),
            r.platform == platform,
            r.package == package,
            r.stage == UninstallStage::AwaitGate,
            r.outcome is None,
    {
        UninstallFlow { platform, package, stage: UninstallStage::AwaitGate, outcome: None }
    }

    /// The path of the file to remove.
    pub fn target(&self) -> (r: String)
        ensures
            r@ == target_path_spec(self.platform, self.package@),
    {
        target_path(self.platform, self.package.as_str())
    }

    /// Consumes the permission gate's verdict; a denial aborts before the
    /// removal is attempted.
    pub fn on_gate(&mut self, allowed: bool)
        requires
            old(self).wf(),
            old(self).stage == UninstallStage::AwaitGate,
        ensures
            final(self).wf(),
            final(self).platform == old(self).platform,
            final(self).package == old(self).package,
            !allowed ==> final(self).stage == UninstallStage::Done && final(self).outcome == (Some(
                UninstallOutcome::PermissionDenied,
            )),
            allowed ==> final(self).stage == UninstallStage::AwaitRemove
                && final(self).outcome is None,
    {
        if allowed {
            self.stage = UninstallStage::AwaitRemove;
        } else {
            self.stage = UninstallStage::Done;
            self.outcome = Some(UninstallOutcome::PermissionDenied);
        }
    }

    /// Consumes the outcome of removing the target file. A missing or
    /// unremovable target is reported as a removal failure; the run still
    /// ends normally.
    pub fn on_remove(&mut self, ok: bool)
        requires
            old(self).wf(),
            old(self).stage == UninstallStage::AwaitRemove,
        ensures
            final(self).wf(),
            final(self).platform == old(self).platform,
            final(self).package == old(self).package,
            final(self).stage == UninstallStage::Done,
            final(self).outcome == (Some(
                if ok {
                    UninstallOutcome::Removed
                } else {
                    UninstallOutcome::RemovalFailed
                },
            )),
    {
        self.stage = UninstallStage::Done;
        self.outcome = Some(
            if ok {
                UninstallOutcome::Removed
            } else {
                UninstallOutcome::RemovalFailed
            },
        );
    }
}

/// How an uninstall must end, given the preflight's verdict and the removal's
/// outcome.
pub open spec fn uninstall_outcome_spec(gate_ok: bool, remove_ok: bool) -> UninstallOutcome {
    if !gate_ok {
        UninstallOutcome::PermissionDenied
    } else if remove_ok {
        UninstallOutcome::Removed
    } else {
        UninstallOutcome::RemovalFailed
    }
}

/// Runs a whole uninstall against recorded outcomes.
pub fn run_uninstall(platform: Platform, package: &String, gate_ok: bool, remove_ok: bool) -> (r:
    UninstallOutcome)
    ensures
        r == uninstall_outcome_spec(gate_ok, remove_ok),
{
    let mut flow = UninstallFlow::new(platform, package.clone());
    flow.on_gate(gate_ok);
    if flow.stage == UninstallStage::AwaitRemove {
        flow.on_remove(remove_ok);
    }
    flow.outcome.unwrap()
}

} // verus!
