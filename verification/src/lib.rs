//! A minimal package installer: resolves a download URL for a package name
//! by querying an ordered list of remote source manifests, then installs the
//! artifact into a fixed privileged directory (or removes it again).
//!
//! The library holds the decision logic: configuration parsing, ordered
//! source resolution, the permission preflight protocol, and the
//! install/uninstall state machines. All I/O (file system, network fetch,
//! environment) is performed by the surrounding application, which drives
//! the state machines here with the outcomes it observed.

use vstd::prelude::*;

pub mod cli;
pub mod config;
pub mod flow;
pub mod gate;
pub mod manifest;
pub mod parser;
pub mod paths;
pub mod resolver;

verus! {

/// The host platform, chosen once at startup by a runtime platform query.
#[derive(Clone, Copy, Debug, PartialEq, Eq, Structural)]
pub enum Platform {
    Windows,
    Posix,
}

/// The two privileged operations the permission gate guards.
#[derive(Clone, Copy, Debug, PartialEq, Eq, Structural)]
pub enum Operation {
    Install,
    Uninstall,
}

} // verus!
