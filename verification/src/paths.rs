//! The platform-conditional filesystem locations: the privileged binary
//! directory, the install target path for a package, and the permission
//! probe file used by the preflight check.

use vstd::prelude::*;
use vstd::string::*;

use crate::Platform;

verus! {

/// The privileged directory that installed artifacts are placed in.
pub open spec fn bin_dir_spec(platform: Platform) -> Seq<char> {
    match platform {
        Platform::Windows => "C:\\Program Files\\TUPM-Apps\\bin"@,
        Platform::Posix => "/bin"@,
    }
}

pub fn bin_dir(platform: Platform) -> (r: String)
    ensures
        r@ == bin_dir_spec(platform),
{
    match platform {
        Platform::Windows => String::from_str("C:\\Program Files\\TUPM-Apps\\bin"),
        Platform::Posix => String::from_str("/bin"),
    }
}

/// The absolute path an installed package is placed at: the privileged
/// directory, the platform's separator, then the package name.
pub open spec fn target_path_spec(platform: Platform, package: Seq<char>) -> Seq<char> {
    match platform {
        Platform::Windows => "C:\\Program Files\\TUPM-Apps\\bin\\"@ + package,
        Platform::Posix => "/bin/"@ + package,
    }
}

pub fn target_path(platform: Platform, package: &str) -> (r: String)
    ensures
        r@ == target_path_spec(platform, package@),
{
    match platform {
        Platform::Windows => String::from_str("C:\\Program Files\\TUPM-Apps\\bin\\").concat(
            package,
        ),
        Platform::Posix => String::from_str("/bin/").concat(package),
    }
}

/// The hidden probe file the permission gate creates and deletes inside
/// the privileged directory.
pub open spec fn probe_path_spec(platform: Platform) -> Seq<char> {
    match platform {
        Platform::Windows => "C:\\Program Files\\TUPM-Apps\\bin\\test_permissions"@,
        Platform::Posix => "/bin/.tupm_permission_test"@,
    }
}

pub fn probe_path(platform: Platform) -> (r: String)
    ensures
        r@ == probe_path_spec(platform),
{
    match platform {
        Platform::Windows => String::from_str("C:\\Program Files\\TUPM-Apps\\bin\\test_permissions"),
        Platform::Posix => String::from_str("/bin/.tupm_permission_test"),
    }
}

} // verus!
