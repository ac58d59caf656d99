//! The three-way platform partition and the profile derived from it.
//!
//! Every OS-dependent choice the installer makes — archive format,
//! architecture label, start-script names, whether the redistributable
//! helper runs — is decided here, once, and read everywhere else.

use vstd::prelude::*;
use vstd::string::StringExecFns;
use crate::text::str_eq;

verus! {

broadcast use vstd::string::group_string_axioms;

/// The operating-system family the installer targets. Anything that is
/// neither Windows nor macOS is served the Linux artifacts.
#[derive(Clone, Copy, Debug, PartialEq, Eq, Structural)]
pub enum Os {
    Windows,
    MacOs,
    Other,
}

/// The platform label that names the runtime artifact.
pub open spec fn spec_os_label(os: Os) -> Seq<char> {
    match os {
        Os::Windows => "Windows"@,
        Os::MacOs => "MacOS"@,
        Os::Other => "Linux"@,
    }
}

/// The architecture label that names the runtime artifact.
pub open spec fn spec_arch_label(os: Os) -> Seq<char> {
    match os {
        Os::Windows => "x64"@,
        Os::MacOs => "x86_64"@,
        Os::Other => "x86_64"@,
    }
}

/// The archive extension of the runtime artifact.
pub open spec fn spec_archive_ext(os: Os) -> Seq<char> {
    match os {
        Os::Windows => "zip"@,
        Os::MacOs => "tar.gz"@,
        Os::Other => "tar.gz"@,
    }
}

/// The start script the launcher spawns.
pub open spec fn spec_launcher_name(os: Os) -> Seq<char> {
    match os {
        Os::Windows => "start.cmd"@,
        Os::MacOs => "start.sh"@,
        Os::Other => "start.sh"@,
    }
}

/// The start scripts the application workflow downloads: Windows needs two
/// distinct scripts, every other platform exactly one.
pub open spec fn spec_script_names(os: Os) -> Seq<Seq<char>> {
    match os {
        Os::Windows => seq!["start.cmd"@, "start.ps1"@],
        Os::MacOs => seq!["start.sh"@],
        Os::Other => seq!["start.sh"@],
    }
}

/// Platform policy resolved once and threaded through both workflows.
pub struct PlatformProfile {
    pub os: Os,
    pub os_label: String,
    pub arch_label: String,
    pub archive_ext: String,
    pub launcher_script: String,
    pub needs_redistributable: bool,
}

impl PlatformProfile {
    /// The profile's fields agree with the platform policy for its OS.
    pub open spec fn wf(&self) -> bool {
        &&& self.os_label@ == spec_os_label(self.os)
        &&& self.arch_label@ == spec_arch_label(self.os)
        &&& self.archive_ext@ == spec_archive_ext(self.os)
        &&& self.launcher_script@ == spec_launcher_name(self.os)
        &&& self.needs_redistributable == (self.os is Windows)
    }

    /// Resolve the profile for an OS: Windows gets (Windows, x64, zip),
    /// macOS gets (MacOS, x86_64, tar.gz), anything else
    /// (Linux, x86_64, tar.gz). Only Windows runs the redistributable.
    pub fn resolve(os: Os) -> (p: PlatformProfile)
        ensures
            p.os == os,
            p.wf(),
    {
        match os {
            Os::Windows => PlatformProfile {
                os: os,
                os_label: String::from_str("Windows"),
                arch_label: String::from_str("x64"),
                archive_ext: String::from_str("zip"),
                launcher_script: String::from_str("start.cmd"),
                needs_redistributable: true,
            },
            Os::MacOs => PlatformProfile {
                os: os,
                os_label: String::from_str("MacOS"),
                arch_label: String::from_str("x86_64"),
                archive_ext: String::from_str("tar.gz"),
                launcher_script: String::from_str("start.sh"),
                needs_redistributable: false,
            },
            Os::Other => PlatformProfile {
                os: os,
                os_label: String::from_str("Linux"),
                arch_label: String::from_str("x86_64"),
                archive_ext: String::from_str("tar.gz"),
                launcher_script: String::from_str("start.sh"),
                needs_redistributable: false,
            },
        }
    }
}

/// Classify a platform name as std::env::consts::OS reports it:
/// "windows" and "macos" are recognized, everything else falls to Other.
pub fn os_from_name(name: &str) -> (os: Os)
    ensures
        name@ == "windows"@ ==> os is Windows,
        name@ == "macos"@ ==> os is MacOs,
        name@ != "windows"@ && name@ != "macos"@ ==> os is Other,
{
    proof {
        reveal_strlit("windows");
        reveal_strlit("macos");
        assert("windows"@.len() == 7);
        assert("macos"@.len() == 5);
        assert("windows"@ != "macos"@);
    }
    if str_eq(name, "windows") {
        Os::Windows
    } else if str_eq(name, "macos") {
        Os::MacOs
    } else {
        Os::Other
    }
}

/// Law: the runtime artifact's platform triple is an exhaustive three-way
/// partition — Windows gets zip/x64, macOS tar.gz/x86_64 under the MacOS
/// label, and every other OS tar.gz/x86_64 under the Linux label; no fourth
/// case exists.
pub proof fn lemma_runtime_platform_partition(os: Os)
    ensures
        os is Windows ==> spec_os_label(os) == "Windows"@ && spec_arch_label(os) == "x64"@
            && spec_archive_ext(os) == "zip"@,
        os is MacOs ==> spec_os_label(os) == "MacOS"@ && spec_arch_label(os) == "x86_64"@
            && spec_archive_ext(os) == "tar.gz"@,
        os !is Windows && os !is MacOs ==> spec_os_label(os) == "Linux"@ && spec_arch_label(os)
            == "x86_64"@ && spec_archive_ext(os) == "tar.gz"@,
{
}

} // verus!
