//! URL resolution: pure string composition from version and platform to
//! download URLs and destination file names. Resolution cannot fail; an
//! invalid version string only surfaces later as a fetch failure.

use vstd::prelude::*;
use vstd::string::StringExecFns;
use crate::platform::{Os, spec_os_label, spec_arch_label, spec_archive_ext, spec_script_names};
use crate::text::str_eq;

verus! {

/// One downloadable artifact: where it lives and what it is saved as.
#[derive(Clone, Debug)]
pub struct ResolvedArtifact {
    pub url: String,
    pub local_file_name: String,
}

/// The continuous-build endpoint for an application artifact: the latest
/// successful automated build, not a pinned tag.
pub open spec fn continuous_build_url(file: Seq<char>) -> Seq<char> {
    "https://jenkins.pmmp.io/job/PocketMine-MP/Stable/artifact/"@ + file
}

/// The tagged-release endpoint for an application artifact pinned to an
/// explicit release tag.
pub open spec fn tagged_release_url(version: Seq<char>, file: Seq<char>) -> Seq<char> {
    "https://github.com/pmmp/PocketMine-MP/releases/download/"@ + version + "/"@ + file
}

/// Which endpoint an application artifact comes from: the sentinel version
/// "Stable" selects the continuous build, anything else the tagged release.
pub open spec fn application_url(version: Seq<char>, file: Seq<char>) -> Seq<char> {
    if version == "Stable"@ {
        continuous_build_url(file)
    } else {
        tagged_release_url(version, file)
    }
}

/// The file name of the runtime archive: version, platform label,
/// architecture and extension are all embedded to avoid collisions.
pub open spec fn runtime_archive_name(version: Seq<char>, os: Os) -> Seq<char> {
    "PHP-"@ + version + "-"@ + spec_os_label(os) + "-"@ + spec_arch_label(os) + "."@
        + spec_archive_ext(os)
}

/// The runtime artifact's URL: always the latest successful continuous
/// build for the given runtime version and platform triple.
pub open spec fn runtime_url(version: Seq<char>, os: Os) -> Seq<char> {
    "https://jenkins.pmmp.io/job/PHP-"@ + version + "-Aggregate/lastSuccessfulBuild/artifact/"@
        + runtime_archive_name(version, os)
}

/// A file name under the target directory.
pub open spec fn joined_path(dir: Seq<char>, file: Seq<char>) -> Seq<char> {
    dir + "/"@ + file
}

/// Every file the application workflow downloads: the main payload first,
/// then the platform start scripts.
pub open spec fn application_file_names(os: Os) -> Seq<Seq<char>> {
    seq!["PocketMine-MP.phar"@] + spec_script_names(os)
}

/// Whether this version string is the sentinel that selects the
/// continuous build.
pub fn is_stable_version(version: &str) -> (r: bool)
    ensures
        r == (version@ == "Stable"@),
{
    str_eq(version, "Stable")
}

/// Join a file name onto the target directory.
pub fn join_path(dir: &str, file: &str) -> (r: String)
    ensures
        r@ == joined_path(dir@, file@),
{
    let mut s = String::from_str(dir);
    s.append("/");
    s.append(file);
    s
}

/// Resolve one application artifact: its URL follows the stable/tagged
/// branching, its local name is the canonical file name itself.
pub fn resolve_application_artifact(version: &str, file: &str) -> (a: ResolvedArtifact)
    ensures
        a.url@ == application_url(version@, file@),
        a.local_file_name@ == file@,
{
    let url: String = if is_stable_version(version) {
        let mut u = String::from_str("https://jenkins.pmmp.io/job/PocketMine-MP/Stable/artifact/");
        u.append(file);
        u
    } else {
        let mut u = String::from_str("https://github.com/pmmp/PocketMine-MP/releases/download/");
        u.append(version);
        u.append("/");
        u.append(file);
        u
    };
    ResolvedArtifact { url, local_file_name: String::from_str(file) }
}

/// Resolve every artifact of the application workflow: the payload and the
/// platform start scripts, each under the stable/tagged branching for the
/// requested version.
pub fn resolve_application(version: &str, os: Os) -> (arts: Vec<ResolvedArtifact>)
    ensures
        arts@.len() == application_file_names(os).len(),
        forall|i: int| 0 <= i < arts@.len() ==> {
            &&& (#[trigger] arts@[i]).local_file_name@ == application_file_names(os)[i]
            &&& arts@[i].url@ == application_url(version@, application_file_names(os)[i])
        },
{
    let mut arts: Vec<ResolvedArtifact> = Vec::new();
    arts.push(resolve_application_artifact(version, "PocketMine-MP.phar"));
    match os {
        Os::Windows => {
            arts.push(resolve_application_artifact(version, "start.cmd"));
            arts.push(resolve_application_artifact(version, "start.ps1"));
        },
        Os::MacOs => {
            arts.push(resolve_application_artifact(version, "start.sh"));
        },
        Os::Other => {
            arts.push(resolve_application_artifact(version, "start.sh"));
        },
    }
    proof {
        assert(application_file_names(os) =~= seq!["PocketMine-MP.phar"@] + spec_script_names(os));
    }
    arts
}

/// Resolve the single runtime artifact: a continuous-build archive named by
/// the runtime version and the platform triple.
pub fn resolve_runtime(version: &str, os: Os) -> (a: ResolvedArtifact)
    ensures
        a.url@ == runtime_url(version@, os),
        a.local_file_name@ == runtime_archive_name(version@, os),
{
    let profile = crate::platform::PlatformProfile::resolve(os);
    let mut name = String::from_str("PHP-");
    name.append(version);
    name.append("-");
    name.append(profile.os_label.as_str());
    name.append("-");
    name.append(profile.arch_label.as_str());
    name.append(".");
    name.append(profile.archive_ext.as_str());
    let mut url = String::from_str("https://jenkins.pmmp.io/job/PHP-");
    url.append(version);
    url.append("-Aggregate/lastSuccessfulBuild/artifact/");
    url.append(name.as_str());
    ResolvedArtifact { url, local_file_name: name }
}

/// Law: the sentinel version selects the continuous-build endpoint for
/// every artifact, never the tagged-release endpoint.
pub proof fn lemma_stable_selects_continuous_build(version: Seq<char>, file: Seq<char>)
    requires
        version == "Stable"@,
    ensures
        application_url(version, file) == continuous_build_url(file),
{
}

/// Law: an explicit tag selects the tagged-release endpoint for every
/// artifact requested under that version.
pub proof fn lemma_tag_selects_tagged_release(version: Seq<char>, file: Seq<char>)
    requires
        version != "Stable"@,
    ensures
        application_url(version, file) == tagged_release_url(version, file),
{
}

/// Law: resolution is deterministic — equal inputs always yield equal
/// destination file names and equal URLs.
pub proof fn lemma_resolution_deterministic(v1: Seq<char>, v2: Seq<char>, os1: Os, os2: Os)
    requires
        v1 == v2,
        os1 == os2,
    ensures
        runtime_archive_name(v1, os1) == runtime_archive_name(v2, os2),
        runtime_url(v1, os1) == runtime_url(v2, os2),
        application_file_names(os1) == application_file_names(os2),
        forall|file: Seq<char>|
            application_url(v1, file) == application_url(v2, file),
{
}

} // verus!
