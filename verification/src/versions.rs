//! The daemon releases this crate knows, and what each of them understands.

use vstd::prelude::*;
use vstd::string::StringExecFns;

verus! {

/// The operating systems for which daemon executables are published.
#[derive(Debug, Clone, Copy, PartialEq, Eq, Structural)]
pub enum Os {
    Macos,
    Linux,
    Undefined,
}

/// The daemon releases for which executables are published.
#[derive(Debug, Clone, Copy, PartialEq, Eq, Structural)]
pub enum Version {
    V0_8_10,
    EsploraA33e97e1,
    V0_9_1,
    V0_9_11,
    V0_10_6,
}

/// The name of an operating system inside an executable's name.
pub open spec fn os_tag(os: Os) -> Seq<char> {
    match os {
        Os::Macos => "macos"@,
        Os::Linux => "linux"@,
        Os::Undefined => "undefined"@,
    }
}

/// The tag of a release inside an executable's name; `NA` stands for no
/// release at all.
pub open spec fn version_tag(version: Option<Version>) -> Seq<char> {
    match version {
        Some(Version::V0_8_10) => "v0.8.10"@,
        Some(Version::EsploraA33e97e1) => "esplora_a33e97e1a1fc63fa9c20a116bb92579bbf43b254"@,
        Some(Version::V0_9_1) => "v0.9.1"@,
        Some(Version::V0_9_11) => "v0.9.11"@,
        Some(Version::V0_10_6) => "v0.10.6"@,
        None => "NA"@,
    }
}

/// The name under which the executable of a release is published for an
/// operating system.
pub open spec fn electrs_name_spec(os: Os, version: Option<Version>) -> Seq<char> {
    "electrs_"@ + os_tag(os) + "_"@ + version_tag(version)
}

impl Os {
    /// The name of this operating system inside an executable's name.
    pub fn tag(self) -> (r: &'static str)
        ensures
            r@ == os_tag(self),
    {
        match self {
            Os::Macos => "macos",
            Os::Linux => "linux",
            Os::Undefined => "undefined",
        }
    }
}

/// The tag of a release inside an executable's name.
pub fn version_name(version: Option<Version>) -> (r: &'static str)
    ensures
        r@ == version_tag(version),
{
    match version {
        Some(Version::V0_8_10) => "v0.8.10",
        Some(Version::EsploraA33e97e1) => "esplora_a33e97e1a1fc63fa9c20a116bb92579bbf43b254",
        Some(Version::V0_9_1) => "v0.9.1",
        Some(Version::V0_9_11) => "v0.9.11",
        Some(Version::V0_10_6) => "v0.10.6",
        None => "NA",
    }
}

/// The name under which the executable of `version` is published for `os`:
/// `electrs_`, the operating system, `_`, and the release tag.
pub fn electrs_name(os: Os, version: Option<Version>) -> (name: String)
    ensures
        name@ == electrs_name_spec(os, version),
{
    let mut name = String::from_str("electrs_");
    name.append(os.tag());
    name.append("_");
    name.append(version_name(version));
    name
}

/// What a daemon understands on its command line.
#[derive(Debug, Clone, Copy, PartialEq, Eq, Structural)]
pub struct Capabilities {
    /// The daemon takes the cookie's value inline, not the path of the cookie
    /// file.
    pub inline_cookie: bool,
    /// The daemon imports blocks in bulk over the node's control endpoint and
    /// cannot follow the node's peer traffic.
    pub bulk_import: bool,
    /// The daemon is started with verbose logging unless told otherwise.
    pub verbose: bool,
}

/// The capabilities of a release; `legacy` marks a daemon that predates
/// cookie files.
pub open spec fn capabilities_of(version: Option<Version>, legacy: bool) -> Capabilities {
    Capabilities {
        inline_cookie: legacy,
        bulk_import: legacy || version == Some(Version::V0_8_10) || version == Some(
            Version::EsploraA33e97e1,
        ),
        verbose: legacy || version == Some(Version::V0_8_10) || version == Some(
            Version::EsploraA33e97e1,
        ) || version == Some(Version::V0_9_1),
    }
}

impl Capabilities {
    /// Resolves the capabilities of a daemon from its declared release.
    pub fn of(version: Option<Version>, legacy: bool) -> (caps: Capabilities)
        ensures
            caps == capabilities_of(version, legacy),
    {
        let old_style = match version {
            Some(Version::V0_8_10) => true,
            Some(Version::EsploraA33e97e1) => true,
            _ => false,
        };
        let chatty = match version {
            Some(Version::V0_9_1) => true,
            _ => false,
        };
        Capabilities {
            inline_cookie: legacy,
            bulk_import: legacy || old_style,
            verbose: legacy || old_style || chatty,
        }
    }
}

} // verus!
