//! The package and metadata record shapes the repository layer exchanges.

use vstd::prelude::*;

use crate::architecture::Architecture;
use crate::channel::Channel;

verus! {

/// One installable package as a repository index describes it.
#[derive(Debug, Clone)]
pub struct Package {
    pub name: String,
    pub version: String,
    pub description: Option<String>,
    pub author: Option<String>,
    pub license: Option<String>,
    pub dependencies: Vec<String>,
    pub architecture: Architecture,
    pub channel: Channel,
    pub file: String,
    pub checksum: String,
    pub signature: Option<String>,
    pub size: u64,
    pub install_size: u64,
}

/// Authored metadata describing a package across architectures and
/// channels.
#[derive(Debug, Clone)]
pub struct PackageMetadata {
    pub name: String,
    pub version: String,
    pub description: Option<String>,
    pub author: Option<String>,
    pub license: Option<String>,
    pub dependencies: Vec<String>,
    pub architectures: Vec<Architecture>,
    pub channels: Vec<Channel>,
    pub build_script: Option<String>,
    pub install_script: Option<String>,
    pub sandbox_config: Option<SandboxConfig>,
}

/// Confinement rules for a package's scripts.
#[derive(Debug, Clone)]
pub struct SandboxConfig {
    pub allowed_paths: Vec<String>,
    pub network_access: bool,
    pub system_calls: Vec<String>,
}

/// The index a repository serves: its packages, a generation stamp and the
/// channel it was built for.
#[derive(Debug, Clone)]
pub struct PackageIndex {
    pub packages: Vec<Package>,
    pub generated: String,
    pub channel: Channel,
}

} // verus!
