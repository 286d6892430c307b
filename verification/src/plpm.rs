//! The PLPM package container: a header, the package metadata, the carried
//! files and optional install scripts.

use vstd::prelude::*;

use crate::architecture::Architecture;
use crate::channel::Channel;
use crate::package::{Package, PackageMetadata};

verus! {

/// A whole package container.
#[derive(Debug, Clone)]
pub struct PlpmPackage {
    pub header: PlpmHeader,
    pub metadata: PackageMetadata,
    pub files: Vec<PlpmFile>,
    pub scripts: Option<PlpmScripts>,
    pub signature: Option<String>,
}

/// The container header: the ASCII magic `PLPM`, a format version, and the
/// target architecture and channel.
#[derive(Debug, Clone)]
pub struct PlpmHeader {
    pub magic: [u8; 4],
    pub version: u16,
    pub architecture: Architecture,
    pub channel: Channel,
    pub compressed: bool,
}

/// One file carried by the container.
#[derive(Debug, Clone)]
pub struct PlpmFile {
    pub path: String,
    pub data: Vec<u8>,
    pub permissions: u32,
    pub checksum: String,
}

/// Optional lifecycle scripts of the container.
#[derive(Debug, Clone)]
pub struct PlpmScripts {
    pub pre_install: Option<String>,
    pub post_install: Option<String>,
    pub pre_remove: Option<String>,
    pub post_remove: Option<String>,
}

impl PlpmPackage {
    /// Wraps a package record and its files into a version-1 compressed
    /// container: the header carries the package's architecture and
    /// channel, the metadata restates the package's fields for exactly that
    /// one architecture and channel, no scripts are attached, and the
    /// package's signature is carried over.
    pub fn new(package: Package, files: Vec<PlpmFile>) -> (r: Self)
        ensures
            r.header.magic@ == seq![0x50u8, 0x4Cu8, 0x50u8, 0x4Du8],
            r.header.version == 1,
            r.header.architecture == package.architecture,
            r.header.channel == package.channel,
            r.header.compressed == true,
            r.metadata.name == package.name,
            r.metadata.version == package.version,
            r.metadata.description == package.description,
            r.metadata.author == package.author,
            r.metadata.license == package.license,
            r.metadata.dependencies == package.dependencies,
            r.metadata.architectures@ == seq![package.architecture],
            r.metadata.channels@ == seq![package.channel],
            r.metadata.build_script is None,
            r.metadata.install_script is None,
            r.metadata.sandbox_config is None,
            r.files == files,
            r.scripts is None,
            r.signature == package.signature,
    {
        let mut architectures: Vec<Architecture> = Vec::new();
        architectures.push(package.architecture);
        let mut channels: Vec<Channel> = Vec::new();
        channels.push(package.channel);
        proof {
            assert(architectures@ =~= seq![package.architecture]);
            assert(channels@ =~= seq![package.channel]);
        }
        // The magic bytes spell "PLPM" in ASCII.
        let magic: [u8; 4] = [0x50, 0x4C, 0x50, 0x4D];
        proof {
            assert(magic@ =~= seq![0x50u8, 0x4Cu8, 0x50u8, 0x4Du8]);
        }
        PlpmPackage {
            header: PlpmHeader {
                magic,
                version: 1,
                architecture: package.architecture,
                channel: package.channel,
                compressed: true,
            },
            metadata: PackageMetadata {
                name: package.name,
                version: package.version,
                description: package.description,
                author: package.author,
                license: package.license,
                dependencies: package.dependencies,
                architectures,
                channels,
                build_script: None,
                install_script: None,
                sandbox_config: None,
            },
            files,
            scripts: None,
            signature: package.signature,
        }
    }
}

} // verus!
