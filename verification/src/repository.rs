//! Package repositories and the manager that searches across them. Index
//! fetching and package lookup are stubs in this layer: a repository never
//! reports a package, and the contracts say so exactly.

use vstd::prelude::*;

use crate::architecture::Architecture;
use crate::channel::Channel;
use crate::error::{PpmError, PpmResult};
use crate::package::{Package, PackageIndex};

verus! {

/// One package source: where it lives, what it is called, and which channel
/// and architectures it serves.
#[derive(Debug, Clone)]
pub struct Repository {
    pub url: String,
    pub name: String,
    pub channel: Channel,
    pub architectures: Vec<Architecture>,
}

impl Repository {
    pub fn new(url: String, name: String, channel: Channel, architectures: Vec<Architecture>) -> (r:
        Self)
        ensures
            r.url == url,
            r.name == name,
            r.channel == channel,
            r.architectures == architectures,
    {
        Repository { url, name, channel, architectures }
    }

    /// The architectures this repository serves.
    pub fn supported_architectures(&self) -> (r: &[Architecture])
        ensures
            r@ == self.architectures@,
    {
        self.architectures.as_slice()
    }

    /// The index this layer can serve without any network fetch: no
    /// packages, the repository's channel, and the caller-supplied
    /// generation stamp (the platform layer supplies the current time).
    pub fn fetch_index(&self, generated: String) -> (r: PackageIndex)
        ensures
            r.packages@ == Seq::<Package>::empty(),
            r.generated == generated,
            r.channel == self.channel,
    {
        PackageIndex { packages: Vec::new(), generated, channel: self.channel }
    }

    /// Package lookup is a stub: no package is ever found.
    pub fn find_package(&self, _name: &str, _version: Option<&str>) -> (r: PpmResult<
        Option<Package>,
    >)
        ensures
            r == Ok::<Option<Package>, PpmError>(None::<Package>),
    {
        Ok(None)
    }
}

/// The ordered collection of configured repositories.
pub struct RepositoryManager {
    repositories: Vec<Repository>,
}

impl View for RepositoryManager {
    type V = Seq<Repository>;

    closed spec fn view(&self) -> Seq<Repository> {
        self.repositories@
    }
}

impl RepositoryManager {
    pub fn new() -> (r: Self)
        ensures
            r@ == Seq::<Repository>::empty(),
    {
        RepositoryManager { repositories: Vec::new() }
    }

    /// Appends a repository; repositories are searched in insertion order.
    pub fn add_repository(&mut self, repo: Repository)
        ensures
            final(self)@ == old(self)@.push(repo),
    {
        self.repositories.push(repo);
    }

    pub fn get_repositories(&self) -> (r: &[Repository])
        ensures
            r@ == self@,
    {
        self.repositories.as_slice()
    }

    /// Asks each repository in order; since per-repository lookup is a
    /// stub, the search always completes without a match.
    pub fn find_package_across_repos(&self, name: &str, version: Option<&str>) -> (r: PpmResult<
        Option<Package>,
    >)
        ensures
            r == Ok::<Option<Package>, PpmError>(None::<Package>),
    {
        let count = self.repositories.len();
        let mut i: usize = 0;
        while i < count
            invariant
                i <= count,
                count == self@.len(),
            decreases count - i,
        {
            let found = self.repositories[i].find_package(name, version);
            match found {
                Ok(Some(pkg)) => {
                    return Ok(Some(pkg));
                },
                Ok(None) => {},
                Err(e) => {
                    return Err(e);
                },
            }
            i += 1;
        }
        Ok(None)
    }
}

} // verus!
