use vstd::prelude::*;

verus! {

/// The release numbers that the catalog offers.
#[derive(Debug, Clone)]
pub struct AvailableReleases {
    pub available_lts_releases: Vec<u16>,
    pub available_releases: Vec<u16>,
}

/// A downloadable archive: where it is and what it is called.
#[derive(Debug, Clone)]
pub struct PackageInfo {
    pub link: String,
    pub name: String,
}

#[derive(Debug, Clone)]
pub struct Binary {
    pub package: PackageInfo,
}

/// One release's assets, as the catalog lists them.
#[derive(Debug, Clone)]
pub struct Asset {
    pub binaries: Vec<Binary>,
}

/// The package that an install downloads: the first binary of the first asset.
pub open spec fn first_package(assets: Seq<Asset>) -> Option<PackageInfo> {
    if assets.len() > 0 && assets[0].binaries@.len() > 0 {
        Some(assets[0].binaries@[0].package)
    } else {
        None
    }
}

impl AvailableReleases {
    /// Whether the catalog offers the release `n`.
    pub fn offers(&self, n: u16) -> (r: bool)
        ensures
            r == self.available_releases@.contains(n),
    {
        let mut i: usize = 0;
        while i < self.available_releases.len()
            invariant
                i <= self.available_releases@.len(),
                forall|k: int| 0 <= k < i ==> self.available_releases@[k] != n,
            decreases self.available_releases@.len() - i,
        {
            if self.available_releases[i] == n {
                assert(self.available_releases@[i as int] == n);
                return true;
            }
            i = i + 1;
        }
        false
    }
}

/// Picks the package to download out of a release's assets.
pub fn select_package(assets: &Vec<Asset>) -> (r: Option<&PackageInfo>)
    ensures
        match r {
            Some(p) => first_package(assets@) == Some(*p),
            None => first_package(assets@) is None,
        },
{
    if assets.len() == 0 {
        return None;
    }
    let first = &assets[0];
    if first.binaries.len() == 0 {
        return None;
    }
    Some(&first.binaries[0].package)
}

} // verus!
