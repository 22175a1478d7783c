use vstd::prelude::*;
use crate::paths::{join, opt_view, spec_join};

verus! {

/// One entry directly inside a version's directory, as found on disk.
#[derive(Debug, Clone)]
pub struct Candidate {
    pub name: String,
    pub is_dir: bool,
    /// Whether `<entry>/bin/<runtime binary>` exists.
    pub has_runtime: bool,
}

pub open spec fn runnable(c: Candidate) -> bool {
    c.is_dir && c.has_runtime
}

/// Index of the first runnable candidate at or after `i`.
pub open spec fn first_runnable(cs: Seq<Candidate>, i: int) -> Option<int>
    decreases cs.len() - i,
{
    if i < 0 || i >= cs.len() {
        None
    } else if runnable(cs[i]) {
        Some(i)
    } else {
        first_runnable(cs, i + 1)
    }
}

/// The distribution root of a version: the version directory itself when it
/// holds the runtime binary, else its first subdirectory, in enumeration order,
/// that does.
pub open spec fn dist_root(version_dir: Seq<char>, self_has_runtime: bool, cs: Seq<Candidate>) -> Option<Seq<char>> {
    if self_has_runtime {
        Some(version_dir)
    } else {
        match first_runnable(cs, 0) {
            Some(k) => Some(spec_join(version_dir, cs[k].name@)),
            None => None,
        }
    }
}

/// Resolves the distribution root of the version held in `version_dir`.
pub fn find_bin_path(version_dir: &str, self_has_runtime: bool, candidates: &Vec<Candidate>) -> (r: Option<String>)
    ensures
        opt_view(r) == dist_root(version_dir@, self_has_runtime, candidates@),
{
    if self_has_runtime {
        return Some(String::from_str(version_dir));
    }
    let mut i: usize = 0;
    while i < candidates.len()
        invariant
            !self_has_runtime,
            i <= candidates@.len(),
            first_runnable(candidates@, 0) == first_runnable(candidates@, i as int),
        decreases candidates@.len() - i,
    {
        let c = &candidates[i];
        if c.is_dir && c.has_runtime {
            assert(first_runnable(candidates@, i as int) == Some(i as int));
            return Some(join(version_dir, c.name.as_str()));
        }
        i = i + 1;
    }
    None
}

} // verus!
