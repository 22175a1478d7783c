use vstd::prelude::*;

verus! {

/// One entry of the versions directory, as found on disk.
#[derive(Debug, Clone)]
pub struct Entry {
    pub name: String,
    pub is_dir: bool,
}

/// The names of the entries that are directories, in enumeration order.
pub open spec fn dir_names(es: Seq<Entry>) -> Seq<Seq<char>>
    decreases es.len(),
{
    if es.len() == 0 {
        seq![]
    } else {
        let rest = dir_names(es.drop_last());
        if es.last().is_dir {
            rest.push(es.last().name@)
        } else {
            rest
        }
    }
}

pub open spec fn names(v: Seq<String>) -> Seq<Seq<char>> {
    v.map_values(|s: String| s@)
}

/// The labels of the installed versions: the subdirectories of the versions
/// directory; other entries are ignored.
pub fn list_versions(entries: &Vec<Entry>) -> (r: Vec<String>)
    ensures
        names(r@) == dir_names(entries@),
{
    let mut out: Vec<String> = Vec::new();
    let mut i: usize = 0;
    while i < entries.len()
        invariant
            i <= entries@.len(),
            names(out@) == dir_names(entries@.subrange(0, i as int)),
        decreases entries@.len() - i,
    {
        let ghost prev = out@;
        let e = &entries[i];
        assert(entries@.subrange(0, i + 1).drop_last() =~= entries@.subrange(0, i as int));
        if e.is_dir {
            out.push(e.name.clone());
            assert(names(out@) =~= names(prev).push(e.name@));
        }
        i = i + 1;
    }
    assert(entries@.subrange(0, i as int) =~= entries@);
    out
}

} // verus!
