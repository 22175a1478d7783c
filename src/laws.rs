use vstd::prelude::*;
use crate::env::{spec_bashrc_update, spec_source_line};
use crate::models::Asset;
use crate::text::{has_substring, occurs_at};
use crate::paths::{spec_current_symlink, spec_version_dir, within};
use crate::store::{
    find, lemma_find_none, spec_check_install, spec_install, spec_remove, spec_use, touches,
    InstallError, RemovalError, StoreView, VersionView,
};

verus! {

proof fn lemma_find_pushed(vs: Seq<VersionView>, v: VersionView, i: int)
    requires
        0 <= i <= vs.len(),
        forall|k: int| i <= k < vs.len() ==> #[trigger] vs[k].label != v.label,
    ensures
        find(vs.push(v), v.label, i) == Some(vs.len() as int),
    decreases vs.len() - i,
{
    if i < vs.len() {
        assert(vs.push(v)[i] == vs[i]);
        lemma_find_pushed(vs, v, i + 1);
    }
}

proof fn lemma_find_bounds(vs: Seq<VersionView>, label: Seq<char>, i: int)
    requires
        0 <= i,
        find(vs, label, i) is Some,
    ensures
        i <= find(vs, label, i)->0 < vs.len(),
        vs[find(vs, label, i)->0].label == label,
    decreases vs.len() - i,
{
    if vs[i].label != label {
        lemma_find_bounds(vs, label, i + 1);
    }
}

/// The active pointer never lies in a version directory: the two paths part
/// right after the install root.
proof fn lemma_pointer_outside_versions(home: Seq<char>, label: Seq<char>)
    ensures
        !within(spec_current_symlink(home), spec_version_dir(home, label)),
{
    reveal_strlit(".jman");
    reveal_strlit("current");
    reveal_strlit("versions");
    let p = spec_current_symlink(home);
    let d = spec_version_dir(home, label);
    let j: int = home.len() as int + 7;
    assert(p[j] == 'c');
    assert(d[j] == 'v');
    assert(p != d);
    assert((d + seq!['/'])[j] == 'v');
}

/// Installing a label twice: once the first install's plan has been carried out
/// and the version is on disk, the second install reports that it is installed
/// already and plans nothing, so the filesystem stays as the first left it.
pub proof fn law_install_twice(
    s: StoreView,
    label: Seq<char>,
    releases: Seq<u16>,
    assets: Seq<Asset>,
    root: Option<Seq<char>>,
)
    requires
        spec_install(s, label, releases, assets) is Ok,
    ensures
        spec_check_install(s.with_version(VersionView { label, root }), label)
            == Err::<u16, InstallError>(InstallError::AlreadyInstalled),
        spec_install(s.with_version(VersionView { label, root }), label, releases, assets)
            == Err::<Seq<(crate::store::ActionView, bool)>, InstallError>(InstallError::AlreadyInstalled),
{
    lemma_find_none(s.versions, label, 0);
    lemma_find_pushed(s.versions, VersionView { label, root }, 0);
}

/// Activation never changes which versions are installed.
pub proof fn law_use_keeps_versions(s: StoreView, label: Seq<char>)
    ensures
        spec_use(s, label).0.versions == s.versions,
        spec_use(s, label).0.labels() == s.labels(),
{
}

/// Activating the same version twice: the second activation succeeds too and
/// leaves the active pointer's target as the first set it.
pub proof fn law_use_twice(s: StoreView, label: Seq<char>)
    requires
        spec_use(s, label).1 is Ok,
    ensures
        spec_use(spec_use(s, label).0, label).1 is Ok,
        spec_use(spec_use(s, label).0, label).0 == spec_use(s, label).0,
        spec_use(spec_use(s, label).0, label).0.active == spec_use(s, label).0.active,
{
}

/// Activating `a` and then another version `b`: the active pointer ends at
/// `b`'s distribution root, and no step of the second activation changes
/// anything inside `a`'s version directory.
pub proof fn law_switch(s: StoreView, a: Seq<char>, b: Seq<char>)
    requires
        a != b,
        spec_use(s, a).1 is Ok,
        spec_use(spec_use(s, a).0, b).1 is Ok,
    ensures
        spec_use(spec_use(s, a).0, b).0.active == s.root_of(b),
        s.root_of(b) is Some,
        forall|i: int|
            0 <= i < spec_use(spec_use(s, a).0, b).1->Ok_0.len() ==> !touches(
                #[trigger] spec_use(spec_use(s, a).0, b).1->Ok_0[i].0,
                spec_version_dir(s.home, a),
            ),
{
    lemma_pointer_outside_versions(s.home, a);
}

/// Removing an installed version: it is no longer installed afterwards; if
/// the active pointer referred into it, the pointer is gone, else the pointer
/// is left exactly as it was.
pub proof fn law_remove_pointer(s: StoreView, label: Seq<char>)
    requires
        s.wf(),
        spec_remove(s, label).1 is Ok,
    ensures
        !spec_remove(s, label).0.is_installed(label),
        s.is_active(label) ==> spec_remove(s, label).0.active is None,
        !s.is_active(label) ==> spec_remove(s, label).0.active == s.active,
{
    let k = find(s.versions, label, 0)->0;
    lemma_find_bounds(s.versions, label, 0);
    let rest = s.versions.remove(k);
    assert forall|j: int| 0 <= j < rest.len() implies #[trigger] rest[j].label != label by {
        if j < k {
            assert(rest[j] == s.versions[j]);
        } else {
            assert(rest[j] == s.versions[j + 1]);
        }
    }
    if find(rest, label, 0) is Some {
        lemma_find_bounds(rest, label, 0);
    }
}

/// The active pointer that an activation sets refers into the activated
/// version's directory; so removing that version afterwards removes the
/// pointer too, and leaves none behind.
pub proof fn law_use_then_remove(s: StoreView, label: Seq<char>)
    requires
        s.wf(),
        spec_use(s, label).1 is Ok,
    ensures
        spec_use(s, label).0.is_active(label),
        spec_remove(spec_use(s, label).0, label).1 is Ok,
        spec_remove(spec_use(s, label).0, label).0.active is None,
{
    lemma_find_bounds(s.versions, label, 0);
    let k = find(s.versions, label, 0)->0;
    assert(s.versions[k].root is Some);
}

/// Updating the shell startup file is additive and idempotent: the old
/// content stays as the start of the new one, and a second update finds the
/// line there and changes nothing.
pub proof fn law_export_idempotent(content: Seq<char>)
    ensures
        spec_bashrc_update(content) matches Some(updated) ==> {
            &&& content.is_prefix_of(updated)
            &&& spec_bashrc_update(updated) is None
        },
{
    let line = spec_source_line();
    if !has_substring(content, line) {
        reveal_strlit("\n");
        let updated = content + "\n"@ + line;
        let start: int = content.len() as int + 1;
        assert(updated.subrange(start, start + line.len()) =~= line);
        assert(occurs_at(updated, line, start));
        assert(updated.subrange(0, content.len() as int) =~= content);
    }
}

/// Removing a version that is not installed fails with `NotInstalled`, plans
/// nothing and leaves the store as it was.
pub proof fn law_remove_missing(s: StoreView, label: Seq<char>)
    requires
        !s.is_installed(label),
    ensures
        spec_remove(s, label) == (s, Err::<Seq<(crate::store::ActionView, bool)>, RemovalError>(RemovalError::NotInstalled)),
{
}

} // verus!
