use vstd::prelude::*;
use crate::label::{label_number, parse_version};
use crate::layout::{dist_root, find_bin_path, first_runnable, Candidate};
use crate::models::{first_package, select_package, Asset, AvailableReleases};
use crate::paths::{
    current_symlink, is_plain_name, is_within, join, opt_view, plain_name, spec_current_symlink,
    spec_join, spec_version_dir, version_dir, within,
};

verus! {

/// One change to the filesystem that an operation asks for.
#[derive(Debug, Clone, PartialEq, Eq)]
pub enum FsAction {
    /// Create a directory and its missing parents.
    CreateDirAll(String),
    /// Write the bytes found at `url` to the file `dest`.
    Download { url: String, dest: String },
    /// Unpack the archive `archive` into the directory `dest`.
    Extract { archive: String, dest: String },
    /// Delete one file.
    RemoveFile(String),
    /// Delete a directory with everything in it.
    RemoveDirAll(String),
    /// Delete a link, never what it refers to.
    RemoveLink(String),
    /// Create a link to the directory `target` at `link`.
    CreateLink { target: String, link: String },
}

/// One step of a plan. A step that is not `required` may fail with a warning;
/// the failure of a required step ends the plan there.
#[derive(Debug, Clone, PartialEq, Eq)]
pub struct Step {
    pub action: FsAction,
    pub required: bool,
}

pub enum ActionView {
    CreateDirAll(Seq<char>),
    Download { url: Seq<char>, dest: Seq<char> },
    Extract { archive: Seq<char>, dest: Seq<char> },
    RemoveFile(Seq<char>),
    RemoveDirAll(Seq<char>),
    RemoveLink(Seq<char>),
    CreateLink { target: Seq<char>, link: Seq<char> },
}

impl View for FsAction {
    type V = ActionView;

    open spec fn view(&self) -> ActionView {
        match self {
            FsAction::CreateDirAll(p) => ActionView::CreateDirAll(p@),
            FsAction::Download { url, dest } => ActionView::Download { url: url@, dest: dest@ },
            FsAction::Extract { archive, dest } => ActionView::Extract { archive: archive@, dest: dest@ },
            FsAction::RemoveFile(p) => ActionView::RemoveFile(p@),
            FsAction::RemoveDirAll(p) => ActionView::RemoveDirAll(p@),
            FsAction::RemoveLink(p) => ActionView::RemoveLink(p@),
            FsAction::CreateLink { target, link } => ActionView::CreateLink { target: target@, link: link@ },
        }
    }
}

pub open spec fn plan_view(p: Seq<Step>) -> Seq<(ActionView, bool)> {
    p.map_values(|s: Step| (s.action@, s.required))
}

pub open spec fn result_view<E>(r: Result<Vec<Step>, E>) -> Result<Seq<(ActionView, bool)>, E> {
    match r {
        Ok(p) => Ok(plan_view(p@)),
        Err(e) => Err(e),
    }
}

/// Whether carrying out the action changes anything at or below `dir`.
pub open spec fn touches(a: ActionView, dir: Seq<char>) -> bool {
    match a {
        ActionView::CreateDirAll(p) => within(p, dir),
        ActionView::Download { url, dest } => within(dest, dir),
        ActionView::Extract { archive, dest } => within(dest, dir),
        ActionView::RemoveFile(p) => within(p, dir),
        ActionView::RemoveDirAll(p) => within(p, dir) || within(dir, p),
        ActionView::RemoveLink(p) => within(p, dir),
        ActionView::CreateLink { target, link } => within(link, dir),
    }
}

/// Why an install does not proceed.
#[derive(Debug, Clone, Copy, PartialEq, Eq, Structural)]
pub enum InstallError {
    /// The version directory exists already; nothing is done.
    AlreadyInstalled,
    /// The label is not a release number.
    NotANumber,
    /// The catalog does not offer the release.
    UnknownRelease,
    /// The catalog lists no package for the release.
    NoPackage,
    /// The package's file name is not a plain name inside the version directory.
    BadArchiveName,
}

/// Why an activation does not proceed.
#[derive(Debug, Clone, Copy, PartialEq, Eq, Structural)]
pub enum ActivationError {
    /// No version of that label holds the runtime binary where it is looked for.
    NotInstalled,
}

/// Why a removal does not proceed.
#[derive(Debug, Clone, Copy, PartialEq, Eq, Structural)]
pub enum RemovalError {
    /// No version of that label is installed.
    NotInstalled,
}

/// An installed version: its label and its resolved distribution root.
#[derive(Debug)]
pub struct Installed {
    label: String,
    root: Option<String>,
}

pub struct VersionView {
    pub label: Seq<char>,
    pub root: Option<Seq<char>>,
}

impl View for Installed {
    type V = VersionView;

    closed spec fn view(&self) -> VersionView {
        VersionView { label: self.label@, root: opt_view(self.root) }
    }
}

/// What the tool knows of the filesystem: the installed versions under the
/// install root, and the target of the active pointer, if it exists.
#[derive(Debug)]
pub struct Store {
    home: String,
    versions: Vec<Installed>,
    active: Option<String>,
}

pub struct StoreView {
    pub home: Seq<char>,
    pub versions: Seq<VersionView>,
    pub active: Option<Seq<char>>,
}

impl View for Store {
    type V = StoreView;

    closed spec fn view(&self) -> StoreView {
        StoreView {
            home: self.home@,
            versions: self.versions@.map_values(|v: Installed| v@),
            active: opt_view(self.active),
        }
    }
}

/// Index of the first version at or after `i` whose label is `label`.
pub open spec fn find(vs: Seq<VersionView>, label: Seq<char>, i: int) -> Option<int>
    decreases vs.len() - i,
{
    if i < 0 || i >= vs.len() {
        None
    } else if vs[i].label == label {
        Some(i)
    } else {
        find(vs, label, i + 1)
    }
}

impl StoreView {
    /// No two versions share a label, as no two entries of a directory share a
    /// name; and each distribution root lies inside its version's directory.
    pub open spec fn wf(self) -> bool {
        &&& forall|i: int, j: int|
            0 <= i < self.versions.len() && 0 <= j < self.versions.len() && i != j
                ==> #[trigger] self.versions[i].label != #[trigger] self.versions[j].label
        &&& forall|i: int|
            0 <= i < self.versions.len() && (#[trigger] self.versions[i]).root is Some
                ==> within(self.versions[i].root->0, spec_version_dir(self.home, self.versions[i].label))
    }

    pub open spec fn labels(self) -> Seq<Seq<char>> {
        self.versions.map_values(|v: VersionView| v.label)
    }

    pub open spec fn is_installed(self, label: Seq<char>) -> bool {
        find(self.versions, label, 0) is Some
    }

    /// The distribution root of the installed version `label`, if it has one.
    pub open spec fn root_of(self, label: Seq<char>) -> Option<Seq<char>> {
        match find(self.versions, label, 0) {
            Some(k) => self.versions[k].root,
            None => None,
        }
    }

    /// The active pointer refers into the directory of version `label`.
    pub open spec fn is_active(self, label: Seq<char>) -> bool {
        match self.active {
            Some(t) => within(t, spec_version_dir(self.home, label)),
            None => false,
        }
    }

    /// The store once a version has been added.
    pub open spec fn with_version(self, v: VersionView) -> StoreView {
        StoreView { versions: self.versions.push(v), ..self }
    }

    /// The store once the version `label`, at index `k`, is gone.
    pub open spec fn without(self, k: int, label: Seq<char>) -> StoreView {
        StoreView {
            versions: self.versions.remove(k),
            active: if self.is_active(label) { None } else { self.active },
            ..self
        }
    }
}

/// What an install decides before anything is fetched: the release number.
pub open spec fn spec_check_install(s: StoreView, label: Seq<char>) -> Result<u16, InstallError> {
    if s.is_installed(label) {
        Err(InstallError::AlreadyInstalled)
    } else {
        match label_number(label) {
            Some(n) => Ok(n),
            None => Err(InstallError::NotANumber),
        }
    }
}

/// The steps that install version `label` from the package `link`, `name`.
pub open spec fn install_steps(home: Seq<char>, label: Seq<char>, link: Seq<char>, name: Seq<char>) -> Seq<(ActionView, bool)> {
    let dir = spec_version_dir(home, label);
    let archive = spec_join(dir, name);
    seq![
        (ActionView::CreateDirAll(dir), true),
        (ActionView::Download { url: link, dest: archive }, true),
        (ActionView::Extract { archive, dest: dir }, true),
        (ActionView::RemoveFile(archive), false),
    ]
}

/// The outcome of `install_version`: the reason it stops, or its plan.
pub open spec fn spec_install(
    s: StoreView,
    label: Seq<char>,
    releases: Seq<u16>,
    assets: Seq<Asset>,
) -> Result<Seq<(ActionView, bool)>, InstallError> {
    match spec_check_install(s, label) {
        Err(e) => Err(e),
        Ok(n) => if !releases.contains(n) {
            Err(InstallError::UnknownRelease)
        } else {
            match first_package(assets) {
                None => Err(InstallError::NoPackage),
                Some(p) => if !plain_name(p.name@) {
                    Err(InstallError::BadArchiveName)
                } else {
                    Ok(install_steps(s.home, label, p.link@, p.name@))
                },
            }
        },
    }
}

/// The store after `use_version(label)`, and its outcome.
pub open spec fn spec_use(s: StoreView, label: Seq<char>) -> (StoreView, Result<Seq<(ActionView, bool)>, ActivationError>) {
    match s.root_of(label) {
        None => (s, Err(ActivationError::NotInstalled)),
        Some(root) => {
            let current = spec_current_symlink(s.home);
            let link = seq![(ActionView::CreateLink { target: root, link: current }, true)];
            let steps = if s.active is Some {
                seq![(ActionView::RemoveLink(current), true)] + link
            } else {
                link
            };
            (StoreView { active: Some(root), ..s }, Ok(steps))
        },
    }
}

/// The store after `remove_version(label)`, and its outcome.
pub open spec fn spec_remove(s: StoreView, label: Seq<char>) -> (StoreView, Result<Seq<(ActionView, bool)>, RemovalError>) {
    match find(s.versions, label, 0) {
        None => (s, Err(RemovalError::NotInstalled)),
        Some(k) => {
            let delete = seq![(ActionView::RemoveDirAll(spec_version_dir(s.home, label)), true)];
            let steps = if s.is_active(label) {
                delete + seq![(ActionView::RemoveLink(spec_current_symlink(s.home)), false)]
            } else {
                delete
            };
            (s.without(k, label), Ok(steps))
        },
    }
}

impl Store {
    pub closed spec fn wf(&self) -> bool {
        self@.wf()
    }

    /// A store under the home directory `home` with no versions recorded;
    /// `active` is the target of the active pointer, if it exists.
    pub fn new(home: String, active: Option<String>) -> (r: Store)
        ensures
            r.wf(),
            r@.home == home@,
            r@.versions.len() == 0,
            r@.active == opt_view(active),
    {
        let r = Store { home, versions: Vec::new(), active };
        assert(r@.versions =~= Seq::<VersionView>::empty());
        r
    }

    /// Index of the version `label`.
    fn position(&self, label: &str) -> (r: Option<usize>)
        ensures
            match r {
                Some(k) => find(self@.versions, label@, 0) == Some(k as int) && k < self.versions@.len(),
                None => find(self@.versions, label@, 0) is None,
            },
    {
        let key = String::from_str(label);
        let mut i: usize = 0;
        while i < self.versions.len()
            invariant
                i <= self.versions@.len(),
                self@.versions.len() == self.versions@.len(),
                forall|k: int| 0 <= k < self.versions@.len() ==> #[trigger] self@.versions[k] == self.versions@[k]@,
                find(self@.versions, label@, 0) == find(self@.versions, label@, i as int),
                key@ == label@,
            decreases self.versions@.len() - i,
        {
            let v = &self.versions[i];
            proof {
                assert(self@.versions[i as int] == v@);
            }
            if v.label == key {
                return Some(i);
            }
            i = i + 1;
        }
        None
    }

    /// Records the installed version `label`, whose directory holds the
    /// runtime binary itself when `self_has_runtime`, and has the entries
    /// `candidates`. A label that is recorded already is left as it is.
    pub fn add_version(&mut self, label: String, self_has_runtime: bool, candidates: &Vec<Candidate>) -> (added: bool)
        requires
            old(self).wf(),
        ensures
            final(self).wf(),
            added == !old(self)@.is_installed(label@),
            added ==> final(self)@ == old(self)@.with_version(
                VersionView {
                    label: label@,
                    root: dist_root(spec_version_dir(old(self)@.home, label@), self_has_runtime, candidates@),
                },
            ),
            !added ==> final(self)@ == old(self)@,
    {
        if self.position(label.as_str()).is_some() {
            return false;
        }
        let dir = version_dir(self.home.as_str(), label.as_str());
        let root = find_bin_path(dir.as_str(), self_has_runtime, candidates);
        let ghost before = self@;
        let v = Installed { label, root };
        self.versions.push(v);
        proof {
            assert(self@.versions =~= before.versions.push(v@));
            lemma_find_none(before.versions, v@.label, 0);
            let d = spec_version_dir(before.home, v@.label);
            if !self_has_runtime && v@.root is Some {
                let name = candidates@[first_runnable(candidates@, 0)->0].name@;
                assert((d + seq!['/']).is_prefix_of(spec_join(d, name)));
            }
            assert(v@.root is Some ==> within(v@.root->0, d));
        }
        true
    }

    /// The labels of the recorded versions, in the order they were recorded.
    pub fn labels(&self) -> (r: Vec<String>)
        ensures
            r@.map_values(|s: String| s@) == self@.labels(),
    {
        let mut out: Vec<String> = Vec::new();
        let mut i: usize = 0;
        while i < self.versions.len()
            invariant
                i <= self.versions@.len(),
                self@.versions.len() == self.versions@.len(),
                forall|k: int| 0 <= k < self.versions@.len() ==> #[trigger] self@.versions[k] == self.versions@[k]@,
                out@.map_values(|s: String| s@) == self@.labels().subrange(0, i as int),
            decreases self.versions@.len() - i,
        {
            let v = &self.versions[i];
            proof {
                assert(self@.versions[i as int] == v@);
            }
            let ghost prev = out@;
            out.push(v.label.clone());
            proof {
                assert(out@ == prev.push(v.label));
                assert(out@.map_values(|s: String| s@) =~= prev.map_values(|s: String| s@).push(v.label@));
                assert(self@.labels()[i as int] == v.label@);
            }
            i = i + 1;
            assert(out@.map_values(|s: String| s@) =~= self@.labels().subrange(0, i as int));
        }
        assert(self@.labels().subrange(0, i as int) =~= self@.labels());
        out
    }

    /// The target of the active pointer, if it exists.
    pub fn active(&self) -> (r: Option<String>)
        ensures
            opt_view(r) == self@.active,
    {
        match &self.active {
            Some(t) => Some(t.clone()),
            None => None,
        }
    }

    /// The home directory that all paths derive from.
    pub fn home(&self) -> (r: &str)
        ensures
            r@ == self@.home,
    {
        self.home.as_str()
    }
}

pub(crate) proof fn lemma_find_none(vs: Seq<VersionView>, label: Seq<char>, i: int)
    requires
        0 <= i <= vs.len(),
    ensures
        find(vs, label, i) is None <==> forall|k: int| i <= k < vs.len() ==> #[trigger] vs[k].label != label,
    decreases vs.len() - i,
{
    if i < vs.len() {
        lemma_find_none(vs, label, i + 1);
    }
}

/// Decides whether the version `label` can be installed, before anything is
/// fetched: it is not installed yet, and its label is a release number.
pub fn check_install(store: &Store, label: &str) -> (r: Result<u16, InstallError>)
    ensures
        r == spec_check_install(store@, label@),
{
    if store.position(label).is_some() {
        return Err(InstallError::AlreadyInstalled);
    }
    match parse_version(label) {
        Some(n) => Ok(n),
        None => Err(InstallError::NotANumber),
    }
}

/// Plans the install of version `label`, given the catalog's releases and the
/// release's assets: create the version directory, download the package into
/// it, unpack it there, and delete the archive. The plan never touches the
/// active pointer.
pub fn install_version(store: &Store, label: &str, releases: &AvailableReleases, assets: &Vec<Asset>) -> (r: Result<Vec<Step>, InstallError>)
    ensures
        result_view(r) == spec_install(store@, label@, releases.available_releases@, assets@),
{
    let n = match check_install(store, label) {
        Ok(n) => n,
        Err(e) => return Err(e),
    };
    if !releases.offers(n) {
        return Err(InstallError::UnknownRelease);
    }
    let pkg = match select_package(assets) {
        Some(p) => p,
        None => return Err(InstallError::NoPackage),
    };
    if !is_plain_name(pkg.name.as_str()) {
        return Err(InstallError::BadArchiveName);
    }
    let dir = version_dir(store.home.as_str(), label);
    let archive = join(dir.as_str(), pkg.name.as_str());
    let mut plan: Vec<Step> = Vec::new();
    plan.push(Step { action: FsAction::CreateDirAll(dir.clone()), required: true });
    plan.push(Step { action: FsAction::Download { url: pkg.link.clone(), dest: archive.clone() }, required: true });
    plan.push(Step { action: FsAction::Extract { archive: archive.clone(), dest: dir }, required: true });
    plan.push(Step { action: FsAction::RemoveFile(archive), required: false });
    assert(plan_view(plan@) =~= install_steps(store@.home, label@, pkg.link@, pkg.name@));
    Ok(plan)
}

/// Plans making version `label` the active one: drop the active pointer if it
/// exists, then link it to the version's distribution root.
pub fn use_version(store: &mut Store, label: &str) -> (r: Result<Vec<Step>, ActivationError>)
    requires
        old(store).wf(),
    ensures
        final(store).wf(),
        (final(store)@, result_view(r)) == spec_use(old(store)@, label@),
{
    let k = match store.position(label) {
        Some(k) => k,
        None => return Err(ActivationError::NotInstalled),
    };
    let root = match &store.versions[k].root {
        Some(root) => root.clone(),
        None => return Err(ActivationError::NotInstalled),
    };
    let ghost before = store@;
    assert(before.versions[k as int] == store.versions@[k as int]@);
    let current = current_symlink(store.home.as_str());
    let mut plan: Vec<Step> = Vec::new();
    if store.active.is_some() {
        plan.push(Step { action: FsAction::RemoveLink(current.clone()), required: true });
    }
    plan.push(Step { action: FsAction::CreateLink { target: root.clone(), link: current }, required: true });
    store.active = Some(root);
    assert(store@.versions =~= before.versions);
    let ghost expected = spec_use(before, label@);
    assert(plan_view(plan@) =~= expected.1->Ok_0);
    Ok(plan)
}

/// Plans the removal of version `label`: delete its directory, then, if the
/// active pointer referred into it, the pointer.
pub fn remove_version(store: &mut Store, label: &str) -> (r: Result<Vec<Step>, RemovalError>)
    requires
        old(store).wf(),
    ensures
        final(store).wf(),
        (final(store)@, result_view(r)) == spec_remove(old(store)@, label@),
{
    let k = match store.position(label) {
        Some(k) => k,
        None => return Err(RemovalError::NotInstalled),
    };
    let ghost before = store@;
    let dir = version_dir(store.home.as_str(), label);
    let was_active = match &store.active {
        Some(t) => is_within(t.as_str(), dir.as_str()),
        None => false,
    };
    let mut plan: Vec<Step> = Vec::new();
    plan.push(Step { action: FsAction::RemoveDirAll(dir), required: true });
    if was_active {
        plan.push(Step { action: FsAction::RemoveLink(current_symlink(store.home.as_str())), required: false });
        store.active = None;
    }
    store.versions.remove(k);
    proof {
        assert(store@.versions =~= before.versions.remove(k as int));
        assert forall|j: int| 0 <= j < store@.versions.len()
            implies #[trigger] store@.versions[j] == before.versions[if j < k { j } else { j + 1 }] by {}
        assert(store@ == before.without(k as int, label@));
    }
    let ghost expected = spec_remove(before, label@);
    assert(plan_view(plan@) =~= expected.1->Ok_0);
    Ok(plan)
}

} // verus!
