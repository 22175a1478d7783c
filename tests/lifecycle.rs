use jman::layout::Candidate;
use jman::models::{Asset, AvailableReleases, Binary, PackageInfo};
use jman::store::{
    check_install, install_version, remove_version, use_version, ActivationError, FsAction,
    InstallError, RemovalError, Step, Store,
};

const HOME: &str = "/home/ada";

fn releases() -> AvailableReleases {
    AvailableReleases {
        available_lts_releases: vec![17, 21],
        available_releases: vec![17, 18, 19, 20, 21, 22],
    }
}

fn assets(name: &str) -> Vec<Asset> {
    vec![Asset {
        binaries: vec![Binary {
            package: PackageInfo {
                link: format!("https://example.org/{}", name),
                name: name.to_string(),
            },
        }],
    }]
}

fn nested(name: &str) -> Vec<Candidate> {
    vec![Candidate { name: name.to_string(), is_dir: true, has_runtime: true }]
}

fn step(action: FsAction, required: bool) -> Step {
    Step { action, required }
}

fn s(x: &str) -> String {
    x.to_string()
}

fn empty_store() -> Store {
    Store::new(s(HOME), None)
}

/// Carries out an install plan as far as the model goes: the version
/// directory now exists, with the archive unpacked into `<name>/`.
fn install(store: &mut Store, label: &str, dir: &str) {
    check_install(store, label).unwrap();
    install_version(store, label, &releases(), &assets("jdk.tar.gz")).unwrap();
    assert!(store.add_version(s(label), false, &nested(dir)));
}

#[test]
fn install_plan_lists_each_step() {
    let store = empty_store();
    let plan = install_version(&store, "17", &releases(), &assets("jdk-17.tar.gz")).unwrap();
    let dir = s("/home/ada/.jman/versions/17");
    let archive = s("/home/ada/.jman/versions/17/jdk-17.tar.gz");
    assert_eq!(
        plan,
        vec![
            step(FsAction::CreateDirAll(dir.clone()), true),
            step(FsAction::Download { url: s("https://example.org/jdk-17.tar.gz"), dest: archive.clone() }, true),
            step(FsAction::Extract { archive: archive.clone(), dest: dir }, true),
            step(FsAction::RemoveFile(archive), false),
        ]
    );
}

#[test]
fn install_twice_reports_already_installed() {
    let mut store = empty_store();
    assert_eq!(check_install(&store, "17"), Ok(17));
    install(&mut store, "17", "jdk-17");
    assert_eq!(check_install(&store, "17"), Err(InstallError::AlreadyInstalled));
    assert_eq!(
        install_version(&store, "17", &releases(), &assets("jdk.tar.gz")),
        Err(InstallError::AlreadyInstalled)
    );
    assert_eq!(store.labels(), vec![s("17")]);
}

#[test]
fn install_rejects_a_label_that_is_no_number() {
    let store = empty_store();
    assert_eq!(check_install(&store, "latest"), Err(InstallError::NotANumber));
    assert_eq!(
        install_version(&store, "70000", &releases(), &assets("a.tar.gz")),
        Err(InstallError::NotANumber)
    );
}

#[test]
fn install_rejects_a_release_not_on_offer() {
    let store = empty_store();
    assert_eq!(
        install_version(&store, "16", &releases(), &assets("a.tar.gz")),
        Err(InstallError::UnknownRelease)
    );
}

#[test]
fn install_needs_a_package() {
    let store = empty_store();
    assert_eq!(install_version(&store, "21", &releases(), &vec![]), Err(InstallError::NoPackage));
    let no_binaries = vec![Asset { binaries: vec![] }];
    assert_eq!(install_version(&store, "21", &releases(), &no_binaries), Err(InstallError::NoPackage));
}

#[test]
fn install_refuses_an_archive_name_outside_the_version_directory() {
    let store = empty_store();
    assert_eq!(
        install_version(&store, "21", &releases(), &assets("../../evil.tar.gz")),
        Err(InstallError::BadArchiveName)
    );
    assert_eq!(install_version(&store, "21", &releases(), &assets("..")), Err(InstallError::BadArchiveName));
}

#[test]
fn use_links_the_distribution_root() {
    let mut store = empty_store();
    install(&mut store, "17", "jdk-17.0.2");
    let plan = use_version(&mut store, "17").unwrap();
    assert_eq!(
        plan,
        vec![step(
            FsAction::CreateLink {
                target: s("/home/ada/.jman/versions/17/jdk-17.0.2"),
                link: s("/home/ada/.jman/current"),
            },
            true
        )]
    );
    assert_eq!(store.active(), Some(s("/home/ada/.jman/versions/17/jdk-17.0.2")));
    assert_eq!(store.labels(), vec![s("17")]);
}

#[test]
fn use_twice_keeps_the_pointer_target() {
    let mut store = empty_store();
    install(&mut store, "17", "jdk-17");
    use_version(&mut store, "17").unwrap();
    let first = store.active();
    let plan = use_version(&mut store, "17").unwrap();
    assert_eq!(store.active(), first);
    assert_eq!(plan[0], step(FsAction::RemoveLink(s("/home/ada/.jman/current")), true));
    assert_eq!(plan.len(), 2);
}

#[test]
fn use_switches_without_touching_the_other_version() {
    let mut store = empty_store();
    install(&mut store, "17", "jdk-17");
    install(&mut store, "21", "jdk-21");
    use_version(&mut store, "17").unwrap();
    let plan = use_version(&mut store, "21").unwrap();
    assert_eq!(store.active(), Some(s("/home/ada/.jman/versions/21/jdk-21")));
    for st in &plan {
        let path = match &st.action {
            FsAction::RemoveLink(p) => p.clone(),
            FsAction::CreateLink { link, .. } => link.clone(),
            other => panic!("unexpected step {:?}", other),
        };
        assert!(!path.starts_with("/home/ada/.jman/versions/17"));
    }
    assert_eq!(store.labels(), vec![s("17"), s("21")]);
}

#[test]
fn use_fails_for_a_missing_or_malformed_version() {
    let mut store = empty_store();
    assert_eq!(use_version(&mut store, "17"), Err(ActivationError::NotInstalled));
    let junk = vec![Candidate { name: s("notes.txt"), is_dir: false, has_runtime: false }];
    assert!(store.add_version(s("18"), false, &junk));
    assert_eq!(use_version(&mut store, "18"), Err(ActivationError::NotInstalled));
    assert_eq!(store.active(), None);
}

#[test]
fn use_accepts_a_flat_layout() {
    let mut store = empty_store();
    assert!(store.add_version(s("22"), true, &vec![]));
    use_version(&mut store, "22").unwrap();
    assert_eq!(store.active(), Some(s("/home/ada/.jman/versions/22")));
}

#[test]
fn remove_active_version_drops_the_pointer() {
    let mut store = empty_store();
    install(&mut store, "17", "jdk-17");
    use_version(&mut store, "17").unwrap();
    let plan = remove_version(&mut store, "17").unwrap();
    assert_eq!(
        plan,
        vec![
            step(FsAction::RemoveDirAll(s("/home/ada/.jman/versions/17")), true),
            step(FsAction::RemoveLink(s("/home/ada/.jman/current")), false),
        ]
    );
    assert_eq!(store.active(), None);
    assert!(store.labels().is_empty());
}

#[test]
fn remove_inactive_version_keeps_the_pointer() {
    let mut store = empty_store();
    install(&mut store, "17", "jdk-17");
    install(&mut store, "21", "jdk-21");
    use_version(&mut store, "21").unwrap();
    let before = store.active();
    let plan = remove_version(&mut store, "17").unwrap();
    assert_eq!(plan, vec![step(FsAction::RemoveDirAll(s("/home/ada/.jman/versions/17")), true)]);
    assert_eq!(store.active(), before);
}

#[test]
fn remove_is_not_fooled_by_a_label_prefix() {
    let mut store = Store::new(s(HOME), Some(s("/home/ada/.jman/versions/170/jdk")));
    assert!(store.add_version(s("17"), false, &nested("jdk")));
    let plan = remove_version(&mut store, "17").unwrap();
    assert_eq!(plan.len(), 1);
    assert_eq!(store.active(), Some(s("/home/ada/.jman/versions/170/jdk")));
}

#[test]
fn remove_missing_version_changes_nothing() {
    let mut store = empty_store();
    install(&mut store, "21", "jdk-21");
    use_version(&mut store, "21").unwrap();
    assert_eq!(remove_version(&mut store, "17"), Err(RemovalError::NotInstalled));
    assert_eq!(store.labels(), vec![s("21")]);
    assert_eq!(store.active(), Some(s("/home/ada/.jman/versions/21/jdk-21")));
}

#[test]
fn add_version_keeps_labels_unique() {
    let mut store = empty_store();
    assert!(store.add_version(s("17"), false, &nested("a")));
    assert!(!store.add_version(s("17"), true, &vec![]));
    assert_eq!(store.labels(), vec![s("17")]);
    use_version(&mut store, "17").unwrap();
    assert_eq!(store.active(), Some(s("/home/ada/.jman/versions/17/a")));
}

#[test]
fn two_versions_round_trip() {
    let mut store = empty_store();
    install(&mut store, "17", "jdk-17");
    install(&mut store, "21", "jdk-21");
    let mut labels = store.labels();
    labels.sort();
    assert_eq!(labels, vec![s("17"), s("21")]);

    use_version(&mut store, "17").unwrap();
    assert!(store.active().unwrap().starts_with("/home/ada/.jman/versions/17/"));

    use_version(&mut store, "21").unwrap();
    assert!(store.active().unwrap().starts_with("/home/ada/.jman/versions/21/"));
    assert!(store.labels().contains(&s("17")));

    remove_version(&mut store, "17").unwrap();
    assert_eq!(store.labels(), vec![s("21")]);
    assert!(store.active().unwrap().starts_with("/home/ada/.jman/versions/21/"));

    let plan = remove_version(&mut store, "21").unwrap();
    assert!(plan.contains(&step(FsAction::RemoveLink(s("/home/ada/.jman/current")), false)));
    assert_eq!(store.active(), None);
    assert!(store.labels().is_empty());
}
