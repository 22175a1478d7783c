use jman::api::{assets_url, get_os, releases_url, OS};
use jman::env::{bashrc_update, env_script, path_update, path_with_bin, source_line, windows_bin_path, windows_java_home};
use jman::label::parse_version;
use jman::layout::{find_bin_path, Candidate};
use jman::models::{select_package, Asset, AvailableReleases, Binary, PackageInfo};
use jman::paths::{
    base_dir, bashrc_file, current_symlink, env_file, home_dir, is_plain_name, is_within, join,
    version_dir, versions_dir,
};
use jman::registry::{list_versions, Entry};
use jman::text::{chars_of, contains};

fn cand(name: &str, is_dir: bool, has_runtime: bool) -> Candidate {
    Candidate { name: name.to_string(), is_dir, has_runtime }
}

#[test]
fn paths_derive_from_home() {
    assert_eq!(base_dir("/home/ada"), "/home/ada/.jman");
    assert_eq!(versions_dir("/home/ada"), "/home/ada/.jman/versions");
    assert_eq!(version_dir("/home/ada", "21"), "/home/ada/.jman/versions/21");
    assert_eq!(current_symlink("/home/ada"), "/home/ada/.jman/current");
    assert_eq!(env_file("/home/ada"), "/home/ada/.jman/env.sh");
    assert_eq!(bashrc_file("/home/ada"), "/home/ada/.bashrc");
    assert_eq!(join("a", "b"), "a/b");
}

#[test]
fn home_dir_is_found() {
    let home = home_dir().unwrap();
    assert!(!home.is_empty());
}

#[test]
fn within_compares_components() {
    assert!(is_within("/r/versions/17", "/r/versions/17"));
    assert!(is_within("/r/versions/17/jdk/bin", "/r/versions/17"));
    assert!(!is_within("/r/versions/170", "/r/versions/17"));
    assert!(!is_within("/r/versions", "/r/versions/17"));
    assert!(!is_within("/r/current", "/r/versions/17"));
}

#[test]
fn plain_names() {
    assert!(is_plain_name("OpenJDK21U-jdk_x64_linux.tar.gz"));
    assert!(is_plain_name("..a"));
    assert!(is_plain_name(".hidden"));
    assert!(!is_plain_name(""));
    assert!(!is_plain_name("."));
    assert!(!is_plain_name(".."));
    assert!(!is_plain_name("a/b"));
    assert!(!is_plain_name("a\\b"));
}

#[test]
fn labels_parse_as_u16() {
    assert_eq!(parse_version("17"), Some(17));
    assert_eq!(parse_version("+21"), Some(21));
    assert_eq!(parse_version("007"), Some(7));
    assert_eq!(parse_version("65535"), Some(65535));
    assert_eq!(parse_version("65536"), None);
    assert_eq!(parse_version("123456"), None);
    assert_eq!(parse_version(""), None);
    assert_eq!(parse_version("+"), None);
    assert_eq!(parse_version("-1"), None);
    assert_eq!(parse_version("1a"), None);
    assert_eq!(parse_version(" 17"), None);
    for s in ["0", "8", "17", "+9", "65535", "65536", "x", "+-1"] {
        assert_eq!(parse_version(s), s.parse::<u16>().ok());
    }
}

#[test]
fn distribution_root_prefers_the_version_directory() {
    let cs = vec![cand("jdk-21", true, true)];
    assert_eq!(find_bin_path("/v/21", true, &cs), Some("/v/21".to_string()));
}

#[test]
fn distribution_root_is_the_first_runnable_subdirectory() {
    let cs = vec![
        cand("jdk.tar.gz", false, false),
        cand("docs", true, false),
        cand("fake", false, true),
        cand("jdk-21.0.1", true, true),
        cand("jdk-21.0.2", true, true),
    ];
    assert_eq!(find_bin_path("/v/21", false, &cs), Some("/v/21/jdk-21.0.1".to_string()));
}

#[test]
fn distribution_root_missing() {
    assert_eq!(find_bin_path("/v/21", false, &vec![]), None);
    assert_eq!(find_bin_path("/v/21", false, &vec![cand("docs", true, false)]), None);
}

#[test]
fn listing_keeps_directories_in_order() {
    let entries = vec![
        Entry { name: "21".to_string(), is_dir: true },
        Entry { name: "readme".to_string(), is_dir: false },
        Entry { name: "17".to_string(), is_dir: true },
    ];
    assert_eq!(list_versions(&entries), vec!["21".to_string(), "17".to_string()]);
    assert!(list_versions(&vec![]).is_empty());
}

#[test]
fn releases_on_offer() {
    let r = AvailableReleases { available_lts_releases: vec![21], available_releases: vec![8, 21, 23] };
    assert!(r.offers(21));
    assert!(r.offers(8));
    assert!(!r.offers(17));
}

#[test]
fn package_is_the_first_binary_of_the_first_asset() {
    let pkg = |n: &str| PackageInfo { link: format!("https://x/{}", n), name: n.to_string() };
    let assets = vec![
        Asset { binaries: vec![Binary { package: pkg("a") }, Binary { package: pkg("b") }] },
        Asset { binaries: vec![Binary { package: pkg("c") }] },
    ];
    assert_eq!(select_package(&assets).unwrap().name, "a");
    assert!(select_package(&vec![]).is_none());
}

#[test]
fn os_from_target() {
    assert_eq!(get_os("windows"), OS::Windows);
    assert_eq!(get_os("macos"), OS::Macos);
    assert_eq!(get_os("linux"), OS::Linux);
    assert_eq!(get_os("freebsd"), OS::Linux);
    assert_eq!(OS::Macos.query_name(), "mac");
}

#[test]
fn catalog_urls() {
    assert_eq!(releases_url(), "https://api.adoptium.net/v3/info/available_releases");
    assert_eq!(
        assets_url("21", OS::Linux),
        "https://api.adoptium.net/v3/assets/feature_releases/21/ga?architecture=x64&image_type=jdk&jvm_impl=hotspot&os=linux&project=jdk"
    );
    assert!(assets_url("17", OS::Windows).ends_with("&os=windows&project=jdk"));
}

#[test]
fn export_script_content() {
    assert_eq!(
        env_script("/home/ada"),
        "export JAVA_HOME=\"/home/ada/.jman/current\"\nexport PATH=\"$JAVA_HOME/bin:$PATH\"\n"
    );
    assert_eq!(source_line(), "source \"$HOME/.jman/env.sh\"");
}

#[test]
fn startup_file_gets_the_line_once() {
    let first = bashrc_update("").unwrap();
    assert_eq!(first, "\nsource \"$HOME/.jman/env.sh\"");
    assert_eq!(bashrc_update(&first), None);
    let grown = bashrc_update("alias ll='ls -l'").unwrap();
    assert_eq!(grown, "alias ll='ls -l'\nsource \"$HOME/.jman/env.sh\"");
    assert_eq!(bashrc_update(&grown), None);
}

#[test]
fn substring_search() {
    assert!(contains("abcabd", "abd"));
    assert!(contains("abc", ""));
    assert!(contains("", ""));
    assert!(!contains("ab", "abc"));
    assert!(!contains("abcab", "abd"));
    assert_eq!(chars_of("häj"), vec!['h', 'ä', 'j']);
}

#[test]
fn windows_paths() {
    let home = windows_java_home("C:\\Users\\ada");
    assert_eq!(home, "C:\\Users\\ada/.jman\\current");
    assert_eq!(windows_bin_path(&home), "C:\\Users\\ada/.jman\\current\\bin");
}

#[test]
fn search_path_gains_bin_once_ignoring_case() {
    let bin = "C:\\Users\\ada\\.jman\\current\\bin";
    assert_eq!(
        path_update("C:\\Windows", bin),
        Some("C:\\Users\\ada\\.jman\\current\\bin;C:\\Windows".to_string())
    );
    assert_eq!(path_update("c:\\users\\ADA\\.JMAN\\current\\BIN;C:\\Windows", bin), None);
    assert_eq!(path_with_bin("X;Y", "b", "x;y", "b"), Some("b;X;Y".to_string()));
    assert_eq!(path_with_bin("X;B", "b", "x;b", "b"), None);
}
