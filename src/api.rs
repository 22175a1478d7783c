use vstd::prelude::*;

verus! {

/// The platform that packages are requested for.
#[derive(Debug, Clone, Copy, PartialEq, Eq, Structural)]
pub enum OS {
    Windows,
    Linux,
    Macos,
}

pub open spec fn os_of(target_os: Seq<char>) -> OS {
    if target_os == "windows"@ {
        OS::Windows
    } else if target_os == "macos"@ {
        OS::Macos
    } else {
        OS::Linux
    }
}

pub open spec fn spec_query_name(os: OS) -> Seq<char> {
    match os {
        OS::Windows => "windows"@,
        OS::Macos => "mac"@,
        OS::Linux => "linux"@,
    }
}

pub open spec fn spec_assets_url(version: Seq<char>, os: OS) -> Seq<char> {
    "https://api.adoptium.net/v3/assets/feature_releases/"@ + version
        + "/ga?architecture=x64&image_type=jdk&jvm_impl=hotspot&os="@ + spec_query_name(os)
        + "&project=jdk"@
}

/// The platform of a compile target, named as Rust names target operating
/// systems; every other system counts as Linux.
pub fn get_os(target_os: &str) -> (r: OS)
    ensures
        r == os_of(target_os@),
{
    let t = String::from_str(target_os);
    if t == String::from_str("windows") {
        OS::Windows
    } else if t == String::from_str("macos") {
        OS::Macos
    } else {
        OS::Linux
    }
}

impl OS {
    /// The platform's name in catalog queries.
    pub fn query_name(&self) -> (r: &'static str)
        ensures
            r@ == spec_query_name(*self),
    {
        match self {
            OS::Windows => "windows",
            OS::Macos => "mac",
            OS::Linux => "linux",
        }
    }
}

/// The catalog query that lists the release numbers on offer.
pub fn releases_url() -> (r: &'static str)
    ensures
        r@ == "https://api.adoptium.net/v3/info/available_releases"@,
{
    "https://api.adoptium.net/v3/info/available_releases"
}

/// The catalog query for the packages of release `version` on `os`.
pub fn assets_url(version: &str, os: OS) -> (r: String)
    ensures
        r@ == spec_assets_url(version@, os),
{
    let mut r = String::from_str("https://api.adoptium.net/v3/assets/feature_releases/");
    r.append(version);
    r.append("/ga?architecture=x64&image_type=jdk&jvm_impl=hotspot&os=");
    r.append(os.query_name());
    r.append("&project=jdk");
    r
}

} // verus!
