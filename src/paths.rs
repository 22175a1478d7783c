use vstd::prelude::*;

verus! {

/// The path `dir/name`: `name` appended to `dir` as one more component.
pub open spec fn spec_join(dir: Seq<char>, name: Seq<char>) -> Seq<char> {
    dir + seq!['/'] + name
}

/// The contents of an optional string.
pub open spec fn opt_view(o: Option<String>) -> Option<Seq<char>> {
    match o {
        Some(s) => Some(s@),
        None => None,
    }
}

/// A single path component that names an entry of its directory: not empty,
/// without separators, and neither `.` nor `..`.
pub open spec fn plain_name(s: Seq<char>) -> bool {
    &&& s.len() > 0
    &&& !(s.len() == 1 && s[0] == '.')
    &&& !(s.len() == 2 && s[0] == '.' && s[1] == '.')
    &&& forall|k: int| 0 <= k < s.len() ==> s[k] != '/' && s[k] != '\\'
}

/// The path `p` lies at or below the directory `dir`, compared component-wise.
pub open spec fn within(p: Seq<char>, dir: Seq<char>) -> bool {
    p == dir || (dir + seq!['/']).is_prefix_of(p)
}

pub open spec fn spec_base_dir(home: Seq<char>) -> Seq<char> {
    spec_join(home, ".jman"@)
}

pub open spec fn spec_versions_dir(home: Seq<char>) -> Seq<char> {
    spec_join(spec_base_dir(home), "versions"@)
}

pub open spec fn spec_version_dir(home: Seq<char>, label: Seq<char>) -> Seq<char> {
    spec_join(spec_versions_dir(home), label)
}

pub open spec fn spec_current_symlink(home: Seq<char>) -> Seq<char> {
    spec_join(spec_base_dir(home), "current"@)
}

pub open spec fn spec_env_file(home: Seq<char>) -> Seq<char> {
    spec_join(spec_base_dir(home), "env.sh"@)
}

pub open spec fn spec_bashrc_file(home: Seq<char>) -> Seq<char> {
    spec_join(home, ".bashrc"@)
}

/// Appends one path component to a directory path.
pub fn join(dir: &str, name: &str) -> (r: String)
    ensures
        r@ == spec_join(dir@, name@),
{
    let mut r = String::from_str(dir);
    r.append("/");
    proof {
        reveal_strlit("/");
    }
    r.append(name);
    r
}

/// Whether the path `p` lies at or below the directory `dir`.
pub fn is_within(p: &str, dir: &str) -> (r: bool)
    ensures
        r == within(p@, dir@),
{
    let n = p.unicode_len();
    let m = dir.unicode_len();
    if n < m {
        return false;
    }
    let mut i: usize = 0;
    while i < m
        invariant
            m == dir@.len(),
            n == p@.len(),
            m <= n,
            i <= m,
            forall|k: int| 0 <= k < i ==> p@[k] == dir@[k],
        decreases m - i,
    {
        if p.get_char(i) != dir.get_char(i) {
            assert(!(dir@ + seq!['/']).is_prefix_of(p@)) by {
                assert((dir@ + seq!['/'])[i as int] == dir@[i as int]);
            }
            return false;
        }
        i = i + 1;
    }
    assert(p@.subrange(0, m as int) =~= dir@);
    if n == m {
        assert(p@ =~= dir@);
        true
    } else {
        let c = p.get_char(m);
        let ghost ext = dir@ + seq!['/'];
        if c == '/' {
            assert(ext =~= p@.subrange(0, m + 1));
            true
        } else {
            assert(ext[m as int] == '/');
            assert(p@ != dir@);
            false
        }
    }
}

/// Whether `name` can stand as one entry of a directory.
pub fn is_plain_name(name: &str) -> (r: bool)
    ensures
        r == plain_name(name@),
{
    let n = name.unicode_len();
    if n == 0 {
        return false;
    }
    let mut i: usize = 0;
    while i < n
        invariant
            n == name@.len(),
            i <= n,
            forall|k: int| 0 <= k < i ==> name@[k] != '/' && name@[k] != '\\',
        decreases n - i,
    {
        let c = name.get_char(i);
        if c == '/' || c == '\\' {
            return false;
        }
        i = i + 1;
    }
    if name.get_char(0) != '.' {
        return true;
    }
    if n == 1 {
        return false;
    }
    !(n == 2 && name.get_char(1) == '.')
}

/// The directory that holds all of the tool's state: `home/.jman`.
pub fn base_dir(home: &str) -> (r: String)
    ensures
        r@ == spec_base_dir(home@),
{
    join(home, ".jman")
}

/// The directory whose subdirectories are the installed versions.
pub fn versions_dir(home: &str) -> (r: String)
    ensures
        r@ == spec_versions_dir(home@),
{
    let base = base_dir(home);
    join(base.as_str(), "versions")
}

/// The directory of one installed version, named by its label.
pub fn version_dir(home: &str, label: &str) -> (r: String)
    ensures
        r@ == spec_version_dir(home@, label@),
{
    let versions = versions_dir(home);
    join(versions.as_str(), label)
}

/// The fixed path of the link to the active version.
pub fn current_symlink(home: &str) -> (r: String)
    ensures
        r@ == spec_current_symlink(home@),
{
    let base = base_dir(home);
    join(base.as_str(), "current")
}

/// The script that exports the active version to a shell.
pub fn env_file(home: &str) -> (r: String)
    ensures
        r@ == spec_env_file(home@),
{
    let base = base_dir(home);
    join(base.as_str(), "env.sh")
}

/// The shell startup file that sources the export script.
pub fn bashrc_file(home: &str) -> (r: String)
    ensures
        r@ == spec_bashrc_file(home@),
{
    join(home, ".bashrc")
}

/// The home directory cannot be determined.
#[derive(Debug, Clone, Copy, PartialEq, Eq, Structural)]
pub struct EnvironmentError;

/// Relies on dirs_next::home_dir, which reads the environment (or the platform's
/// user profile); nothing is known of what it returns.
#[verifier::external_body]
fn lookup_home() -> (r: Option<String>) {
    dirs_next::home_dir().map(|p| p.to_string_lossy().into_owned())
}

/// The current user's home directory; every other path is derived from it.
/// Fails when the platform reports none.
pub fn home_dir() -> (r: Result<String, EnvironmentError>) {
    match lookup_home() {
        Some(h) => Ok(h),
        None => Err(EnvironmentError),
    }
}

} // verus!
