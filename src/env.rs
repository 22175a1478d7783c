use vstd::prelude::*;
use crate::paths::{base_dir, opt_view, spec_base_dir};
use crate::text::{contains, has_substring};

verus! {

/// The export script: it points the runtime home at the active pointer and puts
/// the runtime's `bin` directory first on the search path. It depends on the
/// install root alone, never on which version is active.
pub open spec fn spec_env_script(home: Seq<char>) -> Seq<char> {
    "export JAVA_HOME=\""@ + spec_base_dir(home) + "/current\"\nexport PATH=\"$JAVA_HOME/bin:$PATH\"\n"@
}

/// The line of the shell startup file that loads the export script.
pub open spec fn spec_source_line() -> Seq<char> {
    "source \"$HOME/.jman/env.sh\""@
}

/// The startup file once it loads the export script: unchanged if it does
/// already, else with the line appended after a line break.
pub open spec fn spec_bashrc_update(content: Seq<char>) -> Option<Seq<char>> {
    if has_substring(content, spec_source_line()) {
        None
    } else {
        Some(content + "\n"@ + spec_source_line())
    }
}

/// The content of the export script for the home directory `home`.
pub fn env_script(home: &str) -> (r: String)
    ensures
        r@ == spec_env_script(home@),
{
    let mut r = String::from_str("export JAVA_HOME=\"");
    let base = base_dir(home);
    r.append(base.as_str());
    r.append("/current\"\nexport PATH=\"$JAVA_HOME/bin:$PATH\"\n");
    r
}

/// The line that loads the export script.
pub fn source_line() -> (r: &'static str)
    ensures
        r@ == spec_source_line(),
{
    "source \"$HOME/.jman/env.sh\""
}

/// The new content of the shell startup file, or `None` when it loads the
/// export script already and is to be left alone. Nothing is removed or
/// reordered: the line is only ever appended.
pub fn bashrc_update(content: &str) -> (r: Option<String>)
    ensures
        opt_view(r) == spec_bashrc_update(content@),
{
    let line = source_line();
    if contains(content, line) {
        return None;
    }
    let mut r = String::from_str(content);
    r.append("\n");
    r.append(line);
    Some(r)
}

/// What `str::to_lowercase` makes of a string.
pub uninterp spec fn lower_of(s: Seq<char>) -> Seq<char>;

/// Relies on str::to_lowercase: the lowercase form of each character, which
/// depends on the characters alone.
#[verifier::external_body]
fn lowercase(s: &str) -> (r: String)
    ensures
        r@ == lower_of(s@),
{
    s.to_lowercase()
}

/// The runtime home that the user environment points at on Windows.
pub open spec fn spec_windows_java_home(home: Seq<char>) -> Seq<char> {
    spec_base_dir(home) + "\\current"@
}

/// The `bin` directory below a runtime home, with Windows separators.
pub open spec fn spec_windows_bin_path(java_home: Seq<char>) -> Seq<char> {
    java_home + "\\bin"@
}

/// The search path once it holds `bin`: `None` when it does already, compared
/// on the lowercase forms `path_lower` and `bin_lower`; else `bin` put first.
pub open spec fn spec_path_with_bin(
    path: Seq<char>,
    bin: Seq<char>,
    path_lower: Seq<char>,
    bin_lower: Seq<char>,
) -> Option<Seq<char>> {
    if has_substring(path_lower, bin_lower) {
        None
    } else {
        Some(bin + ";"@ + path)
    }
}

pub fn windows_java_home(home: &str) -> (r: String)
    ensures
        r@ == spec_windows_java_home(home@),
{
    let mut r = base_dir(home);
    r.append("\\current");
    r
}

pub fn windows_bin_path(java_home: &str) -> (r: String)
    ensures
        r@ == spec_windows_bin_path(java_home@),
{
    let mut r = String::from_str(java_home);
    r.append("\\bin");
    r
}

/// The new search path given the lowercase forms of the path and of `bin`.
pub fn path_with_bin(path: &str, bin: &str, path_lower: &str, bin_lower: &str) -> (r: Option<String>)
    ensures
        opt_view(r) == spec_path_with_bin(path@, bin@, path_lower@, bin_lower@),
{
    if contains(path_lower, bin_lower) {
        return None;
    }
    let mut r = String::from_str(bin);
    r.append(";");
    r.append(path);
    Some(r)
}

/// The new search path, or `None` when it names `bin` already, in any case.
pub fn path_update(path: &str, bin: &str) -> (r: Option<String>)
    ensures
        opt_view(r) == spec_path_with_bin(path@, bin@, lower_of(path@), lower_of(bin@)),
{
    let path_lower = lowercase(path);
    let bin_lower = lowercase(bin);
    path_with_bin(path, bin, path_lower.as_str(), bin_lower.as_str())
}

} // verus!
