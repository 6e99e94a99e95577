//! Locating the per-user configuration directory and the default identity file.

use vstd::prelude::*;
use vstd::string::StrSliceExecFns;
use vstd::string::StringExecFns;

verus! {

/// The platform conventions that decide where configuration lives.
///
/// Chosen once at startup by the program and handed to the functions below.
#[derive(Clone, Copy, Debug, PartialEq, Eq, Structural)]
pub enum Platform {
    /// macOS: configuration lives in the application-data directory.
    MacOs,
    /// Windows: `\` separates path components (and `/` is accepted too).
    Windows,
    /// Every other platform.
    Other,
}

/// Which of the two well-known per-user directories a platform uses.
#[derive(Clone, Copy, Debug, PartialEq, Eq, Structural)]
pub enum DirKind {
    /// The application-data directory.
    Data,
    /// The user configuration directory.
    Config,
}

/// The directory kind that holds configuration on `p`.
pub open spec fn spec_dir_kind(p: Platform) -> DirKind {
    if p == Platform::MacOs {
        DirKind::Data
    } else {
        DirKind::Config
    }
}

/// The path, relative to the configuration directory, of the default identity file.
pub open spec fn default_file_rel() -> Seq<char> {
    seq!['a', 'g', 'e', '/', 'k', 'e', 'y', 's', '.', 't', 'x', 't']
}

/// Whether `c` ends a path component on `p`.
pub open spec fn is_separator(p: Platform, c: char) -> bool {
    c == '/' || (p == Platform::Windows && c == '\\')
}

/// The separator that joining inserts on `p`.
pub open spec fn main_separator(p: Platform) -> char {
    if p == Platform::Windows {
        '\\'
    } else {
        '/'
    }
}

/// `rel` appended to the directory `dir` on platform `p`: a separator is put
/// between them unless `dir` is empty or already ends with one.
pub open spec fn spec_join_path(p: Platform, dir: Seq<char>, rel: Seq<char>) -> Seq<char> {
    if dir.len() == 0 || is_separator(p, dir.last()) {
        dir + rel
    } else {
        dir + seq![main_separator(p)] + rel
    }
}

/// The default identity file under the configuration directory `dir`.
pub open spec fn spec_default_identity_path(p: Platform, dir: Seq<char>) -> Seq<char> {
    spec_join_path(p, dir, default_file_rel())
}

/// Which per-user directory holds configuration on `p`.
///
/// macOS keeps it in the application-data directory; every other platform in
/// the user configuration directory. This is the convention of Go's
/// `os.UserConfigDir`, so that identity files are found where Go tools for the
/// same file format look for them.
pub fn config_dir_kind(p: Platform) -> (r: DirKind)
    ensures
        r == spec_dir_kind(p),
{
    match p {
        Platform::MacOs => DirKind::Data,
        _ => DirKind::Config,
    }
}

/// Relies on `dirs::data_dir`: the user's application-data directory, if the
/// environment gives one. What it returns depends on the environment, so
/// nothing is stated of it.
#[verifier::external_body]
fn data_dir() -> (r: Option<String>) {
    dirs::data_dir().map(|d| d.to_string_lossy().into_owned())
}

/// Relies on `dirs::config_dir`: the user's configuration directory, if the
/// environment gives one. What it returns depends on the environment, so
/// nothing is stated of it.
#[verifier::external_body]
fn config_dir() -> (r: Option<String>) {
    dirs::config_dir().map(|d| d.to_string_lossy().into_owned())
}

/// The configuration directory on platform `p`, given what the platform
/// reported as its application-data directory (`data`) and its user
/// configuration directory (`config`).
pub fn config_dir_for(p: Platform, data: Option<String>, config: Option<String>) -> (r: Option<String>)
    ensures
        r == (if spec_dir_kind(p) == DirKind::Data {
            data
        } else {
            config
        }),
{
    match config_dir_kind(p) {
        DirKind::Data => data,
        DirKind::Config => config,
    }
}

/// The configuration directory on platform `p`, or `None` where the
/// environment gives no such directory.
///
/// Asks the platform only for the directory of kind `config_dir_kind(p)`.
pub fn get_config_dir(p: Platform) -> (r: Option<String>) {
    let kind = config_dir_kind(p);
    let data = if kind == DirKind::Data {
        data_dir()
    } else {
        None
    };
    let config = if kind == DirKind::Config {
        config_dir()
    } else {
        None
    };
    config_dir_for(p, data, config)
}

/// `rel` appended to the directory `dir`, with a separator between them
/// unless `dir` is empty or already ends with one.
pub fn join_path(p: Platform, dir: &str, rel: &str) -> (r: String)
    ensures
        r@ == spec_join_path(p, dir@, rel@),
{
    let n = dir.unicode_len();
    let mut out = String::from_str(dir);
    if n > 0 {
        let last = dir.get_char(n - 1);
        let sep_end = last == '/' || (p == Platform::Windows && last == '\\');
        if !sep_end {
            if p == Platform::Windows {
                out.append("\\");
            } else {
                out.append("/");
            }
        }
    }
    out.append(rel);
    proof {
        reveal_strlit("\\");
        reveal_strlit("/");
        if n > 0 {
            assert(dir@.last() == dir@[n - 1]);
        }
    }
    out
}

/// The default identity file, `age/keys.txt` under the configuration directory `dir`.
pub fn default_identity_path(p: Platform, dir: &str) -> (r: String)
    ensures
        r@ == spec_default_identity_path(p, dir@),
{
    proof {
        reveal_strlit("age/keys.txt");
    }
    join_path(p, dir, "age/keys.txt")
}

} // verus!
