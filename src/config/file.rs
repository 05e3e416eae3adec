//! Persistent settings, as read from the configuration file.
//!
//! The file is `<config_dir>/clean-dev-dirs/config.toml`. Its values are
//! defaults that command-line arguments override. Every field is optional so
//! that the layers can tell which values the file sets.

use vstd::prelude::*;
use crate::cleaner::CleanPolicy;
use crate::paths::{join, path_join};
use crate::sorting::{key_named, SortKey};

verus! {

/// Top level of the configuration file.
#[derive(Debug)]
pub struct FileConfig {
    /// Default ecosystem filter (`"rust"`, `"node"`, `"all"`, ...).
    pub project_type: Option<String>,
    /// Default directory to scan.
    pub dir: Option<String>,
    pub filtering: FileFilterConfig,
    pub scanning: FileScanConfig,
    pub execution: FileExecutionConfig,
}

/// `[filtering]`.
#[derive(Debug)]
pub struct FileFilterConfig {
    pub keep_size: Option<String>,
    pub keep_days: Option<u32>,
    /// Sort criterion (`"size"`, `"age"`, `"name"`, `"type"`).
    pub sort: Option<String>,
    pub reverse: Option<bool>,
}

/// `[scanning]`.
#[derive(Debug)]
pub struct FileScanConfig {
    pub threads: Option<usize>,
    pub verbose: Option<bool>,
    pub skip: Option<Vec<String>>,
    pub ignore: Option<Vec<String>>,
}

/// `[execution]`.
#[derive(Debug)]
pub struct FileExecutionConfig {
    pub keep_executables: Option<bool>,
    pub interactive: Option<bool>,
    pub dry_run: Option<bool>,
    /// Move to the trash rather than delete; absent means yes.
    pub use_trash: Option<bool>,
}

impl Default for FileFilterConfig {
    fn default() -> (r: FileFilterConfig)
        ensures
            r.keep_size is None && r.keep_days is None && r.sort is None && r.reverse is None,
    {
        FileFilterConfig { keep_size: None, keep_days: None, sort: None, reverse: None }
    }
}

impl Default for FileScanConfig {
    fn default() -> (r: FileScanConfig)
        ensures
            r.threads is None && r.verbose is None && r.skip is None && r.ignore is None,
    {
        FileScanConfig { threads: None, verbose: None, skip: None, ignore: None }
    }
}

impl Default for FileExecutionConfig {
    fn default() -> (r: FileExecutionConfig)
        ensures
            r.keep_executables is None && r.interactive is None && r.dry_run is None && r.use_trash is None,
    {
        FileExecutionConfig { keep_executables: None, interactive: None, dry_run: None, use_trash: None }
    }
}

impl Default for FileConfig {
    fn default() -> (r: FileConfig)
        ensures
            r.project_type is None && r.dir is None,
            r.filtering.keep_size is None && r.filtering.keep_days is None && r.filtering.sort is None
                && r.filtering.reverse is None,
            r.scanning.threads is None && r.scanning.verbose is None && r.scanning.skip is None
                && r.scanning.ignore is None,
            r.execution.keep_executables is None && r.execution.interactive is None && r.execution.dry_run is None
                && r.execution.use_trash is None,
    {
        FileConfig {
            project_type: None,
            dir: None,
            filtering: FileFilterConfig::default(),
            scanning: FileScanConfig::default(),
            execution: FileExecutionConfig::default(),
        }
    }
}

/// First index from `i` on that holds no `/`.
pub open spec fn skip_slashes(s: Seq<char>, i: int) -> int
    decreases s.len() - i,
{
    if 0 <= i < s.len() && s[i] == '/' {
        skip_slashes(s, i + 1)
    } else {
        i
    }
}

/// `path` with a leading `~` component replaced by `home`: `~` alone becomes
/// `home`, `~/rest` becomes `rest` joined onto `home`; any other path, or any
/// path when no home is known, stays as it is.
pub open spec fn tilde_expanded(path: Seq<char>, home: Option<Seq<char>>) -> Seq<char> {
    match home {
        Some(h) => if path == "~"@ {
            h
        } else if path.len() >= 2 && path[0] == '~' && path[1] == '/' {
            let rest = path.subrange(skip_slashes(path, 1), path.len() as int);
            if rest.len() == 0 {
                h
            } else {
                path_join(h, rest)
            }
        } else {
            path
        },
        None => path,
    }
}

/// Replaces a leading `~` component of `path` by `home`.
pub fn expand_tilde_with(path: &str, home: Option<String>) -> (r: String)
    ensures
        r@ == tilde_expanded(path@, crate::project::opt_text(home)),
{
    let h = match home {
        Some(h) => h,
        None => return path.to_owned(),
    };
    let n = path.unicode_len();
    if n == 1 && path.get_char(0) == '~' {
        proof {
            reveal_strlit("~");
            assert(path@ =~= "~"@);
        }
        return h;
    }
    proof {
        reveal_strlit("~");
    }
    if n >= 2 && path.get_char(0) == '~' && path.get_char(1) == '/' {
        let mut i: usize = 1;
        while i < n && path.get_char(i) == '/'
            invariant
                1 <= i <= n,
                n == path@.len(),
                skip_slashes(path@, i as int) == skip_slashes(path@, 1),
            decreases n - i,
        {
            i = i + 1;
        }
        if i == n {
            return h;
        }
        let rest = path.substring_char(i, n);
        return join(h.as_str(), rest);
    }
    path.to_owned()
}

/// Relies on dirs::home_dir: the user's home directory, which depends on the
/// environment; nothing is known of the value.
#[verifier::external_body]
fn home_dir() -> (r: Option<String>) {
    dirs::home_dir().map(|p| p.to_string_lossy().into_owned())
}

/// Relies on dirs::config_dir: the platform's configuration directory, which
/// depends on the environment; nothing is known of the value.
#[verifier::external_body]
fn config_dir() -> (r: Option<String>) {
    dirs::config_dir().map(|p| p.to_string_lossy().into_owned())
}

/// Replaces a leading `~` component of `path` by the user's home directory.
pub fn expand_tilde(path: &str) -> (r: String)
    ensures
        exists|home: Option<Seq<char>>| r@ == tilde_expanded(path@, home),
        !(path@.len() > 0 && path@[0] == '~') ==> r@ == path@,
{
    let home = home_dir();
    let r = expand_tilde_with(path, home);
    proof {
        reveal_strlit("~");
    }
    r
}

/// `<config_dir>/clean-dev-dirs/config.toml`.
pub open spec fn config_file_in(dir: Seq<char>) -> Seq<char> {
    path_join(path_join(dir, "clean-dev-dirs"@), "config.toml"@)
}

/// The configuration file inside the configuration directory `dir`.
pub fn config_file_path(dir: &str) -> (r: String)
    ensures
        r@ == config_file_in(dir@),
{
    let app = join(dir, "clean-dev-dirs");
    join(app.as_str(), "config.toml")
}

impl FileConfig {
    /// The display order that the file asks for: its sort criterion when it
    /// names one, else size; reversed when the file says so.
    pub fn sort_order(&self) -> (r: (SortKey, bool))
        ensures
            r.0 == (match self.filtering.sort {
                Some(t) => match key_named(t@) {
                    Some(k) => k,
                    None => SortKey::Size,
                },
                None => SortKey::Size,
            }),
            r.1 == (self.filtering.reverse == Some(true)),
    {
        let key = match &self.filtering.sort {
            Some(t) => match SortKey::from_name(t.as_str()) {
                Some(k) => k,
                None => SortKey::Size,
            },
            None => SortKey::Size,
        };
        let reverse = match self.filtering.reverse {
            Some(b) => b,
            None => false,
        };
        (key, reverse)
    }

    /// The removal policy once the command line's flags are laid over the
    /// file's settings: executables are kept when either asks for it; the
    /// trash is used unless the command line asks for permanent deletion or
    /// the file turns the trash off.
    pub fn clean_policy(&self, keep_executables: bool, permanent: bool) -> (r: CleanPolicy)
        ensures
            r.keep_executables == (keep_executables || self.execution.keep_executables == Some(true)),
            r.use_trash == (!permanent && self.execution.use_trash != Some(false)),
    {
        let file_keep = match self.execution.keep_executables {
            Some(b) => b,
            None => false,
        };
        let file_trash = match self.execution.use_trash {
            Some(b) => b,
            None => true,
        };
        CleanPolicy { keep_executables: keep_executables || file_keep, use_trash: !permanent && file_trash }
    }

    /// Where the configuration file is expected, when the platform has a
    /// configuration directory.
    pub fn config_path() -> (r: Option<String>)
        ensures
            r matches Some(p) ==> exists|dir: Seq<char>| p@ == config_file_in(dir),
    {
        match config_dir() {
            Some(d) => Some(config_file_path(d.as_str())),
            None => None,
        }
    }
}

} // verus!
