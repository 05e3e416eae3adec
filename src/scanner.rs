//! Project detection and traversal pruning.
//!
//! The caller walks the tree; for every directory it asks [`Scanner::should_scan_entry`]
//! whether to descend, and hands [`Scanner::detect_project`] what the directory
//! holds. Build directories are measured afterwards, and [`apply_sizes`] writes
//! the sizes in and drops the empty ones.

use vstd::prelude::*;
use crate::config::{ProjectFilter, ScanOptions};
use crate::names::{extract_name, metadata_name, NameRule};
use crate::paths::{join, path_join};
use crate::project::{copy_opt_text, opt_text, views, BuildArtifacts, Project, ProjectType, ProjectView};
use crate::text::{chars_of, occurs_in, occurs_in_exec, text_eq};

verus! {

/// A child of a directory under classification, as the caller found it.
#[derive(Clone, Debug)]
pub struct ChildEntry {
    /// File name of the child.
    pub name: String,
    /// Whether the child is a directory.
    pub is_dir: bool,
    /// Text of the child, for a metadata file (see [`is_metadata_file`]) that could be read.
    pub content: Option<String>,
    /// Total bytes below the child, for a directory that was measured
    /// (see [`Scanner::dirs_to_measure`]).
    pub size: Option<u64>,
}

/// A directory met during the walk.
#[derive(Clone, Debug)]
pub struct DirSnapshot {
    /// Path of the directory.
    pub path: String,
    /// Final component of the path, when it has one.
    pub name: Option<String>,
    /// The directory's children.
    pub entries: Vec<ChildEntry>,
}

/// Index of the first child named `name`, from `i` on.
pub open spec fn find_entry(es: Seq<ChildEntry>, name: Seq<char>, i: int) -> Option<int>
    decreases es.len() - i,
{
    if i < 0 || i >= es.len() {
        None
    } else if es[i].name@ == name {
        Some(i)
    } else {
        find_entry(es, name, i + 1)
    }
}

/// The child named `name`.
pub open spec fn lookup(es: Seq<ChildEntry>, name: Seq<char>) -> Option<ChildEntry> {
    match find_entry(es, name, 0) {
        Some(i) => Some(es[i]),
        None => None,
    }
}

pub open spec fn has_entry(es: Seq<ChildEntry>, name: Seq<char>) -> bool {
    lookup(es, name) is Some
}

pub open spec fn has_dir(es: Seq<ChildEntry>, name: Seq<char>) -> bool {
    lookup(es, name) matches Some(e) && e.is_dir
}

/// Text of the metadata file `name`, when it is there and was read.
pub open spec fn content_of(es: Seq<ChildEntry>, name: Seq<char>) -> Option<Seq<char>> {
    match lookup(es, name) {
        Some(e) => opt_text(e.content),
        None => None,
    }
}

/// Measured size of the child `name`; zero when it was not measured.
pub open spec fn size_of(es: Seq<ChildEntry>, name: Seq<char>) -> u64 {
    match lookup(es, name) {
        Some(e) => match e.size {
            Some(n) => n,
            None => 0,
        },
        None => 0,
    }
}

/// Number of Python cache and virtual-env directory names.
pub const PYTHON_CACHE_DIR_COUNT: usize = 9;

/// The Python cache and virtual-env directory names, in their fixed order.
pub open spec fn python_cache_dir(i: int) -> Seq<char> {
    if i == 0 {
        "__pycache__"@
    } else if i == 1 {
        ".pytest_cache"@
    } else if i == 2 {
        ".mypy_cache"@
    } else if i == 3 {
        "venv"@
    } else if i == 4 {
        ".venv"@
    } else if i == 5 {
        "build"@
    } else if i == 6 {
        "dist"@
    } else if i == 7 {
        ".eggs"@
    } else {
        ".tox"@
    }
}

fn python_cache_dir_name(i: usize) -> (r: &'static str)
    requires
        i < PYTHON_CACHE_DIR_COUNT,
    ensures
        r@ == python_cache_dir(i as int),
{
    if i == 0 {
        "__pycache__"
    } else if i == 1 {
        ".pytest_cache"
    } else if i == 2 {
        ".mypy_cache"
    } else if i == 3 {
        "venv"
    } else if i == 4 {
        ".venv"
    } else if i == 5 {
        "build"
    } else if i == 6 {
        "dist"
    } else if i == 7 {
        ".eggs"
    } else {
        ".tox"
    }
}

/// One of the files that mark a Python project is there.
pub open spec fn python_config_present(es: Seq<ChildEntry>) -> bool {
    has_entry(es, "requirements.txt"@) || has_entry(es, "setup.py"@) || has_entry(es, "pyproject.toml"@)
        || has_entry(es, "setup.cfg"@) || has_entry(es, "Pipfile"@) || has_entry(es, "Pipfile.lock"@)
        || has_entry(es, "poetry.lock"@)
}

/// Among the first `n` Python cache directory names, the index of the present
/// directory that is largest, the earliest one on ties.
pub open spec fn python_best(es: Seq<ChildEntry>, n: int) -> Option<int>
    decreases n,
{
    if n <= 0 {
        None
    } else {
        let prev = python_best(es, n - 1);
        if has_dir(es, python_cache_dir(n - 1)) {
            match prev {
                Some(b) => if size_of(es, python_cache_dir(n - 1)) > size_of(es, python_cache_dir(b)) {
                    Some(n - 1)
                } else {
                    Some(b)
                },
                None => Some(n - 1),
            }
        } else {
            prev
        }
    }
}

/// The present Python cache directories among the first `n` names, in order.
pub open spec fn python_present(es: Seq<ChildEntry>, n: int) -> Seq<Seq<char>>
    decreases n,
{
    if n <= 0 {
        Seq::empty()
    } else if has_dir(es, python_cache_dir(n - 1)) {
        python_present(es, n - 1).push(python_cache_dir(n - 1))
    } else {
        python_present(es, n - 1)
    }
}

/// `filter` lets projects of `kind` through.
pub open spec fn allows(filter: ProjectFilter, kind: ProjectType) -> bool {
    match filter {
        ProjectFilter::All => true,
        ProjectFilter::Rust => kind == ProjectType::Rust,
        ProjectFilter::Node => kind == ProjectType::Node,
        ProjectFilter::Python => kind == ProjectType::Python,
        ProjectFilter::Go => kind == ProjectType::Go,
    }
}

pub open spec fn rust_rule(es: Seq<ChildEntry>, f: ProjectFilter) -> bool {
    allows(f, ProjectType::Rust) && has_entry(es, "Cargo.toml"@) && has_dir(es, "target"@)
}

pub open spec fn node_rule(es: Seq<ChildEntry>, f: ProjectFilter) -> bool {
    allows(f, ProjectType::Node) && has_entry(es, "package.json"@) && has_dir(es, "node_modules"@)
}

pub open spec fn python_rule(es: Seq<ChildEntry>, f: ProjectFilter) -> bool {
    allows(f, ProjectType::Python) && python_config_present(es) && python_best(es, PYTHON_CACHE_DIR_COUNT as int) is Some
}

pub open spec fn go_rule(es: Seq<ChildEntry>, f: ProjectFilter) -> bool {
    allows(f, ProjectType::Go) && has_entry(es, "go.mod"@) && has_dir(es, "vendor"@)
}

/// The ecosystem of a directory with children `es`, and the name of its build
/// directory: the rules are tried in the order Rust, Node, Python, Go, and the
/// first that holds decides.
pub open spec fn classify(es: Seq<ChildEntry>, f: ProjectFilter) -> Option<(ProjectType, Seq<char>)> {
    if rust_rule(es, f) {
        Some((ProjectType::Rust, "target"@))
    } else if node_rule(es, f) {
        Some((ProjectType::Node, "node_modules"@))
    } else if python_rule(es, f) {
        Some((ProjectType::Python, python_cache_dir(python_best(es, PYTHON_CACHE_DIR_COUNT as int)->0)))
    } else if go_rule(es, f) {
        Some((ProjectType::Go, "vendor"@))
    } else {
        None
    }
}

/// What a JSON text holds under a key of its top-level object: `None` when the
/// text is not JSON, `Some(None)` when the member is missing or no string.
pub uninterp spec fn json_string_member(text: Seq<char>, key: Seq<char>) -> Option<Option<Seq<char>>>;

/// The name that a metadata file yields under `rule`, when it was read.
pub open spec fn name_from(es: Seq<ChildEntry>, file: Seq<char>, rule: NameRule) -> Option<Seq<char>> {
    match content_of(es, file) {
        Some(c) => metadata_name(c, rule),
        None => None,
    }
}

/// The project's name: from `Cargo.toml`, from the `"name"` member of
/// `package.json`, from `go.mod`'s module path; for Python, the first that
/// yields one of `pyproject.toml`, `setup.py` and `setup.cfg`, else the
/// directory's own name.
pub open spec fn project_name(es: Seq<ChildEntry>, kind: ProjectType, dir_name: Option<Seq<char>>) -> Option<Seq<char>> {
    match kind {
        ProjectType::Rust => name_from(es, "Cargo.toml"@, NameRule::Quoted),
        ProjectType::Node => match content_of(es, "package.json"@) {
            Some(c) => match json_string_member(c, "name"@) {
                Some(Some(n)) => Some(n),
                _ => None,
            },
            None => None,
        },
        ProjectType::Python => if name_from(es, "pyproject.toml"@, NameRule::Quoted) is Some {
            name_from(es, "pyproject.toml"@, NameRule::Quoted)
        } else if name_from(es, "setup.py"@, NameRule::Call) is Some {
            name_from(es, "setup.py"@, NameRule::Call)
        } else if name_from(es, "setup.cfg"@, NameRule::Assign) is Some {
            name_from(es, "setup.cfg"@, NameRule::Assign)
        } else {
            dir_name
        },
        ProjectType::Go => name_from(es, "go.mod"@, NameRule::Module),
    }
}

/// The project detected in `dir` under `f`, with its size not yet measured.
pub open spec fn detected(dir: DirSnapshot, f: ProjectFilter) -> Option<ProjectView> {
    match classify(dir.entries@, f) {
        Some((kind, artifact)) => Some(ProjectView {
            kind,
            root_path: dir.path@,
            build_path: path_join(dir.path@, artifact),
            size: 0,
            name: project_name(dir.entries@, kind, opt_text(dir.name)),
        }),
        None => None,
    }
}

/// `package.json` was read and is not JSON.
pub open spec fn json_warning(dir: DirSnapshot, f: ProjectFilter) -> bool {
    &&& classify(dir.entries@, f) matches Some((k, _)) && k == ProjectType::Node
    &&& content_of(dir.entries@, "package.json"@) matches Some(c) && json_string_member(c, "name"@) is None
}

/// Relies on serde_json::from_str, which parses the text into a
/// `serde_json::Value`, and on serde_json::Value::get, which reads one member
/// of a JSON object; both depend on their arguments alone.
#[verifier::external_body]
fn json_member(text: &str, key: &str) -> (r: Result<Option<String>, String>)
    ensures
        r matches Ok(Some(v)) ==> json_string_member(text@, key@) == Some(Some(v@)),
        r matches Ok(None) ==> json_string_member(text@, key@) == Some(None::<Seq<char>>),
        r is Err ==> json_string_member(text@, key@) is None,
{
    match serde_json::from_str::<serde_json::Value>(text) {
        Ok(value) => match value.get(key) {
            Some(serde_json::Value::String(s)) => Ok(Some(s.clone())),
            _ => Ok(None),
        },
        Err(e) => Err(e.to_string()),
    }
}

/// Result of classifying one directory.
#[derive(Debug)]
pub struct Detection {
    /// The detected project, with size 0.
    pub project: Option<Project>,
    /// A soft warning about unparsable metadata, which does not veto detection.
    pub warning: Option<String>,
}

fn find_entry_exec(es: &Vec<ChildEntry>, name: &str) -> (r: Option<usize>)
    ensures
        r matches Some(i) ==> find_entry(es@, name@, 0) == Some(i as int) && i < es@.len(),
        r is None ==> find_entry(es@, name@, 0) is None,
{
    let mut i: usize = 0;
    while i < es.len()
        invariant
            i <= es@.len(),
            find_entry(es@, name@, i as int) == find_entry(es@, name@, 0),
        decreases es@.len() - i,
    {
        if text_eq(es[i].name.as_str(), name) {
            return Some(i);
        }
        i = i + 1;
    }
    None
}

fn has_entry_exec(es: &Vec<ChildEntry>, name: &str) -> (r: bool)
    ensures
        r == has_entry(es@, name@),
{
    find_entry_exec(es, name).is_some()
}

fn has_dir_exec(es: &Vec<ChildEntry>, name: &str) -> (r: bool)
    ensures
        r == has_dir(es@, name@),
{
    match find_entry_exec(es, name) {
        Some(i) => es[i].is_dir,
        None => false,
    }
}

fn size_of_exec(es: &Vec<ChildEntry>, name: &str) -> (r: u64)
    ensures
        r == size_of(es@, name@),
{
    match find_entry_exec(es, name) {
        Some(i) => match es[i].size {
            Some(n) => n,
            None => 0,
        },
        None => 0,
    }
}

fn name_from_exec(es: &Vec<ChildEntry>, file: &str, rule: NameRule) -> (r: Option<String>)
    ensures
        opt_text(r) == name_from(es@, file@, rule),
{
    match find_entry_exec(es, file) {
        Some(i) => match &es[i].content {
            Some(c) => extract_name(c.as_str(), rule),
            None => None,
        },
        None => None,
    }
}

fn python_config_present_exec(es: &Vec<ChildEntry>) -> (r: bool)
    ensures
        r == python_config_present(es@),
{
    has_entry_exec(es, "requirements.txt") || has_entry_exec(es, "setup.py") || has_entry_exec(es, "pyproject.toml")
        || has_entry_exec(es, "setup.cfg") || has_entry_exec(es, "Pipfile") || has_entry_exec(es, "Pipfile.lock")
        || has_entry_exec(es, "poetry.lock")
}

fn python_best_exec(es: &Vec<ChildEntry>) -> (r: Option<usize>)
    ensures
        r matches Some(b) ==> python_best(es@, PYTHON_CACHE_DIR_COUNT as int) == Some(b as int) && b < PYTHON_CACHE_DIR_COUNT,
        r is None ==> python_best(es@, PYTHON_CACHE_DIR_COUNT as int) is None,
{
    let mut best: Option<usize> = None;
    let mut best_size: u64 = 0;
    let mut i: usize = 0;
    while i < PYTHON_CACHE_DIR_COUNT
        invariant
            i <= PYTHON_CACHE_DIR_COUNT,
            best matches Some(b) ==> python_best(es@, i as int) == Some(b as int) && b < i
                && best_size == size_of(es@, python_cache_dir(b as int)),
            best is None ==> python_best(es@, i as int) is None,
        decreases PYTHON_CACHE_DIR_COUNT - i,
    {
        let name = python_cache_dir_name(i);
        if has_dir_exec(es, name) {
            let n = size_of_exec(es, name);
            match best {
                Some(_) => {
                    if n > best_size {
                        best = Some(i);
                        best_size = n;
                    }
                },
                None => {
                    best = Some(i);
                    best_size = n;
                },
            }
        }
        i = i + 1;
    }
    best
}

/// Whether app code should read a child of this name and hand its text in
/// [`ChildEntry::content`].
pub open spec fn metadata_file(name: Seq<char>) -> bool {
    name == "Cargo.toml"@ || name == "package.json"@ || name == "pyproject.toml"@ || name == "setup.py"@
        || name == "setup.cfg"@ || name == "go.mod"@
}

/// Whether a child of this name is a metadata file whose text classification reads.
pub fn is_metadata_file(name: &str) -> (r: bool)
    ensures
        r == metadata_file(name@),
{
    text_eq(name, "Cargo.toml") || text_eq(name, "package.json") || text_eq(name, "pyproject.toml")
        || text_eq(name, "setup.py") || text_eq(name, "setup.cfg") || text_eq(name, "go.mod")
}

/// A directory name that the walk never enters: version control, common build
/// and output directories, language caches and virtual environments.
pub open spec fn excluded_name(n: Seq<char>) -> bool {
    n == "target"@ || n == "build"@ || n == "dist"@ || n == "out"@ || n == ".git"@ || n == ".svn"@
        || n == ".hg"@ || n == "__pycache__"@ || n == "venv"@ || n == ".venv"@ || n == "env"@
        || n == ".env"@ || n == "temp"@ || n == "tmp"@
}

fn is_excluded_name(n: &str) -> (r: bool)
    ensures
        r == excluded_name(n@),
{
    text_eq(n, "target") || text_eq(n, "build") || text_eq(n, "dist") || text_eq(n, "out") || text_eq(n, ".git")
        || text_eq(n, ".svn") || text_eq(n, ".hg") || text_eq(n, "__pycache__") || text_eq(n, "venv")
        || text_eq(n, ".venv") || text_eq(n, "env") || text_eq(n, ".env") || text_eq(n, "temp")
        || text_eq(n, "tmp")
}

/// A hidden name, other than the Rust toolchain's `.cargo`.
pub open spec fn hidden_name(n: Seq<char>) -> bool {
    n.len() > 0 && n[0] == '.' && n != ".cargo"@
}

/// Some component holds some skip pattern as a substring.
pub open spec fn skip_hit(comps: Seq<String>, skips: Seq<String>) -> bool {
    exists|i: int, j: int|
        0 <= i < comps.len() && 0 <= j < skips.len() && #[trigger] occurs_in(comps[i]@, 0, comps[i]@.len() as int, #[trigger] skips[j]@)
}

/// Some component is `node_modules`.
pub open spec fn in_node_modules(comps: Seq<String>) -> bool {
    exists|i: int| 0 <= i < comps.len() && #[trigger] comps[i]@ == "node_modules"@
}

/// Whether the walk enters the entry whose path, relative to the scan root,
/// has components `comps`: the root itself always; any other entry unless it
/// lies in or under `node_modules`, matches a skip pattern, is hidden, or
/// bears an excluded name.
pub open spec fn descends(comps: Seq<String>, skips: Seq<String>) -> bool {
    comps.len() == 0 || !(skip_hit(comps, skips) || in_node_modules(comps) || hidden_name(comps.last()@)
        || excluded_name(comps.last()@))
}

/// `p` with its build-directory size set to `n`.
pub open spec fn with_size(p: ProjectView, n: u64) -> ProjectView {
    ProjectView { size: n, ..p }
}

/// The projects `ps` with the measured `sizes` written in, in order, without
/// those whose build directory holds no bytes.
pub open spec fn sized(ps: Seq<ProjectView>, sizes: Seq<u64>) -> Seq<ProjectView>
    decreases ps.len(),
{
    if ps.len() == 0 || sizes.len() == 0 {
        Seq::empty()
    } else {
        let rest = sized(ps.drop_last(), sizes.drop_last());
        if sizes.last() > 0 {
            rest.push(with_size(ps.last(), sizes.last()))
        } else {
            rest
        }
    }
}

/// Writes each measured size into its project, `sizes[i]` into `projects[i]`,
/// and drops the projects whose build directory holds no bytes.
pub fn apply_sizes(projects: Vec<Project>, sizes: &Vec<u64>) -> (r: Vec<Project>)
    requires
        projects@.len() == sizes@.len(),
    ensures
        views(r@) == sized(views(projects@), sizes@),
        forall|k: int| 0 <= k < r@.len() ==> #[trigger] r@[k].build_arts.size > 0,
{
    let mut r: Vec<Project> = Vec::new();
    let mut i: usize = 0;
    while i < projects.len()
        invariant
            projects@.len() == sizes@.len(),
            i <= projects@.len(),
            views(r@) == sized(views(projects@).take(i as int), sizes@.take(i as int)),
            forall|k: int| 0 <= k < r@.len() ==> #[trigger] r@[k].build_arts.size > 0,
        decreases projects@.len() - i,
    {
        let ghost before = r@;
        let ghost ps = views(projects@).take(i as int + 1);
        let ghost ss = sizes@.take(i as int + 1);
        assert(ps.drop_last() =~= views(projects@).take(i as int));
        assert(ss.drop_last() =~= sizes@.take(i as int));
        let n = sizes[i];
        if n > 0 {
            let p = &projects[i];
            let q = Project {
                kind: p.kind,
                root_path: p.root_path.clone(),
                build_arts: BuildArtifacts { path: p.build_arts.path.clone(), size: n },
                name: copy_opt_text(&p.name),
            };
            r.push(q);
            assert(views(r@) =~= views(before).push(q@));
        }
        i = i + 1;
    }
    assert(views(projects@).take(projects@.len() as int) =~= views(projects@));
    assert(sizes@.take(sizes@.len() as int) =~= sizes@);
    r
}

/// Every project that sizing keeps is some input project, with its measured
/// size written in, whose size is not zero.
pub proof fn lemma_sized_members(ps: Seq<ProjectView>, sizes: Seq<u64>)
    requires
        ps.len() == sizes.len(),
    ensures
        forall|k: int| 0 <= k < sized(ps, sizes).len() ==> exists|j: int|
            0 <= j < ps.len() && sizes[j] > 0 && #[trigger] sized(ps, sizes)[k] == with_size(ps[j], sizes[j]),
    decreases ps.len(),
{
    if ps.len() > 0 {
        let (a, b) = (ps.drop_last(), sizes.drop_last());
        lemma_sized_members(a, b);
        let rest = sized(a, b);
        assert forall|k: int| 0 <= k < sized(ps, sizes).len() implies exists|j: int|
            0 <= j < ps.len() && sizes[j] > 0 && #[trigger] sized(ps, sizes)[k] == with_size(ps[j], sizes[j]) by {
            if k < rest.len() {
                let j = choose|j: int| 0 <= j < a.len() && b[j] > 0 && #[trigger] rest[k] == with_size(a[j], b[j]);
                assert(ps[j] == a[j] && sizes[j] == b[j]);
            } else {
                let j = ps.len() - 1;
                assert(sized(ps, sizes)[k] == with_size(ps[j], sizes[j]));
            }
        }
    }
}

/// A project whose build directory measured zero bytes leaves no project
/// with its root in the sized result, when the roots are distinct.
pub proof fn lemma_zero_size_excluded(ps: Seq<ProjectView>, sizes: Seq<u64>, i: int)
    requires
        ps.len() == sizes.len(),
        0 <= i < ps.len(),
        sizes[i] == 0,
        forall|j: int| 0 <= j < ps.len() && j != i ==> #[trigger] ps[j].root_path != ps[i].root_path,
    ensures
        forall|k: int| 0 <= k < sized(ps, sizes).len() ==> #[trigger] sized(ps, sizes)[k].root_path != ps[i].root_path,
        forall|k: int| 0 <= k < sized(ps, sizes).len() ==> #[trigger] sized(ps, sizes)[k].size > 0,
{
    lemma_sized_members(ps, sizes);
    assert forall|k: int| 0 <= k < sized(ps, sizes).len() implies #[trigger] sized(ps, sizes)[k].root_path
        != ps[i].root_path && sized(ps, sizes)[k].size > 0 by {
        let j = choose|j: int| 0 <= j < ps.len() && sizes[j] > 0 && #[trigger] sized(ps, sizes)[k] == with_size(ps[j], sizes[j]);
        assert(j != i);
    }
}

/// A directory that holds both a Rust and a Node marker set is a Rust project.
pub proof fn lemma_rust_before_node(es: Seq<ChildEntry>)
    requires
        has_entry(es, "Cargo.toml"@),
        has_dir(es, "target"@),
        has_entry(es, "package.json"@),
        has_dir(es, "node_modules"@),
    ensures
        classify(es, ProjectFilter::All) == Some((ProjectType::Rust, "target"@)),
{
}

/// The Python build directory chosen among the first `n` candidates is present,
/// at least as large as every present candidate, and strictly larger than the
/// present candidates that come before it.
pub proof fn lemma_python_best_largest(es: Seq<ChildEntry>, n: int)
    requires
        python_best(es, n) is Some,
    ensures
        0 <= python_best(es, n)->0 < n,
        has_dir(es, python_cache_dir(python_best(es, n)->0)),
        forall|j: int|
            0 <= j < n && has_dir(es, #[trigger] python_cache_dir(j)) ==> size_of(es, python_cache_dir(j))
                <= size_of(es, python_cache_dir(python_best(es, n)->0)),
        forall|j: int|
            0 <= j < python_best(es, n)->0 && has_dir(es, #[trigger] python_cache_dir(j)) ==> size_of(
                es,
                python_cache_dir(j),
            ) < size_of(es, python_cache_dir(python_best(es, n)->0)),
    decreases n,
{
    if n > 0 {
        if python_best(es, n - 1) is Some {
            lemma_python_best_largest(es, n - 1);
        } else {
            lemma_python_best_none(es, n - 1);
        }
    }
}

proof fn lemma_python_best_none(es: Seq<ChildEntry>, n: int)
    requires
        python_best(es, n) is None,
    ensures
        forall|j: int| 0 <= j < n ==> !has_dir(es, #[trigger] python_cache_dir(j)),
    decreases n,
{
    if n > 0 {
        lemma_python_best_none(es, n - 1);
    }
}

/// A detected project's build directory lies below its root.
pub proof fn lemma_build_path_under_root(dir: DirSnapshot, f: ProjectFilter)
    requires
        detected(dir, f) is Some,
    ensures
        detected(dir, f)->0.build_path.len() >= detected(dir, f)->0.root_path.len(),
        detected(dir, f)->0.build_path.subrange(0, detected(dir, f)->0.root_path.len() as int)
            == detected(dir, f)->0.root_path,
{
    let (kind, artifact) = classify(dir.entries@, f)->0;
    crate::paths::lemma_join_extends(dir.path@, artifact);
}

/// Directory scanner: classifies directories and prunes the walk.
pub struct Scanner {
    /// Traversal behaviour.
    pub scan_options: ScanOptions,
    /// Ecosystems that are detected.
    pub project_filter: ProjectFilter,
}

impl Scanner {
    /// A scanner with the given options.
    pub fn new(scan_options: ScanOptions, project_filter: ProjectFilter) -> (r: Scanner)
        ensures
            r.scan_options == scan_options,
            r.project_filter == project_filter,
    {
        Scanner { scan_options, project_filter }
    }

    /// Whether the walk descends into the entry whose path, relative to the
    /// scan root, has the components `comps`.
    pub fn should_scan_entry(&self, comps: &Vec<String>) -> (r: bool)
        ensures
            r == descends(comps@, self.scan_options.skip@),
    {
        let n = comps.len();
        if n == 0 {
            return true;
        }
        let skips = &self.scan_options.skip;
        let mut i: usize = 0;
        while i < n
            invariant
                n == comps@.len(),
                i <= n,
                skips@ == self.scan_options.skip@,
                forall|a: int, b: int|
                    0 <= a < i && 0 <= b < skips@.len() ==> !#[trigger] occurs_in(comps@[a]@, 0, comps@[a]@.len() as int, #[trigger] skips@[b]@),
                forall|a: int| 0 <= a < i ==> #[trigger] comps@[a]@ != "node_modules"@,
            decreases n - i,
        {
            let c = chars_of(comps[i].as_str());
            if text_eq(comps[i].as_str(), "node_modules") {
                assert(in_node_modules(comps@));
                return false;
            }
            let mut j: usize = 0;
            while j < skips.len()
                invariant
                    n == comps@.len(),
                    i < n,
                    skips@ == self.scan_options.skip@,
                    j <= skips@.len(),
                    c@ == comps@[i as int]@,
                    forall|b: int| 0 <= b < j ==> !#[trigger] occurs_in(comps@[i as int]@, 0, comps@[i as int]@.len() as int, skips@[b]@),
                decreases skips@.len() - j,
            {
                let p = chars_of(skips[j].as_str());
                if occurs_in_exec(&c, 0, c.len(), &p) {
                    assert(occurs_in(comps@[i as int]@, 0, comps@[i as int]@.len() as int, skips@[j as int]@));
                    assert(skip_hit(comps@, skips@));
                    return false;
                }
                j = j + 1;
            }
            i = i + 1;
        }
        let last = comps[n - 1].as_str();
        let lc = chars_of(last);
        if lc.len() > 0 && lc[0] == '.' && !text_eq(last, ".cargo") {
            return false;
        }
        !is_excluded_name(last)
    }

    /// The Python cache directories of `es` that classification compares by
    /// size: those present, in their fixed order, when the Python rule is the
    /// one that decides; none otherwise.
    pub fn dirs_to_measure(&self, es: &Vec<ChildEntry>) -> (r: Vec<String>)
        ensures
            (!rust_rule(es@, self.project_filter) && !node_rule(es@, self.project_filter)
                && allows(self.project_filter, ProjectType::Python) && python_config_present(es@))
                ==> r@.map_values(|s: String| s@) == python_present(es@, PYTHON_CACHE_DIR_COUNT as int),
            !(!rust_rule(es@, self.project_filter) && !node_rule(es@, self.project_filter)
                && allows(self.project_filter, ProjectType::Python) && python_config_present(es@))
                ==> r@.len() == 0,
    {
        let f = self.project_filter;
        let mut r: Vec<String> = Vec::new();
        let rust = match f {
            ProjectFilter::All | ProjectFilter::Rust => has_entry_exec(es, "Cargo.toml") && has_dir_exec(es, "target"),
            _ => false,
        };
        let node = match f {
            ProjectFilter::All | ProjectFilter::Node => has_entry_exec(es, "package.json") && has_dir_exec(es, "node_modules"),
            _ => false,
        };
        let python = match f {
            ProjectFilter::All | ProjectFilter::Python => true,
            _ => false,
        };
        if rust || node || !python || !python_config_present_exec(es) {
            return r;
        }
        let mut i: usize = 0;
        while i < PYTHON_CACHE_DIR_COUNT
            invariant
                i <= PYTHON_CACHE_DIR_COUNT,
                r@.map_values(|s: String| s@) == python_present(es@, i as int),
            decreases PYTHON_CACHE_DIR_COUNT - i,
        {
            let name = python_cache_dir_name(i);
            if has_dir_exec(es, name) {
                let ghost before = r@;
                r.push(name.to_owned());
                assert(r@.map_values(|s: String| s@) =~= before.map_values(|s: String| s@).push(python_cache_dir(i as int)));
            }
            i = i + 1;
        }
        r
    }

    /// Classifies the directory `dir`: the first of the Rust, Node, Python and Go
    /// rules that holds gives the project, its build directory and its name.
    pub fn detect_project(&self, dir: &DirSnapshot) -> (r: Detection)
        ensures
            match r.project {
                Some(p) => detected(*dir, self.project_filter) == Some(p@),
                None => detected(*dir, self.project_filter) is None,
            },
            r.warning is Some <==> json_warning(*dir, self.project_filter),
    {
        let es = &dir.entries;
        let f = self.project_filter;
        let rust_ok = match f {
            ProjectFilter::All | ProjectFilter::Rust => true,
            _ => false,
        };
        let node_ok = match f {
            ProjectFilter::All | ProjectFilter::Node => true,
            _ => false,
        };
        let python_ok = match f {
            ProjectFilter::All | ProjectFilter::Python => true,
            _ => false,
        };
        let go_ok = match f {
            ProjectFilter::All | ProjectFilter::Go => true,
            _ => false,
        };
        let mut warning: Option<String> = None;
        let found: Option<(ProjectType, &'static str)> = if rust_ok && has_entry_exec(es, "Cargo.toml")
            && has_dir_exec(es, "target") {
            Some((ProjectType::Rust, "target"))
        } else if node_ok && has_entry_exec(es, "package.json") && has_dir_exec(es, "node_modules") {
            Some((ProjectType::Node, "node_modules"))
        } else if python_ok && python_config_present_exec(es) && python_best_exec(es).is_some() {
            match python_best_exec(es) {
                Some(b) => Some((ProjectType::Python, python_cache_dir_name(b))),
                None => None,
            }
        } else if go_ok && has_entry_exec(es, "go.mod") && has_dir_exec(es, "vendor") {
            Some((ProjectType::Go, "vendor"))
        } else {
            None
        };
        match found {
            None => Detection { project: None, warning: None },
            Some((kind, artifact)) => {
                let name = match kind {
                    ProjectType::Rust => name_from_exec(es, "Cargo.toml", NameRule::Quoted),
                    ProjectType::Node => match find_entry_exec(es, "package.json") {
                        Some(i) => match &es[i].content {
                            Some(c) => match json_member(c.as_str(), "name") {
                                Ok(n) => n,
                                Err(e) => {
                                    warning = Some(e);
                                    None
                                },
                            },
                            None => None,
                        },
                        None => None,
                    },
                    ProjectType::Python => {
                        let a = name_from_exec(es, "pyproject.toml", NameRule::Quoted);
                        if a.is_some() {
                            a
                        } else {
                            let b = name_from_exec(es, "setup.py", NameRule::Call);
                            if b.is_some() {
                                b
                            } else {
                                let c = name_from_exec(es, "setup.cfg", NameRule::Assign);
                                if c.is_some() {
                                    c
                                } else {
                                    copy_opt_text(&dir.name)
                                }
                            }
                        }
                    },
                    ProjectType::Go => name_from_exec(es, "go.mod", NameRule::Module),
                };
                let build_arts = BuildArtifacts { path: join(dir.path.as_str(), artifact), size: 0 };
                let project = Project::new(kind, dir.path.clone(), build_arts, name);
                Detection { project: Some(project), warning }
            },
        }
    }
}

} // verus!
