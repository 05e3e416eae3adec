//! Choosing the compiled outputs to copy out of a build directory before it
//! is removed.
//!
//! [`output_dirs`] names the directories to list; the caller lists them and
//! hands the files to [`preserve_executables`], which says what to copy where.
//! The caller copies and keeps the records of the copies that succeeded
//! ([`keep_copied`]).

use vstd::prelude::*;
use crate::paths::{join, path_join};
use crate::project::{Project, ProjectType};
use crate::text::{chars_of, rfind_char, rfind_char_exec, slice_text, text_eq};

verus! {

/// A directory to list for outputs.
#[derive(Clone, Debug)]
pub struct OutputDir {
    /// Path of the directory.
    pub path: String,
    /// List the whole subtree, not only the directory's own files.
    pub recursive: bool,
}

/// A regular file found in an [`OutputDir`].
#[derive(Clone, Debug)]
pub struct CandidateFile {
    /// Path of the file relative to the listed directory, components joined
    /// with `/`; just the file name in a listing that is not recursive.
    pub rel_path: String,
    /// Unix permission bits, on platforms that have them.
    pub mode: Option<u32>,
}

/// The file name of a relative path: its text after the last `/`.
pub open spec fn file_name(rel: Seq<char>) -> Seq<char> {
    match rfind_char(rel, 0, rel.len() as int, '/') {
        Some(k) => rel.subrange(k + 1, rel.len() as int),
        None => rel,
    }
}

/// A copy of one output made outside the build directory.
#[derive(Clone, Debug)]
pub struct PreservedExecutable {
    /// Path of the file inside the build directory.
    pub source: String,
    /// Path of the copy.
    pub destination: String,
}

/// Extension of a file name, as `Path::extension` gives it: the text after
/// the last `.`, unless that `.` starts the name.
pub open spec fn extension(n: Seq<char>) -> Option<Seq<char>> {
    match rfind_char(n, 0, n.len() as int, '.') {
        Some(k) => if k > 0 {
            Some(n.subrange(k + 1, n.len() as int))
        } else {
            None
        },
        None => None,
    }
}

/// Build-metadata extensions that are never taken for Rust executables.
pub open spec fn rust_metadata_ext(e: Seq<char>) -> bool {
    e == "d"@ || e == "rmeta"@ || e == "rlib"@ || e == "a"@ || e == "so"@ || e == "dylib"@ || e == "dll"@
        || e == "pdb"@
}

pub open spec fn ascii_lower(c: char) -> char {
    if 65 <= (c as u32) && (c as u32) <= 90 {
        ((c as u32) + 32) as char
    } else {
        c
    }
}

/// `a` equals `b` up to ASCII case.
pub open spec fn eq_ignore_ascii_case(a: Seq<char>, b: Seq<char>) -> bool {
    a.len() == b.len() && forall|i: int| 0 <= i < a.len() ==> ascii_lower(#[trigger] a[i]) == ascii_lower(b[i])
}

/// The file is executable: an execute bit is set where there are permission
/// bits, and otherwise its extension is `exe` in any case.
pub open spec fn executable(f: CandidateFile) -> bool {
    match f.mode {
        Some(m) => m & 0o111u32 != 0,
        None => extension(file_name(f.rel_path@)) matches Some(e) && eq_ignore_ascii_case(e, "exe"@),
    }
}

/// Which files of a listing are outputs to keep.
#[derive(Clone, Copy, Debug, PartialEq, Eq, Structural)]
pub enum Selector {
    /// Executables that are no build metadata.
    RustExecutable,
    /// Python wheels, `.whl`.
    Wheel,
    /// Python extension modules, `.so` or `.pyd`.
    Extension,
}

pub open spec fn selects(sel: Selector, f: CandidateFile) -> bool {
    let n = file_name(f.rel_path@);
    match sel {
        Selector::RustExecutable => !(extension(n) matches Some(e) && rust_metadata_ext(e)) && executable(f),
        Selector::Wheel => extension(n) == Some("whl"@),
        Selector::Extension => extension(n) == Some("so"@) || extension(n) == Some("pyd"@),
    }
}

/// The copy of one file listed in `dir`: from its path below `dir` to
/// `dest_dir` under its own file name.
pub open spec fn copy_of(f: CandidateFile, dir: Seq<char>, dest_dir: Seq<char>) -> (Seq<char>, Seq<char>) {
    (path_join(dir, f.rel_path@), path_join(dest_dir, file_name(f.rel_path@)))
}

/// The copies planned for the files `fs` listed in `dir`: each selected
/// file goes to `dest_dir` under its own name, in order.
pub open spec fn plan_for(fs: Seq<CandidateFile>, sel: Selector, dir: Seq<char>, dest_dir: Seq<char>) -> Seq<(Seq<char>, Seq<char>)>
    decreases fs.len(),
{
    if fs.len() == 0 {
        Seq::empty()
    } else {
        let rest = plan_for(fs.drop_last(), sel, dir, dest_dir);
        if selects(sel, fs.last()) {
            rest.push(copy_of(fs.last(), dir, dest_dir))
        } else {
            rest
        }
    }
}

/// `<root>/bin`.
pub open spec fn bin_dir(p: Project) -> Seq<char> {
    path_join(p.root_path@, "bin"@)
}

/// The directories to list for `p`: `release/` and `debug/` of a Rust build
/// directory; `dist/` and, with its subtree, `build/` of a Python project;
/// none for Node and Go, whose build directories hold dependencies.
pub open spec fn output_dirs_of(p: Project) -> Seq<(Seq<char>, bool)> {
    match p.kind {
        ProjectType::Rust => seq![
            (path_join(p.build_arts.path@, "release"@), false),
            (path_join(p.build_arts.path@, "debug"@), false),
        ],
        ProjectType::Python => seq![
            (path_join(p.root_path@, "dist"@), false),
            (path_join(p.root_path@, "build"@), true),
        ],
        _ => Seq::empty(),
    }
}

/// The copies planned for `p` from the listings `ls` of its output directories:
/// Rust executables go to `<root>/bin/release/` and `<root>/bin/debug/`,
/// Python wheels and extension modules to `<root>/bin/`.
pub open spec fn preservation_plan(p: Project, ls: Seq<Vec<CandidateFile>>) -> Seq<(Seq<char>, Seq<char>)> {
    match p.kind {
        ProjectType::Rust => plan_for(
            ls[0]@,
            Selector::RustExecutable,
            path_join(p.build_arts.path@, "release"@),
            path_join(bin_dir(p), "release"@),
        ) + plan_for(
            ls[1]@,
            Selector::RustExecutable,
            path_join(p.build_arts.path@, "debug"@),
            path_join(bin_dir(p), "debug"@),
        ),
        ProjectType::Python => plan_for(ls[0]@, Selector::Wheel, path_join(p.root_path@, "dist"@), bin_dir(p))
            + plan_for(ls[1]@, Selector::Extension, path_join(p.root_path@, "build"@), bin_dir(p)),
        _ => Seq::empty(),
    }
}

pub open spec fn record_views(rs: Seq<PreservedExecutable>) -> Seq<(Seq<char>, Seq<char>)> {
    rs.map_values(|r: PreservedExecutable| (r.source@, r.destination@))
}

fn extension_start(n: &Vec<char>) -> (r: Option<usize>)
    ensures
        r matches Some(k) ==> k <= n@.len() && extension(n@) == Some(n@.subrange(k as int, n@.len() as int)),
        r is None ==> extension(n@) is None,
{
    match rfind_char_exec(n, 0, n.len(), '.') {
        Some(k) => if k > 0 {
            Some(k + 1)
        } else {
            None
        },
        None => None,
    }
}

fn file_name_of(rel: &str) -> (r: String)
    ensures
        r@ == file_name(rel@),
{
    let c = chars_of(rel);
    match rfind_char_exec(&c, 0, c.len(), '/') {
        Some(k) => slice_text(rel, k + 1, c.len()),
        None => rel.to_owned(),
    }
}

fn ext_is(n: &str, want: &str) -> (r: bool)
    ensures
        r == (extension(n@) == Some(want@)),
{
    let c = chars_of(n);
    match extension_start(&c) {
        Some(k) => text_eq(n.substring_char(k, c.len()), want),
        None => false,
    }
}

fn is_rust_metadata(n: &str) -> (r: bool)
    ensures
        r == (extension(n@) matches Some(e) && rust_metadata_ext(e)),
{
    let c = chars_of(n);
    match extension_start(&c) {
        Some(k) => {
            let e = n.substring_char(k, c.len());
            text_eq(e, "d") || text_eq(e, "rmeta") || text_eq(e, "rlib") || text_eq(e, "a") || text_eq(e, "so")
                || text_eq(e, "dylib") || text_eq(e, "dll") || text_eq(e, "pdb")
        },
        None => false,
    }
}

fn lower_ascii(c: char) -> (r: char)
    ensures
        r == ascii_lower(c),
{
    let n = c as u32;
    if 65 <= n && n <= 90 {
        proof {
            assert((n + 32) as u32 <= 122);
        }
        ((n + 32) as u8) as char
    } else {
        c
    }
}

fn is_executable(f: &CandidateFile, name: &str) -> (r: bool)
    requires
        name@ == file_name(f.rel_path@),
    ensures
        r == executable(*f),
{
    match f.mode {
        Some(m) => m & 0o111u32 != 0,
        None => {
            let c = chars_of(name);
            match extension_start(&c) {
                Some(k) => {
                    let want = chars_of("exe");
                    let end = c.len();
                    if c.len() - k != want.len() {
                        return false;
                    }
                    let mut i: usize = 0;
                    while i < want.len()
                        invariant
                            want@ == "exe"@,
                            f.mode is None,
                            end == c@.len(),
                            k <= c@.len(),
                            k + want@.len() == c@.len(),
                            c@ == name@,
                            name@ == file_name(f.rel_path@),
                            c@.len() - k == want@.len(),
                            i <= want@.len(),
                            extension(name@) == Some(c@.subrange(k as int, c@.len() as int)),
                            forall|j: int| 0 <= j < i ==> ascii_lower(#[trigger] c@.subrange(k as int, c@.len() as int)[j])
                                == ascii_lower(want@[j]),
                        decreases want@.len() - i,
                    {
                        assert(k + i < end);
                        if lower_ascii(c[k + i]) != lower_ascii(want[i]) {
                            assert(c@.subrange(k as int, c@.len() as int)[i as int] == c@[k + i]);
                            return false;
                        }
                        i = i + 1;
                    }
                    true
                },
                None => false,
            }
        },
    }
}

fn selects_exec(sel: Selector, f: &CandidateFile, name: &str) -> (r: bool)
    requires
        name@ == file_name(f.rel_path@),
    ensures
        r == selects(sel, *f),
{
    match sel {
        Selector::RustExecutable => !is_rust_metadata(name) && is_executable(f, name),
        Selector::Wheel => ext_is(name, "whl"),
        Selector::Extension => ext_is(name, "so") || ext_is(name, "pyd"),
    }
}

fn plan_into(out: &mut Vec<PreservedExecutable>, fs: &Vec<CandidateFile>, sel: Selector, dir: &str, dest_dir: &str)
    ensures
        record_views(final(out)@) == record_views(old(out)@) + plan_for(fs@, sel, dir@, dest_dir@),
{
    let ghost start = out@;
    let mut i: usize = 0;
    while i < fs.len()
        invariant
            i <= fs@.len(),
            record_views(out@) == record_views(start) + plan_for(fs@.take(i as int), sel, dir@, dest_dir@),
        decreases fs@.len() - i,
    {
        let ghost before = out@;
        assert(fs@.take(i as int + 1).drop_last() =~= fs@.take(i as int));
        let f = &fs[i];
        let name = file_name_of(f.rel_path.as_str());
        if selects_exec(sel, f, name.as_str()) {
            let rec = PreservedExecutable {
                source: join(dir, f.rel_path.as_str()),
                destination: join(dest_dir, name.as_str()),
            };
            out.push(rec);
            assert(record_views(out@) =~= record_views(before).push((rec.source@, rec.destination@)));
        }
        i = i + 1;
    }
    assert(fs@.take(fs@.len() as int) =~= fs@);
}

/// The directories to list for the project's outputs, in the order in which
/// their listings are handed to [`preserve_executables`].
pub fn output_dirs(project: &Project) -> (r: Vec<OutputDir>)
    ensures
        r@.map_values(|d: OutputDir| (d.path@, d.recursive)) == output_dirs_of(*project),
{
    let mut r: Vec<OutputDir> = Vec::new();
    match project.kind {
        ProjectType::Rust => {
            r.push(OutputDir { path: join(project.build_arts.path.as_str(), "release"), recursive: false });
            r.push(OutputDir { path: join(project.build_arts.path.as_str(), "debug"), recursive: false });
        },
        ProjectType::Python => {
            r.push(OutputDir { path: join(project.root_path.as_str(), "dist"), recursive: false });
            r.push(OutputDir { path: join(project.root_path.as_str(), "build"), recursive: true });
        },
        _ => {},
    }
    assert(r@.map_values(|d: OutputDir| (d.path@, d.recursive)) =~= output_dirs_of(*project));
    r
}

/// The copies to make before the project's build directory is removed, given
/// the listings `listings[i]` of the directories `output_dirs(project)[i]`.
/// Node and Go projects have none.
pub fn preserve_executables(project: &Project, listings: &Vec<Vec<CandidateFile>>) -> (r: Vec<PreservedExecutable>)
    requires
        listings@.len() == output_dirs_of(*project).len(),
    ensures
        record_views(r@) == preservation_plan(*project, listings@),
{
    let mut r: Vec<PreservedExecutable> = Vec::new();
    assert(record_views(r@) =~= Seq::empty());
    match project.kind {
        ProjectType::Rust => {
            let bin = join(project.root_path.as_str(), "bin");
            let release = join(project.build_arts.path.as_str(), "release");
            let debug = join(project.build_arts.path.as_str(), "debug");
            let release_dest = join(bin.as_str(), "release");
            let debug_dest = join(bin.as_str(), "debug");
            plan_into(&mut r, &listings[0], Selector::RustExecutable, release.as_str(), release_dest.as_str());
            plan_into(&mut r, &listings[1], Selector::RustExecutable, debug.as_str(), debug_dest.as_str());
        },
        ProjectType::Python => {
            let bin = join(project.root_path.as_str(), "bin");
            let dist = join(project.root_path.as_str(), "dist");
            let build = join(project.root_path.as_str(), "build");
            plan_into(&mut r, &listings[0], Selector::Wheel, dist.as_str(), bin.as_str());
            plan_into(&mut r, &listings[1], Selector::Extension, build.as_str(), bin.as_str());
        },
        _ => {},
    }
    assert(record_views(r@) =~= preservation_plan(*project, listings@));
    r
}

/// The entries of `rs` whose flag in `ok` is set, in order.
pub open spec fn flagged(rs: Seq<(Seq<char>, Seq<char>)>, ok: Seq<bool>) -> Seq<(Seq<char>, Seq<char>)>
    decreases rs.len(),
{
    if rs.len() == 0 || ok.len() == 0 {
        Seq::empty()
    } else if ok.last() {
        flagged(rs.drop_last(), ok.drop_last()).push(rs.last())
    } else {
        flagged(rs.drop_last(), ok.drop_last())
    }
}

/// The records of the copies that succeeded: `copied[i]` tells whether
/// `planned[i]` was made.
pub fn keep_copied(planned: Vec<PreservedExecutable>, copied: &Vec<bool>) -> (r: Vec<PreservedExecutable>)
    requires
        planned@.len() == copied@.len(),
    ensures
        record_views(r@) == flagged(record_views(planned@), copied@),
{
    let mut r: Vec<PreservedExecutable> = Vec::new();
    let mut i: usize = 0;
    while i < planned.len()
        invariant
            planned@.len() == copied@.len(),
            i <= planned@.len(),
            record_views(r@) == flagged(record_views(planned@).take(i as int), copied@.take(i as int)),
        decreases planned@.len() - i,
    {
        let ghost before = r@;
        assert(record_views(planned@).take(i as int + 1).drop_last() =~= record_views(planned@).take(i as int));
        assert(copied@.take(i as int + 1).drop_last() =~= copied@.take(i as int));
        if copied[i] {
            let p = &planned[i];
            let rec = PreservedExecutable { source: p.source.clone(), destination: p.destination.clone() };
            r.push(rec);
            assert(record_views(r@) =~= record_views(before).push((rec.source@, rec.destination@)));
        }
        i = i + 1;
    }
    assert(record_views(planned@).take(planned@.len() as int) =~= record_views(planned@));
    assert(copied@.take(copied@.len() as int) =~= copied@);
    r
}

/// Preserving a file again gives the same destination: where a file is copied
/// depends only on the project, the directory it was found in and its name.
pub proof fn lemma_destination_depends_on_name(
    dir_a: Seq<char>,
    dir_b: Seq<char>,
    dest_dir: Seq<char>,
    sel: Selector,
    a: CandidateFile,
    b: CandidateFile,
)
    requires
        file_name(a.rel_path@) == file_name(b.rel_path@),
        selects(sel, a),
        selects(sel, b),
    ensures
        plan_for(seq![a], sel, dir_a, dest_dir)[0].1 == plan_for(seq![b], sel, dir_b, dest_dir)[0].1,
{
    assert(seq![a].drop_last() =~= Seq::<CandidateFile>::empty());
    assert(seq![b].drop_last() =~= Seq::<CandidateFile>::empty());
    assert(seq![a].last() == a);
    assert(seq![b].last() == b);
    assert(plan_for(seq![a].drop_last(), sel, dir_a, dest_dir).len() == 0);
    assert(plan_for(seq![b].drop_last(), sel, dir_b, dest_dir).len() == 0);
}

/// A Rust release directory that holds an executable and an `.rlib` yields
/// exactly one copy: the executable, into `<root>/bin/release/` under its
/// own name; the library is not preserved.
pub proof fn lemma_release_keeps_executable_only(
    p: Project,
    ls: Seq<Vec<CandidateFile>>,
    e: CandidateFile,
    l: CandidateFile,
)
    requires
        p.kind == ProjectType::Rust,
        ls.len() == 2,
        ls[0]@ == seq![e, l],
        ls[1]@.len() == 0,
        executable(e),
        !(extension(file_name(e.rel_path@)) matches Some(x) && rust_metadata_ext(x)),
        extension(file_name(l.rel_path@)) == Some("rlib"@),
    ensures
        preservation_plan(p, ls) == seq![
            (
                path_join(path_join(p.build_arts.path@, "release"@), e.rel_path@),
                path_join(path_join(bin_dir(p), "release"@), file_name(e.rel_path@)),
            ),
        ],
{
    let rel = path_join(p.build_arts.path@, "release"@);
    let dest = path_join(bin_dir(p), "release"@);
    let dbg = path_join(p.build_arts.path@, "debug"@);
    let dbg_dest = path_join(bin_dir(p), "debug"@);
    let two = seq![e, l];
    assert(two.drop_last() =~= seq![e]);
    assert(seq![e].drop_last() =~= Seq::<CandidateFile>::empty());
    assert(seq![e].last() == e);
    assert(two.last() == l);
    assert(plan_for(seq![e].drop_last(), Selector::RustExecutable, rel, dest).len() == 0);
    assert(!selects(Selector::RustExecutable, l));
    assert(plan_for(seq![e], Selector::RustExecutable, rel, dest) =~= seq![copy_of(e, rel, dest)]);
    assert(plan_for(ls[1]@, Selector::RustExecutable, dbg, dbg_dest) =~= Seq::empty());
    assert(preservation_plan(p, ls) =~= seq![copy_of(e, rel, dest)]);
}

} // verus!
