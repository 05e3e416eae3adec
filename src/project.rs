//! Core project data structures.

use vstd::prelude::*;

verus! {

/// The development ecosystems that can be detected.
#[derive(Clone, Copy, Debug, PartialEq, Eq, Structural)]
pub enum ProjectType {
    /// `Cargo.toml` beside a `target/` directory.
    Rust,
    /// `package.json` beside a `node_modules/` directory.
    Node,
    /// A Python configuration file beside a cache or virtual-env directory.
    Python,
    /// `go.mod` beside a `vendor/` directory.
    Go,
}

/// The cleanable artifact tree of a project and its size in bytes.
#[derive(Clone, Debug)]
pub struct BuildArtifacts {
    /// Location of the build directory that a clean removes.
    pub path: String,
    /// Total bytes of the regular files below `path`.
    pub size: u64,
}

/// A detected development project.
#[derive(Clone, Debug)]
pub struct Project {
    /// Ecosystem of the project.
    pub kind: ProjectType,
    /// Directory that holds the project's marker files.
    pub root_path: String,
    /// The build directory that is a candidate for cleanup.
    pub build_arts: BuildArtifacts,
    /// Name read from the project's metadata, when there is one.
    pub name: Option<String>,
}

/// A project as plain values.
pub struct ProjectView {
    pub kind: ProjectType,
    pub root_path: Seq<char>,
    pub build_path: Seq<char>,
    pub size: u64,
    pub name: Option<Seq<char>>,
}

/// The text of an optional string.
pub open spec fn opt_text(o: Option<String>) -> Option<Seq<char>> {
    match o {
        Some(s) => Some(s@),
        None => None,
    }
}

impl View for Project {
    type V = ProjectView;

    open spec fn view(&self) -> ProjectView {
        ProjectView {
            kind: self.kind,
            root_path: self.root_path@,
            build_path: self.build_arts.path@,
            size: self.build_arts.size,
            name: opt_text(self.name),
        }
    }
}

/// The views of a sequence of projects.
pub open spec fn views(ps: Seq<Project>) -> Seq<ProjectView> {
    ps.map_values(|p: Project| p@)
}

/// A copy of an optional string.
pub fn copy_opt_text(o: &Option<String>) -> (r: Option<String>)
    ensures
        opt_text(r) == opt_text(*o),
{
    match o {
        Some(s) => Some(s.clone()),
        None => None,
    }
}

impl Project {
    /// A copy of this project with the same view.
    pub fn duplicate(&self) -> (r: Project)
        ensures
            r@ == self@,
    {
        Project {
            kind: self.kind,
            root_path: self.root_path.clone(),
            build_arts: BuildArtifacts { path: self.build_arts.path.clone(), size: self.build_arts.size },
            name: copy_opt_text(&self.name),
        }
    }

    /// Builds a project from its parts.
    pub fn new(kind: ProjectType, root_path: String, build_arts: BuildArtifacts, name: Option<String>) -> (r: Project)
        ensures
            r.kind == kind,
            r.root_path == root_path,
            r.build_arts == build_arts,
            r.name == name,
    {
        Project { kind, root_path, build_arts, name }
    }
}

} // verus!
