//! Resolves the identity of a build-tool project from any path inside it
//! and derives the on-disk location of a compiled build artifact.
//!
//! Resolution is a pure computation over a [`snapshot::Snapshot`] of
//! filesystem facts: which paths exist, what the relevant documents hold,
//! and what each workspace member glob pattern expanded to. An unverified
//! shell gathers those facts and hands them in as plain values.

pub mod config;
pub mod laws;
pub mod manifest;
pub mod paths;
pub mod snapshot;
pub mod workspace;

use vstd::prelude::*;

use crate::config::{Config, ConfigView, build_config_of};
use crate::manifest::manifest_of;
use crate::paths::{
    contains_path, join, lemma_parent_shorter, lemma_search_result_no_longer, parent,
    replace_dashes, set_extension, spec_join, spec_parent, spec_replace_dashes, spec_search,
    spec_set_extension,
};
use crate::snapshot::{
    GlobOutcome, GlobOutcomeView, Snapshot, contains_string, find_file, find_glob, spec_file_at,
    spec_glob_at,
};
use crate::workspace::workspace_members_of;

verus! {

/// How a resolution or a path derivation can fail.
#[derive(Clone, Copy, Debug, PartialEq, Eq, Structural)]
pub enum Error {
    /// No project-description file was found upward from the query path.
    NotAProject,
    /// A required document exists but fails structural validation.
    ConfigInvalid,
    /// An underlying filesystem fact is missing or a read failed.
    IoFailure,
    /// A workspace member pattern is not a valid glob.
    InvalidGlobPattern,
    /// The platform-attribute lookup does not recognize a target triple.
    UnknownTarget,
}

/// Searches `path` and each successive parent directory (closest first) for
/// the first directory whose join with `file` occurs in `existing`.
pub fn search(path: &str, file: &str, existing: &Vec<String>) -> (r: Option<String>)
    ensures
        match r {
            Some(d) => spec_search(existing.deep_view(), path@, file@) == Some(d@),
            None => spec_search(existing.deep_view(), path@, file@) is None,
        },
{
    let mut cur = path.to_owned();
    loop
        invariant
            spec_search(existing.deep_view(), path@, file@) == spec_search(
                existing.deep_view(),
                cur@,
                file@,
            ),
        decreases cur@.len(),
    {
        let joined = join(cur.as_str(), file);
        if contains_string(existing, joined.as_str()) {
            assert(spec_search(existing.deep_view(), cur@, file@) == Some(cur@));
            return Some(cur);
        }
        match parent(cur.as_str()) {
            Some(par) => {
                proof {
                    lemma_parent_shorter(cur@);
                }
                assert(spec_search(existing.deep_view(), cur@, file@) == spec_search(
                    existing.deep_view(),
                    par@,
                    file@,
                ));
                cur = par;
            },
            None => {
                assert(spec_search(existing.deep_view(), cur@, file@) is None);
                return None;
            },
        }
    }
}

/// Mathematical shape of a resolved project.
pub ghost struct ProjectView {
    /// The declared package name.
    pub name: Seq<char>,
    /// The default compilation target declared in build configuration.
    pub target: Option<Seq<char>>,
    /// The directory under which build artifacts are placed.
    pub target_dir: Seq<char>,
    /// The path of the project-description file at the project root.
    pub toml: Seq<char>,
}

/// Information about a resolved project.
#[derive(Debug)]
pub struct Project {
    name: String,
    target: Option<String>,
    target_dir: String,
    toml: String,
}

impl View for Project {
    type V = ProjectView;

    closed spec fn view(&self) -> ProjectView {
        ProjectView {
            name: self.name@,
            target: match self.target {
                Some(t) => Some(t@),
                None => None,
            },
            target_dir: self.target_dir@,
            toml: self.toml@,
        }
    }
}

/// The view of an optional owned string.
pub open spec fn view_opt_string(o: Option<String>) -> Option<Seq<char>> {
    match o {
        Some(s) => Some(s@),
        None => None,
    }
}

/// The view of an optional borrowed string.
pub open spec fn view_opt_str(o: Option<&str>) -> Option<Seq<char>> {
    match o {
        Some(s) => Some(s@),
        None => None,
    }
}

/// The default target a build configuration declares, if any.
pub open spec fn spec_cfg_target(c: Option<ConfigView>) -> Option<Seq<char>> {
    match c {
        Some(cv) => match cv.build {
            Some(b) => b.target,
            None => None,
        },
        None => None,
    }
}

/// The target directory a build configuration declares, if any.
pub open spec fn spec_cfg_target_dir(c: Option<ConfigView>) -> Option<Seq<char>> {
    match c {
        Some(cv) => match cv.build {
            Some(b) => b.target_dir,
            None => None,
        },
        None => None,
    }
}

/// Outcome of looking for a build configuration upward from the project
/// root: the parsed document, `None` when no such file exists, or the error
/// when it exists but cannot be read or fails validation.
pub open spec fn spec_config_lookup(s: Snapshot, root: Seq<char>) -> Result<
    Option<ConfigView>,
    Error,
> {
    match spec_search(s.existing.deep_view(), root, ".cargo/config"@) {
        None => Ok(None),
        Some(d) => match spec_file_at(s.files@, spec_join(d, ".cargo/config"@)) {
            None => Err(Error::IoFailure),
            Some(text) => match build_config_of(text) {
                None => Err(Error::ConfigInvalid),
                Some(c) => Ok(Some(c)),
            },
        },
    }
}

/// Whether one of the member patterns of the workspace rooted at `outer`,
/// starting at pattern `i`, expands to the project root `root`. Glob
/// failures surface as errors.
pub open spec fn spec_member_search(
    s: Snapshot,
    outer: Seq<char>,
    members: Seq<Seq<char>>,
    root: Seq<char>,
    i: int,
) -> Result<bool, Error>
    decreases members.len() - i,
{
    if i < 0 || i >= members.len() {
        Ok(false)
    } else {
        match spec_glob_at(s.globs@, spec_join(outer, members[i])) {
            None => Err(Error::IoFailure),
            Some(GlobOutcomeView::InvalidPattern) => Err(Error::InvalidGlobPattern),
            Some(GlobOutcomeView::ReadFailed) => Err(Error::IoFailure),
            Some(GlobOutcomeView::Matches(ms)) => if contains_path(ms, root) {
                Ok(true)
            } else {
                spec_member_search(s, outer, members, root, i + 1)
            },
        }
    }
}

/// The upward workspace search from `cwd`: the nearest ancestor holding a
/// project-description file that parses as a workspace-description document
/// and whose expanded member set contains `root`. An ancestor whose
/// document does not parse that way, or was not read, is not a workspace
/// root; the search continues above it.
pub open spec fn spec_find_workspace(s: Snapshot, cwd: Seq<char>, root: Seq<char>) -> Result<
    Option<Seq<char>>,
    Error,
>
    decreases cwd.len(),
    via spec_find_workspace_decreases
{
    match spec_search(s.existing.deep_view(), cwd, "Cargo.toml"@) {
        None => Ok(None),
        Some(outer) => {
            let parsed = match spec_file_at(s.files@, spec_join(outer, "Cargo.toml"@)) {
                None => None,
                Some(text) => workspace_members_of(text),
            };
            match parsed {
                Some(members) => match spec_member_search(s, outer, members, root, 0) {
                    Err(e) => Err(e),
                    Ok(true) => Ok(Some(outer)),
                    Ok(false) => match spec_parent(outer) {
                        None => Ok(None),
                        Some(par) => spec_find_workspace(s, par, root),
                    },
                },
                None => match spec_parent(outer) {
                    None => Ok(None),
                    Some(par) => spec_find_workspace(s, par, root),
                },
            }
        },
    }
}

#[via_fn]
proof fn spec_find_workspace_decreases(s: Snapshot, cwd: Seq<char>, root: Seq<char>) {
    lemma_search_result_no_longer(s.existing.deep_view(), cwd, "Cargo.toml"@);
    match spec_search(s.existing.deep_view(), cwd, "Cargo.toml"@) {
        Some(outer) => {
            lemma_parent_shorter(outer);
        },
        None => {},
    }
}

/// The enclosing workspace of the project rooted at `root`, if any: the
/// upward search starts at the root's parent directory.
pub open spec fn spec_workspace_lookup(s: Snapshot, root: Seq<char>) -> Result<
    Option<Seq<char>>,
    Error,
> {
    match spec_parent(root) {
        None => Ok(None),
        Some(par) => spec_find_workspace(s, par, root),
    }
}

/// The resolved target directory, by layered precedence: the environment
/// override, then the build configuration's declaration, then the
/// workspace root's `target` subdirectory, then the project root's own.
pub open spec fn spec_target_dir(
    env: Option<Seq<char>>,
    cfg: Option<ConfigView>,
    ws: Option<Seq<char>>,
    root: Seq<char>,
) -> Seq<char> {
    match env {
        Some(e) => e,
        None => match spec_cfg_target_dir(cfg) {
            Some(td) => td,
            None => match ws {
                Some(w) => spec_join(w, "target"@),
                None => spec_join(root, "target"@),
            },
        },
    }
}

/// The resolution once the project root is known: read and validate the
/// project-description file, merge configuration sources, and discover
/// workspace membership.
pub open spec fn spec_resolve_at(s: Snapshot, root: Seq<char>) -> Result<ProjectView, Error> {
    match spec_file_at(s.files@, spec_join(root, "Cargo.toml"@)) {
        None => Err(Error::IoFailure),
        Some(text) => match manifest_of(text) {
            None => Err(Error::ConfigInvalid),
            Some(man) => match spec_config_lookup(s, root) {
                Err(e) => Err(e),
                Ok(cfg) => match spec_workspace_lookup(s, root) {
                    Err(e) => Err(e),
                    Ok(ws) => Ok(
                        ProjectView {
                            name: man.name,
                            target: spec_cfg_target(cfg),
                            target_dir: spec_target_dir(
                                view_opt_string(s.env_target_dir),
                                cfg,
                                ws,
                                root,
                            ),
                            toml: spec_join(root, "Cargo.toml"@),
                        },
                    ),
                },
            },
        },
    }
}

/// The resolution from a given starting path: locate the project root by
/// upward search, then resolve at that root.
pub open spec fn spec_resolve_from(s: Snapshot, start: Seq<char>) -> Result<ProjectView, Error> {
    match spec_search(s.existing.deep_view(), start, "Cargo.toml"@) {
        None => Err(Error::NotAProject),
        Some(root) => spec_resolve_at(s, root),
    }
}

/// The full resolution, from the snapshot's own starting path.
pub open spec fn spec_resolve(s: Snapshot) -> Result<ProjectView, Error> {
    spec_resolve_from(s, s.start@)
}

/// Scans the member patterns of the workspace rooted at `outer` for one
/// whose recorded expansion contains `root`.
fn member_search(snap: &Snapshot, outer: &str, members: &Vec<String>, root: &str) -> (r: Result<
    bool,
    Error,
>)
    ensures
        r == spec_member_search(*snap, outer@, members.deep_view(), root@, 0),
{
    let n = members.len();
    let mut i: usize = 0;
    while i < n
        invariant
            i <= n,
            n == members@.len(),
            spec_member_search(*snap, outer@, members.deep_view(), root@, 0)
                == spec_member_search(*snap, outer@, members.deep_view(), root@, i as int),
        decreases n - i,
    {
        assert(members.deep_view()[i as int] == members@[i as int]@);
        let pattern = join(outer, members[i].as_str());
        match find_glob(&snap.globs, pattern.as_str()) {
            None => {
                return Err(Error::IoFailure);
            },
            Some(o) => match o {
                GlobOutcome::InvalidPattern => {
                    return Err(Error::InvalidGlobPattern);
                },
                GlobOutcome::ReadFailed => {
                    return Err(Error::IoFailure);
                },
                GlobOutcome::Matches(ms) => {
                    if contains_string(ms, root) {
                        return Ok(true);
                    }
                },
            },
        }
        assert(spec_member_search(*snap, outer@, members.deep_view(), root@, i as int)
            == spec_member_search(*snap, outer@, members.deep_view(), root@, i as int + 1));
        i = i + 1;
    }
    Ok(false)
}

/// Walks upward from the parent of `root`, looking for an enclosing
/// workspace whose expanded member set contains `root`.
fn find_workspace(snap: &Snapshot, root: &str) -> (r: Result<Option<String>, Error>)
    ensures
        match r {
            Ok(Some(w)) => spec_workspace_lookup(*snap, root@) == Ok::<_, Error>(Some(w@)),
            Ok(None) => spec_workspace_lookup(*snap, root@) == Ok::<Option<Seq<char>>, Error>(
                None,
            ),
            Err(e) => spec_workspace_lookup(*snap, root@) == Err::<Option<Seq<char>>, Error>(e),
        },
{
    let mut cur: Option<String> = parent(root);
    loop
        invariant
            match cur {
                Some(c) => spec_workspace_lookup(*snap, root@) == spec_find_workspace(
                    *snap,
                    c@,
                    root@,
                ),
                None => spec_workspace_lookup(*snap, root@) == Ok::<Option<Seq<char>>, Error>(
                    None,
                ),
            },
        decreases (match cur {
            Some(c) => c@.len() + 1,
            None => 0,
        }),
    {
        let c = match cur {
            None => {
                return Ok(None);
            },
            Some(c) => c,
        };
        match search(c.as_str(), "Cargo.toml", &snap.existing) {
            None => {
                return Ok(None);
            },
            Some(outer) => {
                proof {
                    lemma_search_result_no_longer(snap.existing.deep_view(), c@, "Cargo.toml"@);
                    lemma_parent_shorter(outer@);
                }
                let manifest_path = join(outer.as_str(), "Cargo.toml");
                let parsed = match find_file(&snap.files, manifest_path.as_str()) {
                    None => None,
                    Some(text) => crate::workspace::parse_workspace(text.as_str()),
                };
                match parsed {
                    Some(ws) => {
                        match member_search(snap, outer.as_str(), &ws.workspace.members, root) {
                            Err(e) => {
                                return Err(e);
                            },
                            Ok(true) => {
                                return Ok(Some(outer));
                            },
                            Ok(false) => {
                                cur = parent(outer.as_str());
                            },
                        }
                    },
                    None => {
                        cur = parent(outer.as_str());
                    },
                }
            },
        }
    }
}

impl Project {
    /// Resolves the project the snapshot's starting path lies in: finds the
    /// nearest ancestor directory holding a project-description file, reads
    /// its identity, and merges the configuration sources with their
    /// defined precedence.
    pub fn query(snap: &Snapshot) -> (r: Result<Project, Error>)
        ensures
            match r {
                Ok(p) => spec_resolve(*snap) == Ok::<_, Error>(p@),
                Err(e) => spec_resolve(*snap) == Err::<ProjectView, Error>(e),
            },
    {
        let root = match search(snap.start.as_str(), "Cargo.toml", &snap.existing) {
            None => {
                return Err(Error::NotAProject);
            },
            Some(r) => r,
        };
        let toml_path = join(root.as_str(), "Cargo.toml");
        let man = match find_file(&snap.files, toml_path.as_str()) {
            None => {
                return Err(Error::IoFailure);
            },
            Some(text) => match crate::manifest::parse_manifest(text.as_str()) {
                None => {
                    return Err(Error::ConfigInvalid);
                },
                Some(m) => m,
            },
        };
        let cfg: Option<Config> = match search(root.as_str(), ".cargo/config", &snap.existing) {
            None => None,
            Some(d) => {
                let cfg_path = join(d.as_str(), ".cargo/config");
                match find_file(&snap.files, cfg_path.as_str()) {
                    None => {
                        return Err(Error::IoFailure);
                    },
                    Some(text) => match crate::config::parse_config(text.as_str()) {
                        None => {
                            return Err(Error::ConfigInvalid);
                        },
                        Some(c) => Some(c),
                    },
                }
            },
        };
        let ws = match find_workspace(snap, root.as_str()) {
            Err(e) => {
                return Err(e);
            },
            Ok(w) => w,
        };
        let target: Option<String> = match &cfg {
            Some(c) => match &c.build {
                Some(b) => match &b.target {
                    Some(t) => Some(t.clone()),
                    None => None,
                },
                None => None,
            },
            None => None,
        };
        let cfg_td: Option<String> = match &cfg {
            Some(c) => match &c.build {
                Some(b) => match &b.target_dir {
                    Some(t) => Some(t.clone()),
                    None => None,
                },
                None => None,
            },
            None => None,
        };
        let target_dir: String = match &snap.env_target_dir {
            Some(e) => e.clone(),
            None => match cfg_td {
                Some(td) => td,
                None => match &ws {
                    Some(w) => join(w.as_str(), "target"),
                    None => join(root.as_str(), "target"),
                },
            },
        };
        Ok(Project { name: man.package.name, target, target_dir, toml: toml_path })
    }

    /// Returns the name of the project.
    pub fn name(&self) -> (r: &str)
        ensures
            r@ == self@.name,
    {
        self.name.as_str()
    }

    /// Returns the default compilation target declared in build
    /// configuration, if any.
    pub fn target(&self) -> (r: Option<&str>)
        ensures
            match r {
                Some(t) => self@.target == Some(t@),
                None => self@.target is None,
            },
    {
        match &self.target {
            Some(t) => Some(t.as_str()),
            None => None,
        }
    }

    /// Returns the path of the project-description file at the project
    /// root.
    pub fn toml(&self) -> (r: &str)
        ensures
            r@ == self@.toml,
    {
        self.toml.as_str()
    }

    /// Returns the target directory path: where build artifacts are placed.
    ///
    /// The value is kept exactly as resolution chose it: an environment
    /// override or a declared `target-dir` that is a relative path stays
    /// relative; no absolutization happens here.
    pub fn target_dir(&self) -> (r: &str)
        ensures
            r@ == self@.target_dir,
    {
        self.target_dir.as_str()
    }
}

/// Build profile selecting the output subdirectory.
#[derive(Clone, Copy, PartialEq, Eq, Structural)]
pub enum Profile {
    /// Development profile
    Dev,
    /// Release profile
    Release,
}

impl Profile {
    /// Is this the release profile?
    pub fn is_release(&self) -> (r: bool)
        ensures
            r == (*self == Profile::Release),
    {
        *self == Profile::Release
    }
}


/// The kind of build artifact a path is derived for.
#[derive(Clone, Copy)]
pub enum Artifact<'a> {
    /// A binary with the given name.
    Bin(&'a str),
    /// An example with the given name.
    Example(&'a str),
    /// The library.
    Lib,
}

/// Mathematical shape of an artifact kind.
pub ghost enum ArtifactView {
    /// A binary with the given name.
    Bin(Seq<char>),
    /// An example with the given name.
    Example(Seq<char>),
    /// The library.
    Lib,
}

impl<'a> View for Artifact<'a> {
    type V = ArtifactView;

    open spec fn view(&self) -> ArtifactView {
        match self {
            Artifact::Bin(n) => ArtifactView::Bin(n@),
            Artifact::Example(n) => ArtifactView::Example(n@),
            Artifact::Lib => ArtifactView::Lib,
        }
    }
}

/// The attributes of a compilation target that the extension rules read:
/// its architecture and its OS-family classification, if it has one.
pub struct Platform {
    /// The target's architecture.
    pub arch: String,
    /// The target's OS family, if classified.
    pub family: Option<String>,
}

/// The subdirectory a profile's artifacts are placed under.
pub open spec fn spec_profile_dir(p: Profile) -> Seq<char> {
    if p == Profile::Release {
        "release"@
    } else {
        "debug"@
    }
}

/// The platform-conditional extension rule for binaries and examples:
/// `.wasm` on the WebAssembly architecture, `.exe` on the Windows OS
/// family, no extension otherwise.
pub open spec fn spec_with_ext(
    path: Seq<char>,
    arch: Seq<char>,
    family: Option<Seq<char>>,
) -> Seq<char> {
    if arch == "wasm32"@ {
        spec_set_extension(path, "wasm"@)
    } else if family == Some("windows"@) {
        spec_set_extension(path, "exe"@)
    } else {
        path
    }
}

/// The derived path of a build artifact: the target directory, then a
/// segment for the effective target when one was requested or declared,
/// then the profile segment, then the artifact-specific file name. The
/// host triple never contributes a path segment; it serves only as the
/// platform-lookup fallback.
pub open spec fn spec_artifact_path(
    p: ProjectView,
    a: ArtifactView,
    profile: Profile,
    target: Option<Seq<char>>,
    arch: Seq<char>,
    family: Option<Seq<char>>,
) -> Seq<char> {
    let base = match target {
        Some(t) => spec_join(p.target_dir, t),
        None => match p.target {
            Some(t) => spec_join(p.target_dir, t),
            None => p.target_dir,
        },
    };
    let prof_dir = spec_join(base, spec_profile_dir(profile));
    match a {
        ArtifactView::Bin(n) => spec_with_ext(spec_join(prof_dir, n), arch, family),
        ArtifactView::Example(n) => spec_with_ext(
            spec_join(spec_join(prof_dir, "examples"@), n),
            arch,
            family,
        ),
        ArtifactView::Lib => spec_join(
            prof_dir,
            "lib"@ + spec_replace_dashes(p.name) + ".rlib"@,
        ),
    }
}

/// Applies the platform-conditional extension rule to a derived path.
fn apply_ext(path: String, platform: &Platform) -> (r: String)
    ensures
        r@ == spec_with_ext(path@, platform.arch@, view_opt_string(platform.family)),
{
    if platform.arch.eq(&"wasm32".to_owned()) {
        set_extension(path.as_str(), "wasm")
    } else {
        let is_windows = match &platform.family {
            Some(f) => f.eq(&"windows".to_owned()),
            None => false,
        };
        if is_windows {
            set_extension(path.as_str(), "exe")
        } else {
            path
        }
    }
}

/// Relies on `rustc_cfg::Cfg::of`, which queries the installed toolchain
/// for a target triple's configuration. The answer depends on that
/// toolchain, so nothing is assumed about it; callers state what holds of
/// every outcome.
#[verifier::external_body]
fn platform_of(triple: &str) -> (r: Option<Platform>) {
    match rustc_cfg::Cfg::of(triple) {
        Ok(cfg) => Some(Platform { arch: cfg.target_arch, family: cfg.target_family }),
        Err(_) => None,
    }
}

impl Project {
    /// Derives the path of a build artifact from the resolved project and
    /// the given platform attributes. The effective target segment comes
    /// from `target` when given, else from the project's declared target;
    /// with neither, no target segment is appended.
    pub fn path_with_platform(
        &self,
        artifact: Artifact,
        profile: Profile,
        target: Option<&str>,
        platform: &Platform,
    ) -> (r: String)
        ensures
            r@ == spec_artifact_path(
                self@,
                artifact@,
                profile,
                view_opt_str(target),
                platform.arch@,
                view_opt_string(platform.family),
            ),
    {
        let base: String = match target {
            Some(t) => join(self.target_dir.as_str(), t),
            None => match &self.target {
                Some(t) => join(self.target_dir.as_str(), t.as_str()),
                None => self.target_dir.clone(),
            },
        };
        let prof_dir = join(base.as_str(), if profile.is_release() { "release" } else { "debug" });
        match artifact {
            Artifact::Bin(n) => apply_ext(join(prof_dir.as_str(), n), platform),
            Artifact::Example(n) => {
                let dir = join(prof_dir.as_str(), "examples");
                apply_ext(join(dir.as_str(), n), platform)
            },
            Artifact::Lib => {
                let mut file = "lib".to_owned();
                file.append(replace_dashes(self.name.as_str()).as_str());
                file.append(".rlib");
                join(prof_dir.as_str(), file.as_str())
            },
        }
    }

    /// The triple whose platform attributes govern a derivation: the
    /// requested target when given, else the project's declared default
    /// target, else the host.
    pub fn effective_target<'a>(&'a self, target: Option<&'a str>, host: &'a str) -> (r: &'a str)
        ensures
            r@ == (match target {
                Some(t) => t@,
                None => match self@.target {
                    Some(t) => t,
                    None => host@,
                },
            }),
    {
        match target {
            Some(t) => t,
            None => match &self.target {
                Some(t) => t.as_str(),
                None => host,
            },
        }
    }

    /// Derives the path of a build artifact, querying the platform
    /// attributes of the effective target: `target` when given, else the
    /// project's declared target, else `host`. Fails with `UnknownTarget`
    /// when the platform lookup does not recognize that triple; on success
    /// the path follows the derivation rule for the attributes the lookup
    /// answered.
    pub fn path(
        &self,
        artifact: Artifact,
        profile: Profile,
        target: Option<&str>,
        host: &str,
    ) -> (r: Result<String, Error>)
        ensures
            match r {
                Ok(p) => exists|arch: Seq<char>, family: Option<Seq<char>>|
                    p@ == spec_artifact_path(
                        self@,
                        artifact@,
                        profile,
                        view_opt_str(target),
                        arch,
                        family,
                    ),
                Err(e) => e == Error::UnknownTarget,
            },
    {
        let effective = self.effective_target(target, host);
        match platform_of(effective) {
            None => Err(Error::UnknownTarget),
            Some(platform) => {
                let p = self.path_with_platform(artifact, profile, target, &platform);
                assert(p@ == spec_artifact_path(
                    self@,
                    artifact@,
                    profile,
                    view_opt_str(target),
                    platform.arch@,
                    view_opt_string(platform.family),
                ));
                Ok(p)
            },
        }
    }
}

} // verus!
