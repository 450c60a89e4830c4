use vstd::prelude::*;

use crate::paths::{
    lemma_set_extension_appends, spec_join, spec_parent, spec_replace_dashes, spec_search,
};
use crate::snapshot::Snapshot;
use crate::{
    ArtifactView, Error, Profile, ProjectView, spec_artifact_path, spec_cfg_target_dir,
    spec_config_lookup, spec_profile_dir, spec_resolve, spec_resolve_from, spec_workspace_lookup,
    view_opt_string,
};

verus! {

// The laws the resolution and derivation algorithms obey, stated over the
// same specification functions their contracts use.

/// Resolution does not depend on where inside the project tree it starts:
/// two starting paths whose upward search finds the same project root
/// resolve to the same project — in particular, to the same name.
pub proof fn lemma_resolution_same_root(
    s: Snapshot,
    start1: Seq<char>,
    start2: Seq<char>,
    root: Seq<char>,
)
    requires
        spec_search(s.existing.deep_view(), start1, "Cargo.toml"@) == Some(root),
        spec_search(s.existing.deep_view(), start2, "Cargo.toml"@) == Some(root),
    ensures
        spec_resolve_from(s, start1) == spec_resolve_from(s, start2),
{
}

/// When the environment target-directory override is set, the resolved
/// target directory equals it, whatever any build-configuration document
/// declares.
pub proof fn lemma_env_override_wins(s: Snapshot, p: ProjectView)
    requires
        s.env_target_dir is Some,
        spec_resolve(s) == Ok::<ProjectView, Error>(p),
    ensures
        Some(p.target_dir) == view_opt_string(s.env_target_dir),
{
}

/// With no environment override set, a target directory declared by the
/// build-configuration document found from the project root becomes the
/// resolved target directory exactly as declared — so it ends with the
/// declared value.
pub proof fn lemma_config_target_dir(
    s: Snapshot,
    p: ProjectView,
    root: Seq<char>,
    td: Seq<char>,
)
    requires
        s.env_target_dir is None,
        spec_search(s.existing.deep_view(), s.start@, "Cargo.toml"@) == Some(root),
        spec_resolve(s) == Ok::<ProjectView, Error>(p),
        spec_config_lookup(s, root) matches Ok(cfg) && spec_cfg_target_dir(cfg) == Some(td),
    ensures
        p.target_dir == td,
        td.is_suffix_of(p.target_dir),
{
}

/// With no environment override and no declared target directory, a
/// project that is a member of an enclosing workspace places its artifacts
/// under the workspace root's `target` subdirectory.
pub proof fn lemma_workspace_target_dir(
    s: Snapshot,
    p: ProjectView,
    root: Seq<char>,
    w: Seq<char>,
)
    requires
        s.env_target_dir is None,
        spec_search(s.existing.deep_view(), s.start@, "Cargo.toml"@) == Some(root),
        spec_resolve(s) == Ok::<ProjectView, Error>(p),
        spec_config_lookup(s, root) matches Ok(cfg) && spec_cfg_target_dir(cfg) is None,
        spec_workspace_lookup(s, root) == Ok::<Option<Seq<char>>, Error>(Some(w)),
    ensures
        p.target_dir == spec_join(w, "target"@),
{
}

/// A tree whose upward walk above the project root holds no
/// project-description file at all yields no enclosing workspace, and with
/// no override and no declared target directory the resolved target
/// directory defaults to the project root's own `target` subdirectory.
pub proof fn lemma_default_target_dir(s: Snapshot, p: ProjectView, root: Seq<char>)
    requires
        s.env_target_dir is None,
        spec_search(s.existing.deep_view(), s.start@, "Cargo.toml"@) == Some(root),
        spec_resolve(s) == Ok::<ProjectView, Error>(p),
        spec_config_lookup(s, root) matches Ok(cfg) && spec_cfg_target_dir(cfg) is None,
        match spec_parent(root) {
            Some(par) => spec_search(s.existing.deep_view(), par, "Cargo.toml"@) is None,
            None => true,
        },
    ensures
        spec_workspace_lookup(s, root) == Ok::<Option<Seq<char>>, Error>(None),
        p.target_dir == spec_join(root, "target"@),
{
}

/// Deriving a Library path always yields a file whose name is `lib`, then
/// the project name with every hyphen replaced by underscore, then
/// `.rlib` — whatever profile, target and platform are in effect.
pub proof fn lemma_lib_path_filename(
    p: ProjectView,
    profile: Profile,
    target: Option<Seq<char>>,
    arch: Seq<char>,
    family: Option<Seq<char>>,
)
    ensures
        ({
            let derived = spec_artifact_path(p, ArtifactView::Lib, profile, target, arch, family);
            let fname = "lib"@ + spec_replace_dashes(p.name) + ".rlib"@;
            exists|dir: Seq<char>| derived == dir + "/"@ + fname
        }),
{
    let derived = spec_artifact_path(p, ArtifactView::Lib, profile, target, arch, family);
    let fname = "lib"@ + spec_replace_dashes(p.name) + ".rlib"@;
    let base = match target {
        Some(t) => spec_join(p.target_dir, t),
        None => match p.target {
            Some(t) => spec_join(p.target_dir, t),
            None => p.target_dir,
        },
    };
    let prof_dir = spec_join(base, spec_profile_dir(profile));
    if prof_dir == "/"@ {
        assert(derived =~= Seq::<char>::empty() + "/"@ + fname);
    } else {
        assert(derived == prof_dir + "/"@ + fname);
    }
}

/// A binary derived with the development profile, no requested target and
/// no declared target, for a Windows-family platform off the WebAssembly
/// architecture: the path is the target directory, then `debug`, then the
/// binary's name with `.exe` appended. The host triple supplied the
/// platform attributes but no path segment.
pub proof fn lemma_bin_path_windows_host(p: ProjectView, n: Seq<char>, arch: Seq<char>)
    requires
        p.target is None,
        arch != "wasm32"@,
        forall|k: int| 0 <= k < n.len() ==> n[k] != '/' && n[k] != '.',
    ensures
        spec_artifact_path(p, ArtifactView::Bin(n), Profile::Dev, None, arch, Some("windows"@))
            == spec_join(spec_join(p.target_dir, "debug"@), n) + "."@ + "exe"@,
{
    lemma_set_extension_appends(spec_join(p.target_dir, "debug"@), n, "exe"@);
}

/// An example derived with the development profile for an explicitly
/// requested target that is neither WebAssembly nor Windows-family: the
/// path is the target directory, then the target segment, then `debug`,
/// then `examples`, then the example's name, with no extension — whatever
/// the host was.
pub proof fn lemma_example_path_explicit_target(
    p: ProjectView,
    n: Seq<char>,
    t: Seq<char>,
    arch: Seq<char>,
    family: Option<Seq<char>>,
)
    requires
        arch != "wasm32"@,
        family != Some("windows"@),
    ensures
        spec_artifact_path(p, ArtifactView::Example(n), Profile::Dev, Some(t), arch, family)
            == spec_join(
            spec_join(spec_join(spec_join(p.target_dir, t), "debug"@), "examples"@),
            n,
        ),
{
}

/// A binary derived with the development profile for an explicitly
/// requested WebAssembly target: the path is the target directory, then
/// the target segment, then `debug`, then the binary's name with `.wasm`
/// appended, whatever the platform's OS family.
pub proof fn lemma_bin_path_wasm_target(
    p: ProjectView,
    n: Seq<char>,
    t: Seq<char>,
    family: Option<Seq<char>>,
)
    requires
        forall|k: int| 0 <= k < n.len() ==> n[k] != '/' && n[k] != '.',
    ensures
        spec_artifact_path(p, ArtifactView::Bin(n), Profile::Dev, Some(t), "wasm32"@, family)
            == spec_join(spec_join(spec_join(p.target_dir, t), "debug"@), n) + "."@ + "wasm"@,
{
    lemma_set_extension_appends(spec_join(spec_join(p.target_dir, t), "debug"@), n, "wasm"@);
}

} // verus!
