use cargo_project::snapshot::{FileEntry, Snapshot, expand_member_pattern};
use cargo_project::{Artifact, Platform, Profile, Project};

fn resolved(name: &str) -> Project {
    let manifest = format!("[package]\nname = \"{}\"\nversion = \"0.1\"\n", name);
    let snap = Snapshot {
        start: "/proj".to_string(),
        env_target_dir: None,
        existing: vec!["/proj/Cargo.toml".to_string()],
        files: vec![FileEntry {
            path: "/proj/Cargo.toml".to_string(),
            contents: manifest,
        }],
        globs: vec![],
    };
    Project::query(&snap).unwrap()
}

fn windows() -> Platform {
    Platform {
        arch: "x86_64".to_string(),
        family: Some("windows".to_string()),
    }
}

fn linux() -> Platform {
    Platform {
        arch: "x86_64".to_string(),
        family: Some("unix".to_string()),
    }
}

fn thumb() -> Platform {
    Platform {
        arch: "arm".to_string(),
        family: None,
    }
}

fn wasm() -> Platform {
    Platform {
        arch: "wasm32".to_string(),
        family: None,
    }
}

#[test]
fn bin_on_windows_host() {
    let project = resolved("foo");
    let p = project.path_with_platform(Artifact::Bin("foo"), Profile::Dev, None, &windows());

    assert!(p.ends_with("target/debug/foo.exe"));
    assert_eq!(p, "/proj/target/debug/foo.exe");
}

#[test]
fn example_on_windows_host() {
    let project = resolved("foo");
    let p = project.path_with_platform(Artifact::Example("bar"), Profile::Dev, None, &windows());

    assert!(p.ends_with("target/debug/examples/bar.exe"));
}

#[test]
fn bin_for_explicit_bare_metal_target() {
    let project = resolved("foo");
    let p = project.path_with_platform(
        Artifact::Bin("foo"),
        Profile::Dev,
        Some("thumbv7m-none-eabi"),
        &thumb(),
    );

    assert!(p.ends_with("target/thumbv7m-none-eabi/debug/foo"));
    assert_eq!(p, "/proj/target/thumbv7m-none-eabi/debug/foo");
}

#[test]
fn example_for_explicit_bare_metal_target() {
    let project = resolved("foo");
    let p = project.path_with_platform(
        Artifact::Example("bar"),
        Profile::Dev,
        Some("thumbv7m-none-eabi"),
        &thumb(),
    );

    assert!(p.ends_with("target/thumbv7m-none-eabi/debug/examples/bar"));
}

#[test]
fn bin_for_explicit_wasm_target() {
    let project = resolved("foo");
    let p = project.path_with_platform(
        Artifact::Bin("foo"),
        Profile::Dev,
        Some("wasm32-unknown-unknown"),
        &wasm(),
    );

    assert!(p.ends_with("target/wasm32-unknown-unknown/debug/foo.wasm"));
}

#[test]
fn example_for_explicit_wasm_target() {
    let project = resolved("foo");
    let p = project.path_with_platform(
        Artifact::Example("bar"),
        Profile::Dev,
        Some("wasm32-unknown-unknown"),
        &wasm(),
    );

    assert!(p.ends_with("target/wasm32-unknown-unknown/debug/examples/bar.wasm"));
}

#[test]
fn bin_on_unix_host_has_no_extension() {
    let project = resolved("foo");
    let p = project.path_with_platform(Artifact::Bin("foo"), Profile::Dev, None, &linux());

    assert_eq!(p, "/proj/target/debug/foo");
}

#[test]
fn release_profile_segment() {
    let project = resolved("foo");
    let p = project.path_with_platform(Artifact::Bin("foo"), Profile::Release, None, &linux());

    assert_eq!(p, "/proj/target/release/foo");
}

#[test]
fn lib_path_replaces_hyphens() {
    let project = resolved("foo-bar-baz");
    let p = project.path_with_platform(Artifact::Lib, Profile::Dev, None, &linux());

    assert!(p.ends_with("libfoo_bar_baz.rlib"));
    assert_eq!(p, "/proj/target/debug/libfoo_bar_baz.rlib");
}

#[test]
fn lib_path_ignores_platform_extension_rules() {
    let project = resolved("foo");
    let p = project.path_with_platform(Artifact::Lib, Profile::Dev, None, &windows());

    assert_eq!(p, "/proj/target/debug/libfoo.rlib");
}

#[test]
fn extension_replaces_existing_suffix() {
    let project = resolved("foo");
    let p = project.path_with_platform(Artifact::Bin("tool.v2"), Profile::Dev, None, &windows());

    assert_eq!(p, "/proj/target/debug/tool.exe");
}

#[test]
fn declared_target_appends_segment() {
    let manifest = "[package]\nname = \"foo\"\nversion = \"0.1\"\n";
    let config = "[build]\ntarget = \"thumbv7m-none-eabi\"\n";
    let snap = Snapshot {
        start: "/proj".to_string(),
        env_target_dir: None,
        existing: vec![
            "/proj/Cargo.toml".to_string(),
            "/proj/.cargo/config".to_string(),
        ],
        files: vec![
            FileEntry {
                path: "/proj/Cargo.toml".to_string(),
                contents: manifest.to_string(),
            },
            FileEntry {
                path: "/proj/.cargo/config".to_string(),
                contents: config.to_string(),
            },
        ],
        globs: vec![],
    };
    let project = Project::query(&snap).unwrap();
    let p = project.path_with_platform(Artifact::Bin("foo"), Profile::Dev, None, &thumb());

    assert_eq!(p, "/proj/target/thumbv7m-none-eabi/debug/foo");
}

#[test]
fn effective_target_prefers_request() {
    let project = resolved("foo");

    assert_eq!(
        project.effective_target(Some("thumbv7m-none-eabi"), "x86_64-unknown-linux-gnu"),
        "thumbv7m-none-eabi"
    );
}

#[test]
fn effective_target_falls_back_to_host() {
    let project = resolved("foo");

    assert_eq!(
        project.effective_target(None, "x86_64-unknown-linux-gnu"),
        "x86_64-unknown-linux-gnu"
    );
}

#[test]
fn effective_target_uses_declared_target() {
    let manifest = "[package]\nname = \"foo\"\nversion = \"0.1\"\n";
    let config = "[build]\ntarget = \"thumbv7m-none-eabi\"\n";
    let snap = Snapshot {
        start: "/proj".to_string(),
        env_target_dir: None,
        existing: vec![
            "/proj/Cargo.toml".to_string(),
            "/proj/.cargo/config".to_string(),
        ],
        files: vec![
            FileEntry {
                path: "/proj/Cargo.toml".to_string(),
                contents: manifest.to_string(),
            },
            FileEntry {
                path: "/proj/.cargo/config".to_string(),
                contents: config.to_string(),
            },
        ],
        globs: vec![],
    };
    let project = Project::query(&snap).unwrap();

    assert_eq!(
        project.effective_target(None, "x86_64-unknown-linux-gnu"),
        "thumbv7m-none-eabi"
    );
    assert_eq!(
        project.effective_target(Some("wasm32-unknown-unknown"), "x86_64-unknown-linux-gnu"),
        "wasm32-unknown-unknown"
    );
}

#[test]
fn is_release() {
    assert!(Profile::Release.is_release());
    assert!(!Profile::Dev.is_release());
}

#[test]
fn member_pattern_expansion_joins_root() {
    let answer = expand_member_pattern("/no-such-dir-cargo-project-test", "crates/*");

    assert_eq!(answer.pattern, "/no-such-dir-cargo-project-test/crates/*");
}
