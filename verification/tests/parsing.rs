use cargo_project::config::parse_config;
use cargo_project::manifest::{Version, Workspace, parse_manifest};
use cargo_project::workspace::parse_workspace;

#[test]
fn empty_config() {
    let config = parse_config("").unwrap();

    assert!(config.build.is_none());
}

#[test]
fn config_empty_build() {
    let config = parse_config("[build]").unwrap();

    assert!(config.build.unwrap().target.is_none());
}

#[test]
fn config_build_target() {
    let config = parse_config(
        r#"
[build]
target = "thumbv7m-none-eabi"
"#,
    )
    .unwrap();

    assert_eq!(config.build.unwrap().target.unwrap(), "thumbv7m-none-eabi")
}

#[test]
fn config_no_build_target() {
    let config = parse_config(
        r#"
[target.thumbv7m-none-eabi]
runner = "arm-none-eabi-gdb"
"#,
    )
    .unwrap();

    assert!(config.build.is_none());
}

#[test]
fn config_build_target_plus() {
    let config = parse_config(
        r#"
[target.thumbv7m-none-eabi]
runner = "arm-none-eabi-gdb"

[build]
target = "thumbv7m-none-eabi"
"#,
    )
    .unwrap();

    assert_eq!(config.build.unwrap().target.unwrap(), "thumbv7m-none-eabi");
}

#[test]
fn config_build_target_dir() {
    let config = parse_config(
        r#"
[build]
target-dir = "custom-target"
"#,
    )
    .unwrap();

    assert_eq!(config.build.unwrap().target_dir.unwrap(), "custom-target")
}

#[test]
fn package_name() {
    let manifest = parse_manifest(
        r#"
[package]
name = "foo"
version = "0.1"
"#,
    )
    .unwrap();

    assert_eq!(manifest.package.name, "foo");
}

#[test]
fn package_description_missing() {
    let manifest = parse_manifest(
        r#"
[package]
name = "foo"
version = "0.1"
"#,
    )
    .unwrap();

    assert_eq!(manifest.package.description, None);
}

#[test]
fn package_description_present() {
    let manifest = parse_manifest(
        r#"
[package]
name = "foo"
version = "0.1"
description = "Test description"
"#,
    )
    .unwrap();

    assert_eq!(manifest.package.description.unwrap(), "Test description");
}

#[test]
fn version_is_workspace() {
    let manifest = parse_manifest(
        r#"
[package]
name = "foo"
version = { workspace = true }
description = "Test description"
"#,
    )
    .unwrap();

    assert_eq!(
        manifest.package.version,
        Version::Table(Workspace { workspace: true })
    );
}

#[test]
fn members() {
    let manifest = parse_workspace(
        r#"
[workspace]
members = ["foo", "bar"]
"#,
    )
    .unwrap();

    assert_eq!(manifest.workspace.members[0], "foo");
    assert_eq!(manifest.workspace.members[1], "bar");
}

#[test]
fn manifest_requires_version() {
    let manifest = parse_manifest(
        r#"
[package]
name = "foo"
"#,
    );

    assert!(manifest.is_none());
}

#[test]
fn manifest_requires_package() {
    assert!(parse_manifest("").is_none());
}

#[test]
fn workspace_rejects_plain_package() {
    let parsed = parse_workspace(
        r#"
[package]
name = "foo"
version = "0.1"
"#,
    );

    assert!(parsed.is_none());
}

#[test]
fn config_rejects_scalar_build() {
    assert!(parse_config("build = 1").is_none());
}
