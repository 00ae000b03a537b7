use add_cli::detect::{detect, DetectionSource, DirListing, Ecosystem};
use add_cli::flags::Manager;

fn dir(files: &[&str]) -> DirListing {
    // `touch` writes an empty package.json.
    let package_json = if files.contains(&"package.json") { Some(String::new()) } else { None };
    DirListing { files: files.iter().map(|f| f.to_string()).collect(), package_json }
}

fn dir_with_package_json(files: &[&str], body: &str) -> DirListing {
    let mut all: Vec<String> = files.iter().map(|f| f.to_string()).collect();
    all.push("package.json".to_string());
    DirListing { files: all, package_json: Some(body.to_string()) }
}

#[test]
fn detects_pnpm_lockfile() {
    let d = detect(&vec![dir(&["pnpm-lock.yaml", "package.json"])]);
    assert_eq!(d.manager, Some(Manager::Pnpm));
    assert_eq!(d.ecosystem, Some(Ecosystem::Javascript));
}

#[test]
fn lockfile_wins_over_marker_at_same_level() {
    let d = detect(&vec![dir(&["yarn.lock", "package.json"])]);
    assert_eq!(d.manager, Some(Manager::Yarn));
}

#[test]
fn walks_up_to_ancestor() {
    // a/b/c below a directory holding uv.lock
    let levels = vec![dir(&[]), dir(&[]), dir(&[]), dir(&["uv.lock"])];
    let d = detect(&levels);
    assert_eq!(d.manager, Some(Manager::Uv));
    assert_eq!(d.ecosystem, Some(Ecosystem::Python));
}

#[test]
fn requirements_txt_means_pip() {
    let d = detect(&vec![dir(&["requirements.txt"])]);
    assert_eq!(d.manager, Some(Manager::Pip));
}

#[test]
fn bare_pyproject_has_no_manager() {
    let d = detect(&vec![dir(&["pyproject.toml"])]);
    assert_eq!(d.manager, None);
    assert_eq!(d.ecosystem, Some(Ecosystem::Python));
}

#[test]
fn package_manager_field_wins_over_lockfile() {
    let levels = vec![dir_with_package_json(
        &["yarn.lock"],
        r#"{ "name":"x", "packageManager":"pnpm@9.1.0" }"#,
    )];
    let d = detect(&levels);
    assert_eq!(d.manager, Some(Manager::Pnpm));
    assert_eq!(d.source, DetectionSource::PackageManagerField);
}

#[test]
fn package_manager_field_works_without_lockfile() {
    let levels = vec![dir_with_package_json(&[], r#"{ "packageManager": "bun@1.1.0" }"#)];
    let d = detect(&levels);
    assert_eq!(d.manager, Some(Manager::Bun));
}

#[test]
fn package_manager_field_with_sha_suffix() {
    let levels = vec![dir_with_package_json(
        &[],
        r#"{ "packageManager": "yarn@4.1.0+sha512.abc123" }"#,
    )];
    let d = detect(&levels);
    assert_eq!(d.manager, Some(Manager::Yarn));
}

#[test]
fn package_json_without_field_falls_through_to_lockfile() {
    let levels = vec![dir_with_package_json(&["pnpm-lock.yaml"], r#"{ "name": "x" }"#)];
    let d = detect(&levels);
    assert_eq!(d.manager, Some(Manager::Pnpm));
    assert_eq!(d.source, DetectionSource::Lockfile("pnpm-lock.yaml"));
}

#[test]
fn malformed_package_json_falls_through() {
    let levels = vec![dir_with_package_json(&["yarn.lock"], "not json at all")];
    let d = detect(&levels);
    assert_eq!(d.manager, Some(Manager::Yarn));
}

#[test]
fn detects_bun_text_lockfile() {
    let d = detect(&vec![dir(&["bun.lock", "package.json"])]);
    assert_eq!(d.manager, Some(Manager::Bun));
    assert_eq!(d.source, DetectionSource::Lockfile("bun.lock"));
}

#[test]
fn empty_dir_detects_nothing() {
    let d = detect(&vec![dir(&[])]);
    assert_eq!(d.manager, None);
    assert_eq!(d.ecosystem, None);
}
