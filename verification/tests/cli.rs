use add_cli::config::{find_project_config, GlobalConfig, ProjectConfig};
use add_cli::detect::{detect, DirListing};
use add_cli::dispatch::{cmd_add, describe_source, init_config, resolve_manager, CliArgs};
use add_cli::exec::{run_messages, RunOptions};
use add_cli::flags::Manager;

fn dir(files: &[&str]) -> DirListing {
    let package_json = if files.contains(&"package.json") { Some(String::new()) } else { None };
    DirListing { files: files.iter().map(|f| f.to_string()).collect(), package_json }
}

fn args(flags: &[&str], packages: &[&str]) -> CliArgs {
    let mut cli = CliArgs::default();
    let mut i = 0;
    while i < flags.len() {
        match flags[i] {
            "-D" => cli.dev = true,
            "-g" => cli.global = true,
            "-E" => cli.exact = true,
            "-q" => cli.quiet = true,
            "--dry-run" => cli.dry_run = true,
            "--pm" => {
                i += 1;
                cli.pm = Some(flags[i].to_string());
            }
            other => panic!("unexpected flag {other}"),
        }
        i += 1;
    }
    cli.packages = packages.iter().map(|p| p.to_string()).collect();
    cli
}

/// Runs `add` in the directory `levels[0]`, with the project configuration
/// `project` where `.addrc.toml` is; returns the lines written to stderr, or
/// the error message.
fn add(levels: Vec<DirListing>, project: Option<ProjectConfig>, cli: &CliArgs) -> Result<Vec<String>, String> {
    let detection = detect(&levels);
    let project = find_project_config(&levels).and(project);
    match cmd_add(cli, &detection, &GlobalConfig::default(), project.as_ref()) {
        Ok(resolved) => Ok(run_messages(&resolved, &RunOptions { dry_run: cli.dry_run, quiet: cli.quiet })),
        Err(e) => Err(e.message(Some("/tmp/project"), None)),
    }
}

fn contains(lines: &[String], needle: &str) -> bool {
    lines.iter().any(|l| l.contains(needle))
}

#[test]
fn pnpm_lockfile_dispatches_to_pnpm() {
    let out = add(vec![dir(&["pnpm-lock.yaml", "package.json"])], None, &args(&["--dry-run"], &["react"])).unwrap();
    assert!(contains(&out, "→ pnpm add react"));
}

#[test]
fn yarn_lockfile_dispatches_to_yarn() {
    let out = add(vec![dir(&["yarn.lock"])], None, &args(&["--dry-run"], &["lodash"])).unwrap();
    assert!(contains(&out, "→ yarn add lodash"));
}

#[test]
fn npm_lockfile_dispatches_to_npm() {
    let out = add(vec![dir(&["package-lock.json"])], None, &args(&["--dry-run"], &["axios"])).unwrap();
    assert!(contains(&out, "→ npm install axios"));
}

#[test]
fn bun_lockfile_dispatches_to_bun() {
    let out = add(vec![dir(&["bun.lockb"])], None, &args(&["--dry-run"], &["hono"])).unwrap();
    assert!(contains(&out, "→ bun add hono"));
}

#[test]
fn dev_flag_normalises_per_backend() {
    let out = add(vec![dir(&["pnpm-lock.yaml"])], None, &args(&["-D", "--dry-run"], &["vitest"])).unwrap();
    assert!(contains(&out, "→ pnpm add -D vitest"));

    let out2 = add(vec![dir(&["package-lock.json"])], None, &args(&["-D", "--dry-run"], &["jest"])).unwrap();
    assert!(contains(&out2, "→ npm install --save-dev jest"));
}

#[test]
fn uv_lockfile_dispatches_to_uv() {
    let out = add(vec![dir(&["uv.lock"])], None, &args(&["-D", "--dry-run"], &["pytest"])).unwrap();
    assert!(contains(&out, "→ uv add --dev pytest"));
}

#[test]
fn poetry_dev_flag_uses_group() {
    let out = add(vec![dir(&["poetry.lock"])], None, &args(&["-D", "--dry-run"], &["black"])).unwrap();
    assert!(contains(&out, "→ poetry add --group dev black"));
}

#[test]
fn pip_warns_on_dev_flag() {
    let out = add(vec![dir(&["requirements.txt"])], None, &args(&["-D", "--dry-run"], &["requests"])).unwrap();
    assert!(contains(&out, "warning: pip has no native dev-dependency"));
    assert!(contains(&out, "→ pip install requests"));
}

#[test]
fn package_manager_field_overrides_lockfile() {
    let level = DirListing {
        files: vec!["package.json".to_string(), "yarn.lock".to_string()],
        package_json: Some(r#"{ "name":"x", "packageManager":"pnpm@9.1.0" }"#.to_string()),
    };
    let out = add(vec![level], None, &args(&["--dry-run"], &["react"])).unwrap();
    assert!(contains(&out, "→ pnpm add react"));
}

#[test]
fn package_manager_field_without_lockfile() {
    let level = DirListing {
        files: vec!["package.json".to_string()],
        package_json: Some(r#"{ "packageManager": "bun@1.1.0" }"#.to_string()),
    };
    let out = add(vec![level], None, &args(&["--dry-run"], &["hono"])).unwrap();
    assert!(contains(&out, "→ bun add hono"));
}

#[test]
fn pm_override_wins_over_detection() {
    let out = add(vec![dir(&["pnpm-lock.yaml"])], None, &args(&["--pm", "yarn", "--dry-run"], &["react"])).unwrap();
    assert!(contains(&out, "→ yarn add react"));
}

#[test]
fn addrc_overrides_detection() {
    // .addrc.toml holds `manager = "bun"`.
    let out = add(
        vec![dir(&["pnpm-lock.yaml", ".addrc.toml"])],
        Some(ProjectConfig { manager: Some(Manager::Bun) }),
        &args(&["--dry-run"], &["hono"]),
    )
    .unwrap();
    assert!(contains(&out, "→ bun add hono"));
}

#[test]
fn no_project_errors_with_helpful_message() {
    let err = add(vec![dir(&[])], None, &args(&["--dry-run"], &["anything"])).unwrap_err();
    assert!(err.contains("no project detected"));
}

#[test]
fn which_prints_manager_and_source() {
    let levels = vec![dir(&["yarn.lock"])];
    let detection = detect(&levels);
    let manager = resolve_manager(&None, &detection, &GlobalConfig::default(), None).unwrap();
    assert!(manager.as_str().contains("yarn"));
    let source = describe_source(&detection, None, false, "/tmp/project");
    assert!(source.contains("yarn.lock"));
}

#[test]
fn init_writes_addrc_and_which_reads_it() {
    let config = init_config("bun").unwrap();
    // after `add init bun`, the directory holds .addrc.toml
    let levels = vec![dir(&[".addrc.toml"])];
    assert!(find_project_config(&levels) == Some(0));
    let detection = detect(&levels);
    let manager = resolve_manager(&None, &detection, &GlobalConfig::default(), Some(&config)).unwrap();
    assert!(manager.as_str().contains("bun"));
}

#[test]
fn quiet_suppresses_arrow_line() {
    let out = add(vec![dir(&["pnpm-lock.yaml"])], None, &args(&["-q", "--dry-run"], &["react"])).unwrap();
    assert!(out.is_empty());
}
