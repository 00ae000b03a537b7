use add_cli::backends::{backend_for, Backend, Resolved};
use add_cli::config::{Defaults, GlobalConfig, ProjectConfig};
use add_cli::detect::{
    detect, detect_at, manager_from_field, package_manager_field, probed_file_names, Detection,
    DetectionSource, DirListing, Ecosystem,
};
use add_cli::dispatch::{
    cmd_add, describe_source, init_config, missing_default, resolve_manager, AddError, CliArgs,
    ResolveError,
};
use add_cli::exec::{run_messages, RunOptions};
use add_cli::flags::{Manager, NormalisedFlags};

const ALL: [Manager; 8] = [
    Manager::Npm,
    Manager::Pnpm,
    Manager::Yarn,
    Manager::Bun,
    Manager::Pip,
    Manager::Uv,
    Manager::Poetry,
    Manager::Pipenv,
];

fn strings(v: &[&str]) -> Vec<String> {
    v.iter().map(|s| s.to_string()).collect()
}

fn dir(files: &[&str]) -> DirListing {
    DirListing { files: strings(files), package_json: None }
}

fn flags(dev: bool, global: bool, exact: bool) -> NormalisedFlags {
    NormalisedFlags { dev, global, exact }
}

fn install(m: Manager, pkgs: &[&str], f: NormalisedFlags) -> Resolved {
    backend_for(m).install(&strings(pkgs), &f)
}

#[test]
fn manager_names_round_trip() {
    for m in ALL {
        assert_eq!(Manager::parse(m.as_str()), Some(m));
    }
    assert_eq!(Manager::Pipenv.as_str(), "pipenv");
}

#[test]
fn manager_names_ignore_ascii_case() {
    assert_eq!(Manager::parse("PNPM"), Some(Manager::Pnpm));
    assert_eq!(Manager::parse("Yarn"), Some(Manager::Yarn));
    assert_eq!(Manager::parse("PiPeNv"), Some(Manager::Pipenv));
    assert_eq!(Manager::parse("npmx"), None);
    assert_eq!(Manager::parse(""), None);
    assert_eq!(Manager::parse("deno"), None);
}

#[test]
fn backend_for_drives_its_manager() {
    for m in ALL {
        assert_eq!(backend_for(m).manager(), m);
        assert_eq!(install(m, &["x"], flags(false, false, false)).program, m.as_str());
    }
}

#[test]
fn npm_spells_every_flag() {
    let r = install(Manager::Npm, &["a", "b"], flags(true, true, true));
    assert_eq!(r.args, strings(&["install", "-g", "--save-dev", "--save-exact", "a", "b"]));
    assert!(r.warnings.is_empty());
}

#[test]
fn pnpm_spells_every_flag() {
    let r = install(Manager::Pnpm, &["a"], flags(true, true, true));
    assert_eq!(r.args, strings(&["add", "-g", "-D", "-E", "a"]));
    assert!(r.warnings.is_empty());
}

#[test]
fn yarn_global_comes_first() {
    let r = install(Manager::Yarn, &["a"], flags(true, true, true));
    assert_eq!(r.args, strings(&["global", "add", "--dev", "--exact", "a"]));
}

#[test]
fn bun_warns_on_exact() {
    let r = install(Manager::Bun, &["a"], flags(true, true, true));
    assert_eq!(r.args, strings(&["add", "-g", "-d", "a"]));
    assert_eq!(r.warnings, strings(&["bun does not support --exact; ignoring"]));
}

#[test]
fn pip_uses_user_and_warns() {
    let r = install(Manager::Pip, &["a"], flags(true, true, true));
    assert_eq!(r.args, strings(&["install", "--user", "a"]));
    assert_eq!(r.warnings.len(), 3);
    assert!(r.warnings[0].contains("--user"));
    assert!(r.warnings[1].starts_with("pip has no native dev-dependency"));
}

#[test]
fn pipenv_and_poetry_warn_on_global_and_exact() {
    let r = install(Manager::Pipenv, &["a"], flags(true, true, true));
    assert_eq!(r.args, strings(&["install", "--dev", "a"]));
    assert_eq!(r.warnings.len(), 2);
    let r = install(Manager::Poetry, &["a"], flags(true, true, true));
    assert_eq!(r.args, strings(&["add", "--group", "dev", "a"]));
    assert_eq!(r.warnings, strings(&[
        "poetry has no global add; use `poetry self add` or pipx",
        "poetry has no --exact flag; use pkg==X.Y.Z to pin",
    ]));
}

#[test]
fn uv_global_uses_tool_install() {
    let r = install(Manager::Uv, &["ruff"], flags(true, true, false));
    assert_eq!(r.args, strings(&["tool", "install", "ruff"]));
    assert_eq!(r.warnings, strings(&["uv tool install ignores --dev"]));
    let r = install(Manager::Uv, &["ruff"], flags(true, false, false));
    assert_eq!(r.args, strings(&["add", "--dev", "ruff"]));
    assert!(r.warnings.is_empty());
}

#[test]
fn every_requested_flag_leaves_a_trace() {
    for m in ALL {
        let base = install(m, &["p"], flags(false, false, false));
        let base_trace = base.args.len() + base.warnings.len();
        for f in [flags(true, false, false), flags(false, true, false), flags(false, false, true)] {
            let r = install(m, &["p"], f);
            assert!(r.args.len() + r.warnings.len() > base_trace, "{:?} {:?}", m, f);
        }
    }
}

#[test]
fn display_quotes_arguments_with_whitespace() {
    let r = Resolved {
        program: "npm".to_string(),
        args: strings(&["install", "a b", "c\td", "e\u{a0}f", "plain"]),
        warnings: vec![],
    };
    assert_eq!(r.display(), "npm install \"a b\" \"c\td\" \"e\u{a0}f\" plain");
    let bare = Resolved { program: "uv".to_string(), args: vec![], warnings: vec![] };
    assert_eq!(bare.display(), "uv");
}

#[test]
fn field_text_before_at_names_the_manager() {
    assert_eq!(manager_from_field("pnpm@9.1.0"), Some(Manager::Pnpm));
    assert_eq!(manager_from_field("yarn"), Some(Manager::Yarn));
    assert_eq!(manager_from_field("Bun@1@2"), Some(Manager::Bun));
    assert_eq!(manager_from_field("@pnpm"), None);
    assert_eq!(manager_from_field("deno@1.0"), None);
}

#[test]
fn package_manager_field_reads_json() {
    assert_eq!(package_manager_field(r#"{"packageManager":"pnpm@9"}"#), Some(Manager::Pnpm));
    assert_eq!(package_manager_field(r#"{"packageManager":5}"#), None);
    assert_eq!(package_manager_field(r#"["packageManager"]"#), None);
    assert_eq!(package_manager_field(r#"{"name":"x"}"#), None);
    assert_eq!(package_manager_field("{"), None);
    assert_eq!(package_manager_field(""), None);
}

#[test]
fn js_lockfile_wins_over_python_lockfile() {
    let d = detect(&vec![dir(&["uv.lock", "yarn.lock"])]);
    assert_eq!(d.manager, Some(Manager::Yarn));
    assert_eq!(d.ecosystem, Some(Ecosystem::Javascript));
}

#[test]
fn nearest_directory_decides() {
    let d = detect(&vec![dir(&[]), dir(&["requirements.txt"]), dir(&["yarn.lock"])]);
    assert_eq!(d.manager, Some(Manager::Pip));
    assert_eq!(d.root, 1);
    assert_eq!(d.source, DetectionSource::Lockfile("requirements.txt"));
}

#[test]
fn requirements_txt_is_a_lockfile_above_markers() {
    let d = detect(&vec![dir(&["pyproject.toml", "requirements.txt"])]);
    assert_eq!(d.manager, Some(Manager::Pip));
    assert_eq!(d.ecosystem, Some(Ecosystem::Python));
    assert_eq!(d.source, DetectionSource::Lockfile("requirements.txt"));
    let d = detect(&vec![dir(&["package.json", "requirements.txt"])]);
    assert_eq!(d.manager, Some(Manager::Pip));
    assert_eq!(d.ecosystem, Some(Ecosystem::Python));
    let d = detect(&vec![dir(&["uv.lock", "requirements.txt"])]);
    assert_eq!(d.manager, Some(Manager::Uv));
}

#[test]
fn python_markers_name_no_manager() {
    for marker in ["pyproject.toml", "Pipfile", "setup.py"] {
        let d = detect(&vec![dir(&[marker])]);
        assert_eq!(d.manager, None);
        assert_eq!(d.ecosystem, Some(Ecosystem::Python));
        assert_eq!(d.source, DetectionSource::Marker(marker));
    }
}

#[test]
fn package_json_alone_is_a_javascript_marker() {
    let d = detect(&vec![dir(&["package.json", "Pipfile"])]);
    assert_eq!(d.manager, None);
    assert_eq!(d.ecosystem, Some(Ecosystem::Javascript));
    assert_eq!(d.source, DetectionSource::Marker("package.json"));
}

#[test]
fn nothing_detected_reports_the_start() {
    let d = detect(&vec![]);
    assert_eq!(d.source, DetectionSource::Nothing);
    assert_eq!(d.root, 0);
}

#[test]
fn detect_at_takes_the_field() {
    let d = detect_at(&dir(&["package.json", "yarn.lock"]), Some(Manager::Bun), 3).unwrap();
    assert_eq!(d.manager, Some(Manager::Bun));
    assert_eq!(d.root, 3);
    assert_eq!(d.source, DetectionSource::PackageManagerField);
    // without package.json, a field is not looked at
    let d = detect_at(&dir(&["yarn.lock"]), Some(Manager::Bun), 0).unwrap();
    assert_eq!(d.manager, Some(Manager::Yarn));
    assert!(detect_at(&dir(&["README.md"]), None, 0).is_none());
}

#[test]
fn probed_names_cover_everything_looked_at() {
    let names = probed_file_names();
    assert_eq!(names.len(), 14);
    for n in ["package.json", "bun.lockb", "Pipfile.lock", "setup.py", ".addrc.toml"] {
        assert!(names.contains(&n));
    }
}

fn detection(manager: Option<Manager>, ecosystem: Option<Ecosystem>) -> Detection {
    Detection { manager, ecosystem, root: 0, source: DetectionSource::Nothing }
}

#[test]
fn resolution_precedence() {
    let d = detection(Some(Manager::Yarn), Some(Ecosystem::Javascript));
    let g = GlobalConfig::default();
    let pin = ProjectConfig { manager: Some(Manager::Bun) };
    assert_eq!(resolve_manager(&Some("PNPM".to_string()), &d, &g, Some(&pin)), Ok(Manager::Pnpm));
    assert_eq!(
        resolve_manager(&Some("deno".to_string()), &d, &g, Some(&pin)),
        Err(ResolveError::UnknownManager("deno".to_string()))
    );
    assert_eq!(resolve_manager(&None, &d, &g, Some(&pin)), Ok(Manager::Bun));
    assert_eq!(resolve_manager(&None, &d, &g, Some(&ProjectConfig { manager: None })), Ok(Manager::Yarn));
    assert_eq!(resolve_manager(&None, &d, &g, None), Ok(Manager::Yarn));
}

#[test]
fn defaults_apply_per_ecosystem() {
    let g = GlobalConfig { defaults: Defaults { javascript: Some(Manager::Pnpm), python: Some(Manager::Uv) } };
    let js = detection(None, Some(Ecosystem::Javascript));
    let py = detection(None, Some(Ecosystem::Python));
    assert_eq!(resolve_manager(&None, &js, &g, None), Ok(Manager::Pnpm));
    assert_eq!(resolve_manager(&None, &py, &g, None), Ok(Manager::Uv));
    let none = GlobalConfig::default();
    assert_eq!(resolve_manager(&None, &py, &none, None), Err(ResolveError::MissingDefault(Ecosystem::Python)));
    assert_eq!(resolve_manager(&None, &detection(None, None), &g, None), Err(ResolveError::NoProject));
}

#[test]
fn error_messages() {
    assert_eq!(
        ResolveError::UnknownManager("deno".to_string()).message(None, None),
        "unknown manager `deno`"
    );
    assert_eq!(
        ResolveError::NoProject.message(Some("/work"), None),
        "no project detected in /work (or any parent). Pass --pm <manager> or run `add init <manager>` here."
    );
    assert_eq!(
        ResolveError::NoProject.message(None, None),
        "no project detected in cwd (or any parent). Pass --pm <manager> or run `add init <manager>` here."
    );
    assert_eq!(
        ResolveError::MissingDefault(Ecosystem::Javascript).message(None, Some("/cfg/config.toml")),
        "JavaScript project detected but no lockfile present and no default configured.\nSet [defaults]\njavascript = \"...\" in /cfg/config.toml, or pass --pm <manager>."
    );
    assert_eq!(
        missing_default("Python", "python", None),
        "Python project detected but no lockfile present and no default configured.\nSet [defaults]\npython = \"...\" in ~/.config/add/config.toml, or pass --pm <manager>."
    );
    assert_eq!(AddError::NoPackages.message(None, None), "no packages given; usage: add <package>...");
}

#[test]
fn add_without_packages_fails() {
    let cli = CliArgs::default();
    let d = detection(Some(Manager::Npm), Some(Ecosystem::Javascript));
    assert_eq!(cmd_add(&cli, &d, &GlobalConfig::default(), None).unwrap_err(), AddError::NoPackages);
}

#[test]
fn add_builds_the_install_command() {
    let cli = CliArgs { exact: true, packages: strings(&["zod", "hono"]), ..CliArgs::default() };
    let d = detection(Some(Manager::Yarn), Some(Ecosystem::Javascript));
    let r = cmd_add(&cli, &d, &GlobalConfig::default(), None).unwrap();
    assert_eq!(r.display(), "yarn add --exact zod hono");
    let d = detection(None, None);
    assert_eq!(
        cmd_add(&cli, &d, &GlobalConfig::default(), None).unwrap_err(),
        AddError::Resolve(ResolveError::NoProject)
    );
}

#[test]
fn init_config_pins_the_manager() {
    assert_eq!(init_config("PNPM"), Ok(ProjectConfig { manager: Some(Manager::Pnpm) }));
    assert_eq!(
        init_config("deno"),
        Err("unknown manager `deno`; expected one of: npm, pnpm, yarn, bun, pip, uv, poetry, pipenv".to_string())
    );
}

#[test]
fn which_explains_the_source() {
    let lock = Detection {
        manager: Some(Manager::Yarn),
        ecosystem: Some(Ecosystem::Javascript),
        root: 0,
        source: DetectionSource::Lockfile("yarn.lock"),
    };
    assert_eq!(describe_source(&lock, None, false, "/p"), "yarn.lock at /p");
    assert_eq!(describe_source(&lock, None, true, "/p"), "--pm override");
    let pin = ProjectConfig { manager: Some(Manager::Bun) };
    assert_eq!(describe_source(&lock, Some(&pin), false, "/p"), ".addrc.toml at /p");
    let marker = Detection { source: DetectionSource::Marker("pyproject.toml"), ..lock };
    assert_eq!(
        describe_source(&marker, None, false, "/p"),
        "pyproject.toml at /p (no lockfile; using configured default)"
    );
    let field = Detection { source: DetectionSource::PackageManagerField, ..lock };
    assert_eq!(describe_source(&field, None, false, "/p"), "packageManager field of package.json at /p");
    let nothing = Detection { source: DetectionSource::Nothing, ..lock };
    assert_eq!(describe_source(&nothing, None, false, "/p"), "no project detected");
}

#[test]
fn report_lists_warnings_then_command() {
    let r = install(Manager::Bun, &["zod"], flags(false, false, true));
    let lines = run_messages(&r, &RunOptions { dry_run: true, quiet: false });
    assert_eq!(lines, strings(&["warning: bun does not support --exact; ignoring", "→ bun add zod"]));
    assert!(run_messages(&r, &RunOptions { dry_run: false, quiet: true }).is_empty());
}
