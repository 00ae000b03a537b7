//! Choosing the manager, and the messages that explain the choice.
//!
//! In order of precedence: `--pm <name>`, the `.addrc.toml` pin, what
//! detection found, the configured default for the detected ecosystem.
use vstd::prelude::*;
use crate::backends::{backend_for, resolved_install, Backend, Resolved};
use crate::config::{GlobalConfig, ProjectConfig};
use crate::detect::{Detection, DetectionSource, DetectionView, Ecosystem, SourceView};
use crate::flags::{parse_manager, Manager, NormalisedFlags};
use crate::text::strings_view;

verus! {

/// Why no manager could be chosen.
#[derive(Debug, Clone, PartialEq, Eq)]
pub enum ResolveError {
    /// `--pm` named no known manager.
    UnknownManager(String),
    /// A project of this ecosystem was found, with no lockfile and no default.
    MissingDefault(Ecosystem),
    /// No project was found.
    NoProject,
}

/// A [`ResolveError`] with its name as text.
pub enum ResolveErrorView {
    UnknownManager(Seq<char>),
    MissingDefault(Ecosystem),
    NoProject,
}

impl View for ResolveError {
    type V = ResolveErrorView;

    open spec fn view(&self) -> ResolveErrorView {
        match self {
            ResolveError::UnknownManager(n) => ResolveErrorView::UnknownManager(n@),
            ResolveError::MissingDefault(e) => ResolveErrorView::MissingDefault(*e),
            ResolveError::NoProject => ResolveErrorView::NoProject,
        }
    }
}

/// The text of an optional string.
pub open spec fn opt_text(s: Option<String>) -> Option<Seq<char>> {
    match s {
        Some(t) => Some(t@),
        None => None,
    }
}

/// The manager pinned by a project configuration, if any.
pub open spec fn pinned(project: Option<ProjectConfig>) -> Option<Manager> {
    match project {
        Some(p) => p.manager,
        None => None,
    }
}

/// The manager to use: the `--pm` name `pm` when given (an error when it
/// names no manager), else the project pin, else the detected manager, else
/// the configured default for the detected ecosystem.
pub open spec fn spec_resolve(
    pm: Option<Seq<char>>,
    d: DetectionView,
    g: GlobalConfig,
    project: Option<ProjectConfig>,
) -> Result<Manager, ResolveErrorView> {
    match pm {
        Some(name) => match parse_manager(name) {
            Some(m) => Ok(m),
            None => Err(ResolveErrorView::UnknownManager(name)),
        },
        None => if let Some(m) = pinned(project) {
            Ok(m)
        } else if let Some(m) = d.manager {
            Ok(m)
        } else {
            match d.ecosystem {
                Some(Ecosystem::Javascript) => match g.defaults.javascript {
                    Some(m) => Ok(m),
                    None => Err(ResolveErrorView::MissingDefault(Ecosystem::Javascript)),
                },
                Some(Ecosystem::Python) => match g.defaults.python {
                    Some(m) => Ok(m),
                    None => Err(ResolveErrorView::MissingDefault(Ecosystem::Python)),
                },
                None => Err(ResolveErrorView::NoProject),
            }
        },
    }
}

/// A resolution result with its error as text.
pub open spec fn resolve_view(r: Result<Manager, ResolveError>) -> Result<Manager, ResolveErrorView> {
    match r {
        Ok(m) => Ok(m),
        Err(e) => Err(e@),
    }
}

/// Chooses the manager (see [`spec_resolve`]).
pub fn resolve_manager(
    pm: &Option<String>,
    detection: &Detection,
    global: &GlobalConfig,
    project: Option<&ProjectConfig>,
) -> (r: Result<Manager, ResolveError>)
    ensures
        resolve_view(r) == spec_resolve(
            opt_text(*pm),
            detection@,
            *global,
            match project {
                Some(p) => Some(*p),
                None => None,
            },
        ),
{
    if let Some(name) = pm {
        return match Manager::parse(name.as_str()) {
            Some(m) => Ok(m),
            None => Err(ResolveError::UnknownManager(name.clone())),
        };
    }
    if let Some(p) = project {
        if let Some(m) = p.manager {
            return Ok(m);
        }
    }
    if let Some(m) = detection.manager {
        return Ok(m);
    }
    match detection.ecosystem {
        Some(Ecosystem::Javascript) => match global.defaults.javascript {
            Some(m) => Ok(m),
            None => Err(ResolveError::MissingDefault(Ecosystem::Javascript)),
        },
        Some(Ecosystem::Python) => match global.defaults.python {
            Some(m) => Ok(m),
            None => Err(ResolveError::MissingDefault(Ecosystem::Python)),
        },
        None => Err(ResolveError::NoProject),
    }
}

/// The text of an optional string, or `fallback` when there is none.
pub open spec fn text_or(s: Option<&str>, fallback: Seq<char>) -> Seq<char> {
    match s {
        Some(t) => t@,
        None => fallback,
    }
}

/// The message for a project of ecosystem `ecosystem` (configuration key
/// `key`) with no lockfile and no configured default; `config_path` is where
/// the global configuration lives.
pub open spec fn missing_default_text(ecosystem: Seq<char>, key: Seq<char>, config_path: Seq<char>) -> Seq<char> {
    ecosystem
        + " project detected but no lockfile present and no default configured.\nSet [defaults]\n"@
        + key + " = \"...\" in "@ + config_path + ", or pass --pm <manager>."@
}

/// The message for no project found in `cwd` or above.
pub open spec fn no_project_text(cwd: Seq<char>) -> Seq<char> {
    "no project detected in "@ + cwd
        + " (or any parent). Pass --pm <manager> or run `add init <manager>` here."@
}

/// The message for a `--pm` name that names no manager.
pub open spec fn unknown_manager_text(name: Seq<char>) -> Seq<char> {
    "unknown manager `"@ + name + "`"@
}

/// Where the global configuration is said to live when its path is unknown.
pub open spec fn default_config_path_text() -> Seq<char> {
    "~/.config/add/config.toml"@
}

/// The name shown for an ecosystem, and its key in the configuration.
pub open spec fn ecosystem_names(e: Ecosystem) -> (Seq<char>, Seq<char>) {
    match e {
        Ecosystem::Javascript => ("JavaScript"@, "javascript"@),
        Ecosystem::Python => ("Python"@, "python"@),
    }
}

/// The message of a resolution error; `cwd` is the working directory and
/// `config_path` the global configuration file, each when known.
pub open spec fn resolve_error_text(e: ResolveErrorView, cwd: Option<&str>, config_path: Option<&str>) -> Seq<char> {
    match e {
        ResolveErrorView::UnknownManager(name) => unknown_manager_text(name),
        ResolveErrorView::MissingDefault(eco) => missing_default_text(
            ecosystem_names(eco).0,
            ecosystem_names(eco).1,
            text_or(config_path, default_config_path_text()),
        ),
        ResolveErrorView::NoProject => no_project_text(text_or(cwd, "cwd"@)),
    }
}

/// The message for a project of ecosystem `ecosystem` (configuration key
/// `key`) with no lockfile and no configured default.
pub fn missing_default(ecosystem: &str, key: &str, config_path: Option<&str>) -> (msg: String)
    ensures
        msg@ == missing_default_text(ecosystem@, key@, text_or(config_path, default_config_path_text())),
{
    let cfg = match config_path {
        Some(p) => p,
        None => "~/.config/add/config.toml",
    };
    let mut msg = String::from_str(ecosystem);
    msg.append(" project detected but no lockfile present and no default configured.\nSet [defaults]\n");
    msg.append(key);
    msg.append(" = \"...\" in ");
    msg.append(cfg);
    msg.append(", or pass --pm <manager>.");
    msg
}

impl ResolveError {
    /// The message shown to the user; `cwd` is the working directory and
    /// `config_path` the global configuration file, each when known.
    pub fn message(&self, cwd: Option<&str>, config_path: Option<&str>) -> (msg: String)
        ensures
            msg@ == resolve_error_text(self@, cwd, config_path),
    {
        match self {
            ResolveError::UnknownManager(name) => {
                let mut msg = String::from_str("unknown manager `");
                msg.append(name.as_str());
                msg.append("`");
                msg
            },
            ResolveError::MissingDefault(Ecosystem::Javascript) => missing_default(
                "JavaScript",
                "javascript",
                config_path,
            ),
            ResolveError::MissingDefault(Ecosystem::Python) => missing_default(
                "Python",
                "python",
                config_path,
            ),
            ResolveError::NoProject => {
                let dir = match cwd {
                    Some(d) => d,
                    None => "cwd",
                };
                let mut msg = String::from_str("no project detected in ");
                msg.append(dir);
                msg.append(" (or any parent). Pass --pm <manager> or run `add init <manager>` here.");
                msg
            },
        }
    }
}

/// What the command line asked for.
#[derive(Debug, Clone, Default)]
pub struct CliArgs {
    /// `-D`: add as a dev dependency.
    pub dev: bool,
    /// `-g`: install globally.
    pub global: bool,
    /// `-E`: pin to the exact version.
    pub exact: bool,
    /// `--pm <name>`: force a manager.
    pub pm: Option<String>,
    /// `--dry-run`: print the command without running it.
    pub dry_run: bool,
    /// `-q`: do not print the command.
    pub quiet: bool,
    /// The packages to add.
    pub packages: Vec<String>,
}

/// The flags of a command line.
pub open spec fn cli_flags(cli: CliArgs) -> NormalisedFlags {
    NormalisedFlags { dev: cli.dev, global: cli.global, exact: cli.exact }
}

/// Why `add <packages>` cannot produce a command.
#[derive(Debug, Clone, PartialEq, Eq)]
pub enum AddError {
    /// No package was given.
    NoPackages,
    /// No manager could be chosen.
    Resolve(ResolveError),
}

/// The message for a command line with no packages.
pub open spec fn no_packages_text() -> Seq<char> {
    "no packages given; usage: add <package>..."@
}

impl AddError {
    /// The message shown to the user; `cwd` is the working directory and
    /// `config_path` the global configuration file, each when known.
    pub fn message(&self, cwd: Option<&str>, config_path: Option<&str>) -> (msg: String)
        ensures
            msg@ == match self {
                AddError::NoPackages => no_packages_text(),
                AddError::Resolve(e) => resolve_error_text(e@, cwd, config_path),
            },
    {
        match self {
            AddError::NoPackages => String::from_str("no packages given; usage: add <package>..."),
            AddError::Resolve(e) => e.message(cwd, config_path),
        }
    }
}

/// The command that `add <packages>` runs: an error when no package is given
/// or no manager can be chosen, else the chosen manager's install command for
/// the packages with the command line's flags.
pub fn cmd_add(
    cli: &CliArgs,
    detection: &Detection,
    global: &GlobalConfig,
    project: Option<&ProjectConfig>,
) -> (r: Result<Resolved, AddError>)
    ensures
        cli.packages@.len() == 0 ==> r == Err::<Resolved, AddError>(AddError::NoPackages),
        cli.packages@.len() > 0 ==> match spec_resolve(
            opt_text(cli.pm),
            detection@,
            *global,
            match project {
                Some(p) => Some(*p),
                None => None,
            },
        ) {
            Ok(m) => r matches Ok(res) && res@ == resolved_install(m, strings_view(cli.packages@), cli_flags(*cli)),
            Err(e) => r matches Err(AddError::Resolve(re)) && re@ == e,
        },
{
    if cli.packages.len() == 0 {
        return Err(AddError::NoPackages);
    }
    let manager = match resolve_manager(&cli.pm, detection, global, project) {
        Ok(m) => m,
        Err(e) => return Err(AddError::Resolve(e)),
    };
    let flags = NormalisedFlags { dev: cli.dev, global: cli.global, exact: cli.exact };
    let backend = backend_for(manager);
    Ok(backend.install(cli.packages.as_slice(), &flags))
}

/// The project configuration that `add init <name>` writes: an error message
/// when `name` names no manager.
pub fn init_config(name: &str) -> (r: Result<ProjectConfig, String>)
    ensures
        match parse_manager(name@) {
            Some(m) => r == Ok::<ProjectConfig, String>(ProjectConfig { manager: Some(m) }),
            None => r matches Err(msg) && msg@ == "unknown manager `"@ + name@
                + "`; expected one of: npm, pnpm, yarn, bun, pip, uv, poetry, pipenv"@,
        },
{
    match Manager::parse(name) {
        Some(m) => Ok(ProjectConfig { manager: Some(m) }),
        None => {
            let mut msg = String::from_str("unknown manager `");
            msg.append(name);
            msg.append("`; expected one of: npm, pnpm, yarn, bun, pip, uv, poetry, pipenv");
            Err(msg)
        },
    }
}

/// Why the manager was chosen, as `add which` explains it; `root` is the
/// directory where the project was found.
pub open spec fn source_text(
    source: SourceView,
    pinned_by_project: bool,
    pm_given: bool,
    root: Seq<char>,
) -> Seq<char> {
    if pm_given {
        "--pm override"@
    } else if pinned_by_project {
        ".addrc.toml at "@ + root
    } else {
        match source {
            SourceView::PackageManagerField => "packageManager field of package.json at "@ + root,
            SourceView::Lockfile(name) => name + " at "@ + root,
            SourceView::Marker(name) => name + " at "@ + root
                + " (no lockfile; using configured default)"@,
            SourceView::Nothing => "no project detected"@,
        }
    }
}

/// Why the manager was chosen, as `add which` explains it: `pm_given` tells
/// whether `--pm` was passed, `root` is the directory where the project was found.
pub fn describe_source(
    detection: &Detection,
    project: Option<&ProjectConfig>,
    pm_given: bool,
    root: &str,
) -> (r: String)
    ensures
        r@ == source_text(
            detection@.source,
            pinned(
                match project {
                    Some(p) => Some(*p),
                    None => None,
                },
            ) is Some,
            pm_given,
            root@,
        ),
{
    let pinned_by_project = match project {
        Some(p) => p.manager.is_some(),
        None => false,
    };
    if pm_given {
        String::from_str("--pm override")
    } else if pinned_by_project {
        let mut r = String::from_str(".addrc.toml at ");
        r.append(root);
        r
    } else {
        match detection.source {
            DetectionSource::PackageManagerField => {
                let mut r = String::from_str("packageManager field of package.json at ");
                r.append(root);
                r
            },
            DetectionSource::Lockfile(name) => {
                let mut r = String::from_str(name);
                r.append(" at ");
                r.append(root);
                r
            },
            DetectionSource::Marker(name) => {
                let mut r = String::from_str(name);
                r.append(" at ");
                r.append(root);
                r.append(" (no lockfile; using configured default)");
                r
            },
            DetectionSource::Nothing => String::from_str("no project detected"),
        }
    }
}

/// `--pm <name>` wins over everything else: the result depends only on the
/// name, whatever the project pin, the detection and the defaults.
pub proof fn lemma_pm_override_wins(
    name: Seq<char>,
    d1: DetectionView,
    g1: GlobalConfig,
    p1: Option<ProjectConfig>,
    d2: DetectionView,
    g2: GlobalConfig,
    p2: Option<ProjectConfig>,
)
    ensures
        spec_resolve(Some(name), d1, g1, p1) == spec_resolve(Some(name), d2, g2, p2),
        spec_resolve(Some(name), d1, g1, p1) == match parse_manager(name) {
            Some(m) => Ok::<Manager, ResolveErrorView>(m),
            None => Err(ResolveErrorView::UnknownManager(name)),
        },
{
}

/// Without `--pm`, a manager pinned in `.addrc.toml` wins over whatever
/// detection found and over the defaults.
pub proof fn lemma_project_pin_wins(d: DetectionView, g: GlobalConfig, m: Manager)
    ensures
        spec_resolve(None, d, g, Some(ProjectConfig { manager: Some(m) })) == Ok::<Manager, ResolveErrorView>(m),
{
}

/// Without `--pm` or a pin, a detected manager wins over the defaults.
pub proof fn lemma_detected_wins_over_default(d: DetectionView, g: GlobalConfig, p: Option<ProjectConfig>)
    requires
        pinned(p) is None,
        d.manager is Some,
    ensures
        spec_resolve(None, d, g, p) == Ok::<Manager, ResolveErrorView>(d.manager->0),
{
}

/// A configured default is used only for a project of its ecosystem that
/// names no manager, and a missing one is reported as such.
pub proof fn lemma_default_for_ecosystem(d: DetectionView, g: GlobalConfig, p: Option<ProjectConfig>)
    requires
        pinned(p) is None,
        d.manager is None,
    ensures
        d.ecosystem == Some(Ecosystem::Javascript) ==> spec_resolve(None, d, g, p) == match g.defaults.javascript {
            Some(m) => Ok::<Manager, ResolveErrorView>(m),
            None => Err(ResolveErrorView::MissingDefault(Ecosystem::Javascript)),
        },
        d.ecosystem == Some(Ecosystem::Python) ==> spec_resolve(None, d, g, p) == match g.defaults.python {
            Some(m) => Ok::<Manager, ResolveErrorView>(m),
            None => Err(ResolveErrorView::MissingDefault(Ecosystem::Python)),
        },
        d.ecosystem is None ==> spec_resolve(None, d, g, p) == Err::<Manager, ResolveErrorView>(ResolveErrorView::NoProject),
{
}

/// What `add init <name>` pins is what is then chosen: once the project
/// configuration that `init_config` makes for `name` is in place, and no
/// `--pm` is given, the manager chosen is the one that `name` names.
pub proof fn lemma_init_then_resolve(name: Seq<char>, d: DetectionView, g: GlobalConfig)
    requires
        parse_manager(name) is Some,
    ensures
        spec_resolve(None, d, g, Some(ProjectConfig { manager: parse_manager(name) }))
            == Ok::<Manager, ResolveErrorView>(parse_manager(name)->0),
        spec_resolve(None, d, g, Some(ProjectConfig { manager: parse_manager(name) }))
            == spec_resolve(Some(name), d, g, None),
{
}

/// `add which` names the rule that chose the manager. With `--pm` the
/// explanation is always the override, whatever the pin and the detection,
/// just as the override alone decides the manager; without `--pm`, a pin is
/// explained as the `.addrc.toml`, whatever was detected; otherwise the
/// deciding file is named, a lockfile plainly and a marker as the fallback to
/// the configured default.
pub proof fn lemma_which_names_the_deciding_rule(
    source: SourceView,
    pinned_by_project: bool,
    pm_given: bool,
    root: Seq<char>,
    name: Seq<char>,
)
    ensures
        pm_given ==> source_text(source, pinned_by_project, pm_given, root) == "--pm override"@,
        !pm_given && pinned_by_project ==> source_text(source, pinned_by_project, pm_given, root)
            == ".addrc.toml at "@ + root,
        !pm_given && !pinned_by_project && source == SourceView::Lockfile(name)
            ==> source_text(source, pinned_by_project, pm_given, root) == name + " at "@ + root,
        !pm_given && !pinned_by_project && source == SourceView::Marker(name)
            ==> source_text(source, pinned_by_project, pm_given, root)
            == name + " at "@ + root + " (no lockfile; using configured default)"@,
        !pm_given && !pinned_by_project && source == SourceView::Nothing
            ==> source_text(source, pinned_by_project, pm_given, root) == "no project detected"@,
{
}

/// The explanation and the choice agree: whenever `--pm` is given, the
/// manager comes from the `--pm` name alone and `add which` says so, even
/// when `.addrc.toml` pins another manager.
pub proof fn lemma_which_agrees_with_override(
    name: Seq<char>,
    d: DetectionView,
    g: GlobalConfig,
    p: Option<ProjectConfig>,
    root: Seq<char>,
)
    ensures
        spec_resolve(Some(name), d, g, p) == spec_resolve(Some(name), d, g, None),
        source_text(d.source, pinned(p) is Some, true, root) == "--pm override"@,
{
}

} // verus!
