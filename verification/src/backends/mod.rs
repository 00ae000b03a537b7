//! One backend per package manager: each turns a list of packages and the
//! normalised flags into the command line that installs them.
use vstd::prelude::*;
use crate::flags::{manager_name, Manager, NormalisedFlags};
use crate::text::{contains_whitespace, has_whitespace, strings_view};

pub mod npm;
pub mod pnpm;
pub mod yarn;
pub mod bun;
pub mod pip;
pub mod pipenv;
pub mod poetry;
pub mod uv;

pub use npm::Npm;
pub use pnpm::Pnpm;
pub use yarn::Yarn;
pub use bun::Bun;
pub use pip::Pip;
pub use pipenv::Pipenv;
pub use poetry::Poetry;
pub use uv::Uv;

verus! {

/// `s` when `b` holds, nothing otherwise.
pub open spec fn provided(b: bool, s: Seq<Seq<char>>) -> Seq<Seq<char>> {
    if b { s } else { seq![] }
}

/// A resolved command: the program, its arguments, and warnings about flags
/// that the manager cannot honour.
#[derive(Debug, Clone)]
pub struct Resolved {
    pub program: String,
    pub args: Vec<String>,
    pub warnings: Vec<String>,
}

/// What a [`Resolved`] holds, as text.
pub struct ResolvedView {
    pub program: Seq<char>,
    pub args: Seq<Seq<char>>,
    pub warnings: Seq<Seq<char>>,
}

impl View for Resolved {
    type V = ResolvedView;

    open spec fn view(&self) -> ResolvedView {
        ResolvedView {
            program: self.program@,
            args: strings_view(self.args@),
            warnings: strings_view(self.warnings@),
        }
    }
}

/// An argument as it is shown: in double quotes when it holds whitespace.
pub open spec fn shown_arg(a: Seq<char>) -> Seq<char> {
    if has_whitespace(a) {
        "\""@ + a + "\""@
    } else {
        a
    }
}

/// Each argument shown after a space, in order.
pub open spec fn shown_args(args: Seq<Seq<char>>) -> Seq<char>
    decreases args.len(),
{
    if args.len() == 0 {
        seq![]
    } else {
        shown_args(args.drop_last()) + " "@ + shown_arg(args.last())
    }
}

/// A command as it is shown: the program, then each argument after a space.
pub open spec fn shown_command(r: ResolvedView) -> Seq<char> {
    r.program + shown_args(r.args)
}

impl Resolved {
    /// The command line as one string, for the user to read.
    pub fn display(&self) -> (out: String)
        ensures
            out@ == shown_command(self@),
    {
        let mut out = self.program.clone();
        let mut i: usize = 0;
        while i < self.args.len()
            invariant
                i <= self.args@.len(),
                out@ == self.program@ + shown_args(strings_view(self.args@).take(i as int)),
            decreases self.args@.len() - i,
        {
            let a = self.args[i].as_str();
            out.append(" ");
            if contains_whitespace(a) {
                out.append("\"");
                out.append(a);
                out.append("\"");
            } else {
                out.append(a);
            }
            let ghost v = strings_view(self.args@);
            assert(v.take(i + 1).drop_last() =~= v.take(i as int));
            assert(v.take(i + 1).last() == a@);
            i = i + 1;
        }
        assert(strings_view(self.args@).take(self.args@.len() as int) =~= strings_view(self.args@));
        out
    }
}

/// The arguments that come before the packages, for manager `m` and flags `f`.
pub open spec fn install_flag_args(m: Manager, f: NormalisedFlags) -> Seq<Seq<char>> {
    match m {
        Manager::Npm => npm::npm_flag_args(f),
        Manager::Pnpm => pnpm::pnpm_flag_args(f),
        Manager::Yarn => yarn::yarn_flag_args(f),
        Manager::Bun => bun::bun_flag_args(f),
        Manager::Pip => pip::pip_flag_args(f),
        Manager::Pipenv => pipenv::pipenv_flag_args(f),
        Manager::Poetry => poetry::poetry_flag_args(f),
        Manager::Uv => uv::uv_flag_args(f),
    }
}

/// The warnings about flags that manager `m` cannot honour.
pub open spec fn install_warnings(m: Manager, f: NormalisedFlags) -> Seq<Seq<char>> {
    match m {
        Manager::Npm => npm::npm_warnings(f),
        Manager::Pnpm => pnpm::pnpm_warnings(f),
        Manager::Yarn => yarn::yarn_warnings(f),
        Manager::Bun => bun::bun_warnings(f),
        Manager::Pip => pip::pip_warnings(f),
        Manager::Pipenv => pipenv::pipenv_warnings(f),
        Manager::Poetry => poetry::poetry_warnings(f),
        Manager::Uv => uv::uv_warnings(f),
    }
}

/// The command that installs `pkgs` with manager `m` and flags `f`: the
/// manager's own program, the flag arguments, then the packages in order.
pub open spec fn resolved_install(m: Manager, pkgs: Seq<Seq<char>>, f: NormalisedFlags) -> ResolvedView {
    ResolvedView {
        program: manager_name(m),
        args: install_flag_args(m, f) + pkgs,
        warnings: install_warnings(m, f),
    }
}

/// The flags with `dev` cleared.
pub open spec fn without_dev(f: NormalisedFlags) -> NormalisedFlags {
    NormalisedFlags { dev: false, ..f }
}

/// The flags with `global` cleared.
pub open spec fn without_global(f: NormalisedFlags) -> NormalisedFlags {
    NormalisedFlags { global: false, ..f }
}

/// The flags with `exact` cleared.
pub open spec fn without_exact(f: NormalisedFlags) -> NormalisedFlags {
    NormalisedFlags { exact: false, ..f }
}

/// How much a manager's command says about flags: its flag arguments and
/// its warnings, counted together.
pub open spec fn flag_trace(m: Manager, f: NormalisedFlags) -> nat {
    install_flag_args(m, f).len() + install_warnings(m, f).len()
}

/// No flag is dropped silently: for every manager, each requested flag
/// either shows in the command's arguments or draws a warning, so asking for
/// it always leaves more in the resolved command than not asking.
pub proof fn lemma_no_flag_dropped_silently(m: Manager, f: NormalisedFlags)
    ensures
        f.dev ==> flag_trace(m, f) > flag_trace(m, without_dev(f)),
        f.global ==> flag_trace(m, f) > flag_trace(m, without_global(f)),
        f.exact ==> flag_trace(m, f) > flag_trace(m, without_exact(f)),
{
}

/// Every install command runs the manager's own program, and its arguments
/// end with exactly the packages asked for, in the order given.
pub proof fn lemma_install_shape(m: Manager, pkgs: Seq<Seq<char>>, f: NormalisedFlags)
    ensures
        resolved_install(m, pkgs, f).program == manager_name(m),
        resolved_install(m, pkgs, f).args.len() >= pkgs.len(),
        resolved_install(m, pkgs, f).args.skip(resolved_install(m, pkgs, f).args.len() - pkgs.len()) == pkgs,
{
    let a = resolved_install(m, pkgs, f).args;
    assert(a.skip(a.len() - pkgs.len()) =~= pkgs);
}

/// How each manager spells "dev dependency" (nothing for pip, which has none).
pub open spec fn dev_spelling(m: Manager) -> Seq<Seq<char>> {
    match m {
        Manager::Npm => seq!["--save-dev"@],
        Manager::Pnpm => seq!["-D"@],
        Manager::Yarn => seq!["--dev"@],
        Manager::Bun => seq!["-d"@],
        Manager::Pip => seq![],
        Manager::Uv => seq!["--dev"@],
        Manager::Poetry => seq!["--group"@, "dev"@],
        Manager::Pipenv => seq!["--dev"@],
    }
}

/// `-D` is normalised per manager: for a local install without `-E`, asking
/// for a dev dependency adds the manager's own spelling of it after the
/// subcommand, and pip, which has no such notion, warns instead.
pub proof fn lemma_dev_flag_spelling(m: Manager)
    ensures
        install_flag_args(m, NormalisedFlags { dev: true, global: false, exact: false })
            == install_flag_args(m, NormalisedFlags { dev: false, global: false, exact: false })
            + dev_spelling(m),
        m == Manager::Pip ==> install_warnings(m, NormalisedFlags { dev: true, global: false, exact: false }).len()
            > install_warnings(m, NormalisedFlags { dev: false, global: false, exact: false }).len(),
{
    let on = NormalisedFlags { dev: true, global: false, exact: false };
    let off = NormalisedFlags { dev: false, global: false, exact: false };
    assert(install_flag_args(m, on) =~= install_flag_args(m, off) + dev_spelling(m));
}

/// A package manager's way of installing packages.
pub trait Backend {
    /// The manager this backend drives.
    spec fn spec_manager(&self) -> Manager;

    /// The manager this backend drives.
    fn manager(&self) -> (m: Manager)
        ensures
            m == self.spec_manager(),
    ;

    /// The command that installs `pkgs` with `flags`.
    fn install(&self, pkgs: &[String], flags: &NormalisedFlags) -> (r: Resolved)
        ensures
            r@ == resolved_install(self.spec_manager(), strings_view(pkgs@), *flags),
    ;
}

/// Appends the packages to the arguments, in order.
pub fn push_packages(args: &mut Vec<String>, pkgs: &[String])
    ensures
        strings_view(final(args)@) == strings_view(old(args)@) + strings_view(pkgs@),
{
    let mut i: usize = 0;
    while i < pkgs.len()
        invariant
            i <= pkgs@.len(),
            strings_view(args@) == strings_view(old(args)@) + strings_view(pkgs@.take(i as int)),
        decreases pkgs@.len() - i,
    {
        let ghost before = args@;
        args.push(pkgs[i].clone());
        assert(strings_view(args@) =~= strings_view(before).push(pkgs@[i as int]@));
        assert(strings_view(pkgs@.take(i + 1)) =~= strings_view(pkgs@.take(i as int)).push(pkgs@[i as int]@));
        i = i + 1;
    }
    assert(pkgs@.take(pkgs@.len() as int) =~= pkgs@);
}

/// The backend of any one manager.
pub enum AnyBackend {
    Npm(Npm),
    Pnpm(Pnpm),
    Yarn(Yarn),
    Bun(Bun),
    Pip(Pip),
    Pipenv(Pipenv),
    Poetry(Poetry),
    Uv(Uv),
}

impl Backend for AnyBackend {
    open spec fn spec_manager(&self) -> Manager {
        match self {
            AnyBackend::Npm(_) => Manager::Npm,
            AnyBackend::Pnpm(_) => Manager::Pnpm,
            AnyBackend::Yarn(_) => Manager::Yarn,
            AnyBackend::Bun(_) => Manager::Bun,
            AnyBackend::Pip(_) => Manager::Pip,
            AnyBackend::Pipenv(_) => Manager::Pipenv,
            AnyBackend::Poetry(_) => Manager::Poetry,
            AnyBackend::Uv(_) => Manager::Uv,
        }
    }

    fn manager(&self) -> (m: Manager) {
        match self {
            AnyBackend::Npm(b) => b.manager(),
            AnyBackend::Pnpm(b) => b.manager(),
            AnyBackend::Yarn(b) => b.manager(),
            AnyBackend::Bun(b) => b.manager(),
            AnyBackend::Pip(b) => b.manager(),
            AnyBackend::Pipenv(b) => b.manager(),
            AnyBackend::Poetry(b) => b.manager(),
            AnyBackend::Uv(b) => b.manager(),
        }
    }

    fn install(&self, pkgs: &[String], flags: &NormalisedFlags) -> (r: Resolved) {
        match self {
            AnyBackend::Npm(b) => b.install(pkgs, flags),
            AnyBackend::Pnpm(b) => b.install(pkgs, flags),
            AnyBackend::Yarn(b) => b.install(pkgs, flags),
            AnyBackend::Bun(b) => b.install(pkgs, flags),
            AnyBackend::Pip(b) => b.install(pkgs, flags),
            AnyBackend::Pipenv(b) => b.install(pkgs, flags),
            AnyBackend::Poetry(b) => b.install(pkgs, flags),
            AnyBackend::Uv(b) => b.install(pkgs, flags),
        }
    }
}

/// The backend that drives `manager`.
pub fn backend_for(manager: Manager) -> (b: AnyBackend)
    ensures
        b.spec_manager() == manager,
{
    match manager {
        Manager::Npm => AnyBackend::Npm(Npm),
        Manager::Pnpm => AnyBackend::Pnpm(Pnpm),
        Manager::Yarn => AnyBackend::Yarn(Yarn),
        Manager::Bun => AnyBackend::Bun(Bun),
        Manager::Pip => AnyBackend::Pip(Pip),
        Manager::Pipenv => AnyBackend::Pipenv(Pipenv),
        Manager::Poetry => AnyBackend::Poetry(Poetry),
        Manager::Uv => AnyBackend::Uv(Uv),
    }
}

proof fn lemma_concat_contains(a: Seq<Seq<char>>, b: Seq<Seq<char>>, x: Seq<char>)
    ensures
        (a + b).contains(x) == (a.contains(x) || b.contains(x)),
{
    if a.contains(x) {
        let i = choose|i: int| 0 <= i < a.len() && a[i] == x;
        assert((a + b)[i] == x);
    }
    if b.contains(x) {
        let i = choose|i: int| 0 <= i < b.len() && b[i] == x;
        assert((a + b)[a.len() + i] == x);
    }
    if (a + b).contains(x) {
        let i = choose|i: int| 0 <= i < (a + b).len() && (a + b)[i] == x;
        if i < a.len() {
            assert(a[i] == x);
        } else {
            assert(b[i - a.len()] == x);
        }
    }
}

proof fn lemma_provided_contains(b: bool, s: Seq<Seq<char>>, x: Seq<char>)
    ensures
        provided(b, s).contains(x) == (b && s.contains(x)),
{
}

proof fn lemma_single_contains(y: Seq<char>, x: Seq<char>)
    ensures
        seq![y].contains(x) == (x == y),
{
    if x == y {
        assert(seq![y][0] == x);
    }
}

proof fn lemma_pair_contains(y: Seq<char>, z: Seq<char>, x: Seq<char>)
    ensures
        seq![y, z].contains(x) == (x == y || x == z),
{
    if x == y {
        assert(seq![y, z][0] == x);
    }
    if x == z {
        assert(seq![y, z][1] == x);
    }
}

/// 1 when `b` holds, 0 otherwise.
pub open spec fn count(b: bool) -> nat {
    if b { 1 } else { 0 }
}

/// npm: `install` first; `-g`, `--save-dev`, `--save-exact` exactly when `-g`, `-D`, `-E` are asked for; no warning.
pub proof fn lemma_npm_spelling(f: NormalisedFlags)
    ensures
        install_flag_args(Manager::Npm, f)[0] == "install"@,
        install_flag_args(Manager::Npm, f).contains("-g"@) == (f.global),
        install_flag_args(Manager::Npm, f).contains("--save-dev"@) == (f.dev),
        install_flag_args(Manager::Npm, f).contains("--save-exact"@) == (f.exact),
        install_flag_args(Manager::Npm, f).len() == 1 + count(f.global) + count(f.dev) + count(f.exact),
        install_warnings(Manager::Npm, f).len() == 0,
{
    reveal_strlit("install");
    reveal_strlit("-g");
    reveal_strlit("--save-dev");
    reveal_strlit("--save-exact");
    assert("install"@.len() == 7 && "-g"@.len() == 2 && "--save-dev"@.len() == 10 && "--save-exact"@.len() == 12);
    let ap = seq![seq!["install"@], provided(f.global, seq!["-g"@]), provided(f.dev, seq!["--save-dev"@]), provided(f.exact, seq!["--save-exact"@])];
    assert(install_flag_args(Manager::Npm, f) =~= ap[0] + ap[1] + ap[2] + ap[3]);
    assert forall|x: Seq<char>| #![trigger install_flag_args(Manager::Npm, f).contains(x)]
        install_flag_args(Manager::Npm, f).contains(x) == (((x == "install"@)) || (f.global && (x == "-g"@)) || (f.dev && (x == "--save-dev"@)) || (f.exact && (x == "--save-exact"@))) by {
        lemma_concat_contains(ap[0], ap[1], x);
        lemma_concat_contains(ap[0] + ap[1], ap[2], x);
        lemma_concat_contains(ap[0] + ap[1] + ap[2], ap[3], x);
        lemma_single_contains("install"@, x);
        lemma_single_contains("-g"@, x);
        lemma_single_contains("--save-dev"@, x);
        lemma_single_contains("--save-exact"@, x);
    }
    assert(install_warnings(Manager::Npm, f) =~= seq![]);
}

/// pnpm: `add` first; `-g`, `-D`, `-E` exactly when asked for; no warning.
pub proof fn lemma_pnpm_spelling(f: NormalisedFlags)
    ensures
        install_flag_args(Manager::Pnpm, f)[0] == "add"@,
        install_flag_args(Manager::Pnpm, f).contains("-g"@) == (f.global),
        install_flag_args(Manager::Pnpm, f).contains("-D"@) == (f.dev),
        install_flag_args(Manager::Pnpm, f).contains("-E"@) == (f.exact),
        install_flag_args(Manager::Pnpm, f).len() == 1 + count(f.global) + count(f.dev) + count(f.exact),
        install_warnings(Manager::Pnpm, f).len() == 0,
{
    reveal_strlit("add");
    reveal_strlit("-g");
    reveal_strlit("-D");
    reveal_strlit("-E");
    assert("add"@.len() == 3 && "-g"@.len() == 2 && "-D"@.len() == 2 && "-E"@.len() == 2);
    assert("-g"@[1] != "-D"@[1]);
    assert("-g"@[1] != "-E"@[1]);
    assert("-D"@[1] != "-E"@[1]);
    let ap = seq![seq!["add"@], provided(f.global, seq!["-g"@]), provided(f.dev, seq!["-D"@]), provided(f.exact, seq!["-E"@])];
    assert(install_flag_args(Manager::Pnpm, f) =~= ap[0] + ap[1] + ap[2] + ap[3]);
    assert forall|x: Seq<char>| #![trigger install_flag_args(Manager::Pnpm, f).contains(x)]
        install_flag_args(Manager::Pnpm, f).contains(x) == (((x == "add"@)) || (f.global && (x == "-g"@)) || (f.dev && (x == "-D"@)) || (f.exact && (x == "-E"@))) by {
        lemma_concat_contains(ap[0], ap[1], x);
        lemma_concat_contains(ap[0] + ap[1], ap[2], x);
        lemma_concat_contains(ap[0] + ap[1] + ap[2], ap[3], x);
        lemma_single_contains("add"@, x);
        lemma_single_contains("-g"@, x);
        lemma_single_contains("-D"@, x);
        lemma_single_contains("-E"@, x);
    }
    assert(install_warnings(Manager::Pnpm, f) =~= seq![]);
}

/// yarn: a global install is `global add`, any other `add`; `--dev`, `--exact` exactly when `-D`, `-E` are asked for; no warning.
pub proof fn lemma_yarn_spelling(f: NormalisedFlags)
    ensures
        f.global ==> install_flag_args(Manager::Yarn, f).take(2) == seq!["global"@, "add"@],
        !f.global ==> install_flag_args(Manager::Yarn, f)[0] == "add"@,
        install_flag_args(Manager::Yarn, f).contains("global"@) == (f.global),
        install_flag_args(Manager::Yarn, f).contains("--dev"@) == (f.dev),
        install_flag_args(Manager::Yarn, f).contains("--exact"@) == (f.exact),
        install_flag_args(Manager::Yarn, f).len() == count(f.global) + 1 + count(f.dev) + count(f.exact),
        install_warnings(Manager::Yarn, f).len() == 0,
{
    reveal_strlit("global");
    reveal_strlit("add");
    reveal_strlit("--dev");
    reveal_strlit("--exact");
    assert("global"@.len() == 6 && "add"@.len() == 3 && "--dev"@.len() == 5 && "--exact"@.len() == 7);
    let ap = seq![provided(f.global, seq!["global"@]), seq!["add"@], provided(f.dev, seq!["--dev"@]), provided(f.exact, seq!["--exact"@])];
    assert(install_flag_args(Manager::Yarn, f) =~= ap[0] + ap[1] + ap[2] + ap[3]);
    assert forall|x: Seq<char>| #![trigger install_flag_args(Manager::Yarn, f).contains(x)]
        install_flag_args(Manager::Yarn, f).contains(x) == ((f.global && (x == "global"@)) || ((x == "add"@)) || (f.dev && (x == "--dev"@)) || (f.exact && (x == "--exact"@))) by {
        lemma_concat_contains(ap[0], ap[1], x);
        lemma_concat_contains(ap[0] + ap[1], ap[2], x);
        lemma_concat_contains(ap[0] + ap[1] + ap[2], ap[3], x);
        lemma_single_contains("global"@, x);
        lemma_single_contains("add"@, x);
        lemma_single_contains("--dev"@, x);
        lemma_single_contains("--exact"@, x);
    }
    assert(install_warnings(Manager::Yarn, f) =~= seq![]);
}

/// bun: `add` first; `-g`, `-d` exactly when `-g`, `-D` are asked for; `-E` is not honoured and draws a warning.
pub proof fn lemma_bun_spelling(f: NormalisedFlags)
    ensures
        install_flag_args(Manager::Bun, f)[0] == "add"@,
        install_flag_args(Manager::Bun, f).contains("-g"@) == (f.global),
        install_flag_args(Manager::Bun, f).contains("-d"@) == (f.dev),
        install_flag_args(Manager::Bun, f).len() == 1 + count(f.global) + count(f.dev),
        install_warnings(Manager::Bun, f).contains("bun does not support --exact; ignoring"@) == (f.exact),
        install_warnings(Manager::Bun, f).len() == count(f.exact),
{
    reveal_strlit("add");
    reveal_strlit("-g");
    reveal_strlit("-d");
    reveal_strlit("bun does not support --exact; ignoring");
    assert("add"@.len() == 3 && "-g"@.len() == 2 && "-d"@.len() == 2 && "bun does not support --exact; ignoring"@.len() == 38);
    assert("-g"@[1] != "-d"@[1]);
    let ap = seq![seq!["add"@], provided(f.global, seq!["-g"@]), provided(f.dev, seq!["-d"@])];
    assert(install_flag_args(Manager::Bun, f) =~= ap[0] + ap[1] + ap[2]);
    assert forall|x: Seq<char>| #![trigger install_flag_args(Manager::Bun, f).contains(x)]
        install_flag_args(Manager::Bun, f).contains(x) == (((x == "add"@)) || (f.global && (x == "-g"@)) || (f.dev && (x == "-d"@))) by {
        lemma_concat_contains(ap[0], ap[1], x);
        lemma_concat_contains(ap[0] + ap[1], ap[2], x);
        lemma_single_contains("add"@, x);
        lemma_single_contains("-g"@, x);
        lemma_single_contains("-d"@, x);
    }
    let wp = seq![provided(f.exact, seq!["bun does not support --exact; ignoring"@])];
    assert(install_warnings(Manager::Bun, f) =~= wp[0]);
    assert forall|x: Seq<char>| #![trigger install_warnings(Manager::Bun, f).contains(x)]
        install_warnings(Manager::Bun, f).contains(x) == ((f.exact && (x == "bun does not support --exact; ignoring"@))) by {
        lemma_single_contains("bun does not support --exact; ignoring"@, x);
    }
}

/// pip: `install` first; `-g` becomes `--user`, with a warning; `-D` and `-E` are not honoured and each draws a warning.
pub proof fn lemma_pip_spelling(f: NormalisedFlags)
    ensures
        install_flag_args(Manager::Pip, f)[0] == "install"@,
        install_flag_args(Manager::Pip, f).contains("--user"@) == (f.global),
        install_flag_args(Manager::Pip, f).len() == 1 + count(f.global),
        install_warnings(Manager::Pip, f).contains("pip uses --user for non-system installs; consider a venv"@) == (f.global),
        install_warnings(Manager::Pip, f).contains("pip has no native dev-dependency concept; package will be installed normally"@) == (f.dev),
        install_warnings(Manager::Pip, f).contains("pip does not have an --exact flag; pin via pkg==X.Y.Z in the package spec"@) == (f.exact),
        install_warnings(Manager::Pip, f).len() == count(f.global) + count(f.dev) + count(f.exact),
{
    reveal_strlit("install");
    reveal_strlit("--user");
    reveal_strlit("pip uses --user for non-system installs; consider a venv");
    reveal_strlit("pip has no native dev-dependency concept; package will be installed normally");
    reveal_strlit("pip does not have an --exact flag; pin via pkg==X.Y.Z in the package spec");
    assert("install"@.len() == 7 && "--user"@.len() == 6 && "pip uses --user for non-system installs; consider a venv"@.len() == 56 && "pip has no native dev-dependency concept; package will be installed normally"@.len() == 76 && "pip does not have an --exact flag; pin via pkg==X.Y.Z in the package spec"@.len() == 73);
    let ap = seq![seq!["install"@], provided(f.global, seq!["--user"@])];
    assert(install_flag_args(Manager::Pip, f) =~= ap[0] + ap[1]);
    assert forall|x: Seq<char>| #![trigger install_flag_args(Manager::Pip, f).contains(x)]
        install_flag_args(Manager::Pip, f).contains(x) == (((x == "install"@)) || (f.global && (x == "--user"@))) by {
        lemma_concat_contains(ap[0], ap[1], x);
        lemma_single_contains("install"@, x);
        lemma_single_contains("--user"@, x);
    }
    let wp = seq![provided(f.global, seq!["pip uses --user for non-system installs; consider a venv"@]), provided(f.dev, seq!["pip has no native dev-dependency concept; package will be installed normally"@]), provided(f.exact, seq!["pip does not have an --exact flag; pin via pkg==X.Y.Z in the package spec"@])];
    assert(install_warnings(Manager::Pip, f) =~= wp[0] + wp[1] + wp[2]);
    assert forall|x: Seq<char>| #![trigger install_warnings(Manager::Pip, f).contains(x)]
        install_warnings(Manager::Pip, f).contains(x) == ((f.global && (x == "pip uses --user for non-system installs; consider a venv"@)) || (f.dev && (x == "pip has no native dev-dependency concept; package will be installed normally"@)) || (f.exact && (x == "pip does not have an --exact flag; pin via pkg==X.Y.Z in the package spec"@))) by {
        lemma_concat_contains(wp[0], wp[1], x);
        lemma_concat_contains(wp[0] + wp[1], wp[2], x);
        lemma_single_contains("pip uses --user for non-system installs; consider a venv"@, x);
        lemma_single_contains("pip has no native dev-dependency concept; package will be installed normally"@, x);
        lemma_single_contains("pip does not have an --exact flag; pin via pkg==X.Y.Z in the package spec"@, x);
    }
}

/// uv: a global install is `tool install`, any other `add`; `--dev` exactly for a local dev install, a global one warns that it ignores `-D`; `-E` draws a warning.
pub proof fn lemma_uv_spelling(f: NormalisedFlags)
    ensures
        f.global ==> install_flag_args(Manager::Uv, f).take(2) == seq!["tool"@, "install"@],
        !f.global ==> install_flag_args(Manager::Uv, f)[0] == "add"@,
        install_flag_args(Manager::Uv, f).contains("tool"@) == (f.global),
        install_flag_args(Manager::Uv, f).contains("add"@) == (!f.global),
        install_flag_args(Manager::Uv, f).contains("--dev"@) == (!f.global && f.dev),
        install_flag_args(Manager::Uv, f).len() == 2 * count(f.global) + count(!f.global) + count(!f.global && f.dev),
        install_warnings(Manager::Uv, f).contains("uv tool install ignores --dev"@) == (f.global && f.dev),
        install_warnings(Manager::Uv, f).contains("uv has no --exact flag; pin via pkg==X.Y.Z in the package spec"@) == (f.exact),
        install_warnings(Manager::Uv, f).len() == count(f.global && f.dev) + count(f.exact),
{
    reveal_strlit("tool");
    reveal_strlit("install");
    reveal_strlit("add");
    reveal_strlit("--dev");
    reveal_strlit("uv tool install ignores --dev");
    reveal_strlit("uv has no --exact flag; pin via pkg==X.Y.Z in the package spec");
    assert("tool"@.len() == 4 && "install"@.len() == 7 && "add"@.len() == 3 && "--dev"@.len() == 5 && "uv tool install ignores --dev"@.len() == 29 && "uv has no --exact flag; pin via pkg==X.Y.Z in the package spec"@.len() == 62);
    let ap = seq![provided(f.global, seq!["tool"@, "install"@]), provided(!f.global, seq!["add"@]), provided(!f.global && f.dev, seq!["--dev"@])];
    assert(install_flag_args(Manager::Uv, f) =~= ap[0] + ap[1] + ap[2]);
    assert forall|x: Seq<char>| #![trigger install_flag_args(Manager::Uv, f).contains(x)]
        install_flag_args(Manager::Uv, f).contains(x) == ((f.global && (x == "tool"@ || x == "install"@)) || (!f.global && (x == "add"@)) || (!f.global && f.dev && (x == "--dev"@))) by {
        lemma_concat_contains(ap[0], ap[1], x);
        lemma_concat_contains(ap[0] + ap[1], ap[2], x);
        lemma_pair_contains("tool"@, "install"@, x);
        lemma_single_contains("add"@, x);
        lemma_single_contains("--dev"@, x);
    }
    let wp = seq![provided(f.global && f.dev, seq!["uv tool install ignores --dev"@]), provided(f.exact, seq!["uv has no --exact flag; pin via pkg==X.Y.Z in the package spec"@])];
    assert(install_warnings(Manager::Uv, f) =~= wp[0] + wp[1]);
    assert forall|x: Seq<char>| #![trigger install_warnings(Manager::Uv, f).contains(x)]
        install_warnings(Manager::Uv, f).contains(x) == ((f.global && f.dev && (x == "uv tool install ignores --dev"@)) || (f.exact && (x == "uv has no --exact flag; pin via pkg==X.Y.Z in the package spec"@))) by {
        lemma_concat_contains(wp[0], wp[1], x);
        lemma_single_contains("uv tool install ignores --dev"@, x);
        lemma_single_contains("uv has no --exact flag; pin via pkg==X.Y.Z in the package spec"@, x);
    }
}

/// poetry: `add` first; `-D` becomes `--group dev`; `-g` and `-E` are not honoured and each draws a warning.
pub proof fn lemma_poetry_spelling(f: NormalisedFlags)
    ensures
        install_flag_args(Manager::Poetry, f)[0] == "add"@,
        install_flag_args(Manager::Poetry, f).contains("--group"@) == (f.dev),
        install_flag_args(Manager::Poetry, f).len() == 1 + 2 * count(f.dev),
        install_warnings(Manager::Poetry, f).contains("poetry has no global add; use `poetry self add` or pipx"@) == (f.global),
        install_warnings(Manager::Poetry, f).contains("poetry has no --exact flag; use pkg==X.Y.Z to pin"@) == (f.exact),
        install_warnings(Manager::Poetry, f).len() == count(f.global) + count(f.exact),
{
    reveal_strlit("add");
    reveal_strlit("--group");
    reveal_strlit("dev");
    reveal_strlit("poetry has no global add; use `poetry self add` or pipx");
    reveal_strlit("poetry has no --exact flag; use pkg==X.Y.Z to pin");
    assert("add"@.len() == 3 && "--group"@.len() == 7 && "dev"@.len() == 3 && "poetry has no global add; use `poetry self add` or pipx"@.len() == 55 && "poetry has no --exact flag; use pkg==X.Y.Z to pin"@.len() == 49);
    assert("add"@[0] != "dev"@[0]);
    let ap = seq![seq!["add"@], provided(f.dev, seq!["--group"@, "dev"@])];
    assert(install_flag_args(Manager::Poetry, f) =~= ap[0] + ap[1]);
    assert forall|x: Seq<char>| #![trigger install_flag_args(Manager::Poetry, f).contains(x)]
        install_flag_args(Manager::Poetry, f).contains(x) == (((x == "add"@)) || (f.dev && (x == "--group"@ || x == "dev"@))) by {
        lemma_concat_contains(ap[0], ap[1], x);
        lemma_single_contains("add"@, x);
        lemma_pair_contains("--group"@, "dev"@, x);
    }
    let wp = seq![provided(f.global, seq!["poetry has no global add; use `poetry self add` or pipx"@]), provided(f.exact, seq!["poetry has no --exact flag; use pkg==X.Y.Z to pin"@])];
    assert(install_warnings(Manager::Poetry, f) =~= wp[0] + wp[1]);
    assert forall|x: Seq<char>| #![trigger install_warnings(Manager::Poetry, f).contains(x)]
        install_warnings(Manager::Poetry, f).contains(x) == ((f.global && (x == "poetry has no global add; use `poetry self add` or pipx"@)) || (f.exact && (x == "poetry has no --exact flag; use pkg==X.Y.Z to pin"@))) by {
        lemma_concat_contains(wp[0], wp[1], x);
        lemma_single_contains("poetry has no global add; use `poetry self add` or pipx"@, x);
        lemma_single_contains("poetry has no --exact flag; use pkg==X.Y.Z to pin"@, x);
    }
}

/// pipenv: `install` first; `-D` becomes `--dev`; `-g` and `-E` are not honoured and each draws a warning.
pub proof fn lemma_pipenv_spelling(f: NormalisedFlags)
    ensures
        install_flag_args(Manager::Pipenv, f)[0] == "install"@,
        install_flag_args(Manager::Pipenv, f).contains("--dev"@) == (f.dev),
        install_flag_args(Manager::Pipenv, f).len() == 1 + count(f.dev),
        install_warnings(Manager::Pipenv, f).contains("pipenv has no global install; ignoring -g"@) == (f.global),
        install_warnings(Manager::Pipenv, f).contains("pipenv has no --exact flag; use pkg==X.Y.Z to pin"@) == (f.exact),
        install_warnings(Manager::Pipenv, f).len() == count(f.global) + count(f.exact),
{
    reveal_strlit("install");
    reveal_strlit("--dev");
    reveal_strlit("pipenv has no global install; ignoring -g");
    reveal_strlit("pipenv has no --exact flag; use pkg==X.Y.Z to pin");
    assert("install"@.len() == 7 && "--dev"@.len() == 5 && "pipenv has no global install; ignoring -g"@.len() == 41 && "pipenv has no --exact flag; use pkg==X.Y.Z to pin"@.len() == 49);
    let ap = seq![seq!["install"@], provided(f.dev, seq!["--dev"@])];
    assert(install_flag_args(Manager::Pipenv, f) =~= ap[0] + ap[1]);
    assert forall|x: Seq<char>| #![trigger install_flag_args(Manager::Pipenv, f).contains(x)]
        install_flag_args(Manager::Pipenv, f).contains(x) == (((x == "install"@)) || (f.dev && (x == "--dev"@))) by {
        lemma_concat_contains(ap[0], ap[1], x);
        lemma_single_contains("install"@, x);
        lemma_single_contains("--dev"@, x);
    }
    let wp = seq![provided(f.global, seq!["pipenv has no global install; ignoring -g"@]), provided(f.exact, seq!["pipenv has no --exact flag; use pkg==X.Y.Z to pin"@])];
    assert(install_warnings(Manager::Pipenv, f) =~= wp[0] + wp[1]);
    assert forall|x: Seq<char>| #![trigger install_warnings(Manager::Pipenv, f).contains(x)]
        install_warnings(Manager::Pipenv, f).contains(x) == ((f.global && (x == "pipenv has no global install; ignoring -g"@)) || (f.exact && (x == "pipenv has no --exact flag; use pkg==X.Y.Z to pin"@))) by {
        lemma_concat_contains(wp[0], wp[1], x);
        lemma_single_contains("pipenv has no global install; ignoring -g"@, x);
        lemma_single_contains("pipenv has no --exact flag; use pkg==X.Y.Z to pin"@, x);
    }
}

} // verus!
