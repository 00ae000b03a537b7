//! The package managers and the flags that `add` normalises across them.
use vstd::prelude::*;
use crate::text::{ascii_lower_code, eq_ignore_ascii_case, str_eq_ignore_ascii_case};

verus! {

/// A package manager that `add` can dispatch to.
#[derive(Debug, Clone, Copy, PartialEq, Eq, Hash, Structural)]
pub enum Manager {
    Npm,
    Pnpm,
    Yarn,
    Bun,
    Pip,
    Uv,
    Poetry,
    Pipenv,
}

/// The lower-case name of a manager, which is also the program it runs.
pub open spec fn manager_name(m: Manager) -> Seq<char> {
    match m {
        Manager::Npm => "npm"@,
        Manager::Pnpm => "pnpm"@,
        Manager::Yarn => "yarn"@,
        Manager::Bun => "bun"@,
        Manager::Pip => "pip"@,
        Manager::Uv => "uv"@,
        Manager::Poetry => "poetry"@,
        Manager::Pipenv => "pipenv"@,
    }
}

/// The manager whose name `s` is, ignoring ASCII case; `None` for any other text.
pub open spec fn parse_manager(s: Seq<char>) -> Option<Manager> {
    if eq_ignore_ascii_case(s, "npm"@) {
        Some(Manager::Npm)
    } else if eq_ignore_ascii_case(s, "pnpm"@) {
        Some(Manager::Pnpm)
    } else if eq_ignore_ascii_case(s, "yarn"@) {
        Some(Manager::Yarn)
    } else if eq_ignore_ascii_case(s, "bun"@) {
        Some(Manager::Bun)
    } else if eq_ignore_ascii_case(s, "pip"@) {
        Some(Manager::Pip)
    } else if eq_ignore_ascii_case(s, "uv"@) {
        Some(Manager::Uv)
    } else if eq_ignore_ascii_case(s, "poetry"@) {
        Some(Manager::Poetry)
    } else if eq_ignore_ascii_case(s, "pipenv"@) {
        Some(Manager::Pipenv)
    } else {
        None
    }
}


proof fn lemma_eq_ignore_case_symmetric(s: Seq<char>, t: Seq<char>)
    requires
        eq_ignore_ascii_case(s, t),
    ensures
        eq_ignore_ascii_case(t, s),
{
    assert forall|i: int| 0 <= i < t.len() implies #[trigger] ascii_lower_code(t[i])
        == ascii_lower_code(s[i]) by {
        assert(ascii_lower_code(s[i]) == ascii_lower_code(t[i]));
    }
}

proof fn lemma_eq_ignore_case_transitive(s: Seq<char>, t: Seq<char>, u: Seq<char>)
    requires
        eq_ignore_ascii_case(s, t),
        eq_ignore_ascii_case(t, u),
    ensures
        eq_ignore_ascii_case(s, u),
{
    assert forall|i: int| 0 <= i < s.len() implies #[trigger] ascii_lower_code(s[i])
        == ascii_lower_code(u[i]) by {
        assert(ascii_lower_code(s[i]) == ascii_lower_code(t[i]));
        assert(ascii_lower_code(t[i]) == ascii_lower_code(u[i]));
    }
}

proof fn lemma_names_distinct(a: Manager, b: Manager)
    requires
        a != b,
    ensures
        !eq_ignore_ascii_case(manager_name(a), manager_name(b)),
{
    reveal_strlit("npm");
    reveal_strlit("pnpm");
    reveal_strlit("yarn");
    reveal_strlit("bun");
    reveal_strlit("pip");
    reveal_strlit("uv");
    reveal_strlit("poetry");
    reveal_strlit("pipenv");
    let x = manager_name(a);
    let y = manager_name(b);
    if x.len() == y.len() {
        if x[0] != y[0] {
            assert(ascii_lower_code(x[0]) != ascii_lower_code(y[0]));
        } else {
            assert(ascii_lower_code(x[1]) != ascii_lower_code(y[1]));
        }
    }
}

/// A text names a manager exactly when it is that manager's name up to ASCII case.
pub proof fn lemma_parse_is_name(s: Seq<char>, m: Manager)
    ensures
        parse_manager(s) == Some(m) <==> eq_ignore_ascii_case(s, manager_name(m)),
{
    if eq_ignore_ascii_case(s, manager_name(m)) {
        assert forall|o: Manager| o != m implies !eq_ignore_ascii_case(s, #[trigger] manager_name(o)) by {
            if eq_ignore_ascii_case(s, manager_name(o)) {
                lemma_eq_ignore_case_symmetric(s, manager_name(m));
                lemma_eq_ignore_case_transitive(manager_name(m), s, manager_name(o));
                lemma_names_distinct(m, o);
            }
        }
        assert(manager_name(Manager::Npm) == "npm"@);
        assert(manager_name(Manager::Pnpm) == "pnpm"@);
        assert(manager_name(Manager::Yarn) == "yarn"@);
        assert(manager_name(Manager::Bun) == "bun"@);
        assert(manager_name(Manager::Pip) == "pip"@);
        assert(manager_name(Manager::Uv) == "uv"@);
        assert(manager_name(Manager::Poetry) == "poetry"@);
        assert(manager_name(Manager::Pipenv) == "pipenv"@);
    }
}

/// Reading a manager's own name gives the manager back.
pub proof fn lemma_parse_name_round_trip(m: Manager)
    ensures
        parse_manager(manager_name(m)) == Some(m),
{
    let n = manager_name(m);
    assert(eq_ignore_ascii_case(n, n));
    lemma_parse_is_name(n, m);
}

/// Reading a name ignores ASCII case: two texts that differ only in the case
/// of their ASCII letters read as the same manager, or both as none.
pub proof fn lemma_parse_ignores_ascii_case(s: Seq<char>, t: Seq<char>)
    requires
        eq_ignore_ascii_case(s, t),
    ensures
        parse_manager(s) == parse_manager(t),
{
    lemma_eq_ignore_case_symmetric(s, t);
    if let Some(m) = parse_manager(s) {
        lemma_parse_is_name(s, m);
        lemma_eq_ignore_case_transitive(t, s, manager_name(m));
        lemma_parse_is_name(t, m);
    } else if let Some(m) = parse_manager(t) {
        lemma_parse_is_name(t, m);
        lemma_eq_ignore_case_transitive(s, t, manager_name(m));
        lemma_parse_is_name(s, m);
    }
}

impl Manager {
    /// The manager's lower-case name.
    pub fn as_str(self) -> (s: &'static str)
        ensures
            s@ == manager_name(self),
    {
        match self {
            Manager::Npm => "npm",
            Manager::Pnpm => "pnpm",
            Manager::Yarn => "yarn",
            Manager::Bun => "bun",
            Manager::Pip => "pip",
            Manager::Uv => "uv",
            Manager::Poetry => "poetry",
            Manager::Pipenv => "pipenv",
        }
    }

    /// Reads a manager's name, in any ASCII case.
    pub fn parse(s: &str) -> (r: Option<Manager>)
        ensures
            r == parse_manager(s@),
    {
        if str_eq_ignore_ascii_case(s, "npm") {
            Some(Manager::Npm)
        } else if str_eq_ignore_ascii_case(s, "pnpm") {
            Some(Manager::Pnpm)
        } else if str_eq_ignore_ascii_case(s, "yarn") {
            Some(Manager::Yarn)
        } else if str_eq_ignore_ascii_case(s, "bun") {
            Some(Manager::Bun)
        } else if str_eq_ignore_ascii_case(s, "pip") {
            Some(Manager::Pip)
        } else if str_eq_ignore_ascii_case(s, "uv") {
            Some(Manager::Uv)
        } else if str_eq_ignore_ascii_case(s, "poetry") {
            Some(Manager::Poetry)
        } else if str_eq_ignore_ascii_case(s, "pipenv") {
            Some(Manager::Pipenv)
        } else {
            None
        }
    }
}

/// The install flags, in the same meaning for every manager.
#[derive(Debug, Clone, Copy, Default, PartialEq, Eq, Structural)]
pub struct NormalisedFlags {
    pub dev: bool,
    pub global: bool,
    pub exact: bool,
}

} // verus!
