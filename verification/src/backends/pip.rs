//! pip: `pip install [--user] <pkgs>`; no dev dependencies, no exact pin.
use vstd::prelude::*;
use super::{provided, push_packages, Backend, Resolved};
use crate::text::strings_view;
use crate::flags::{Manager, NormalisedFlags};

verus! {

/// The pip backend.
pub struct Pip;

/// pip's arguments before the packages.
pub open spec fn pip_flag_args(f: NormalisedFlags) -> Seq<Seq<char>> {
    seq!["install"@] + provided(f.global, seq!["--user"@])
}

/// pip's warnings about flags it cannot honour.
pub open spec fn pip_warnings(f: NormalisedFlags) -> Seq<Seq<char>> {
    provided(f.global, seq!["pip uses --user for non-system installs; consider a venv"@]) + provided(f.dev, seq!["pip has no native dev-dependency concept; package will be installed normally"@]) + provided(f.exact, seq!["pip does not have an --exact flag; pin via pkg==X.Y.Z in the package spec"@])
}

impl Backend for Pip {
    open spec fn spec_manager(&self) -> Manager {
        Manager::Pip
    }

    fn manager(&self) -> (m: Manager) {
        Manager::Pip
    }

    fn install(&self, pkgs: &[String], flags: &NormalisedFlags) -> (r: Resolved) {
        let mut args: Vec<String> = Vec::new();
        let mut warnings: Vec<String> = Vec::new();
        args.push("install".to_owned());
        if flags.global {
            args.push("--user".to_owned());
        }
        if flags.global {
            warnings.push("pip uses --user for non-system installs; consider a venv".to_owned());
        }
        if flags.dev {
            warnings.push("pip has no native dev-dependency concept; package will be installed normally".to_owned());
        }
        if flags.exact {
            warnings.push("pip does not have an --exact flag; pin via pkg==X.Y.Z in the package spec".to_owned());
        }
        assert(strings_view(args@) =~= pip_flag_args(*flags));
        assert(strings_view(warnings@) =~= pip_warnings(*flags));
        push_packages(&mut args, pkgs);
        Resolved { program: "pip".to_owned(), args, warnings }
    }
}

} // verus!
