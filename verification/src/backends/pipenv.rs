//! pipenv: `pipenv install [--dev] <pkgs>`; no global install, no exact pin.
use vstd::prelude::*;
use super::{provided, push_packages, Backend, Resolved};
use crate::text::strings_view;
use crate::flags::{Manager, NormalisedFlags};

verus! {

/// The pipenv backend.
pub struct Pipenv;

/// pipenv's arguments before the packages.
pub open spec fn pipenv_flag_args(f: NormalisedFlags) -> Seq<Seq<char>> {
    seq!["install"@] + provided(f.dev, seq!["--dev"@])
}

/// pipenv's warnings about flags it cannot honour.
pub open spec fn pipenv_warnings(f: NormalisedFlags) -> Seq<Seq<char>> {
    provided(f.global, seq!["pipenv has no global install; ignoring -g"@]) + provided(f.exact, seq!["pipenv has no --exact flag; use pkg==X.Y.Z to pin"@])
}

impl Backend for Pipenv {
    open spec fn spec_manager(&self) -> Manager {
        Manager::Pipenv
    }

    fn manager(&self) -> (m: Manager) {
        Manager::Pipenv
    }

    fn install(&self, pkgs: &[String], flags: &NormalisedFlags) -> (r: Resolved) {
        let mut args: Vec<String> = Vec::new();
        let mut warnings: Vec<String> = Vec::new();
        args.push("install".to_owned());
        if flags.dev {
            args.push("--dev".to_owned());
        }
        if flags.global {
            warnings.push("pipenv has no global install; ignoring -g".to_owned());
        }
        if flags.exact {
            warnings.push("pipenv has no --exact flag; use pkg==X.Y.Z to pin".to_owned());
        }
        assert(strings_view(args@) =~= pipenv_flag_args(*flags));
        assert(strings_view(warnings@) =~= pipenv_warnings(*flags));
        push_packages(&mut args, pkgs);
        Resolved { program: "pipenv".to_owned(), args, warnings }
    }
}

} // verus!
