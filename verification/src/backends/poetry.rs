//! poetry: `poetry add [--group dev] <pkgs>`; no global add, no exact pin.
use vstd::prelude::*;
use super::{provided, push_packages, Backend, Resolved};
use crate::text::strings_view;
use crate::flags::{Manager, NormalisedFlags};

verus! {

/// The poetry backend.
pub struct Poetry;

/// poetry's arguments before the packages.
pub open spec fn poetry_flag_args(f: NormalisedFlags) -> Seq<Seq<char>> {
    seq!["add"@] + provided(f.dev, seq!["--group"@, "dev"@])
}

/// poetry's warnings about flags it cannot honour.
pub open spec fn poetry_warnings(f: NormalisedFlags) -> Seq<Seq<char>> {
    provided(f.global, seq!["poetry has no global add; use `poetry self add` or pipx"@]) + provided(f.exact, seq!["poetry has no --exact flag; use pkg==X.Y.Z to pin"@])
}

impl Backend for Poetry {
    open spec fn spec_manager(&self) -> Manager {
        Manager::Poetry
    }

    fn manager(&self) -> (m: Manager) {
        Manager::Poetry
    }

    fn install(&self, pkgs: &[String], flags: &NormalisedFlags) -> (r: Resolved) {
        let mut args: Vec<String> = Vec::new();
        let mut warnings: Vec<String> = Vec::new();
        args.push("add".to_owned());
        if flags.dev {
            args.push("--group".to_owned());
            args.push("dev".to_owned());
        }
        if flags.global {
            warnings.push("poetry has no global add; use `poetry self add` or pipx".to_owned());
        }
        if flags.exact {
            warnings.push("poetry has no --exact flag; use pkg==X.Y.Z to pin".to_owned());
        }
        assert(strings_view(args@) =~= poetry_flag_args(*flags));
        assert(strings_view(warnings@) =~= poetry_warnings(*flags));
        push_packages(&mut args, pkgs);
        Resolved { program: "poetry".to_owned(), args, warnings }
    }
}

} // verus!
