//! npm: `npm install [-g] [--save-dev] [--save-exact] <pkgs>`.
use vstd::prelude::*;
use super::{provided, push_packages, Backend, Resolved};
use crate::text::strings_view;
use crate::flags::{Manager, NormalisedFlags};

verus! {

/// The npm backend.
pub struct Npm;

/// npm's arguments before the packages.
pub open spec fn npm_flag_args(f: NormalisedFlags) -> Seq<Seq<char>> {
    seq!["install"@] + provided(f.global, seq!["-g"@]) + provided(f.dev, seq!["--save-dev"@]) + provided(f.exact, seq!["--save-exact"@])
}

/// npm's warnings about flags it cannot honour.
pub open spec fn npm_warnings(f: NormalisedFlags) -> Seq<Seq<char>> {
    seq![]
}

impl Backend for Npm {
    open spec fn spec_manager(&self) -> Manager {
        Manager::Npm
    }

    fn manager(&self) -> (m: Manager) {
        Manager::Npm
    }

    fn install(&self, pkgs: &[String], flags: &NormalisedFlags) -> (r: Resolved) {
        let mut args: Vec<String> = Vec::new();
        let mut warnings: Vec<String> = Vec::new();
        args.push("install".to_owned());
        if flags.global {
            args.push("-g".to_owned());
        }
        if flags.dev {
            args.push("--save-dev".to_owned());
        }
        if flags.exact {
            args.push("--save-exact".to_owned());
        }
        assert(strings_view(args@) =~= npm_flag_args(*flags));
        assert(strings_view(warnings@) =~= npm_warnings(*flags));
        push_packages(&mut args, pkgs);
        Resolved { program: "npm".to_owned(), args, warnings }
    }
}

} // verus!
