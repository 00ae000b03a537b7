//! yarn: `yarn [global] add [--dev] [--exact] <pkgs>`.
use vstd::prelude::*;
use super::{provided, push_packages, Backend, Resolved};
use crate::text::strings_view;
use crate::flags::{Manager, NormalisedFlags};

verus! {

/// The yarn backend.
pub struct Yarn;

/// yarn's arguments before the packages.
pub open spec fn yarn_flag_args(f: NormalisedFlags) -> Seq<Seq<char>> {
    provided(f.global, seq!["global"@]) + seq!["add"@] + provided(f.dev, seq!["--dev"@]) + provided(f.exact, seq!["--exact"@])
}

/// yarn's warnings about flags it cannot honour.
pub open spec fn yarn_warnings(f: NormalisedFlags) -> Seq<Seq<char>> {
    seq![]
}

impl Backend for Yarn {
    open spec fn spec_manager(&self) -> Manager {
        Manager::Yarn
    }

    fn manager(&self) -> (m: Manager) {
        Manager::Yarn
    }

    fn install(&self, pkgs: &[String], flags: &NormalisedFlags) -> (r: Resolved) {
        let mut args: Vec<String> = Vec::new();
        let mut warnings: Vec<String> = Vec::new();
        if flags.global {
            args.push("global".to_owned());
        }
        args.push("add".to_owned());
        if flags.dev {
            args.push("--dev".to_owned());
        }
        if flags.exact {
            args.push("--exact".to_owned());
        }
        assert(strings_view(args@) =~= yarn_flag_args(*flags));
        assert(strings_view(warnings@) =~= yarn_warnings(*flags));
        push_packages(&mut args, pkgs);
        Resolved { program: "yarn".to_owned(), args, warnings }
    }
}

} // verus!
