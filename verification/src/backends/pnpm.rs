//! pnpm: `pnpm add [-g] [-D] [-E] <pkgs>`.
use vstd::prelude::*;
use super::{provided, push_packages, Backend, Resolved};
use crate::text::strings_view;
use crate::flags::{Manager, NormalisedFlags};

verus! {

/// The pnpm backend.
pub struct Pnpm;

/// pnpm's arguments before the packages.
pub open spec fn pnpm_flag_args(f: NormalisedFlags) -> Seq<Seq<char>> {
    seq!["add"@] + provided(f.global, seq!["-g"@]) + provided(f.dev, seq!["-D"@]) + provided(f.exact, seq!["-E"@])
}

/// pnpm's warnings about flags it cannot honour.
pub open spec fn pnpm_warnings(f: NormalisedFlags) -> Seq<Seq<char>> {
    seq![]
}

impl Backend for Pnpm {
    open spec fn spec_manager(&self) -> Manager {
        Manager::Pnpm
    }

    fn manager(&self) -> (m: Manager) {
        Manager::Pnpm
    }

    fn install(&self, pkgs: &[String], flags: &NormalisedFlags) -> (r: Resolved) {
        let mut args: Vec<String> = Vec::new();
        let mut warnings: Vec<String> = Vec::new();
        args.push("add".to_owned());
        if flags.global {
            args.push("-g".to_owned());
        }
        if flags.dev {
            args.push("-D".to_owned());
        }
        if flags.exact {
            args.push("-E".to_owned());
        }
        assert(strings_view(args@) =~= pnpm_flag_args(*flags));
        assert(strings_view(warnings@) =~= pnpm_warnings(*flags));
        push_packages(&mut args, pkgs);
        Resolved { program: "pnpm".to_owned(), args, warnings }
    }
}

} // verus!
