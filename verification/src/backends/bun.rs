//! bun: `bun add [-g] [-d] <pkgs>`; bun has no exact pin.
use vstd::prelude::*;
use super::{provided, push_packages, Backend, Resolved};
use crate::text::strings_view;
use crate::flags::{Manager, NormalisedFlags};

verus! {

/// The bun backend.
pub struct Bun;

/// bun's arguments before the packages.
pub open spec fn bun_flag_args(f: NormalisedFlags) -> Seq<Seq<char>> {
    seq!["add"@] + provided(f.global, seq!["-g"@]) + provided(f.dev, seq!["-d"@])
}

/// bun's warnings about flags it cannot honour.
pub open spec fn bun_warnings(f: NormalisedFlags) -> Seq<Seq<char>> {
    provided(f.exact, seq!["bun does not support --exact; ignoring"@])
}

impl Backend for Bun {
    open spec fn spec_manager(&self) -> Manager {
        Manager::Bun
    }

    fn manager(&self) -> (m: Manager) {
        Manager::Bun
    }

    fn install(&self, pkgs: &[String], flags: &NormalisedFlags) -> (r: Resolved) {
        let mut args: Vec<String> = Vec::new();
        let mut warnings: Vec<String> = Vec::new();
        args.push("add".to_owned());
        if flags.global {
            args.push("-g".to_owned());
        }
        if flags.dev {
            args.push("-d".to_owned());
        }
        if flags.exact {
            warnings.push("bun does not support --exact; ignoring".to_owned());
        }
        assert(strings_view(args@) =~= bun_flag_args(*flags));
        assert(strings_view(warnings@) =~= bun_warnings(*flags));
        push_packages(&mut args, pkgs);
        Resolved { program: "bun".to_owned(), args, warnings }
    }
}

} // verus!
