//! uv: `uv add [--dev] <pkgs>`, or `uv tool install <pkgs>` for a global install; no exact pin.
use vstd::prelude::*;
use super::{provided, push_packages, Backend, Resolved};
use crate::text::strings_view;
use crate::flags::{Manager, NormalisedFlags};

verus! {

/// The uv backend.
pub struct Uv;

/// uv's arguments before the packages.
pub open spec fn uv_flag_args(f: NormalisedFlags) -> Seq<Seq<char>> {
    (if f.global { seq!["tool"@, "install"@] } else { seq!["add"@] + provided(f.dev, seq!["--dev"@]) })
}

/// uv's warnings about flags it cannot honour.
pub open spec fn uv_warnings(f: NormalisedFlags) -> Seq<Seq<char>> {
    provided(f.global && f.dev, seq!["uv tool install ignores --dev"@]) + provided(f.exact, seq!["uv has no --exact flag; pin via pkg==X.Y.Z in the package spec"@])
}

impl Backend for Uv {
    open spec fn spec_manager(&self) -> Manager {
        Manager::Uv
    }

    fn manager(&self) -> (m: Manager) {
        Manager::Uv
    }

    fn install(&self, pkgs: &[String], flags: &NormalisedFlags) -> (r: Resolved) {
        let mut args: Vec<String> = Vec::new();
        let mut warnings: Vec<String> = Vec::new();
        if flags.global {
            args.push("tool".to_owned());
            args.push("install".to_owned());
            if flags.dev {
                warnings.push("uv tool install ignores --dev".to_owned());
            }
        } else {
            args.push("add".to_owned());
            if flags.dev {
                args.push("--dev".to_owned());
            }
        }
        if flags.exact {
            warnings.push("uv has no --exact flag; pin via pkg==X.Y.Z in the package spec".to_owned());
        }
        assert(strings_view(args@) =~= uv_flag_args(*flags));
        assert(strings_view(warnings@) =~= uv_warnings(*flags));
        push_packages(&mut args, pkgs);
        Resolved { program: "uv".to_owned(), args, warnings }
    }
}

} // verus!
