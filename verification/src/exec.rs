//! What is reported before a resolved command runs.
use vstd::prelude::*;
use crate::backends::{shown_command, Resolved, ResolvedView};
use crate::text::strings_view;

verus! {

/// How to run a resolved command.
#[derive(Debug, Clone, Copy, Default, PartialEq, Eq, Structural)]
pub struct RunOptions {
    /// Print the command, do not run it.
    pub dry_run: bool,
    /// Print nothing before running.
    pub quiet: bool,
}

/// Each warning, marked as one.
pub open spec fn warning_lines(warnings: Seq<Seq<char>>) -> Seq<Seq<char>> {
    warnings.map_values(|w: Seq<char>| "warning: "@ + w)
}

/// The lines printed on standard error before the command runs: nothing when
/// quiet, else each warning, then the command after an arrow.
pub open spec fn report_lines(r: ResolvedView, opts: RunOptions) -> Seq<Seq<char>> {
    if opts.quiet {
        seq![]
    } else {
        warning_lines(r.warnings).push("→ "@ + shown_command(r))
    }
}

/// The lines to print on standard error before running `resolved`.
pub fn run_messages(resolved: &Resolved, opts: &RunOptions) -> (lines: Vec<String>)
    ensures
        strings_view(lines@) == report_lines(resolved@, *opts),
{
    let mut lines: Vec<String> = Vec::new();
    if opts.quiet {
        assert(strings_view(lines@) =~= seq![]);
        return lines;
    }
    let ghost ws = strings_view(resolved.warnings@);
    let mut i: usize = 0;
    while i < resolved.warnings.len()
        invariant
            ws == strings_view(resolved.warnings@),
            i <= resolved.warnings@.len(),
            strings_view(lines@) == warning_lines(ws.take(i as int)),
        decreases resolved.warnings@.len() - i,
    {
        let mut line = String::from_str("warning: ");
        line.append(resolved.warnings[i].as_str());
        let ghost before = lines@;
        lines.push(line);
        assert(strings_view(lines@) =~= strings_view(before).push(line@));
        assert(warning_lines(ws.take(i + 1)) =~= warning_lines(ws.take(i as int)).push("warning: "@ + ws[i as int]));
        i = i + 1;
    }
    assert(ws.take(i as int) =~= ws);
    let mut arrow = String::from_str("→ ");
    let shown = resolved.display();
    arrow.append(shown.as_str());
    let ghost before = lines@;
    lines.push(arrow);
    assert(strings_view(lines@) =~= strings_view(before).push(arrow@));
    lines
}

/// Quiet runs print nothing before the command, whatever it is.
pub proof fn lemma_quiet_prints_nothing(r: ResolvedView, dry_run: bool)
    ensures
        report_lines(r, RunOptions { dry_run, quiet: true }).len() == 0,
{
}

/// Otherwise the last line printed is the command after an arrow, preceded
/// by one line per warning.
pub proof fn lemma_report_ends_with_command(r: ResolvedView, dry_run: bool)
    ensures
        report_lines(r, RunOptions { dry_run, quiet: false }).len() == r.warnings.len() + 1,
        report_lines(r, RunOptions { dry_run, quiet: false }).last() == "→ "@ + shown_command(r),
{
}

/// Unless quiet, the report shows every warning in order, each marked as one
/// and none lost or repeated: line `i` is the `i`-th warning after
/// `warning: `, and the command comes after them.
pub proof fn lemma_report_shows_each_warning(r: ResolvedView, dry_run: bool)
    ensures
        forall|i: int| 0 <= i < r.warnings.len()
            ==> #[trigger] report_lines(r, RunOptions { dry_run, quiet: false })[i] == "warning: "@ + r.warnings[i],
        report_lines(r, RunOptions { dry_run, quiet: false })[r.warnings.len() as int] == "→ "@ + shown_command(r),
{
}

} // verus!
