//! The apt capability: update the package index and install a batch in one
//! command; on failure, fold the package manager's "unable to locate" lines
//! into one consolidated error; on a check, query each package on its own.

use vstd::prelude::*;
use crate::executor::{CommandOutcome, CommandOutcomeView, Error, ErrorView};
use crate::status::{Status, status_new_spec};
use crate::text;

verus! {

/// Desired state: the packages to install.  The order only matters for
/// reporting.
pub struct AptOptions {
    pub install: Vec<String>,
}

/// The three install commands: quiet frontend, index update, one combined
/// install of every declared package.
pub open spec fn apt_install_spec(packages: Seq<Seq<char>>) -> Seq<Seq<char>> {
    seq![
        "export DEBIAN_FRONTEND=noninteractive"@,
        "sudo apt-get update 2>&1"@,
        "sudo apt-get install -yq "@ + text::join_seq(packages, " "@) + " 2>&1"@,
    ]
}

/// Plans one apt install.  When the third command fails, its output goes
/// through `install_error` before it is reported.
pub fn on_install(opt: &AptOptions) -> (r: Vec<String>)
    ensures
        r.deep_view() == apt_install_spec(opt.install.deep_view()),
{
    let packages = text::join_strings(&opt.install, " ");
    let mut c = "sudo apt-get install -yq ".to_owned();
    c.append(packages.as_str());
    c.append(" 2>&1");
    let mut r: Vec<String> = Vec::new();
    r.push("export DEBIAN_FRONTEND=noninteractive".to_owned());
    r.push("sudo apt-get update 2>&1".to_owned());
    r.push(c);
    proof {
        assert(r.deep_view() =~= apt_install_spec(opt.install.deep_view()));
    }
    r
}

/// The marker of a package the manager could not locate.
pub open spec fn locate_marker() -> Seq<char> {
    "Unable to locate package"@
}

/// A line names a package the manager could not locate; stripped of the
/// marker and the error prefix, it leaves the package name.
pub open spec fn cleaned_line_spec(line: Seq<char>) -> Seq<char> {
    text::replace_seq(
        text::replace_seq(line, "Unable to locate package "@, ""@),
        "E: "@,
        ""@,
    )
}

/// The packages named by "unable to locate" lines, in output order.
pub open spec fn missing_packages_spec(ls: Seq<Seq<char>>) -> Seq<Seq<char>>
    decreases ls.len(),
{
    if ls.len() == 0 {
        Seq::empty()
    } else {
        let rest = missing_packages_spec(ls.drop_last());
        if text::contains_seq(ls.last(), locate_marker()) {
            rest + seq![cleaned_line_spec(ls.last())]
        } else {
            rest
        }
    }
}

proof fn lemma_missing_packages_nonempty(ls: Seq<Seq<char>>)
    ensures
        missing_packages_spec(ls).len() > 0 <==> exists|i: int|
            0 <= i < ls.len() && text::contains_seq(#[trigger] ls[i], locate_marker()),
    decreases ls.len(),
{
    if ls.len() > 0 {
        lemma_missing_packages_nonempty(ls.drop_last());
        assert(forall|i: int| 0 <= i < ls.len() - 1 ==> ls.drop_last()[i] == ls[i]);
        if text::contains_seq(ls.last(), locate_marker()) {
            assert(text::contains_seq(ls[ls.len() - 1], locate_marker()));
        } else {
            assert(forall|i: int|
                0 <= i < ls.len() && text::contains_seq(#[trigger] ls[i], locate_marker())
                    ==> 0 <= i < ls.len() - 1);
        }
    }
}

/// The consolidation law: whenever any line of the failed install's output
/// carries the "unable to locate" marker, the reported error is the single
/// consolidated one naming exactly the cleaned marker lines in output
/// order — never the raw text; with no such line the raw output is kept.
pub proof fn lemma_apt_install_error_consolidates(output: Seq<char>)
    ensures
        (exists|i: int|
            0 <= i < text::lines_seq(output).len() && text::contains_seq(
                #[trigger] text::lines_seq(output)[i],
                locate_marker(),
            )) ==> apt_install_error_spec(output) == (ErrorView::PackageNotFoundError {
            packages: missing_packages_spec(text::lines_seq(output)),
        }),
        !(exists|i: int|
            0 <= i < text::lines_seq(output).len() && text::contains_seq(
                #[trigger] text::lines_seq(output)[i],
                locate_marker(),
            )) ==> apt_install_error_spec(output) == (ErrorView::RemoteCommandError { output }),
{
    lemma_missing_packages_nonempty(text::lines_seq(output));
}

/// What a failed install reports: a consolidated error naming every package
/// the manager could not locate, or the raw output when no such line
/// occurs.
pub open spec fn apt_install_error_spec(output: Seq<char>) -> ErrorView {
    let missing = missing_packages_spec(text::lines_seq(output));
    if missing.len() > 0 {
        ErrorView::PackageNotFoundError { packages: missing }
    } else {
        ErrorView::RemoteCommandError { output }
    }
}

/// Consolidates the failure output of the combined install command.
pub fn install_error(output: &str) -> (r: Error)
    ensures
        r@ == apt_install_error_spec(output@),
{
    let ls = text::lines_of(output);
    let ghost lv = ls.deep_view();
    let mut missing: Vec<String> = Vec::new();
    let mut i: usize = 0;
    while i < ls.len()
        invariant
            i <= ls@.len(),
            lv == ls.deep_view(),
            lv.len() == ls@.len(),
            missing.deep_view() == missing_packages_spec(lv.subrange(0, i as int)),
        decreases ls@.len() - i,
    {
        if text::contains_str(ls[i].as_str(), "Unable to locate package") {
            let stripped = text::replace_str(ls[i].as_str(), "Unable to locate package ", "");
            let package = text::replace_str(stripped.as_str(), "E: ", "");
            missing.push(package);
        }
        proof {
            let pre = lv.subrange(0, i + 1);
            assert(pre.drop_last() =~= lv.subrange(0, i as int));
            assert(pre.last() == lv[i as int]);
            assert(lv[i as int] == ls@[i as int]@);
            if text::contains_seq(lv[i as int], "Unable to locate package"@) {
                assert(missing.deep_view() =~= missing_packages_spec(
                    lv.subrange(0, i as int),
                ) + seq![cleaned_line_spec(lv[i as int])]);
            }
        }
        i = i + 1;
    }
    proof {
        assert(lv.subrange(0, lv.len() as int) =~= lv);
    }
    if missing.len() > 0 {
        Error::PackageNotFoundError { packages: missing }
    } else {
        Error::RemoteCommandError { output: output.to_owned() }
    }
}

/// The per-package query of a check.
pub open spec fn package_probe_spec(package: Seq<char>) -> Seq<char> {
    "sudo dpkg -s "@ + package + " 2>&1"@
}

/// One status query per package, in declared order.
pub open spec fn apt_probes(packages: Seq<Seq<char>>) -> Seq<Seq<char>>
    decreases packages.len(),
{
    if packages.len() == 0 {
        Seq::empty()
    } else {
        apt_probes(packages.drop_last()) + seq![package_probe_spec(packages.last())]
    }
}

pub fn check_commands(opt: &AptOptions) -> (r: Vec<String>)
    ensures
        r.deep_view() == apt_probes(opt.install.deep_view()),
{
    let ghost packages = opt.install.deep_view();
    let mut r: Vec<String> = Vec::new();
    let mut i: usize = 0;
    while i < opt.install.len()
        invariant
            i <= opt.install@.len(),
            packages == opt.install.deep_view(),
            packages.len() == opt.install@.len(),
            r.deep_view() == apt_probes(packages.subrange(0, i as int)),
        decreases opt.install@.len() - i,
    {
        let mut c = "sudo dpkg -s ".to_owned();
        c.append(opt.install[i].as_str());
        c.append(" 2>&1");
        r.push(c);
        proof {
            let pre = packages.subrange(0, i + 1);
            assert(pre.drop_last() =~= packages.subrange(0, i as int));
            assert(pre.last() == packages[i as int]);
            assert(r.deep_view() =~= apt_probes(packages.subrange(0, i as int)) + seq![
                package_probe_spec(packages[i as int]),
            ]);
        }
        i = i + 1;
    }
    proof {
        assert(packages.subrange(0, packages.len() as int) =~= packages);
    }
    r
}

/// The installed-state marker a successful query must contain.
pub open spec fn installed_marker() -> Seq<char> {
    "Status: install ok installed"@
}

/// What one package's probe contributes: satisfied evidence when the query
/// succeeded and shows the installed marker; otherwise a gap — the missing
/// line, or the first line of the query's own error text.
pub open spec fn package_verdict_spec(package: Seq<char>, outcome: CommandOutcomeView) -> Result<
    Seq<char>,
    Seq<char>,
> {
    if outcome.exit_status == 0 {
        if text::contains_seq(outcome.output, installed_marker()) {
            Ok(package + " ok"@)
        } else {
            Err(package + " missing"@)
        }
    } else {
        let cleaned = text::replace_seq(outcome.output, "dpkg-query: "@, ""@);
        Err(text::first_line_seq(cleaned))
    }
}

pub open spec fn apt_successes(
    packages: Seq<Seq<char>>,
    outcomes: Seq<CommandOutcomeView>,
) -> Seq<Seq<char>>
    decreases packages.len(),
{
    if packages.len() == 0 {
        Seq::empty()
    } else {
        let rest = apt_successes(packages.drop_last(), outcomes.drop_last());
        match package_verdict_spec(packages.last(), outcomes[packages.len() - 1]) {
            Ok(line) => rest + seq![line],
            Err(_) => rest,
        }
    }
}

pub open spec fn apt_failures(
    packages: Seq<Seq<char>>,
    outcomes: Seq<CommandOutcomeView>,
) -> Seq<Seq<char>>
    decreases packages.len(),
{
    if packages.len() == 0 {
        Seq::empty()
    } else {
        let rest = apt_failures(packages.drop_last(), outcomes.drop_last());
        match package_verdict_spec(packages.last(), outcomes[packages.len() - 1]) {
            Ok(_) => rest,
            Err(line) => rest + seq![line],
        }
    }
}

/// Folds the per-package query outcomes into one status.
pub fn on_check(opt: &AptOptions, outcomes: &Vec<CommandOutcome>) -> (r: Status)
    requires
        outcomes@.len() == opt.install@.len(),
    ensures
        r@ == status_new_spec(
            apt_successes(opt.install.deep_view(), outcomes.deep_view()),
            apt_failures(opt.install.deep_view(), outcomes.deep_view()),
        ),
{
    let ghost packages = opt.install.deep_view();
    let ghost ov = outcomes.deep_view();
    let mut success: Vec<String> = Vec::new();
    let mut fail: Vec<String> = Vec::new();
    let mut i: usize = 0;
    while i < opt.install.len()
        invariant
            i <= opt.install@.len(),
            packages == opt.install.deep_view(),
            ov == outcomes.deep_view(),
            packages.len() == opt.install@.len(),
            ov.len() == opt.install@.len(),
            outcomes@.len() == opt.install@.len(),
            success.deep_view() == apt_successes(
                packages.subrange(0, i as int),
                ov.subrange(0, i as int),
            ),
            fail.deep_view() == apt_failures(
                packages.subrange(0, i as int),
                ov.subrange(0, i as int),
            ),
        decreases opt.install@.len() - i,
    {
        proof {
            assert(ov[i as int] == outcomes@[i as int]@);
            assert(packages[i as int] == opt.install@[i as int]@);
        }
        if outcomes[i].exit_status == 0 {
            if text::contains_str(outcomes[i].output.as_str(), "Status: install ok installed") {
                let mut line = opt.install[i].clone();
                line.append(" ok");
                success.push(line);
            } else {
                let mut line = opt.install[i].clone();
                line.append(" missing");
                fail.push(line);
            }
        } else {
            let errmsg = text::replace_str(outcomes[i].output.as_str(), "dpkg-query: ", "");
            let first_line = text::first_line_of(errmsg.as_str());
            fail.push(first_line);
        }
        proof {
            let ppre = packages.subrange(0, i + 1);
            let opre = ov.subrange(0, i + 1);
            assert(ppre.drop_last() =~= packages.subrange(0, i as int));
            assert(opre.drop_last() =~= ov.subrange(0, i as int));
            assert(ppre.last() == packages[i as int]);
            assert(opre[ppre.len() - 1] == ov[i as int]);
            match package_verdict_spec(packages[i as int], ov[i as int]) {
                Ok(line) => {
                    assert(success.deep_view() =~= apt_successes(
                        packages.subrange(0, i as int),
                        ov.subrange(0, i as int),
                    ) + seq![line]);
                },
                Err(line) => {
                    assert(fail.deep_view() =~= apt_failures(
                        packages.subrange(0, i as int),
                        ov.subrange(0, i as int),
                    ) + seq![line]);
                },
            }
        }
        i = i + 1;
    }
    proof {
        assert(packages.subrange(0, packages.len() as int) =~= packages);
        assert(ov.subrange(0, ov.len() as int) =~= ov);
    }
    Status::new(success, fail)
}

} // verus!
