//! The keys capability: push each declared local file's contents verbatim
//! to the same-named remote path, optionally set its mode, and probe each
//! file's presence on a check.

use vstd::prelude::*;
use crate::executor::CommandOutcome;
use crate::status::{
    Status, outcome_exits, probe_failures, probe_status, probe_successes, status_new_spec,
};
use crate::text;

verus! {

/// Desired state: the files to sync and the mode to set on them, if any.
pub struct KeysOptions {
    pub sync: Vec<String>,
    pub perm: Option<String>,
}

/// The command that writes one file's contents to its remote path.
pub open spec fn push_cmd_spec(contents: Seq<char>, file: Seq<char>) -> Seq<char> {
    "echo '"@ + contents + "' > "@ + file
}

/// The command that sets one remote file's mode.
pub open spec fn chmod_cmd_spec(perm: Seq<char>, file: Seq<char>) -> Seq<char> {
    "chmod "@ + perm + " "@ + file
}

/// The install commands: per declared file, one write of its local
/// contents, followed by one chmod when a mode is declared.
pub open spec fn keys_install_spec(
    files: Seq<Seq<char>>,
    contents: Seq<Seq<char>>,
    perm: Option<Seq<char>>,
) -> Seq<Seq<char>>
    decreases files.len(),
{
    if files.len() == 0 {
        Seq::empty()
    } else {
        let rest = keys_install_spec(files.drop_last(), contents.drop_last(), perm);
        let here = rest + seq![push_cmd_spec(contents[files.len() - 1], files.last())];
        match perm {
            Some(p) => here + seq![chmod_cmd_spec(p, files.last())],
            None => here,
        }
    }
}

/// Plans one keys install from the local files' contents, one entry per
/// declared file (the surrounding binary reads them, tilde-expanded).
pub fn on_install(opt: &KeysOptions, contents: &Vec<String>) -> (r: Vec<String>)
    requires
        contents@.len() == opt.sync@.len(),
    ensures
        r.deep_view() == keys_install_spec(
            opt.sync.deep_view(),
            contents.deep_view(),
            opt.perm.deep_view(),
        ),
{
    let ghost files = opt.sync.deep_view();
    let ghost cv = contents.deep_view();
    let mut r: Vec<String> = Vec::new();
    let mut i: usize = 0;
    while i < opt.sync.len()
        invariant
            i <= opt.sync@.len(),
            files == opt.sync.deep_view(),
            cv == contents.deep_view(),
            files.len() == opt.sync@.len(),
            cv.len() == opt.sync@.len(),
            contents@.len() == opt.sync@.len(),
            r.deep_view() == keys_install_spec(
                files.subrange(0, i as int),
                cv.subrange(0, i as int),
                opt.perm.deep_view(),
            ),
        decreases opt.sync@.len() - i,
    {
        let mut c = "echo '".to_owned();
        c.append(contents[i].as_str());
        c.append("' > ");
        c.append(opt.sync[i].as_str());
        r.push(c);
        match &opt.perm {
            Some(p) => {
                let mut m = "chmod ".to_owned();
                m.append(p.as_str());
                m.append(" ");
                m.append(opt.sync[i].as_str());
                r.push(m);
            },
            None => {},
        }
        proof {
            let fpre = files.subrange(0, i + 1);
            let cpre = cv.subrange(0, i + 1);
            assert(fpre.drop_last() =~= files.subrange(0, i as int));
            assert(cpre.drop_last() =~= cv.subrange(0, i as int));
            assert(fpre.last() == files[i as int]);
            assert(cpre[fpre.len() - 1] == cv[i as int]);
            let rest = keys_install_spec(
                files.subrange(0, i as int),
                cv.subrange(0, i as int),
                opt.perm.deep_view(),
            );
            match opt.perm.deep_view() {
                Some(p) => {
                    assert(r.deep_view() =~= rest + seq![
                        push_cmd_spec(cv[i as int], files[i as int]),
                    ] + seq![chmod_cmd_spec(p, files[i as int])]);
                },
                None => {
                    assert(r.deep_view() =~= rest + seq![
                        push_cmd_spec(cv[i as int], files[i as int]),
                    ]);
                },
            }
        }
        i = i + 1;
    }
    proof {
        assert(files.subrange(0, files.len() as int) =~= files);
        assert(cv.subrange(0, cv.len() as int) =~= cv);
    }
    r
}

/// The existence probe for one synced file.
pub open spec fn file_probe_spec(file: Seq<char>) -> Seq<char> {
    "ls -1 "@ + file
}

/// One existence probe per declared file, in declared order.
pub open spec fn keys_probes(files: Seq<Seq<char>>) -> Seq<Seq<char>>
    decreases files.len(),
{
    if files.len() == 0 {
        Seq::empty()
    } else {
        keys_probes(files.drop_last()) + seq![file_probe_spec(files.last())]
    }
}

pub fn check_commands(opt: &KeysOptions) -> (r: Vec<String>)
    ensures
        r.deep_view() == keys_probes(opt.sync.deep_view()),
{
    let ghost files = opt.sync.deep_view();
    let mut r: Vec<String> = Vec::new();
    let mut i: usize = 0;
    while i < opt.sync.len()
        invariant
            i <= opt.sync@.len(),
            files == opt.sync.deep_view(),
            files.len() == opt.sync@.len(),
            r.deep_view() == keys_probes(files.subrange(0, i as int)),
        decreases opt.sync@.len() - i,
    {
        let mut c = "ls -1 ".to_owned();
        c.append(opt.sync[i].as_str());
        r.push(c);
        proof {
            let pre = files.subrange(0, i + 1);
            assert(pre.drop_last() =~= files.subrange(0, i as int));
            assert(pre.last() == files[i as int]);
            assert(r.deep_view() =~= keys_probes(files.subrange(0, i as int)) + seq![
                file_probe_spec(files[i as int]),
            ]);
        }
        i = i + 1;
    }
    proof {
        assert(files.subrange(0, files.len() as int) =~= files);
    }
    r
}

/// Folds the per-file probe outcomes into one status.
pub fn on_check(opt: &KeysOptions, outcomes: &Vec<CommandOutcome>) -> (r: Status)
    requires
        outcomes@.len() == opt.sync@.len(),
    ensures
        r@ == status_new_spec(
            probe_successes(opt.sync.deep_view(), outcome_exits(outcomes@)),
            probe_failures(opt.sync.deep_view(), outcome_exits(outcomes@)),
        ),
{
    probe_status(&opt.sync, outcomes)
}

} // verus!
