//! The mkdir capability: create a batch of folders in one combined command,
//! set their ownership in a second, and probe each folder independently on
//! a check.

use vstd::prelude::*;
use crate::executor::CommandOutcome;
use crate::status::{Status, status_new_spec, probe_status, probe_successes, probe_failures, outcome_exits};
use crate::text;

verus! {

/// Desired state: the folders to create, whether to use sudo, and the
/// permission set on them (0777 when left out).
pub struct MkdirOptions {
    pub sudo: bool,
    pub folders: Vec<String>,
    pub perm: Option<String>,
}

impl MkdirOptions {
    /// World-writable folders created with sudo.
    pub fn writtable(input: Vec<String>) -> (r: MkdirOptions)
        ensures
            r.sudo == true,
            r.folders.deep_view() == input.deep_view(),
            r.perm.deep_view() == Some("0777"@),
    {
        MkdirOptions { sudo: true, folders: input, perm: Some("0777".to_owned()) }
    }
}

pub open spec fn sudo_prefix_spec(sudo: bool) -> Seq<char> {
    if sudo {
        "sudo "@
    } else {
        ""@
    }
}

/// The two install commands: one combined `mkdir -p` over the joined folder
/// list, then one combined ownership command over the same list.
pub open spec fn mkdir_install_spec(
    sudo: bool,
    folders: Seq<Seq<char>>,
    perm: Option<Seq<char>>,
) -> Seq<Seq<char>> {
    let list = text::join_seq(folders, " "@);
    let p = match perm {
        Some(p) => p,
        None => "0777"@,
    };
    seq![
        sudo_prefix_spec(sudo) + " mkdir -p "@ + list,
        sudo_prefix_spec(sudo) + " chown -R "@ + p + " "@ + list,
    ]
}

/// Plans one mkdir install.
pub fn on_install(opt: &MkdirOptions) -> (r: Vec<String>)
    ensures
        r.deep_view() == mkdir_install_spec(
            opt.sudo,
            opt.folders.deep_view(),
            opt.perm.deep_view(),
        ),
{
    let sudo_prefix = if opt.sudo {
        "sudo "
    } else {
        ""
    };
    let list = text::join_strings(&opt.folders, " ");
    let mut cmd1 = sudo_prefix.to_owned();
    cmd1.append(" mkdir -p ");
    cmd1.append(list.as_str());
    let mut cmd2 = sudo_prefix.to_owned();
    cmd2.append(" chown -R ");
    match &opt.perm {
        Some(p) => cmd2.append(p.as_str()),
        None => cmd2.append("0777"),
    }
    cmd2.append(" ");
    cmd2.append(list.as_str());
    let mut r: Vec<String> = Vec::new();
    r.push(cmd1);
    r.push(cmd2);
    proof {
        assert(r.deep_view() =~= mkdir_install_spec(
            opt.sudo,
            opt.folders.deep_view(),
            opt.perm.deep_view(),
        ));
    }
    r
}

/// The existence probe for one folder.
pub open spec fn folder_probe_spec(folder: Seq<char>) -> Seq<char> {
    "ls -d "@ + folder
}

/// One existence probe per folder, in declared order.
pub open spec fn mkdir_probes(folders: Seq<Seq<char>>) -> Seq<Seq<char>>
    decreases folders.len(),
{
    if folders.len() == 0 {
        Seq::empty()
    } else {
        mkdir_probes(folders.drop_last()) + seq![folder_probe_spec(folders.last())]
    }
}

/// One existence probe per folder, in declared order.
pub fn check_commands(opt: &MkdirOptions) -> (r: Vec<String>)
    ensures
        r.deep_view() == mkdir_probes(opt.folders.deep_view()),
{
    let ghost folders = opt.folders.deep_view();
    let mut r: Vec<String> = Vec::new();
    let mut i: usize = 0;
    while i < opt.folders.len()
        invariant
            i <= opt.folders@.len(),
            folders == opt.folders.deep_view(),
            folders.len() == opt.folders@.len(),
            r.deep_view() == mkdir_probes(folders.subrange(0, i as int)),
        decreases opt.folders@.len() - i,
    {
        let mut c = "ls -d ".to_owned();
        c.append(opt.folders[i].as_str());
        r.push(c);
        proof {
            let pre = folders.subrange(0, i + 1);
            assert(pre.drop_last() =~= folders.subrange(0, i as int));
            assert(pre.last() == folders[i as int]);
            assert(r.deep_view() =~= mkdir_probes(folders.subrange(0, i as int)) + seq![
                folder_probe_spec(folders[i as int]),
            ]);
        }
        i = i + 1;
    }
    proof {
        assert(folders.subrange(0, folders.len() as int) =~= folders);
    }
    r
}

/// Folds the per-folder probe outcomes into one status; each folder is
/// judged independently by its own probe's exit status.
pub fn on_check(opt: &MkdirOptions, outcomes: &Vec<CommandOutcome>) -> (r: Status)
    requires
        outcomes@.len() == opt.folders@.len(),
    ensures
        r@ == status_new_spec(
            probe_successes(opt.folders.deep_view(), outcome_exits(outcomes@)),
            probe_failures(opt.folders.deep_view(), outcome_exits(outcomes@)),
        ),
{
    probe_status(&opt.folders, outcomes)
}

} // verus!
