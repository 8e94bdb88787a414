//! The git capability: clone a repository to a declared path unless it
//! already exists, creating the parent folder first — unless the parent is
//! the home directory, in which case a relative destination is used.
//! Trailing separators on the destination are ignored.

use vstd::prelude::*;
use crate::status::{Status, StatusView, status_new_spec};
use crate::text;

verus! {

/// Desired state: the destination path and the clone URL.
pub struct GitOptions {
    pub to: String,
    pub clone: String,
}

/// The final path component: trailing separators stripped, then everything
/// after the last separator, or the whole path when it has none.
pub open spec fn base_name_spec(to: Seq<char>) -> Seq<char> {
    let t = text::trim_end_matches_seq(to, '/');
    let i = text::last_index_of(t, '/');
    if i == -1 {
        t
    } else {
        t.skip(i + 1)
    }
}

/// Everything before the last separator, trailing separators stripped
/// first: the root for a top-level path, empty for a path without a
/// separator.
pub open spec fn parent_spec(to: Seq<char>) -> Seq<char> {
    let t = text::trim_end_matches_seq(to, '/');
    let i = text::last_index_of(t, '/');
    if i == -1 {
        Seq::empty()
    } else if i == 0 {
        "/"@
    } else {
        t.take(i)
    }
}

/// The clone command: host-key checking disabled, interactive prompts
/// disabled.
pub open spec fn clone_cmd_spec(clone: Seq<char>, dest: Seq<char>) -> Seq<char> {
    "GIT_SSH_COMMAND=\"ssh -o UserKnownHostsFile=/dev/null -o StrictHostKeyChecking=no\" GIT_TERMINAL_PROMPT=0 git clone "@
        + clone + " "@ + dest + " 2>&1"@
}

/// The install commands: nothing when the destination already exists; else
/// create the parent and clone into the full path, or — when the parent is
/// the home directory — clone into the bare name relative to it.
pub open spec fn git_install_spec(
    to: Seq<char>,
    clone: Seq<char>,
    target_exists: bool,
    home: Seq<char>,
) -> Seq<Seq<char>> {
    if target_exists {
        Seq::empty()
    } else {
        let parent = parent_spec(to);
        let base = base_name_spec(to);
        if parent == home {
            seq![clone_cmd_spec(clone, base)]
        } else {
            seq![
                "mkdir -p "@ + parent + " 2>&1"@,
                clone_cmd_spec(clone, parent + "/"@ + base),
            ]
        }
    }
}

fn clone_cmd(clone: &str, dest: &str) -> (r: String)
    ensures
        r@ == clone_cmd_spec(clone@, dest@),
{
    let mut c =
        "GIT_SSH_COMMAND=\"ssh -o UserKnownHostsFile=/dev/null -o StrictHostKeyChecking=no\" GIT_TERMINAL_PROMPT=0 git clone ".to_owned();
    c.append(clone);
    c.append(" ");
    c.append(dest);
    c.append(" 2>&1");
    proof {
        assert(c@ =~= clone_cmd_spec(clone@, dest@));
    }
    c
}

/// Plans one git install from the destination's presence and the local
/// home directory.
pub fn on_install(opt: &GitOptions, target_exists: bool, home_dir: &str) -> (r: Vec<String>)
    ensures
        r.deep_view() == git_install_spec(opt.to@, opt.clone@, target_exists, home_dir@),
{
    let mut r: Vec<String> = Vec::new();
    if target_exists {
        proof {
            assert(r.deep_view() =~= Seq::<Seq<char>>::empty());
        }
        return r;
    }
    let t = text::trim_end_matches_char(opt.to.as_str(), '/');
    let n = t.unicode_len();
    let base_name: String;
    let parent: String;
    match text::rfind_char(t, '/') {
        None => {
            base_name = t.to_owned();
            parent = String::new();
            proof {
                assert(base_name@ =~= base_name_spec(opt.to@));
            }
        },
        Some(i) => {
            proof {
                text::lemma_last_index_of(t@, '/');
            }
            base_name = t.substring_char(i + 1, n).to_owned();
            if i == 0 {
                parent = "/".to_owned();
            } else {
                parent = t.substring_char(0, i).to_owned();
            }
            proof {
                assert(base_name@ =~= base_name_spec(opt.to@));
                assert(parent@ =~= parent_spec(opt.to@));
            }
        },
    }
    if text::str_eq(parent.as_str(), home_dir) {
        r.push(clone_cmd(opt.clone.as_str(), base_name.as_str()));
        proof {
            assert(r.deep_view() =~= seq![clone_cmd_spec(opt.clone@, base_name_spec(opt.to@))]);
        }
    } else {
        let mut mk = "mkdir -p ".to_owned();
        mk.append(parent.as_str());
        mk.append(" 2>&1");
        let mut dest = parent.clone();
        dest.append("/");
        dest.append(base_name.as_str());
        r.push(mk);
        r.push(clone_cmd(opt.clone.as_str(), dest.as_str()));
        proof {
            assert(r.deep_view() =~= seq![
                "mkdir -p "@ + parent_spec(opt.to@) + " 2>&1"@,
                clone_cmd_spec(opt.clone@, parent_spec(opt.to@) + "/"@ + base_name_spec(opt.to@)),
            ]);
        }
    }
    r
}

/// The repository metadata marker probed on a check.
pub open spec fn git_config_path_spec(to: Seq<char>) -> Seq<char> {
    to + "/.git/config"@
}

pub fn git_config_path(to: &str) -> (r: String)
    ensures
        r@ == git_config_path_spec(to@),
{
    let mut s = to.to_owned();
    s.append("/.git/config");
    s
}

/// What one git check reports from the two existence probes: the target
/// path, and the repository metadata marker inside it.
pub open spec fn git_check_spec(
    to: Seq<char>,
    target_exists: bool,
    config_exists: bool,
) -> StatusView {
    if target_exists {
        if config_exists {
            status_new_spec(seq![to + " exists"@, to + " exists"@], Seq::empty())
        } else {
            status_new_spec(seq![to + " exists"@], seq![to + " missing"@])
        }
    } else {
        status_new_spec(Seq::empty(), seq![to + " missing"@])
    }
}

/// Classifies one git check from the two existence probes.  The metadata
/// probe only counts when the target itself exists.
pub fn on_check(opt: &GitOptions, target_exists: bool, config_exists: bool) -> (r: Status)
    ensures
        r@ == git_check_spec(opt.to@, target_exists, config_exists),
{
    let mut success: Vec<String> = Vec::new();
    let mut fail: Vec<String> = Vec::new();
    if target_exists {
        let mut e = opt.to.clone();
        e.append(" exists");
        success.push(e);
        if config_exists {
            let mut e2 = opt.to.clone();
            e2.append(" exists");
            success.push(e2);
        } else {
            let mut g = opt.to.clone();
            g.append(" missing");
            fail.push(g);
        }
    } else {
        let mut g = opt.to.clone();
        g.append(" missing");
        fail.push(g);
    }
    proof {
        if target_exists {
            if config_exists {
                assert(success.deep_view() =~= seq![opt.to@ + " exists"@, opt.to@ + " exists"@]);
                assert(fail.deep_view() =~= Seq::<Seq<char>>::empty());
            } else {
                assert(success.deep_view() =~= seq![opt.to@ + " exists"@]);
                assert(fail.deep_view() =~= seq![opt.to@ + " missing"@]);
            }
        } else {
            assert(success.deep_view() =~= Seq::<Seq<char>>::empty());
            assert(fail.deep_view() =~= seq![opt.to@ + " missing"@]);
        }
    }
    Status::new(success, fail)
}

} // verus!
