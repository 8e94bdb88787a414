//! The terraform capability: the same one-time signing-key / package-source
//! pattern as docker, scaled down to one vendor, with an unconditional key
//! fingerprint verification.

use vstd::prelude::*;
use crate::docker::{cond_cmds, cond_line};
use crate::executor::{CommandOutcome, CommandOutcomeView};
use crate::status::{Status, StatusView, status_new_spec};
use crate::text;

verus! {

/// The capability takes no options.
pub struct TerraformOptions {}

/// The facts one install or check run observes: the two one-time file
/// gates and the binary's version probe.  Gathering them mutates nothing.
pub struct TerraformFacts {
    pub gpg_key_exists: bool,
    pub sources_list_exists: bool,
    pub version: CommandOutcome,
}

/// The one-time package-source setup, parameterized by the release
/// codename the remote host reported.
pub open spec fn sources_cmd_spec(codename: Seq<char>) -> Seq<char> {
    "echo \"deb [signed-by=/usr/share/keyrings/hashicorp-archive-keyring.gpg] https://apt.releases.hashicorp.com "@
        + codename
        + " main\" | sudo tee /etc/apt/sources.list.d/hashicorp.list > /dev/null"@
}

/// The full install plan: the conditional one-time key setup, the
/// unconditional fingerprint verification, the conditional source setup,
/// the index update, and the package install only when the binary is
/// absent.
pub open spec fn terraform_install_spec(
    gpg_key_exists: bool,
    sources_list_exists: bool,
    codename: Seq<char>,
    terraform_present: bool,
) -> Seq<Seq<char>> {
    cond_cmds(
        !gpg_key_exists,
        seq![
            "sudo mkdir -m 0755 -p /etc/apt/share/keyrings"@,
            "wget -O- https://apt.releases.hashicorp.com/gpg | sudo gpg --dearmor -o /usr/share/keyrings/hashicorp-archive-keyring.gpg"@,
        ],
    )
        + seq![
        "gpg --no-default-keyring --keyring /usr/share/keyrings/hashicorp-archive-keyring.gpg --fingerprint"@,
    ] + cond_cmds(!sources_list_exists, seq![sources_cmd_spec(codename)]) + seq![
        "export DEBIAN_FRONTEND=noninteractive"@,
        "sudo apt-get update 2>&1"@,
    ] + cond_cmds(!terraform_present, seq!["sudo apt-get install -y terraform 2>&1"@])
}

/// Whether planning the install first needs the remote release codename
/// (the read-only `lsb_release -cs` call).
pub fn needs_codename(facts: &TerraformFacts) -> (r: bool)
    ensures
        r == !facts.sources_list_exists,
{
    !facts.sources_list_exists
}

/// The read-only codename query.
pub fn lsb_release_cmd() -> (r: String)
    ensures
        r@ == "lsb_release -cs"@,
{
    "lsb_release -cs".to_owned()
}

/// The codename a `lsb_release -cs` report denotes: the first line of the
/// trimmed output.
pub fn codename_of(output: &str) -> (r: String)
    ensures
        r@ == text::first_line_seq(text::trim_seq(output@)),
{
    let t = text::trim_of(output);
    text::first_line_of(t.as_str())
}

/// The binary's presence probe.
pub fn version_probe_cmd() -> (r: String)
    ensures
        r@ == "terraform --version 2>&1"@,
{
    "terraform --version 2>&1".to_owned()
}

/// Plans one terraform install from the observed facts; the codename is
/// only consulted when the package source is still to be written.
pub fn on_install(
    _opt: &TerraformOptions,
    facts: &TerraformFacts,
    codename: Option<&String>,
) -> (r: Vec<String>)
    requires
        facts.sources_list_exists || codename matches Some(_),
    ensures
        r.deep_view() == terraform_install_spec(
            facts.gpg_key_exists,
            facts.sources_list_exists,
            match codename {
                Some(c) => c@,
                None => Seq::empty(),
            },
            facts.version.exit_status == 0,
        ),
{
    let mut cmds: Vec<String> = Vec::new();
    if !facts.gpg_key_exists {
        cmds.push("sudo mkdir -m 0755 -p /etc/apt/share/keyrings".to_owned());
        cmds.push(
            "wget -O- https://apt.releases.hashicorp.com/gpg | sudo gpg --dearmor -o /usr/share/keyrings/hashicorp-archive-keyring.gpg".to_owned(),
        );
    }
    cmds.push(
        "gpg --no-default-keyring --keyring /usr/share/keyrings/hashicorp-archive-keyring.gpg --fingerprint".to_owned(),
    );
    if !facts.sources_list_exists {
        match codename {
            Some(c) => {
                let mut src =
                    "echo \"deb [signed-by=/usr/share/keyrings/hashicorp-archive-keyring.gpg] https://apt.releases.hashicorp.com ".to_owned();
                src.append(c.as_str());
                src.append(
                    " main\" | sudo tee /etc/apt/sources.list.d/hashicorp.list > /dev/null",
                );
                cmds.push(src);
            },
            None => {},
        }
    }
    cmds.push("export DEBIAN_FRONTEND=noninteractive".to_owned());
    cmds.push("sudo apt-get update 2>&1".to_owned());
    if facts.version.exit_status != 0 {
        cmds.push("sudo apt-get install -y terraform 2>&1".to_owned());
    }
    proof {
        assert(cmds.deep_view() =~= terraform_install_spec(
            facts.gpg_key_exists,
            facts.sources_list_exists,
            match codename {
                Some(c) => c@,
                None => Seq::empty(),
            },
            facts.version.exit_status == 0,
        ));
    }
    cmds
}

/// What one terraform check reports: the binary (its version's first line
/// as evidence), the signing key, and the package source.
pub open spec fn terraform_check_spec(
    version: CommandOutcomeView,
    gpg_key_exists: bool,
    sources_list_exists: bool,
) -> StatusView {
    let successes = cond_line(version.exit_status == 0, text::first_line_seq(version.output))
        + cond_line(gpg_key_exists, "gpg key ok"@) + cond_line(
        sources_list_exists,
        "sources list ok"@,
    );
    let fails = cond_line(version.exit_status != 0, version.output) + cond_line(
        !gpg_key_exists,
        "missing gpg key"@,
    ) + cond_line(!sources_list_exists, "missing /etc/apt/sources.list.d/hashicorp.list"@);
    status_new_spec(successes, fails)
}

/// Folds the observed facts into one check status.
pub fn on_check(_opt: &TerraformOptions, facts: &TerraformFacts) -> (r: Status)
    ensures
        r@ == terraform_check_spec(
            facts.version@,
            facts.gpg_key_exists,
            facts.sources_list_exists,
        ),
{
    let mut success: Vec<String> = Vec::new();
    let mut fail: Vec<String> = Vec::new();
    if facts.version.exit_status == 0 {
        success.push(text::first_line_of(facts.version.output.as_str()));
    } else {
        fail.push(facts.version.output.clone());
    }
    if facts.gpg_key_exists {
        success.push("gpg key ok".to_owned());
    } else {
        fail.push("missing gpg key".to_owned());
    }
    if facts.sources_list_exists {
        success.push("sources list ok".to_owned());
    } else {
        fail.push("missing /etc/apt/sources.list.d/hashicorp.list".to_owned());
    }
    proof {
        assert(success.deep_view() =~= cond_line(
            facts.version@.exit_status == 0,
            text::first_line_seq(facts.version@.output),
        ) + cond_line(facts.gpg_key_exists, "gpg key ok"@) + cond_line(
            facts.sources_list_exists,
            "sources list ok"@,
        ));
        assert(fail.deep_view() =~= cond_line(
            facts.version@.exit_status != 0,
            facts.version@.output,
        ) + cond_line(!facts.gpg_key_exists, "missing gpg key"@) + cond_line(
            !facts.sources_list_exists,
            "missing /etc/apt/sources.list.d/hashicorp.list"@,
        ));
    }
    Status::new(success, fail)
}

} // verus!
