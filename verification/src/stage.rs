//! The stage dispatcher's decision core: which capabilities a stage
//! activates, in one fixed declared order for installs and checks alike,
//! and the report lines the dispatcher prints for each outcome.

use vstd::prelude::*;
use crate::apt::AptOptions;
use crate::aws::AwsOptions;
use crate::docker::DockerOptions;
use crate::git::GitOptions;
use crate::keys::KeysOptions;
use crate::mkdir::MkdirOptions;
use crate::mount::MountOptions;
use crate::terraform::TerraformOptions;

verus! {

/// One named stage of the configuration: the subset of present entries is
/// the activated capabilities.
pub struct Stage {
    pub mount: Option<MountOptions>,
    pub mkdir: Option<MkdirOptions>,
    pub apt: Option<AptOptions>,
    pub keys: Option<KeysOptions>,
    pub git: Option<GitOptions>,
    pub aws: Option<AwsOptions>,
    pub docker: Option<DockerOptions>,
    pub terraform: Option<TerraformOptions>,
}

/// The closed set of capabilities a stage can activate.
#[derive(Clone, Copy, PartialEq, Eq, Structural, Debug)]
pub enum CapabilityKind {
    Mount,
    Mkdir,
    Keys,
    Git,
    Apt,
    Docker,
    Terraform,
    Aws,
}

pub open spec fn opt_kind(activated: bool, k: CapabilityKind) -> Seq<CapabilityKind> {
    if activated {
        seq![k]
    } else {
        Seq::empty()
    }
}

/// The fixed declared order over the activated capabilities — mount,
/// mkdir, keys, git, apt, docker, terraform, aws — governing installs and
/// checks alike.
pub open spec fn activation_order_spec(s: Stage) -> Seq<CapabilityKind> {
    opt_kind(s.mount is Some, CapabilityKind::Mount) + opt_kind(
        s.mkdir is Some,
        CapabilityKind::Mkdir,
    ) + opt_kind(s.keys is Some, CapabilityKind::Keys) + opt_kind(
        s.git is Some,
        CapabilityKind::Git,
    ) + opt_kind(s.apt is Some, CapabilityKind::Apt) + opt_kind(
        s.docker is Some,
        CapabilityKind::Docker,
    ) + opt_kind(s.terraform is Some, CapabilityKind::Terraform) + opt_kind(
        s.aws is Some,
        CapabilityKind::Aws,
    )
}

/// The activated capabilities in the declared order, for an install pass.
#[verifier::rlimit(60)]
pub fn install_order(s: &Stage) -> (r: Vec<CapabilityKind>)
    ensures
        r@ == activation_order_spec(*s),
{
    let mut r: Vec<CapabilityKind> = Vec::new();
    if s.mount.is_some() {
        r.push(CapabilityKind::Mount);
    }
    proof {
        assert(r@ =~= opt_kind(s.mount is Some, CapabilityKind::Mount));
    }
    if s.mkdir.is_some() {
        r.push(CapabilityKind::Mkdir);
    }
    let ghost p2 = opt_kind(s.mount is Some, CapabilityKind::Mount) + opt_kind(
        s.mkdir is Some,
        CapabilityKind::Mkdir,
    );
    proof {
        assert(r@ =~= p2);
    }
    if s.keys.is_some() {
        r.push(CapabilityKind::Keys);
    }
    let ghost p3 = p2 + opt_kind(s.keys is Some, CapabilityKind::Keys);
    proof {
        assert(r@ =~= p3);
    }
    if s.git.is_some() {
        r.push(CapabilityKind::Git);
    }
    let ghost p4 = p3 + opt_kind(s.git is Some, CapabilityKind::Git);
    proof {
        assert(r@ =~= p4);
    }
    if s.apt.is_some() {
        r.push(CapabilityKind::Apt);
    }
    let ghost p5 = p4 + opt_kind(s.apt is Some, CapabilityKind::Apt);
    proof {
        assert(r@ =~= p5);
    }
    if s.docker.is_some() {
        r.push(CapabilityKind::Docker);
    }
    let ghost p6 = p5 + opt_kind(s.docker is Some, CapabilityKind::Docker);
    proof {
        assert(r@ =~= p6);
    }
    if s.terraform.is_some() {
        r.push(CapabilityKind::Terraform);
    }
    let ghost p7 = p6 + opt_kind(s.terraform is Some, CapabilityKind::Terraform);
    proof {
        assert(r@ =~= p7);
    }
    if s.aws.is_some() {
        r.push(CapabilityKind::Aws);
    }
    proof {
        assert(r@ =~= p7 + opt_kind(s.aws is Some, CapabilityKind::Aws));
        assert(r@ =~= activation_order_spec(*s));
    }
    r
}

/// The activated capabilities in the same declared order, for a check
/// pass.
pub fn check_order(s: &Stage) -> (r: Vec<CapabilityKind>)
    ensures
        r@ == activation_order_spec(*s),
{
    install_order(s)
}

pub open spec fn alias_spec(k: CapabilityKind) -> Seq<char> {
    match k {
        CapabilityKind::Mount => "mount"@,
        CapabilityKind::Mkdir => "mkdir"@,
        CapabilityKind::Keys => "keys"@,
        CapabilityKind::Git => "git"@,
        CapabilityKind::Apt => "apt"@,
        CapabilityKind::Docker => "docker"@,
        CapabilityKind::Terraform => "terraform"@,
        CapabilityKind::Aws => "aws"@,
    }
}

/// The name a capability is reported under.
pub fn alias_of(k: CapabilityKind) -> (r: &'static str)
    ensures
        r@ == alias_spec(k),
{
    match k {
        CapabilityKind::Mount => "mount",
        CapabilityKind::Mkdir => "mkdir",
        CapabilityKind::Keys => "keys",
        CapabilityKind::Git => "git",
        CapabilityKind::Apt => "apt",
        CapabilityKind::Docker => "docker",
        CapabilityKind::Terraform => "terraform",
        CapabilityKind::Aws => "aws",
    }
}

/// The stage header the dispatcher prints.
pub fn header_line(name: &str) -> (r: String)
    ensures
        r@ == "= "@ + name@,
{
    let mut s = "= ".to_owned();
    s.append(name);
    s
}

/// The line printed for a succeeded install.
pub fn ok_line(alias: &str) -> (r: String)
    ensures
        r@ == "+ "@ + alias@ + ": OK"@,
{
    let mut s = "+ ".to_owned();
    s.append(alias);
    s.append(": OK");
    s
}

/// The line printed for a failed install or check.
pub fn failure_line(alias: &str, message: &str) -> (r: String)
    ensures
        r@ == "- "@ + alias@ + ": FAILURE "@ + message@,
{
    let mut s = "- ".to_owned();
    s.append(alias);
    s.append(": FAILURE ");
    s.append(message);
    s
}

} // verus!
