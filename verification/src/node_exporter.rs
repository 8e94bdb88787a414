//! The node-exporter capability: start the metrics container (fail-silent)
//! and check that a container of that name is running.

use vstd::prelude::*;
use crate::executor::{CommandOutcome, CommandOutcomeView};
use crate::status::{Status, StatusView, status_new_spec};
use crate::text;

verus! {

/// The capability takes no options.
pub struct NodeExporterOptions {}

/// The container start command, issued fail-silent: a non-zero exit (the
/// container already exists) is not an error.
pub fn install_cmd() -> (r: String)
    ensures
        r@
            == "docker run --name node-exporter --restart=always -d --net=\"host\" --pid=\"host\" -v \"/:/host:ro,rslave\" quay.io/prometheus/node-exporter:latest --path.rootfs=/host"@,
{
    "docker run --name node-exporter --restart=always -d --net=\"host\" --pid=\"host\" -v \"/:/host:ro,rslave\" quay.io/prometheus/node-exporter:latest --path.rootfs=/host".to_owned()
}

/// The running-container probe.
pub fn check_cmd() -> (r: String)
    ensures
        r@ == "docker ps --filter=name=node-exporter --format '{{.ID}}'"@,
{
    "docker ps --filter=name=node-exporter --format '{{.ID}}'".to_owned()
}

/// What the check reports: running under the trimmed container id, or not
/// running when the probe printed nothing.
pub open spec fn node_exporter_check_spec(probe: CommandOutcomeView) -> StatusView {
    if probe.output.len() == 0 {
        status_new_spec(Seq::empty(), seq!["node-exporter is not running"@])
    } else {
        status_new_spec(
            seq!["node-exporter is "@ + text::trim_seq(probe.output)],
            Seq::empty(),
        )
    }
}

/// Classifies the probe's outcome.
pub fn on_check(_opt: &NodeExporterOptions, probe: &CommandOutcome) -> (r: Status)
    ensures
        r@ == node_exporter_check_spec(probe@),
{
    let mut success: Vec<String> = Vec::new();
    let mut fail: Vec<String> = Vec::new();
    if probe.output.as_str().unicode_len() == 0 {
        fail.push("node-exporter is not running".to_owned());
        proof {
            assert(success.deep_view() =~= Seq::<Seq<char>>::empty());
            assert(fail.deep_view() =~= seq!["node-exporter is not running"@]);
        }
    } else {
        let mut line = "node-exporter is ".to_owned();
        line.append(text::trim_of(probe.output.as_str()).as_str());
        success.push(line);
        proof {
            assert(success.deep_view() =~= seq![
                "node-exporter is "@ + text::trim_seq(probe.output@),
            ]);
            assert(fail.deep_view() =~= Seq::<Seq<char>>::empty());
        }
    }
    Status::new(success, fail)
}

} // verus!
