//! The alias capability: append one shell alias per declared name/value
//! pair to the shell profile, skipping a name that already has an entry.
//! The appended line travels base64-encoded to stay clear of shell
//! escaping.

use vstd::prelude::*;
use base64::Engine;
use crate::executor::{CommandOutcome, CommandOutcomeView};
use crate::status::{Status, StatusView, status_new_spec};
use crate::text;

verus! {

/// What base64's standard-alphabet unpadded engine produces from the UTF-8
/// bytes of a string: a function of the characters alone.
pub uninterp spec fn base64_std_no_pad(s: Seq<char>) -> Seq<char>;

/// Relies on base64's `STANDARD_NO_PAD` engine over the string's UTF-8
/// bytes; an empty input encodes to an empty output.
#[verifier::external_body]
fn encode_no_pad(s: &str) -> (r: String)
    ensures
        r@ == base64_std_no_pad(s@),
        s@.len() == 0 ==> r@.len() == 0,
{
    base64::engine::general_purpose::STANDARD_NO_PAD.encode(s.as_bytes())
}

/// The probe that looks for an existing profile entry of this name.
pub open spec fn alias_probe_spec(key: Seq<char>) -> Seq<char> {
    "cat ~/.bashrc | grep "@ + key + "= 2>&1"@
}

pub fn probe_command(key: &str) -> (r: String)
    ensures
        r@ == alias_probe_spec(key@),
{
    let mut c = "cat ~/.bashrc | grep ".to_owned();
    c.append(key);
    c.append("= 2>&1");
    c
}

/// The alias definition line appended to the profile.
pub open spec fn alias_line_spec(key: Seq<char>, value: Seq<char>) -> Seq<char> {
    "alias "@ + key + "='"@ + value + "'\n"@
}

/// The append command: the encoded line decoded back on the remote side.
pub open spec fn alias_append_cmd_spec(key: Seq<char>, value: Seq<char>) -> Seq<char> {
    "echo "@ + base64_std_no_pad(alias_line_spec(key, value)) + " | base64 -d - >> ~/.bashrc"@
}

/// Decides one alias install from the probe's outcome: nothing when an
/// entry for the name already exists, else the append command.
pub fn on_install(key: &str, value: &str, probe: &CommandOutcome) -> (r: Option<String>)
    ensures
        probe.exit_status == 0 ==> r is None,
        probe.exit_status != 0 ==> (r matches Some(c) && c@ == alias_append_cmd_spec(
            key@,
            value@,
        )),
{
    if probe.exit_status == 0 {
        None
    } else {
        let mut line = "alias ".to_owned();
        line.append(key);
        line.append("='");
        line.append(value);
        line.append("'\n");
        let encoded = encode_no_pad(line.as_str());
        let mut c = "echo ".to_owned();
        c.append(encoded.as_str());
        c.append(" | base64 -d - >> ~/.bashrc");
        Some(c)
    }
}

/// What one alias check reports: the probe's output as evidence when an
/// entry exists, else the output (its grep prefix stripped) as the gap.
pub open spec fn alias_check_spec(probe: CommandOutcomeView) -> StatusView {
    if probe.exit_status == 0 {
        status_new_spec(seq![probe.output], Seq::empty())
    } else {
        status_new_spec(
            Seq::empty(),
            seq![text::replace_seq(probe.output, "alias: "@, ""@)],
        )
    }
}

/// Classifies one alias entry from the probe's outcome.
pub fn on_check(key: &str, probe: &CommandOutcome) -> (r: Status)
    ensures
        r@ == alias_check_spec(probe@),
{
    let mut success: Vec<String> = Vec::new();
    let mut fail: Vec<String> = Vec::new();
    if probe.exit_status == 0 {
        success.push(probe.output.clone());
        proof {
            assert(success.deep_view() =~= seq![probe.output@]);
            assert(fail.deep_view() =~= Seq::<Seq<char>>::empty());
        }
    } else {
        fail.push(text::replace_str(probe.output.as_str(), "alias: ", ""));
        proof {
            assert(success.deep_view() =~= Seq::<Seq<char>>::empty());
            assert(fail.deep_view() =~= seq![
                text::replace_seq(probe.output@, "alias: "@, ""@),
            ]);
        }
    }
    Status::new(success, fail)
}

} // verus!
