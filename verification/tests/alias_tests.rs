use base64::Engine;
use provision::alias::{on_check, on_install, probe_command};
use provision::executor::CommandOutcome;
use provision::status::Status;

fn outcome(exit_status: u32, output: &str) -> CommandOutcome {
    CommandOutcome { exit_status, output: output.to_string() }
}

#[test]
fn probe_greps_the_profile_for_the_name() {
    assert_eq!(probe_command("ll"), "cat ~/.bashrc | grep ll= 2>&1");
}

#[test]
fn existing_entry_is_skipped() {
    assert!(on_install("ll", "ls -alh", &outcome(0, "alias ll='ls -alh'")).is_none());
}

#[test]
fn absent_entry_gets_a_base64_append() {
    let cmd = on_install("x", "y", &outcome(1, "")).expect("append command");
    assert_eq!(cmd, "echo YWxpYXMgeD0neScK | base64 -d - >> ~/.bashrc");
}

#[test]
fn append_command_round_trips_through_base64() {
    let cmd = on_install("ll", "ls -alh", &outcome(1, "")).expect("append command");
    let encoded = base64::engine::general_purpose::STANDARD_NO_PAD
        .encode("alias ll='ls -alh'\n".as_bytes());
    assert_eq!(cmd, format!("echo {} | base64 -d - >> ~/.bashrc", encoded));
    let payload = cmd
        .strip_prefix("echo ")
        .and_then(|rest| rest.strip_suffix(" | base64 -d - >> ~/.bashrc"))
        .expect("payload");
    let decoded = base64::engine::general_purpose::STANDARD_NO_PAD
        .decode(payload)
        .expect("valid base64");
    assert_eq!(decoded, "alias ll='ls -alh'\n".as_bytes());
}

#[test]
fn check_reports_the_probe_output() {
    match on_check("ll", &outcome(0, "alias ll='ls -alh'")) {
        Status::Installed { success } => {
            assert_eq!(success, vec!["alias ll='ls -alh'".to_string()]);
        }
        Status::NotInstalled { .. } => panic!("expected Installed"),
    }
    match on_check("ll", &outcome(1, "alias: nothing")) {
        Status::NotInstalled { success, fail } => {
            assert!(success.is_empty());
            assert_eq!(fail, vec!["nothing".to_string()]);
        }
        Status::Installed { .. } => panic!("expected NotInstalled"),
    }
}
