use provision::apt::{AptOptions, check_commands, install_error, on_check, on_install};
use provision::executor::{CommandOutcome, Error};
use provision::status::Status;

fn outcome(exit_status: u32, output: &str) -> CommandOutcome {
    CommandOutcome { exit_status, output: output.to_string() }
}

#[test]
fn install_updates_then_installs_all_packages_in_one_command() {
    let opt = AptOptions { install: vec!["curl".to_string(), "jq".to_string()] };
    assert_eq!(
        on_install(&opt),
        vec![
            "export DEBIAN_FRONTEND=noninteractive".to_string(),
            "sudo apt-get update 2>&1".to_string(),
            "sudo apt-get install -yq curl jq 2>&1".to_string(),
        ]
    );
}

#[test]
fn two_unable_to_locate_lines_become_one_consolidated_error() {
    let output = "Reading package lists...\n\
                  E: Unable to locate package foo\n\
                  E: Unable to locate package bar\n";
    match install_error(output) {
        Error::PackageNotFoundError { packages } => {
            assert_eq!(packages, vec!["foo".to_string(), "bar".to_string()]);
        }
        _ => panic!("expected PackageNotFoundError"),
    }
}

#[test]
fn consolidated_error_renders_both_package_names() {
    let output = "E: Unable to locate package foo\nE: Unable to locate package bar\n";
    let message = install_error(output).message();
    assert_eq!(message, "Unable to locate: foo, bar");
}

#[test]
fn other_install_failures_keep_the_raw_output() {
    let output = "E: Could not get lock /var/lib/dpkg/lock-frontend\n";
    match install_error(output) {
        Error::RemoteCommandError { output: kept } => {
            assert_eq!(kept, output);
        }
        _ => panic!("expected RemoteCommandError"),
    }
}

#[test]
fn check_issues_one_query_per_package() {
    let opt = AptOptions { install: vec!["curl".to_string(), "jq".to_string()] };
    assert_eq!(
        check_commands(&opt),
        vec![
            "sudo dpkg -s curl 2>&1".to_string(),
            "sudo dpkg -s jq 2>&1".to_string(),
        ]
    );
}

#[test]
fn check_requires_the_installed_marker() {
    let opt = AptOptions {
        install: vec!["curl".to_string(), "jq".to_string(), "gone".to_string()],
    };
    let outcomes = vec![
        outcome(0, "Package: curl\nStatus: install ok installed\n"),
        outcome(0, "Package: jq\nStatus: deinstall ok config-files\n"),
        outcome(1, "dpkg-query: package 'gone' is not installed\nUse dpkg --info\n"),
    ];
    match on_check(&opt, &outcomes) {
        Status::NotInstalled { success, fail } => {
            assert_eq!(success, vec!["curl ok".to_string()]);
            assert_eq!(
                fail,
                vec![
                    "jq missing".to_string(),
                    "package 'gone' is not installed".to_string(),
                ]
            );
        }
        Status::Installed { .. } => panic!("expected NotInstalled"),
    }
}
