use provision::executor::CommandOutcome;
use provision::mkdir::{MkdirOptions, check_commands, on_check, on_install};
use provision::status::Status;

fn outcome(exit_status: u32, output: &str) -> CommandOutcome {
    CommandOutcome { exit_status, output: output.to_string() }
}

#[test]
fn install_issues_combined_mkdir_then_permission_command() {
    let opt = MkdirOptions {
        sudo: true,
        folders: vec!["/data/a".to_string(), "/data/b".to_string()],
        perm: Some("0777".to_string()),
    };
    assert_eq!(
        on_install(&opt),
        vec![
            "sudo  mkdir -p /data/a /data/b".to_string(),
            "sudo  chown -R 0777 /data/a /data/b".to_string(),
        ]
    );
}

#[test]
fn install_without_sudo_or_perm_uses_defaults() {
    let opt = MkdirOptions { sudo: false, folders: vec!["/tmp/x".to_string()], perm: None };
    assert_eq!(
        on_install(&opt),
        vec![" mkdir -p /tmp/x".to_string(), " chown -R 0777 /tmp/x".to_string()]
    );
}

#[test]
fn check_issues_one_existence_probe_per_folder() {
    let opt = MkdirOptions {
        sudo: true,
        folders: vec!["/data/a".to_string(), "/data/b".to_string()],
        perm: Some("0777".to_string()),
    };
    assert_eq!(
        check_commands(&opt),
        vec!["ls -d /data/a".to_string(), "ls -d /data/b".to_string()]
    );
}

#[test]
fn check_aggregates_each_folder_independently() {
    let opt = MkdirOptions {
        sudo: true,
        folders: vec!["/data/a".to_string(), "/data/b".to_string()],
        perm: Some("0777".to_string()),
    };
    let outcomes = vec![outcome(0, "/data/a"), outcome(2, "")];
    match on_check(&opt, &outcomes) {
        Status::NotInstalled { success, fail } => {
            assert_eq!(success, vec!["/data/a found".to_string()]);
            assert_eq!(fail, vec!["/data/b missing".to_string()]);
        }
        Status::Installed { .. } => panic!("expected NotInstalled"),
    }
}

#[test]
fn check_with_all_folders_present_is_satisfied() {
    let opt = MkdirOptions {
        sudo: true,
        folders: vec!["/data/a".to_string(), "/data/b".to_string()],
        perm: Some("0777".to_string()),
    };
    let outcomes = vec![outcome(0, "/data/a"), outcome(0, "/data/b")];
    match on_check(&opt, &outcomes) {
        Status::Installed { success } => {
            assert_eq!(
                success,
                vec!["/data/a found".to_string(), "/data/b found".to_string()]
            );
        }
        Status::NotInstalled { .. } => panic!("expected Installed"),
    }
}

#[test]
fn writtable_builds_sudo_world_writable_options() {
    let opt = MkdirOptions::writtable(vec!["/data/x".to_string(), "/data/y".to_string()]);
    assert!(opt.sudo);
    assert_eq!(opt.folders, vec!["/data/x".to_string(), "/data/y".to_string()]);
    assert_eq!(opt.perm, Some("0777".to_string()));
}
