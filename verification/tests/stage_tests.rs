use provision::apt::AptOptions;
use provision::aws::AwsOptions;
use provision::cli::{Action, Opts};
use provision::config::{Config, Ssh};
use provision::docker::DockerOptions;
use provision::docker_stats::{
    DockerStatsOptions, check_cmd as stats_check_cmd, on_check as stats_check,
};
use provision::executor::{
    CommandOutcome, Error, Os, file_exists, file_exists_cmd, os_from_release, run_outcome,
    which_result,
};
use provision::mkdir::MkdirOptions;
use provision::mount::MountOptions;
use provision::node_exporter::{
    NodeExporterOptions, check_cmd as exporter_check_cmd, on_check as exporter_check,
};
use provision::stage::{
    CapabilityKind, Stage, alias_of, check_order, failure_line, header_line, install_order,
    ok_line,
};
use provision::status::Status;

fn outcome(exit_status: u32, output: &str) -> CommandOutcome {
    CommandOutcome { exit_status, output: output.to_string() }
}

fn empty_stage() -> Stage {
    Stage {
        mount: None,
        mkdir: None,
        apt: None,
        keys: None,
        git: None,
        aws: None,
        docker: None,
        terraform: None,
    }
}

#[test]
fn install_order_is_fixed_and_declared() {
    let mut stage = empty_stage();
    stage.aws = Some(AwsOptions { profile: None, rename: None });
    stage.mount = Some(MountOptions::new("/data"));
    stage.docker = Some(DockerOptions { path: None });
    stage.mkdir = Some(MkdirOptions { sudo: true, folders: vec![], perm: None });
    assert_eq!(
        install_order(&stage),
        vec![
            CapabilityKind::Mount,
            CapabilityKind::Mkdir,
            CapabilityKind::Docker,
            CapabilityKind::Aws,
        ]
    );
}

#[test]
fn check_order_follows_the_same_declared_order() {
    let mut stage = empty_stage();
    stage.apt = Some(AptOptions { install: vec![] });
    stage.keys = Some(provision::keys::KeysOptions { sync: vec![], perm: None });
    stage.git = Some(provision::git::GitOptions { to: String::new(), clone: String::new() });
    assert_eq!(
        check_order(&stage),
        vec![CapabilityKind::Keys, CapabilityKind::Git, CapabilityKind::Apt]
    );
    assert_eq!(check_order(&stage), install_order(&stage));
    assert_eq!(alias_of(CapabilityKind::Terraform), "terraform");
}

#[test]
fn mkdir_stage_drives_install_and_check_end_to_end() {
    let mut stage = empty_stage();
    stage.mkdir = Some(MkdirOptions {
        sudo: true,
        folders: vec!["/data/a".to_string(), "/data/b".to_string()],
        perm: Some("0777".to_string()),
    });
    assert_eq!(install_order(&stage), vec![CapabilityKind::Mkdir]);
    let opt = stage.mkdir.as_ref().unwrap();
    assert_eq!(
        provision::mkdir::on_install(opt),
        vec![
            "sudo  mkdir -p /data/a /data/b".to_string(),
            "sudo  chown -R 0777 /data/a /data/b".to_string(),
        ]
    );
    assert_eq!(check_order(&stage), vec![CapabilityKind::Mkdir]);
    let probes = provision::mkdir::check_commands(opt);
    assert_eq!(probes.len(), 2);
    let outcomes = vec![outcome(1, ""), outcome(0, "/data/b")];
    match provision::mkdir::on_check(opt, &outcomes) {
        Status::NotInstalled { success, fail } => {
            assert_eq!(success, vec!["/data/b found".to_string()]);
            assert_eq!(fail, vec!["/data/a missing".to_string()]);
        }
        Status::Installed { .. } => panic!("expected NotInstalled"),
    }
}

#[test]
fn report_lines_follow_the_dispatcher_format() {
    assert_eq!(header_line("disk"), "= disk");
    assert_eq!(ok_line("mount"), "+ mount: OK");
    assert_eq!(
        failure_line("apt", "Unable to locate: foo"),
        "- apt: FAILURE Unable to locate: foo"
    );
}

#[test]
fn into_ssh_drops_empty_entries_and_carries_no_password() {
    let opts = Opts {
        remote_host: "example.net".to_string(),
        remote_user: "".to_string(),
        remote_port: 0,
        remote_key_file: "~/.ssh/id_rsa".to_string(),
        action: Action::Check { file: "conf.toml".to_string(), stage: None },
        rust_log: None,
    };
    let ssh = opts.into_ssh();
    assert_eq!(ssh.remote_host, Some("example.net".to_string()));
    assert_eq!(ssh.remote_user, None);
    assert_eq!(ssh.remote_port, None);
    assert_eq!(ssh.remote_key_file, Some("~/.ssh/id_rsa".to_string()));
    assert_eq!(ssh.remote_password, None);
}

#[test]
fn config_finds_a_stage_by_name() {
    let config = Config {
        ssh: Some(Ssh {
            remote_host: None,
            remote_user: None,
            remote_port: Some(22),
            remote_password: None,
            remote_key_file: None,
        }),
        stages: vec![("disk".to_string(), empty_stage()), ("apps".to_string(), empty_stage())],
        aliases: None,
    };
    assert!(config.stage_named("disk").is_some());
    assert!(config.stage_named("apps").is_some());
    assert!(config.stage_named("missing").is_none());
}

#[test]
fn run_contract_fails_exactly_on_nonzero_exit() {
    match run_outcome(outcome(0, "fine")) {
        Ok(o) => assert_eq!(o.output, "fine"),
        Err(_) => panic!("expected Ok"),
    }
    match run_outcome(outcome(127, "sh: not found")) {
        Err(Error::RemoteCommandError { output }) => assert_eq!(output, "sh: not found"),
        _ => panic!("expected RemoteCommandError"),
    }
}

#[test]
fn probe_helpers_interpret_outcomes() {
    assert_eq!(file_exists_cmd("/etc/docker"), "test -e /etc/docker 2>&1");
    assert!(file_exists(&outcome(0, "")));
    assert!(!file_exists(&outcome(1, "")));
    assert_eq!(which_result(outcome(0, "found")), Ok("found".to_string()));
    assert_eq!(which_result(outcome(1, "nope")), Err("nope".to_string()));
}

#[test]
fn os_detection_reads_the_id_line() {
    assert_eq!(os_from_release("NAME=\"Debian\"\nID=debian\n"), Os::Debian);
    assert_eq!(
        os_from_release("NAME=\"Ubuntu\"\nID=ubuntu\nID_LIKE=debian\n"),
        Os::Ubuntu
    );
    assert_eq!(os_from_release("ID=alpine\n"), Os::Unsupported);
}

#[test]
fn exporter_checks_judge_the_probe_output() {
    assert_eq!(
        exporter_check_cmd(),
        "docker ps --filter=name=node-exporter --format '{{.ID}}'"
    );
    match exporter_check(&NodeExporterOptions {}, &outcome(0, "abc123\n")) {
        Status::Installed { success } => {
            assert_eq!(success, vec!["node-exporter is abc123".to_string()]);
        }
        Status::NotInstalled { .. } => panic!("expected Installed"),
    }
    assert_eq!(
        stats_check_cmd(),
        "docker ps --filter=name=docker-stats --format '{{.ID}}'"
    );
    match stats_check(&DockerStatsOptions {}, &outcome(0, "")) {
        Status::NotInstalled { fail, .. } => {
            assert_eq!(fail, vec!["docker-stats is not running".to_string()]);
        }
        Status::Installed { .. } => panic!("expected NotInstalled"),
    }
}

#[test]
fn error_messages_render_like_the_dispatcher_expects() {
    assert_eq!(
        Error::NoEligibleDeviceError.message(),
        "failed to find target block device"
    );
    assert_eq!(Error::UnsupportedPlatformError.message(), "unsupported OS");
    assert_eq!(
        Error::RemoteCommandError { output: "boom".to_string() }.message(),
        "boom"
    );
}
