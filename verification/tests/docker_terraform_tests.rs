use provision::docker::{
    DockerConfig, DockerFacts, DockerOptions, daemon_config_cmd, daemon_json, group_update_cmd,
    on_check as docker_check, on_install as docker_install,
};
use provision::executor::{CommandOutcome, Error, Os};
use provision::status::Status;
use provision::terraform::{
    TerraformFacts, TerraformOptions, codename_of, needs_codename, on_check as terraform_check,
    on_install as terraform_install,
};

fn outcome(exit_status: u32, output: &str) -> CommandOutcome {
    CommandOutcome { exit_status, output: output.to_string() }
}

fn docker_facts(os: Os, daemon: bool, gpg: bool, sources: bool, present: bool) -> DockerFacts {
    DockerFacts {
        os,
        daemon_config_exists: daemon,
        gpg_key_exists: gpg,
        sources_list_exists: sources,
        version: outcome(if present { 0 } else { 1 }, "Docker version 24.0"),
        group: outcome(0, ""),
    }
}

#[test]
fn docker_config_normalizes_the_data_root() {
    let cfg = DockerConfig::new("/data/");
    assert_eq!(cfg.data_root, "/data/docker");
    assert_eq!(cfg.log_driver, "json-file");
    assert_eq!(
        daemon_json(&cfg),
        "{\"data-root\":\"/data/docker\",\"log-driver\":\"json-file\"}"
    );
}

#[test]
fn daemon_config_write_embeds_the_quoted_json() {
    assert_eq!(
        daemon_config_cmd("/data"),
        "sudo bash -c 'echo \"{\\\"data-root\\\":\\\"/data/docker\\\",\\\"log-driver\\\":\\\"json-file\\\"}\" > /etc/docker/daemon.json'"
    );
}

#[test]
fn docker_install_on_unsupported_os_is_a_hard_failure() {
    let opt = DockerOptions { path: None };
    match docker_install(&opt, &docker_facts(Os::Unsupported, false, false, false, false)) {
        Err(Error::UnsupportedPlatformError) => {}
        _ => panic!("expected UnsupportedPlatformError"),
    }
}

#[test]
fn docker_install_skips_every_satisfied_gate() {
    let opt = DockerOptions { path: Some("/data".to_string()) };
    let plan = docker_install(&opt, &docker_facts(Os::Ubuntu, true, true, true, true)).unwrap();
    assert_eq!(
        plan,
        vec![
            "export DEBIAN_FRONTEND=noninteractive".to_string(),
            "sudo apt-get update 2>&1".to_string(),
        ]
    );
    assert_eq!(group_update_cmd(), "sudo usermod -aG docker $USER 2>&1");
}

#[test]
fn docker_install_on_a_fresh_debian_host_runs_every_step() {
    let opt = DockerOptions { path: Some("/data".to_string()) };
    let plan = docker_install(&opt, &docker_facts(Os::Debian, false, false, false, false)).unwrap();
    assert_eq!(plan.len(), 8);
    assert_eq!(plan[0], "sudo mkdir -p /etc/docker");
    assert_eq!(plan[1], daemon_config_cmd("/data"));
    assert_eq!(plan[2], "sudo mkdir -m 0755 -p /etc/apt/keyrings");
    assert_eq!(
        plan[3],
        "curl -fsSL https://download.docker.com/linux/debian/gpg | sudo gpg --dearmor -o /etc/apt/keyrings/docker.gpg"
    );
    assert_eq!(
        plan[4],
        "echo \"deb [arch=\"$(dpkg --print-architecture)\" signed-by=/etc/apt/keyrings/docker.gpg] https://download.docker.com/linux/debian \\\n               \"$(. /etc/os-release && echo \"$VERSION_CODENAME\")\" stable\" | sudo tee /etc/apt/sources.list.d/docker.list > /dev/null"
    );
    assert_eq!(plan[5], "export DEBIAN_FRONTEND=noninteractive");
    assert_eq!(plan[6], "sudo apt-get update 2>&1");
    assert_eq!(
        plan[7],
        "sudo apt-get install -y docker-ce docker-ce-cli containerd.io docker-buildx-plugin docker-compose-plugin 2>&1"
    );
}

#[test]
fn docker_check_folds_four_independent_facts() {
    let opt = DockerOptions { path: None };
    let mut facts = docker_facts(Os::Ubuntu, true, true, false, true);
    facts.group = outcome(0, "docker:x:999:user");
    match docker_check(&opt, &facts).unwrap() {
        Status::NotInstalled { success, fail } => {
            assert_eq!(
                success,
                vec![
                    "Docker version 24.0".to_string(),
                    "docker gpg key ok".to_string(),
                    "current user is in docker group".to_string(),
                ]
            );
            assert_eq!(
                fail,
                vec!["missing /etc/apt/sources.list.d/docker.list".to_string()]
            );
        }
        Status::Installed { .. } => panic!("expected NotInstalled"),
    }
}

#[test]
fn terraform_install_needs_the_codename_only_for_the_source() {
    let facts = TerraformFacts {
        gpg_key_exists: true,
        sources_list_exists: false,
        version: outcome(1, ""),
    };
    assert!(needs_codename(&facts));
    let codename = "bookworm".to_string();
    let plan = terraform_install(&TerraformOptions {}, &facts, Some(&codename));
    assert_eq!(
        plan,
        vec![
            "gpg --no-default-keyring --keyring /usr/share/keyrings/hashicorp-archive-keyring.gpg --fingerprint"
                .to_string(),
            "echo \"deb [signed-by=/usr/share/keyrings/hashicorp-archive-keyring.gpg] https://apt.releases.hashicorp.com bookworm main\" | sudo tee /etc/apt/sources.list.d/hashicorp.list > /dev/null"
                .to_string(),
            "export DEBIAN_FRONTEND=noninteractive".to_string(),
            "sudo apt-get update 2>&1".to_string(),
            "sudo apt-get install -y terraform 2>&1".to_string(),
        ]
    );
}

#[test]
fn terraform_install_on_a_satisfied_host_only_verifies_and_updates() {
    let facts = TerraformFacts {
        gpg_key_exists: true,
        sources_list_exists: true,
        version: outcome(0, "Terraform v1.7.0\non linux_amd64"),
    };
    assert!(!needs_codename(&facts));
    let plan = terraform_install(&TerraformOptions {}, &facts, None);
    assert_eq!(
        plan,
        vec![
            "gpg --no-default-keyring --keyring /usr/share/keyrings/hashicorp-archive-keyring.gpg --fingerprint"
                .to_string(),
            "export DEBIAN_FRONTEND=noninteractive".to_string(),
            "sudo apt-get update 2>&1".to_string(),
        ]
    );
}

#[test]
fn codename_is_the_first_line_of_the_trimmed_report() {
    assert_eq!(codename_of("  bookworm\n"), "bookworm");
    assert_eq!(codename_of("jammy\nnoise\n"), "jammy");
    assert_eq!(codename_of("\n"), "");
}

#[test]
fn terraform_check_reports_version_first_line_key_and_source() {
    let facts = TerraformFacts {
        gpg_key_exists: false,
        sources_list_exists: true,
        version: outcome(0, "Terraform v1.7.0\non linux_amd64"),
    };
    match terraform_check(&TerraformOptions {}, &facts) {
        Status::NotInstalled { success, fail } => {
            assert_eq!(
                success,
                vec!["Terraform v1.7.0".to_string(), "sources list ok".to_string()]
            );
            assert_eq!(fail, vec!["missing gpg key".to_string()]);
        }
        Status::Installed { .. } => panic!("expected NotInstalled"),
    }
}
