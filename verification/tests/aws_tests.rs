use provision::aws::{
    AwsOptions, cli_install_commands, on_check, profile_commands, profile_probe_cmd,
    read_aws_profile_keys, read_aws_profile_region,
};
use provision::executor::{CommandOutcome, Error, MissingResourceKind};
use provision::status::Status;

const CREDENTIALS: &str = "# local credentials\n\
[default]\n\
aws_access_key_id = AKIADEFAULT\n\
aws_secret_access_key = defaultsecret\n\
\n\
[dev2@atlant]\n\
aws_access_key_id = AKIAEXAMPLE123\n\
aws_secret_access_key = abcdefghijklmnopqrstuvwxyz123\n";

const CONFIG: &str = "[profile default]\n\
region = us-east-1\n\
\n\
[profile dev2@atlant]\n\
output = json\n\
region = eu-central-1\n";

#[test]
pub fn it_reads_keys() {
    let (key, secret) = read_aws_profile_keys("dev2@atlant", CREDENTIALS).unwrap();
    assert!(key.len() > 10);
    assert!(secret.len() > 20);

    let region = read_aws_profile_region("dev2@atlant", CONFIG).unwrap();
    assert_eq!(region, "eu-central-1");
}

#[test]
fn keys_are_read_exactly() {
    let (key, secret) = read_aws_profile_keys("dev2@atlant", CREDENTIALS).unwrap();
    assert_eq!(key, "AKIAEXAMPLE123");
    assert_eq!(secret, "abcdefghijklmnopqrstuvwxyz123");
}

#[test]
fn missing_profile_section_is_its_own_error() {
    match read_aws_profile_keys("nobody", CREDENTIALS) {
        Err(Error::MissingLocalResourceError { kind, message }) => {
            assert_eq!(kind, MissingResourceKind::ProfileSection);
            assert_eq!(message, "profile nobody not found");
        }
        _ => panic!("expected MissingLocalResourceError"),
    }
    match read_aws_profile_region("nobody", CONFIG) {
        Err(Error::MissingLocalResourceError { kind, message }) => {
            assert_eq!(kind, MissingResourceKind::ProfileSection);
            assert_eq!(message, "profile nobody not found in ~/.aws/config");
        }
        _ => panic!("expected MissingLocalResourceError"),
    }
}

#[test]
fn missing_required_field_is_its_own_error() {
    let creds = "[p]\naws_access_key_id = AKIA\n";
    match read_aws_profile_keys("p", creds) {
        Err(Error::MissingLocalResourceError { kind, message }) => {
            assert_eq!(kind, MissingResourceKind::RequiredField);
            assert_eq!(message, "secret key not specified for p");
        }
        _ => panic!("expected MissingLocalResourceError"),
    }
    let config = "[profile p]\noutput = json\n";
    match read_aws_profile_region("p", config) {
        Err(Error::MissingLocalResourceError { kind, message }) => {
            assert_eq!(kind, MissingResourceKind::RequiredField);
            assert_eq!(message, "region not specified for p");
        }
        _ => panic!("expected MissingLocalResourceError"),
    }
}

#[test]
fn cli_download_is_gated_on_binary_presence() {
    assert!(cli_install_commands(true).is_empty());
    let cmds = cli_install_commands(false);
    assert_eq!(
        cmds,
        vec![
            "curl https://awscli.amazonaws.com/awscli-exe-linux-x86_64.zip -o awscliv2.zip 2>&1"
                .to_string(),
            "unzip -qo awscliv2.zip 2>&1".to_string(),
            "sudo ./aws/install 2>&1".to_string(),
            "rm -rf awscliv2.zip ./aws 2>&1".to_string(),
        ]
    );
}

#[test]
fn profile_push_renames_and_sets_three_values() {
    let opt = AwsOptions {
        profile: Some("dev2@atlant".to_string()),
        rename: Some("default".to_string()),
    };
    let cmds = profile_commands(
        &opt,
        Some(&CREDENTIALS.to_string()),
        Some(&CONFIG.to_string()),
    )
    .unwrap();
    assert_eq!(
        cmds,
        vec![
            "aws configure set aws_access_key_id AKIAEXAMPLE123 --profile default 2>&1"
                .to_string(),
            "aws configure set aws_secret_access_key abcdefghijklmnopqrstuvwxyz123 --profile default 2>&1"
                .to_string(),
            "aws configure set region eu-central-1 --profile default 2>&1".to_string(),
        ]
    );
}

#[test]
fn unreadable_credentials_file_is_its_own_error() {
    let opt = AwsOptions { profile: Some("p".to_string()), rename: None };
    match profile_commands(&opt, None, Some(&CONFIG.to_string())) {
        Err(Error::MissingLocalResourceError { kind, message }) => {
            assert_eq!(kind, MissingResourceKind::LocalFile);
            assert_eq!(message, "could not read ~/.aws/credentials");
        }
        _ => panic!("expected MissingLocalResourceError"),
    }
}

#[test]
fn no_declared_profile_plans_nothing() {
    let opt = AwsOptions { profile: None, rename: None };
    assert!(profile_commands(&opt, None, None).unwrap().is_empty());
    assert!(profile_probe_cmd(&opt).is_none());
}

#[test]
fn check_reports_binary_and_profile() {
    let opt = AwsOptions { profile: Some("p".to_string()), rename: None };
    assert_eq!(
        profile_probe_cmd(&opt),
        Some("aws configure --profile p list".to_string())
    );
    let version = CommandOutcome { exit_status: 0, output: "aws-cli/2.15.0".to_string() };
    let probe = CommandOutcome { exit_status: 1, output: "".to_string() };
    match on_check(&opt, &version, Some(&probe)) {
        Status::NotInstalled { success, fail } => {
            assert_eq!(success, vec!["aws-cli/2.15.0".to_string()]);
            assert_eq!(fail, vec!["profile p missing".to_string()]);
        }
        Status::Installed { .. } => panic!("expected NotInstalled"),
    }
}
