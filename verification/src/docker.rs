//! The docker capability: detect the OS family, write the daemon
//! configuration once, set up the signing key and package source once each,
//! install the engine only when its binary is absent, and always refresh
//! the group membership best-effort.

use vstd::prelude::*;
use crate::executor::{
    CommandOutcome, CommandOutcomeView, Error, ErrorView, Os, plan_result_view,
};
use crate::status::{Status, StatusView, status_new_spec};
use crate::text;

verus! {

/// Desired state: where the daemon keeps its data, if declared.
pub struct DockerOptions {
    pub path: Option<String>,
}

/// The daemon configuration written to the remote host.
pub struct DockerConfig {
    pub data_root: String,
    pub log_driver: String,
}

impl DockerConfig {
    /// The daemon's data root under the given path, logging to json files.
    pub fn new(data_root: &str) -> (r: DockerConfig)
        ensures
            r.data_root@ == text::trim_end_matches_seq(data_root@, '/') + "/docker"@,
            r.log_driver@ == "json-file"@,
    {
        let mut root = text::trim_end_matches_char(data_root, '/').to_owned();
        root.append("/docker");
        DockerConfig { data_root: root, log_driver: "json-file".to_owned() }
    }
}

pub open spec fn hex_digit_char(n: int) -> char {
    if n == 0 {
        '0'
    } else if n == 1 {
        '1'
    } else if n == 2 {
        '2'
    } else if n == 3 {
        '3'
    } else if n == 4 {
        '4'
    } else if n == 5 {
        '5'
    } else if n == 6 {
        '6'
    } else if n == 7 {
        '7'
    } else if n == 8 {
        '8'
    } else if n == 9 {
        '9'
    } else if n == 10 {
        'a'
    } else if n == 11 {
        'b'
    } else if n == 12 {
        'c'
    } else if n == 13 {
        'd'
    } else if n == 14 {
        'e'
    } else {
        'f'
    }
}

/// How one character appears inside a JSON string literal.
pub open spec fn json_escape_char(c: char) -> Seq<char> {
    if c == '"' {
        seq!['\\', '"']
    } else if c == '\\' {
        seq!['\\', '\\']
    } else if c == '\u{8}' {
        seq!['\\', 'b']
    } else if c == '\u{c}' {
        seq!['\\', 'f']
    } else if c == '\n' {
        seq!['\\', 'n']
    } else if c == '\r' {
        seq!['\\', 'r']
    } else if c == '\t' {
        seq!['\\', 't']
    } else if (c as u32) < 32 {
        seq!['\\', 'u', '0', '0'] + seq![
            hex_digit_char(c as u32 as int / 16),
            hex_digit_char(c as u32 as int % 16),
        ]
    } else {
        seq![c]
    }
}

/// A string's characters as they appear inside a JSON string literal.
pub open spec fn json_escape_seq(s: Seq<char>) -> Seq<char>
    decreases s.len(),
{
    if s.len() == 0 {
        Seq::empty()
    } else {
        json_escape_seq(s.drop_last()) + json_escape_char(s.last())
    }
}

fn hex_digit(n: u32) -> (r: char)
    requires
        n < 16,
    ensures
        r == hex_digit_char(n as int),
{
    if n == 0 {
        '0'
    } else if n == 1 {
        '1'
    } else if n == 2 {
        '2'
    } else if n == 3 {
        '3'
    } else if n == 4 {
        '4'
    } else if n == 5 {
        '5'
    } else if n == 6 {
        '6'
    } else if n == 7 {
        '7'
    } else if n == 8 {
        '8'
    } else if n == 9 {
        '9'
    } else if n == 10 {
        'a'
    } else if n == 11 {
        'b'
    } else if n == 12 {
        'c'
    } else if n == 13 {
        'd'
    } else if n == 14 {
        'e'
    } else {
        'f'
    }
}

/// Escapes a string for use inside a JSON string literal.
pub fn json_escape(s: &str) -> (r: String)
    ensures
        r@ == json_escape_seq(s@),
{
    let n = s.unicode_len();
    let mut out = String::new();
    let mut i: usize = 0;
    while i < n
        invariant
            i <= n,
            n == s@.len(),
            out@ == json_escape_seq(s@.subrange(0, i as int)),
        decreases n - i,
    {
        let c = s.get_char(i);
        if c == '"' {
            out.push('\\');
            out.push('"');
        } else if c == '\\' {
            out.push('\\');
            out.push('\\');
        } else if c == '\u{8}' {
            out.push('\\');
            out.push('b');
        } else if c == '\u{c}' {
            out.push('\\');
            out.push('f');
        } else if c == '\n' {
            out.push('\\');
            out.push('n');
        } else if c == '\r' {
            out.push('\\');
            out.push('r');
        } else if c == '\t' {
            out.push('\\');
            out.push('t');
        } else if (c as u32) < 32 {
            out.push('\\');
            out.push('u');
            out.push('0');
            out.push('0');
            out.push(hex_digit((c as u32) / 16));
            out.push(hex_digit((c as u32) % 16));
        } else {
            out.push(c);
        }
        proof {
            let pre = s@.subrange(0, i + 1);
            assert(pre.drop_last() =~= s@.subrange(0, i as int));
            assert(pre.last() == s@[i as int]);
            assert(out@ =~= json_escape_seq(s@.subrange(0, i as int)) + json_escape_char(
                s@[i as int],
            ));
        }
        i = i + 1;
    }
    proof {
        assert(s@.subrange(0, n as int) =~= s@);
    }
    out
}

/// The daemon configuration serialized as a JSON object, fields in
/// declaration order, no added whitespace.
pub open spec fn daemon_json_spec(data_root: Seq<char>, log_driver: Seq<char>) -> Seq<char> {
    "{\"data-root\":\""@ + json_escape_seq(data_root) + "\",\"log-driver\":\""@ + json_escape_seq(
        log_driver,
    ) + "\"}"@
}

/// Serializes the daemon configuration.
pub fn daemon_json(cfg: &DockerConfig) -> (r: String)
    ensures
        r@ == daemon_json_spec(cfg.data_root@, cfg.log_driver@),
{
    let mut out = "{\"data-root\":\"".to_owned();
    out.append(json_escape(cfg.data_root.as_str()).as_str());
    out.append("\",\"log-driver\":\"");
    out.append(json_escape(cfg.log_driver.as_str()).as_str());
    out.append("\"}");
    out
}

/// The one-time write of the daemon configuration: the serialized object
/// travels between escaped double quotes (debug-style quoting; the
/// serialized form holds no characters that quoting would miss when the
/// configured path is ordinary printable text).
pub open spec fn daemon_config_cmd_spec(data_root: Seq<char>) -> Seq<char> {
    "sudo bash -c 'echo "@ + text::quoted_spec(
        daemon_json_spec(text::trim_end_matches_seq(data_root, '/') + "/docker"@, "json-file"@),
    ) + " > /etc/docker/daemon.json'"@
}

/// Builds the one-time write of the daemon configuration for a declared
/// data path.
pub fn daemon_config_cmd(path: &str) -> (r: String)
    ensures
        r@ == daemon_config_cmd_spec(path@),
{
    let cfg = DockerConfig::new(path);
    let json = daemon_json(&cfg);
    let mut c = "sudo bash -c 'echo ".to_owned();
    c.append(text::quoted(json.as_str()).as_str());
    c.append(" > /etc/docker/daemon.json'");
    c
}

/// The one-time package-source setup for the detected OS family.
pub open spec fn sources_cmd_spec(os_str: Seq<char>) -> Seq<char> {
    "echo \"deb [arch=\"$(dpkg --print-architecture)\" signed-by=/etc/apt/keyrings/docker.gpg] https://download.docker.com/linux/"@
        + os_str
        + " \\\n               \"$(. /etc/os-release && echo \"$VERSION_CODENAME\")\" stable\" | sudo tee /etc/apt/sources.list.d/docker.list > /dev/null"@
}

/// The facts one install or check run observes before deciding: the OS
/// family, the three one-time file gates, the engine's version probe, and
/// the group-membership probe.  Gathering them mutates nothing.
pub struct DockerFacts {
    pub os: Os,
    pub daemon_config_exists: bool,
    pub gpg_key_exists: bool,
    pub sources_list_exists: bool,
    pub version: CommandOutcome,
    pub group: CommandOutcome,
}

pub open spec fn os_str_spec(os: Os) -> Seq<char> {
    if os is Debian {
        "debian"@
    } else {
        "ubuntu"@
    }
}

pub open spec fn cond_cmds(b: bool, cmds: Seq<Seq<char>>) -> Seq<Seq<char>> {
    if b {
        cmds
    } else {
        Seq::empty()
    }
}

/// The full install plan: a hard failure on an unrecognized OS; else the
/// conditional one-time steps, the unconditional index update, and the
/// engine install only when the binary is absent.  The best-effort group
/// update follows separately (`group_update_cmd`), issued fail-silent.
pub open spec fn docker_install_spec(
    path: Option<Seq<char>>,
    os: Os,
    daemon_config_exists: bool,
    gpg_key_exists: bool,
    sources_list_exists: bool,
    docker_present: bool,
) -> Result<Seq<Seq<char>>, ErrorView> {
    if os is Unsupported {
        Err(ErrorView::UnsupportedPlatformError)
    } else {
        let os_str = os_str_spec(os);
        let daemon = match path {
            Some(p) => cond_cmds(
                !daemon_config_exists,
                seq!["sudo mkdir -p /etc/docker"@, daemon_config_cmd_spec(p)],
            ),
            None => Seq::empty(),
        };
        let gpg = cond_cmds(
            !gpg_key_exists,
            seq![
                "sudo mkdir -m 0755 -p /etc/apt/keyrings"@,
                "curl -fsSL https://download.docker.com/linux/"@ + os_str
                    + "/gpg | sudo gpg --dearmor -o /etc/apt/keyrings/docker.gpg"@,
            ],
        );
        let sources = cond_cmds(!sources_list_exists, seq![sources_cmd_spec(os_str)]);
        let update = seq!["export DEBIAN_FRONTEND=noninteractive"@, "sudo apt-get update 2>&1"@];
        let install = cond_cmds(
            !docker_present,
            seq![
                "sudo apt-get install -y docker-ce docker-ce-cli containerd.io docker-buildx-plugin docker-compose-plugin 2>&1"@,
            ],
        );
        Ok(daemon + gpg + sources + update + install)
    }
}

/// The one-time steps are idempotent-skip: with the daemon configuration,
/// signing key and package source already in place and the engine present,
/// a further install run plans only the unconditional index refresh.
pub proof fn lemma_docker_install_idempotent_skip(path: Option<Seq<char>>, os: Os)
    requires
        !(os is Unsupported),
    ensures
        docker_install_spec(path, os, true, true, true, true) matches Ok(cmds) && cmds
            =~= seq!["export DEBIAN_FRONTEND=noninteractive"@, "sudo apt-get update 2>&1"@],
{
    let update = seq!["export DEBIAN_FRONTEND=noninteractive"@, "sudo apt-get update 2>&1"@];
    let empty = Seq::<Seq<char>>::empty();
    assert(empty + empty + empty + update + empty =~= update);
    match path {
        Some(_) => {
            assert(docker_install_spec(path, os, true, true, true, true) matches Ok(cmds) && cmds
                =~= update);
        },
        None => {
            assert(docker_install_spec(path, os, true, true, true, true) matches Ok(cmds) && cmds
                =~= update);
        },
    }
}

/// The engine's presence probe.
pub fn version_probe_cmd() -> (r: String)
    ensures
        r@ == "docker --version 2>&1"@,
{
    "docker --version 2>&1".to_owned()
}

/// The group-membership probe.
pub fn group_probe_cmd() -> (r: String)
    ensures
        r@ == "cat /etc/group | grep docker | grep $USER"@,
{
    "cat /etc/group | grep docker | grep $USER".to_owned()
}

/// The unconditional best-effort group update, issued fail-silent after
/// the plan.
pub fn group_update_cmd() -> (r: String)
    ensures
        r@ == "sudo usermod -aG docker $USER 2>&1"@,
{
    "sudo usermod -aG docker $USER 2>&1".to_owned()
}

/// Plans one docker install from the observed facts.
pub fn on_install(opt: &DockerOptions, facts: &DockerFacts) -> (r: Result<Vec<String>, Error>)
    ensures
        plan_result_view(r) == docker_install_spec(
            opt.path.deep_view(),
            facts.os,
            facts.daemon_config_exists,
            facts.gpg_key_exists,
            facts.sources_list_exists,
            facts.version.exit_status == 0,
        ),
{
    let os_str: &str = match facts.os {
        Os::Debian => "debian",
        Os::Ubuntu => "ubuntu",
        Os::Unsupported => {
            return Err(Error::UnsupportedPlatformError);
        },
    };
    let mut cmds: Vec<String> = Vec::new();
    match &opt.path {
        Some(p) => {
            if !facts.daemon_config_exists {
                cmds.push("sudo mkdir -p /etc/docker".to_owned());
                cmds.push(daemon_config_cmd(p.as_str()));
            }
        },
        None => {},
    }
    let ghost daemon_part = cmds.deep_view();
    if !facts.gpg_key_exists {
        cmds.push("sudo mkdir -m 0755 -p /etc/apt/keyrings".to_owned());
        let mut curl = "curl -fsSL https://download.docker.com/linux/".to_owned();
        curl.append(os_str);
        curl.append("/gpg | sudo gpg --dearmor -o /etc/apt/keyrings/docker.gpg");
        cmds.push(curl);
    }
    let ghost gpg_part = cmds.deep_view();
    if !facts.sources_list_exists {
        let mut src =
            "echo \"deb [arch=\"$(dpkg --print-architecture)\" signed-by=/etc/apt/keyrings/docker.gpg] https://download.docker.com/linux/".to_owned();
        src.append(os_str);
        src.append(
            " \\\n               \"$(. /etc/os-release && echo \"$VERSION_CODENAME\")\" stable\" | sudo tee /etc/apt/sources.list.d/docker.list > /dev/null",
        );
        cmds.push(src);
    }
    let ghost sources_part = cmds.deep_view();
    cmds.push("export DEBIAN_FRONTEND=noninteractive".to_owned());
    cmds.push("sudo apt-get update 2>&1".to_owned());
    if facts.version.exit_status != 0 {
        cmds.push(
            "sudo apt-get install -y docker-ce docker-ce-cli containerd.io docker-buildx-plugin docker-compose-plugin 2>&1".to_owned(),
        );
    }
    proof {
        let spec = docker_install_spec(
            opt.path.deep_view(),
            facts.os,
            facts.daemon_config_exists,
            facts.gpg_key_exists,
            facts.sources_list_exists,
            facts.version.exit_status == 0,
        );
        assert(spec matches Ok(s) && cmds.deep_view() =~= s);
    }
    Ok(cmds)
}

pub open spec fn cond_line(b: bool, line: Seq<char>) -> Seq<Seq<char>> {
    if b {
        seq![line]
    } else {
        Seq::empty()
    }
}

/// What one docker check reports: the four independent facts — binary,
/// signing key, package source, group membership — folded into one status;
/// a hard failure on an unrecognized OS.
pub open spec fn docker_check_spec(
    os: Os,
    version: CommandOutcomeView,
    gpg_key_exists: bool,
    sources_list_exists: bool,
    group: CommandOutcomeView,
) -> Result<StatusView, ErrorView> {
    if os is Unsupported {
        Err(ErrorView::UnsupportedPlatformError)
    } else {
        let successes = cond_line(version.exit_status == 0, version.output) + cond_line(
            gpg_key_exists,
            "docker gpg key ok"@,
        ) + cond_line(sources_list_exists, "/etc/apt/sources.list.d/docker.list ok"@) + cond_line(
            group.output.len() > 0,
            "current user is in docker group"@,
        );
        let fails = cond_line(version.exit_status != 0, version.output) + cond_line(
            !gpg_key_exists,
            "missing docker gpg key"@,
        ) + cond_line(
            !sources_list_exists,
            "missing /etc/apt/sources.list.d/docker.list"@,
        ) + cond_line(group.output.len() == 0, "current user is not in docker group"@);
        Ok(status_new_spec(successes, fails))
    }
}

/// Folds the observed facts into one check status.
pub fn on_check(opt: &DockerOptions, facts: &DockerFacts) -> (r: Result<Status, Error>)
    ensures
        r matches Ok(status) ==> (docker_check_spec(
            facts.os,
            facts.version@,
            facts.gpg_key_exists,
            facts.sources_list_exists,
            facts.group@,
        ) matches Ok(s) && status@ == s),
        r matches Err(e) ==> (docker_check_spec(
            facts.os,
            facts.version@,
            facts.gpg_key_exists,
            facts.sources_list_exists,
            facts.group@,
        ) matches Err(ev) && e@ == ev),
{
    match facts.os {
        Os::Unsupported => {
            return Err(Error::UnsupportedPlatformError);
        },
        _ => {},
    }
    let mut success: Vec<String> = Vec::new();
    let mut fail: Vec<String> = Vec::new();
    if facts.version.exit_status == 0 {
        success.push(facts.version.output.clone());
    } else {
        fail.push(facts.version.output.clone());
    }
    if facts.gpg_key_exists {
        success.push("docker gpg key ok".to_owned());
    } else {
        fail.push("missing docker gpg key".to_owned());
    }
    if facts.sources_list_exists {
        success.push("/etc/apt/sources.list.d/docker.list ok".to_owned());
    } else {
        fail.push("missing /etc/apt/sources.list.d/docker.list".to_owned());
    }
    let in_group = crate::executor::some_output(&facts.group);
    if in_group {
        success.push("current user is in docker group".to_owned());
    } else {
        fail.push("current user is not in docker group".to_owned());
    }
    proof {
        let successes = cond_line(facts.version@.exit_status == 0, facts.version@.output)
            + cond_line(facts.gpg_key_exists, "docker gpg key ok"@) + cond_line(
            facts.sources_list_exists,
            "/etc/apt/sources.list.d/docker.list ok"@,
        ) + cond_line(facts.group@.output.len() > 0, "current user is in docker group"@);
        let fails = cond_line(facts.version@.exit_status != 0, facts.version@.output) + cond_line(
            !facts.gpg_key_exists,
            "missing docker gpg key"@,
        ) + cond_line(
            !facts.sources_list_exists,
            "missing /etc/apt/sources.list.d/docker.list"@,
        ) + cond_line(facts.group@.output.len() == 0, "current user is not in docker group"@);
        assert(success.deep_view() =~= successes);
        assert(fail.deep_view() =~= fails);
    }
    Ok(Status::new(success, fail))
}

} // verus!
