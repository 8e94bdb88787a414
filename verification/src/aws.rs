//! The aws capability: install the CLI when its binary is absent, and push
//! a named local credentials profile to the remote host.  The local
//! credentials and configuration files are scanned line by line; a missing
//! file, profile section or required field is each its own error.

use vstd::prelude::*;
use crate::docker::cond_cmds;
use crate::executor::{
    CommandOutcome, CommandOutcomeView, Error, ErrorView, MissingResourceKind, plan_result_view,
};
use crate::status::{Status, StatusView, status_new_spec};
use crate::text;

verus! {

/// Desired state: the local profile to upload, and the name it gets on the
/// remote host (typically used to rename the default profile).
pub struct AwsOptions {
    pub profile: Option<String>,
    pub rename: Option<String>,
}

/// The running state of one ini-style line scan: whether the wanted
/// section header was seen, whether the scan is inside it, and the last
/// value read for the wanted key there.
pub struct IniScan {
    pub found: bool,
    pub reading: bool,
    pub value: Seq<char>,
}

/// One line's effect on the scan: blank lines and comments change nothing;
/// a bracketed header line enters or leaves the wanted section; inside the
/// section, a `key = value` line whose trimmed key matches updates the
/// value (trimmed, everything after the first `=`).
pub open spec fn ini_step(st: IniScan, line: Seq<char>, header: Seq<char>, key: Seq<char>) -> IniScan {
    let t = text::trim_seq(line);
    if t.len() == 0 || t[0] == '#' {
        st
    } else if text::starts_with_seq(line, "["@) && text::ends_with_seq(line, "]"@) {
        IniScan { found: st.found || t == header, reading: t == header, value: st.value }
    } else if st.reading {
        let i = text::first_index_of(line, '=');
        if i == -1 {
            st
        } else {
            let k = line.take(i);
            let v = line.skip(i + 1);
            if text::trim_seq(k) == key {
                IniScan { found: st.found, reading: st.reading, value: text::trim_seq(v) }
            } else {
                st
            }
        }
    } else {
        st
    }
}

/// The scan over a whole file, line by line.
pub open spec fn ini_scan(lines: Seq<Seq<char>>, header: Seq<char>, key: Seq<char>) -> IniScan
    decreases lines.len(),
{
    if lines.len() == 0 {
        IniScan { found: false, reading: false, value: Seq::empty() }
    } else {
        ini_step(ini_scan(lines.drop_last(), header, key), lines.last(), header, key)
    }
}

/// The section header of a named profile in the configuration file.
pub open spec fn config_header_spec(profile: Seq<char>) -> Seq<char> {
    "[profile "@ + profile + "]"@
}

/// The section header of a named profile in the credentials file.
pub open spec fn credentials_header_spec(profile: Seq<char>) -> Seq<char> {
    "["@ + profile + "]"@
}

/// What reading the region yields: the profile section must exist and hold
/// a non-empty region; each failure mode is its own error.
pub open spec fn read_region_spec(profile: Seq<char>, config_text: Seq<char>) -> Result<
    Seq<char>,
    ErrorView,
> {
    let st = ini_scan(text::lines_seq(config_text), config_header_spec(profile), "region"@);
    if !st.found {
        Err(
            ErrorView::MissingLocalResourceError {
                kind: MissingResourceKind::ProfileSection,
                message: "profile "@ + profile + " not found in ~/.aws/config"@,
            },
        )
    } else if st.value.len() == 0 {
        Err(
            ErrorView::MissingLocalResourceError {
                kind: MissingResourceKind::RequiredField,
                message: "region not specified for "@ + profile,
            },
        )
    } else {
        Ok(st.value)
    }
}

/// What reading the key pair yields: the profile section must exist and
/// hold a non-empty access key and secret key.
pub open spec fn read_keys_spec(profile: Seq<char>, credentials_text: Seq<char>) -> Result<
    (Seq<char>, Seq<char>),
    ErrorView,
> {
    let lines = text::lines_seq(credentials_text);
    let header = credentials_header_spec(profile);
    let a = ini_scan(lines, header, "aws_access_key_id"@);
    let s = ini_scan(lines, header, "aws_secret_access_key"@);
    if !a.found {
        Err(
            ErrorView::MissingLocalResourceError {
                kind: MissingResourceKind::ProfileSection,
                message: "profile "@ + profile + " not found"@,
            },
        )
    } else if a.value.len() == 0 {
        Err(
            ErrorView::MissingLocalResourceError {
                kind: MissingResourceKind::RequiredField,
                message: "access key not specified for "@ + profile,
            },
        )
    } else if s.value.len() == 0 {
        Err(
            ErrorView::MissingLocalResourceError {
                kind: MissingResourceKind::RequiredField,
                message: "secret key not specified for "@ + profile,
            },
        )
    } else {
        Ok((a.value, s.value))
    }
}

/// One exec step of up to two simultaneous scans sharing a header.  Feeds
/// one line into the running state.
fn scan_line(
    line: &str,
    header: &str,
    key1: &str,
    key2: &str,
    found: &mut bool,
    reading: &mut bool,
    value1: &mut String,
    value2: &mut String,
)
    ensures
        (IniScan { found: *final(found), reading: *final(reading), value: final(value1)@ })
            == ini_step(
            IniScan { found: *old(found), reading: *old(reading), value: old(value1)@ },
            line@,
            header@,
            key1@,
        ),
        (IniScan { found: *final(found), reading: *final(reading), value: final(value2)@ })
            == ini_step(
            IniScan { found: *old(found), reading: *old(reading), value: old(value2)@ },
            line@,
            header@,
            key2@,
        ),
{
    let t = text::trim_of(line);
    let tn = t.as_str().unicode_len();
    if tn == 0 || t.as_str().get_char(0) == '#' {
        return ;
    }
    if text::starts_with(line, "[") && text::ends_with(line, "]") {
        let is_header = text::str_eq(t.as_str(), header);
        *found = *found || is_header;
        *reading = is_header;
        return ;
    }
    if *reading {
        let n = line.unicode_len();
        match text::find_char(line, '=') {
            None => {},
            Some(i) => {
                proof {
                    text::lemma_first_index_of(line@, '=');
                }
                let k = line.substring_char(0, i);
                let kt = text::trim_of(k);
                proof {
                    assert(k@ =~= line@.take(i as int));
                }
                let v = line.substring_char(i + 1, n);
                proof {
                    assert(v@ =~= line@.skip(i + 1));
                }
                if text::str_eq(kt.as_str(), key1) {
                    *value1 = text::trim_of(v);
                }
                if text::str_eq(kt.as_str(), key2) {
                    *value2 = text::trim_of(v);
                }
            },
        }
    }
}

/// Scans the local configuration file's text for the profile's region.
pub fn read_aws_profile_region(profile: &str, config_text: &str) -> (r: Result<String, Error>)
    ensures
        r matches Ok(v) ==> (read_region_spec(profile@, config_text@) matches Ok(s) && v@ == s),
        r matches Err(e) ==> (read_region_spec(profile@, config_text@) matches Err(ev) && e@
            == ev),
{
    let mut header = "[profile ".to_owned();
    header.append(profile);
    header.append("]");
    let lines = text::lines_of(config_text);
    let ghost lv = lines.deep_view();
    let mut found = false;
    let mut reading = false;
    let mut region = String::new();
    let mut unused = String::new();
    let mut i: usize = 0;
    while i < lines.len()
        invariant
            i <= lines@.len(),
            lv == lines.deep_view(),
            lv.len() == lines@.len(),
            header@ == config_header_spec(profile@),
            (IniScan { found, reading, value: region@ }) == ini_scan(
                lv.subrange(0, i as int),
                config_header_spec(profile@),
                "region"@,
            ),
        decreases lines@.len() - i,
    {
        scan_line(
            lines[i].as_str(),
            header.as_str(),
            "region",
            "region",
            &mut found,
            &mut reading,
            &mut region,
            &mut unused,
        );
        proof {
            let pre = lv.subrange(0, i + 1);
            assert(pre.drop_last() =~= lv.subrange(0, i as int));
            assert(pre.last() == lv[i as int]);
            assert(lv[i as int] == lines@[i as int]@);
        }
        i = i + 1;
    }
    proof {
        assert(lv.subrange(0, lv.len() as int) =~= lv);
    }
    if !found {
        let mut m = "profile ".to_owned();
        m.append(profile);
        m.append(" not found in ~/.aws/config");
        return Err(
            Error::MissingLocalResourceError {
                kind: MissingResourceKind::ProfileSection,
                message: m,
            },
        );
    }
    if region.as_str().unicode_len() == 0 {
        let mut m = "region not specified for ".to_owned();
        m.append(profile);
        return Err(
            Error::MissingLocalResourceError {
                kind: MissingResourceKind::RequiredField,
                message: m,
            },
        );
    }
    Ok(region)
}

/// Scans the local credentials file's text for the profile's key pair.
pub fn read_aws_profile_keys(profile: &str, credentials_text: &str) -> (r: Result<
    (String, String),
    Error,
>)
    ensures
        r matches Ok(v) ==> (read_keys_spec(profile@, credentials_text@) matches Ok(s)
            && v.0@ == s.0 && v.1@ == s.1),
        r matches Err(e) ==> (read_keys_spec(profile@, credentials_text@) matches Err(ev) && e@
            == ev),
{
    let mut header = "[".to_owned();
    header.append(profile);
    header.append("]");
    let lines = text::lines_of(credentials_text);
    let ghost lv = lines.deep_view();
    let mut found = false;
    let mut reading = false;
    let mut access_key = String::new();
    let mut secret_key = String::new();
    let mut i: usize = 0;
    while i < lines.len()
        invariant
            i <= lines@.len(),
            lv == lines.deep_view(),
            lv.len() == lines@.len(),
            header@ == credentials_header_spec(profile@),
            (IniScan { found, reading, value: access_key@ }) == ini_scan(
                lv.subrange(0, i as int),
                credentials_header_spec(profile@),
                "aws_access_key_id"@,
            ),
            (IniScan { found, reading, value: secret_key@ }) == ini_scan(
                lv.subrange(0, i as int),
                credentials_header_spec(profile@),
                "aws_secret_access_key"@,
            ),
        decreases lines@.len() - i,
    {
        scan_line(
            lines[i].as_str(),
            header.as_str(),
            "aws_access_key_id",
            "aws_secret_access_key",
            &mut found,
            &mut reading,
            &mut access_key,
            &mut secret_key,
        );
        proof {
            let pre = lv.subrange(0, i + 1);
            assert(pre.drop_last() =~= lv.subrange(0, i as int));
            assert(pre.last() == lv[i as int]);
            assert(lv[i as int] == lines@[i as int]@);
        }
        i = i + 1;
    }
    proof {
        assert(lv.subrange(0, lv.len() as int) =~= lv);
    }
    if !found {
        let mut m = "profile ".to_owned();
        m.append(profile);
        m.append(" not found");
        return Err(
            Error::MissingLocalResourceError {
                kind: MissingResourceKind::ProfileSection,
                message: m,
            },
        );
    }
    if access_key.as_str().unicode_len() == 0 {
        let mut m = "access key not specified for ".to_owned();
        m.append(profile);
        return Err(
            Error::MissingLocalResourceError {
                kind: MissingResourceKind::RequiredField,
                message: m,
            },
        );
    }
    if secret_key.as_str().unicode_len() == 0 {
        let mut m = "secret key not specified for ".to_owned();
        m.append(profile);
        return Err(
            Error::MissingLocalResourceError {
                kind: MissingResourceKind::RequiredField,
                message: m,
            },
        );
    }
    Ok((access_key, secret_key))
}

/// The CLI's presence probe.
pub fn version_probe_cmd() -> (r: String)
    ensures
        r@ == "aws --version 2>&1"@,
{
    "aws --version 2>&1".to_owned()
}

/// The four commands that download and install the CLI.
pub open spec fn cli_install_spec(aws_present: bool) -> Seq<Seq<char>> {
    cond_cmds(
        !aws_present,
        seq![
            "curl https://awscli.amazonaws.com/awscli-exe-linux-x86_64.zip -o awscliv2.zip 2>&1"@,
            "unzip -qo awscliv2.zip 2>&1"@,
            "sudo ./aws/install 2>&1"@,
            "rm -rf awscliv2.zip ./aws 2>&1"@,
        ],
    )
}

/// Plans the CLI download, gated on the binary's presence.  Runs before
/// `profile_commands`.
pub fn cli_install_commands(aws_present: bool) -> (r: Vec<String>)
    ensures
        r.deep_view() == cli_install_spec(aws_present),
{
    let mut cmds: Vec<String> = Vec::new();
    if !aws_present {
        cmds.push(
            "curl https://awscli.amazonaws.com/awscli-exe-linux-x86_64.zip -o awscliv2.zip 2>&1".to_owned(),
        );
        cmds.push("unzip -qo awscliv2.zip 2>&1".to_owned());
        cmds.push("sudo ./aws/install 2>&1".to_owned());
        cmds.push("rm -rf awscliv2.zip ./aws 2>&1".to_owned());
    }
    proof {
        assert(cmds.deep_view() =~= cli_install_spec(aws_present));
    }
    cmds
}

/// The remote name the profile is pushed under.
pub open spec fn remote_profile_spec(profile: Seq<char>, rename: Option<Seq<char>>) -> Seq<char> {
    match rename {
        Some(r) => r,
        None => profile,
    }
}

/// The three commands that push one profile's credentials and region.
pub open spec fn profile_cmds_spec(
    access_key: Seq<char>,
    secret_key: Seq<char>,
    region: Seq<char>,
    remote_profile: Seq<char>,
) -> Seq<Seq<char>> {
    seq![
        "aws configure set aws_access_key_id "@ + access_key + " --profile "@ + remote_profile
            + " 2>&1"@,
        "aws configure set aws_secret_access_key "@ + secret_key + " --profile "@
            + remote_profile + " 2>&1"@,
        "aws configure set region "@ + region + " --profile "@ + remote_profile + " 2>&1"@,
    ]
}

/// What the profile phase plans: nothing without a declared profile; with
/// one, the local files must be readable and hold the profile's fields,
/// and the push targets the renamed profile when a rename is declared.
pub open spec fn profile_commands_spec(
    profile: Option<Seq<char>>,
    rename: Option<Seq<char>>,
    credentials_text: Option<Seq<char>>,
    config_text: Option<Seq<char>>,
) -> Result<Seq<Seq<char>>, ErrorView> {
    match profile {
        None => Ok(Seq::empty()),
        Some(p) => match credentials_text {
            None => Err(
                ErrorView::MissingLocalResourceError {
                    kind: MissingResourceKind::LocalFile,
                    message: "could not read ~/.aws/credentials"@,
                },
            ),
            Some(ct) => match config_text {
                None => Err(
                    ErrorView::MissingLocalResourceError {
                        kind: MissingResourceKind::LocalFile,
                        message: "could not read ~/.aws/config"@,
                    },
                ),
                Some(cf) => match read_keys_spec(p, ct) {
                    Err(e) => Err(e),
                    Ok(keys) => match read_region_spec(p, cf) {
                        Err(e) => Err(e),
                        Ok(region) => Ok(
                            profile_cmds_spec(
                                keys.0,
                                keys.1,
                                region,
                                remote_profile_spec(p, rename),
                            ),
                        ),
                    },
                },
            },
        },
    }
}

/// Plans the profile push from the local files' contents (absent when the
/// surrounding binary could not read them).
pub fn profile_commands(
    opt: &AwsOptions,
    credentials_text: Option<&String>,
    config_text: Option<&String>,
) -> (r: Result<Vec<String>, Error>)
    ensures
        plan_result_view(r) == profile_commands_spec(
            opt.profile.deep_view(),
            opt.rename.deep_view(),
            match credentials_text {
                Some(t) => Some(t@),
                None => None,
            },
            match config_text {
                Some(t) => Some(t@),
                None => None,
            },
        ),
{
    let p = match &opt.profile {
        None => {
            let cmds: Vec<String> = Vec::new();
            proof {
                assert(cmds.deep_view() =~= Seq::<Seq<char>>::empty());
            }
            return Ok(cmds);
        },
        Some(p) => p,
    };
    let ct = match credentials_text {
        None => {
            return Err(
                Error::MissingLocalResourceError {
                    kind: MissingResourceKind::LocalFile,
                    message: "could not read ~/.aws/credentials".to_owned(),
                },
            );
        },
        Some(t) => t,
    };
    let cf = match config_text {
        None => {
            return Err(
                Error::MissingLocalResourceError {
                    kind: MissingResourceKind::LocalFile,
                    message: "could not read ~/.aws/config".to_owned(),
                },
            );
        },
        Some(t) => t,
    };
    let keys = match read_aws_profile_keys(p.as_str(), ct.as_str()) {
        Err(e) => {
            return Err(e);
        },
        Ok(k) => k,
    };
    let region = match read_aws_profile_region(p.as_str(), cf.as_str()) {
        Err(e) => {
            return Err(e);
        },
        Ok(v) => v,
    };
    let remote = match &opt.rename {
        Some(r) => r,
        None => p,
    };
    let mut c1 = "aws configure set aws_access_key_id ".to_owned();
    c1.append(keys.0.as_str());
    c1.append(" --profile ");
    c1.append(remote.as_str());
    c1.append(" 2>&1");
    let mut c2 = "aws configure set aws_secret_access_key ".to_owned();
    c2.append(keys.1.as_str());
    c2.append(" --profile ");
    c2.append(remote.as_str());
    c2.append(" 2>&1");
    let mut c3 = "aws configure set region ".to_owned();
    c3.append(region.as_str());
    c3.append(" --profile ");
    c3.append(remote.as_str());
    c3.append(" 2>&1");
    let mut cmds: Vec<String> = Vec::new();
    cmds.push(c1);
    cmds.push(c2);
    cmds.push(c3);
    proof {
        assert(profile_commands_spec(
            opt.profile.deep_view(),
            opt.rename.deep_view(),
            match credentials_text {
                Some(t) => Some(t@),
                None => None,
            },
            match config_text {
                Some(t) => Some(t@),
                None => None,
            },
        ) matches Ok(s) && cmds.deep_view() =~= s);
    }
    Ok(cmds)
}

/// The probe that lists the pushed profile.
pub open spec fn profile_probe_spec(remote_profile: Seq<char>) -> Seq<char> {
    "aws configure --profile "@ + remote_profile + " list"@
}

/// Builds the profile-listing probe, when a profile is declared.
pub fn profile_probe_cmd(opt: &AwsOptions) -> (r: Option<String>)
    ensures
        opt.profile is None ==> r is None,
        opt.profile matches Some(p) ==> (r matches Some(c) && c@ == profile_probe_spec(
            remote_profile_spec(p@, opt.rename.deep_view()),
        )),
{
    match &opt.profile {
        None => None,
        Some(p) => {
            let remote = match &opt.rename {
                Some(r) => r,
                None => p,
            };
            let mut c = "aws configure --profile ".to_owned();
            c.append(remote.as_str());
            c.append(" list");
            Some(c)
        },
    }
}

/// What one aws check reports: the binary's presence, and — when a profile
/// is declared — whether the remote profile lists.
pub open spec fn aws_check_spec(
    profile: Option<Seq<char>>,
    rename: Option<Seq<char>>,
    version: CommandOutcomeView,
    probe: Option<CommandOutcomeView>,
) -> StatusView {
    let vs = crate::docker::cond_line(version.exit_status == 0, version.output);
    let vf = crate::docker::cond_line(version.exit_status != 0, version.output);
    match profile {
        None => status_new_spec(vs, vf),
        Some(p) => {
            let remote = remote_profile_spec(p, rename);
            let ok = match probe {
                Some(o) => o.exit_status == 0,
                None => false,
            };
            if ok {
                status_new_spec(vs + seq!["profile "@ + remote + " ok"@], vf)
            } else {
                status_new_spec(vs, vf + seq!["profile "@ + remote + " missing"@])
            }
        },
    }
}

/// Folds the probes into one check status.
pub fn on_check(opt: &AwsOptions, version: &CommandOutcome, probe: Option<&CommandOutcome>) -> (r:
    Status)
    requires
        (opt.profile is Some) ==> (probe is Some),
    ensures
        r@ == aws_check_spec(
            opt.profile.deep_view(),
            opt.rename.deep_view(),
            version@,
            match probe {
                Some(o) => Some(o@),
                None => None,
            },
        ),
{
    let mut success: Vec<String> = Vec::new();
    let mut fail: Vec<String> = Vec::new();
    if version.exit_status == 0 {
        success.push(version.output.clone());
    } else {
        fail.push(version.output.clone());
    }
    match &opt.profile {
        None => {},
        Some(p) => {
            let remote = match &opt.rename {
                Some(r) => r,
                None => p,
            };
            let ok = match probe {
                Some(o) => o.exit_status == 0,
                None => false,
            };
            if ok {
                let mut line = "profile ".to_owned();
                line.append(remote.as_str());
                line.append(" ok");
                success.push(line);
            } else {
                let mut line = "profile ".to_owned();
                line.append(remote.as_str());
                line.append(" missing");
                fail.push(line);
            }
        },
    }
    proof {
        let vs = crate::docker::cond_line(version@.exit_status == 0, version@.output);
        let vf = crate::docker::cond_line(version@.exit_status != 0, version@.output);
        match opt.profile.deep_view() {
            None => {
                assert(success.deep_view() =~= vs);
                assert(fail.deep_view() =~= vf);
            },
            Some(p) => {
                let remote = remote_profile_spec(p, opt.rename.deep_view());
                let ok = match probe {
                    Some(o) => o@.exit_status == 0,
                    None => false,
                };
                if ok {
                    assert(success.deep_view() =~= vs + seq!["profile "@ + remote + " ok"@]);
                    assert(fail.deep_view() =~= vf);
                } else {
                    assert(success.deep_view() =~= vs);
                    assert(fail.deep_view() =~= vf + seq!["profile "@ + remote + " missing"@]);
                }
            },
        }
    }
    Status::new(success, fail)
}

} // verus!
