//! The command-line surface as plain values: the chosen action, and the
//! connection settings that turn into an `Ssh` record.  Argument parsing
//! itself is the surrounding binary's concern.

use vstd::prelude::*;
use crate::config::Ssh;

verus! {

/// What the run does: drive remote state toward the configuration, or
/// inspect it without mutating.
pub enum Action {
    /// Run installation from the configuration file, optionally one stage.
    Install { file: String, stage: Option<String> },
    /// Check installation from the configuration file, optionally one stage.
    Check { file: String, stage: Option<String> },
}

/// The parsed command line: connection settings and the chosen action.
pub struct Opts {
    pub remote_host: String,
    pub remote_user: String,
    pub remote_port: u16,
    pub remote_key_file: String,
    pub action: Action,
    pub rust_log: Option<String>,
}

impl Opts {
    /// The connection settings as an `Ssh` record: each empty or zero
    /// entry becomes absent, and no password travels from the command
    /// line.
    pub fn into_ssh(&self) -> (r: Ssh)
        ensures
            self.remote_host@.len() > 0 ==> (r.remote_host matches Some(h) && h@
                == self.remote_host@),
            self.remote_host@.len() == 0 ==> r.remote_host is None,
            self.remote_user@.len() > 0 ==> (r.remote_user matches Some(u) && u@
                == self.remote_user@),
            self.remote_user@.len() == 0 ==> r.remote_user is None,
            self.remote_port > 0 ==> r.remote_port == Some(self.remote_port),
            self.remote_port == 0 ==> r.remote_port is None,
            self.remote_key_file@.len() > 0 ==> (r.remote_key_file matches Some(k) && k@
                == self.remote_key_file@),
            self.remote_key_file@.len() == 0 ==> r.remote_key_file is None,
            r.remote_password is None,
    {
        Ssh {
            remote_host: if self.remote_host.as_str().unicode_len() > 0 {
                Some(self.remote_host.clone())
            } else {
                None
            },
            remote_user: if self.remote_user.as_str().unicode_len() > 0 {
                Some(self.remote_user.clone())
            } else {
                None
            },
            remote_port: if self.remote_port > 0 {
                Some(self.remote_port)
            } else {
                None
            },
            remote_password: None,
            remote_key_file: if self.remote_key_file.as_str().unicode_len() > 0 {
                Some(self.remote_key_file.clone())
            } else {
                None
            },
        }
    }
}

} // verus!
