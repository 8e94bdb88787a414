//! The remote-execution primitives the capabilities build on: the outcome of
//! one remote command, the error model, and the fail-loud / fail-silent call
//! contracts.  The surrounding binary owns the channel; this module owns the
//! interpretation of what came back.

use vstd::prelude::*;
use crate::text;

verus! {

/// Spec-level shape of a `CommandOutcome`.
pub struct CommandOutcomeView {
    pub exit_status: u32,
    pub output: Seq<char>,
}

/// Exit status and combined output of one remote command.  Produced by every
/// remote call; never persisted.
#[derive(Debug, Clone)]
pub struct CommandOutcome {
    pub exit_status: u32,
    pub output: String,
}

impl View for CommandOutcome {
    type V = CommandOutcomeView;

    open spec fn view(&self) -> CommandOutcomeView {
        CommandOutcomeView { exit_status: self.exit_status, output: self.output@ }
    }
}

impl DeepView for CommandOutcome {
    type V = CommandOutcomeView;

    open spec fn deep_view(&self) -> CommandOutcomeView {
        self.view()
    }
}

/// Spec-level shape of an `Error`.
pub enum ErrorView {
    RemoteCommandError { output: Seq<char> },
    NoEligibleDeviceError,
    MissingLocalResourceError { kind: MissingResourceKind, message: Seq<char> },
    UnsupportedPlatformError,
    PackageNotFoundError { packages: Seq<Seq<char>> },
}

/// Which kind of local resource was missing: the file itself, a profile
/// section inside it, or a required field of a found section.
#[derive(Clone, Copy, PartialEq, Eq, Structural, Debug)]
pub enum MissingResourceKind {
    LocalFile,
    ProfileSection,
    RequiredField,
}

/// Every way a capability operation can fail.
#[derive(Debug)]
pub enum Error {
    /// A fail-loud remote command exited non-zero; carries its output.
    RemoteCommandError { output: String },
    /// Automatic mount selection found no usable device.
    NoEligibleDeviceError,
    /// A local file, profile section or required field was absent.
    MissingLocalResourceError { kind: MissingResourceKind, message: String },
    /// The remote OS family was not recognized.
    UnsupportedPlatformError,
    /// Consolidated from the package manager's "unable to locate" lines.
    PackageNotFoundError { packages: Vec<String> },
}

impl View for Error {
    type V = ErrorView;

    open spec fn view(&self) -> ErrorView {
        match self {
            Error::RemoteCommandError { output } => ErrorView::RemoteCommandError {
                output: output@,
            },
            Error::NoEligibleDeviceError => ErrorView::NoEligibleDeviceError,
            Error::MissingLocalResourceError { kind, message } => {
                ErrorView::MissingLocalResourceError { kind: *kind, message: message@ }
            },
            Error::UnsupportedPlatformError => ErrorView::UnsupportedPlatformError,
            Error::PackageNotFoundError { packages } => ErrorView::PackageNotFoundError {
                packages: packages.deep_view(),
            },
        }
    }
}

/// The text each error renders to on a failure line.
pub open spec fn error_message_spec(e: ErrorView) -> Seq<char> {
    match e {
        ErrorView::RemoteCommandError { output } => output,
        ErrorView::NoEligibleDeviceError => "failed to find target block device"@,
        ErrorView::MissingLocalResourceError { message, .. } => message,
        ErrorView::UnsupportedPlatformError => "unsupported OS"@,
        ErrorView::PackageNotFoundError { packages } => "Unable to locate: "@ + text::join_seq(
            packages,
            ", "@,
        ),
    }
}

impl Error {
    /// Renders the error as the text the dispatcher prints.
    pub fn message(&self) -> (r: String)
        ensures
            r@ == error_message_spec(self@),
    {
        match self {
            Error::RemoteCommandError { output } => output.clone(),
            Error::NoEligibleDeviceError => "failed to find target block device".to_owned(),
            Error::MissingLocalResourceError { message, .. } => message.clone(),
            Error::UnsupportedPlatformError => "unsupported OS".to_owned(),
            Error::PackageNotFoundError { packages } => {
                let mut out = "Unable to locate: ".to_owned();
                out.append(text::join_strings(packages, ", ").as_str());
                out
            },
        }
    }
}

/// The fail-loud call contract (`run`): the outcome is accepted exactly when
/// the remote exit status is zero; otherwise its output becomes the error.
pub fn run_outcome(outcome: CommandOutcome) -> (r: Result<CommandOutcome, Error>)
    ensures
        outcome.exit_status == 0 ==> (r matches Ok(o) && o == outcome),
        outcome.exit_status != 0 ==> (r matches Err(e) && e@ == (ErrorView::RemoteCommandError {
            output: outcome.output@,
        })),
{
    if outcome.exit_status == 0 {
        Ok(outcome)
    } else {
        Err(Error::RemoteCommandError { output: outcome.output })
    }
}

/// A command plan or the error that replaced it, seen at the spec level.
pub open spec fn plan_result_view(r: Result<Vec<String>, Error>) -> Result<
    Seq<Seq<char>>,
    ErrorView,
> {
    match r {
        Ok(v) => Ok(v.deep_view()),
        Err(e) => Err(e@),
    }
}

/// The probe command behind every remote file-existence gate.
pub open spec fn file_exists_cmd_spec(path: Seq<char>) -> Seq<char> {
    "test -e "@ + path + " 2>&1"@
}

pub fn file_exists_cmd(path: &str) -> (r: String)
    ensures
        r@ == file_exists_cmd_spec(path@),
{
    let mut s = "test -e ".to_owned();
    s.append(path);
    s.append(" 2>&1");
    s
}

/// A file-existence probe reports existence exactly when it exited zero.
pub fn file_exists(outcome: &CommandOutcome) -> (r: bool)
    ensures
        r == (outcome.exit_status == 0),
{
    outcome.exit_status == 0
}

/// The probe-style call (`which`): the command's own output, tagged with
/// whether the command succeeded.
pub fn which_result(outcome: CommandOutcome) -> (r: Result<String, String>)
    ensures
        outcome.exit_status == 0 ==> (r matches Ok(s) && s@ == outcome.output@),
        outcome.exit_status != 0 ==> (r matches Err(s) && s@ == outcome.output@),
{
    if outcome.exit_status == 0 {
        Ok(outcome.output)
    } else {
        Err(outcome.output)
    }
}

/// A probe that is judged by whether it printed anything at all.
pub fn some_output(outcome: &CommandOutcome) -> (r: bool)
    ensures
        r == (outcome.output@.len() > 0),
{
    let n = outcome.output.as_str().unicode_len();
    n > 0
}

/// The remote OS family, as far as the capabilities care.
#[derive(Clone, Copy, PartialEq, Eq, Structural, Debug)]
pub enum Os {
    Debian,
    Ubuntu,
    Unsupported,
}

/// The probe command for OS detection.
pub open spec fn os_release_cmd_spec() -> Seq<char> {
    "cat /etc/os-release"@
}

pub fn os_release_cmd() -> (r: String)
    ensures
        r@ == os_release_cmd_spec(),
{
    "cat /etc/os-release".to_owned()
}

/// The OS family an os-release report denotes: judged by its `ID=` line.
pub open spec fn os_from_release_spec(text: Seq<char>) -> Os {
    if text::lines_seq(text).contains("ID=debian"@) {
        Os::Debian
    } else if text::lines_seq(text).contains("ID=ubuntu"@) {
        Os::Ubuntu
    } else {
        Os::Unsupported
    }
}

/// Classifies the remote OS from the os-release report.
pub fn os_from_release(text: &str) -> (r: Os)
    ensures
        r == os_from_release_spec(text@),
{
    let ls = text::lines_of(text);
    let mut debian = false;
    let mut ubuntu = false;
    let mut i: usize = 0;
    while i < ls.len()
        invariant
            i <= ls@.len(),
            ls.deep_view().len() == ls@.len(),
            debian == exists|j: int| 0 <= j < i && ls.deep_view()[j] == "ID=debian"@,
            ubuntu == exists|j: int| 0 <= j < i && ls.deep_view()[j] == "ID=ubuntu"@,
        decreases ls@.len() - i,
    {
        if text::str_eq(ls[i].as_str(), "ID=debian") {
            debian = true;
        }
        if text::str_eq(ls[i].as_str(), "ID=ubuntu") {
            ubuntu = true;
        }
        proof {
            assert(ls.deep_view()[i as int] == ls@[i as int]@);
        }
        i = i + 1;
    }
    proof {
        assert(debian == text::lines_seq(text@).contains("ID=debian"@));
        assert(ubuntu == text::lines_seq(text@).contains("ID=ubuntu"@));
    }
    if debian {
        Os::Debian
    } else if ubuntu {
        Os::Ubuntu
    } else {
        Os::Unsupported
    }
}

} // verus!
