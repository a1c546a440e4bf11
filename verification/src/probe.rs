//! Outcomes of the external probe commands, and the rules that turn an
//! outcome into the value the descriptor records.
//!
//! The probes themselves (running the source-control tool and the compiler)
//! are process invocations and live outside this library; they report back
//! through [`ProbeOutcome`]. A failure to launch is split into the two
//! recoverable kinds (tool missing, permission denied), which degrade to
//! "no information", and the unexpected kind, which the caller must treat
//! as fatal and never hand to the functions here.

use vstd::prelude::*;

verus! {

/// What came of invoking one external probe command.
pub enum ProbeOutcome {
    /// The command ran to completion; `success` is whether it exited
    /// successfully, `stdout` its captured standard output.
    Finished { success: bool, stdout: String },
    /// The tool's binary was not found: recoverable.
    ToolNotFound,
    /// The tool could not be executed for lack of permission: recoverable.
    PermissionDenied,
    /// The tool exists but invoking it failed in an unanticipated way:
    /// fatal; the whole extraction is to be aborted.
    Unexpected,
}

impl ProbeOutcome {
    /// The fatal kind of failure, which no function here accepts.
    pub open spec fn is_unexpected(self) -> bool {
        self is Unexpected
    }

    /// The text a successful run of the command yields: its standard
    /// output with trailing whitespace removed; `None` when the command
    /// failed or could not be launched.
    pub open spec fn text(self) -> Option<Seq<char>> {
        match self {
            ProbeOutcome::Finished { success, stdout } => {
                if success {
                    Some(trim_end_of(stdout@))
                } else {
                    None
                }
            },
            _ => None,
        }
    }

    /// Whether the command exited successfully; `None` when it could not
    /// be launched at all.
    pub open spec fn status(self) -> Option<bool> {
        match self {
            ProbeOutcome::Finished { success, .. } => Some(success),
            _ => None,
        }
    }
}

/// The characters of `s` that remain once its trailing whitespace is removed.
pub uninterp spec fn trim_end_of(s: Seq<char>) -> Seq<char>;

/// Relies on `str::trim_end`: it returns the string with its trailing
/// whitespace removed, hence a prefix of the input, and it depends on the
/// characters alone.
#[verifier::external_body]
fn trim_end(s: &str) -> (r: String)
    ensures
        r@ == trim_end_of(s@),
        r@.len() <= s@.len(),
        r@ == s@.subrange(0, r@.len() as int),
{
    s.trim_end().to_owned()
}

/// The captured output of a probe command: its standard output trimmed of
/// trailing whitespace when the command exited successfully, `None` when it
/// exited unsuccessfully or its tool was absent or not executable.
pub fn read_output(out: ProbeOutcome) -> (r: Option<String>)
    requires
        !out.is_unexpected(),
    ensures
        match out.text() {
            Some(t) => r matches Some(s) && s@ == t,
            None => r is None,
        },
{
    match out {
        ProbeOutcome::Finished { success, stdout } => {
            if success {
                Some(trim_end(stdout.as_str()))
            } else {
                None
            }
        },
        _ => None,
    }
}

/// The exit status of a probe command that is run for its exit code alone:
/// whether it exited successfully, or `None` when its tool was absent or
/// not executable.
pub fn get_status_code(out: ProbeOutcome) -> (r: Option<bool>)
    requires
        !out.is_unexpected(),
    ensures
        r == out.status(),
{
    match out {
        ProbeOutcome::Finished { success, stdout: _ } => Some(success),
        _ => None,
    }
}

/// The toolchain version string: the trimmed output of the toolchain's
/// self-report command, or the sentinel `"N/A"` when the probe failed
/// recoverably.
pub fn compiler_version(out: ProbeOutcome) -> (r: String)
    requires
        !out.is_unexpected(),
    ensures
        match out.text() {
            Some(t) => r@ == t,
            None => r@ == "N/A"@,
        },
{
    match read_output(out) {
        Some(version) => version,
        None => String::from_str("N/A"),
    }
}

} // verus!
