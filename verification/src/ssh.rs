//! What becomes of one SSH run: how its output lines are labelled and how
//! the end of the process is turned into an exit code or an error.
use vstd::prelude::*;

use crate::text::concat3;

verus! {

/// Why running the command on a host gave no exit code. `reason` is the
/// operating system's description of the failure.
pub enum SshError {
    SpawnFailed { host: String, reason: String },
    KilledBySignal { host: String },
    WaitFailed { host: String, reason: String },
}

impl SshError {
    /// The text that describes the error to a person.
    pub open spec fn message(&self) -> Seq<char> {
        match self {
            SshError::SpawnFailed { host, reason } =>
                "Failed to spawn SSH command on "@ + host@ + ": "@ + reason@,
            SshError::KilledBySignal { host } =>
                "SSH process on "@ + host@ + " was killed by a signal"@,
            SshError::WaitFailed { host, reason } =>
                "Failed to wait for SSH process on "@ + host@ + ": "@ + reason@,
        }
    }

    /// Renders the error as text, as `message` states it.
    pub fn describe(&self) -> (text: String)
        ensures
            text@ == self.message(),
    {
        match self {
            SshError::SpawnFailed { host, reason } => {
                let mut s = concat3("Failed to spawn SSH command on ", host.as_str(), ": ");
                s.append(reason.as_str());
                s
            },
            SshError::KilledBySignal { host } => {
                concat3("SSH process on ", host.as_str(), " was killed by a signal")
            },
            SshError::WaitFailed { host, reason } => {
                let mut s = concat3("Failed to wait for SSH process on ", host.as_str(), ": ");
                s.append(reason.as_str());
                s
            },
        }
    }
}

/// One line of remote output as it is shown: the (possibly coloured) host
/// label, a colon and a space, then the line.
pub fn prefixed_line(label: &str, line: &str) -> (shown: String)
    ensures
        shown@ == label@ + ": "@ + line@,
{
    concat3(label, ": ", line)
}

/// Turns the way the SSH process ended into the run's outcome: its exit
/// code when it exited, `KilledBySignal` when a signal ended it (then the
/// operating system reports no code).
pub fn exit_outcome(hostname: &str, code: Option<i32>) -> (outcome: Result<i32, SshError>)
    ensures
        code matches Some(c) ==> outcome == Ok::<i32, SshError>(c),
        code is None ==> (outcome matches Err(SshError::KilledBySignal { host }) && host@ == hostname@),
{
    match code {
        Some(c) => Ok(c),
        None => Err(SshError::KilledBySignal { host: String::from_str(hostname) }),
    }
}

} // verus!
