//! The connection test: one short `ssh` command line that tells whether the
//! host can be reached and accepts the credential, and the status line that
//! its outcome stands for.

use crate::transfer::command::{CommandLine, ProcessOutcome};
use crate::transfer::method::{
    classify, classify_failure, plan_view, planned, Failure, TransferError,
};
use crate::transfer::target::{session_of, ConnectionTarget};
use vstd::prelude::*;
use vstd::string::StringExecFns;

verus! {

/// The status line for the outcome of a connection test.
///
/// A tool that could not be started and a tool that succeeded each have
/// their line. A tool that failed has the message of the failure that its
/// error output stands for, or a general line if the output was not
/// recognised.
pub open spec fn connection_status(outcome: ProcessOutcome) -> Seq<char> {
    match outcome {
        ProcessOutcome::LaunchFailed(_) => "Failed to execute SSH command"@,
        ProcessOutcome::Exited { success, stdout, stderr } => if success {
            "Connection successful!"@
        } else {
            match classify(stderr@) {
                Failure::TransferFailed(_) => "Connection failed. See console for details."@,
                recognised => recognised.message(),
            }
        },
    }
}

/// Whether the outcome of a connection test is a success.
pub open spec fn connection_ok(outcome: ProcessOutcome) -> bool {
    outcome matches ProcessOutcome::Exited { success, .. } && success
}

/// The result of a connection test, for display.
#[derive(Debug, Clone, PartialEq, Eq)]
pub struct ConnectionReport {
    /// Whether the host was reached and accepted the credential.
    pub success: bool,
    /// The status line.
    pub message: String,
}

/// The command line of a connection test of `target`: an `ssh` that asks for
/// the password at most once, gives up connecting after ten seconds, and
/// runs `echo` on the host. It fails, without a command line, if a password
/// is needed and none is given.
pub fn connection_test_command(target: &ConnectionTarget, password: &Option<String>) -> (plan:
    Result<CommandLine, TransferError>)
    ensures
        plan_view(plan) == planned(
            session_of(target, password).lacks_password(),
            session_of(target, password).probe_words(),
        ),
{
    match target.start_command(password, "ssh") {
        Some(mut command) => {
            target.push_identity(&mut command);
            command.arg("-o");
            command.arg("NumberOfPasswordPrompts=1");
            command.arg("-o");
            command.arg("ConnectTimeout=10");
            target.push_port(&mut command, "-p");
            command.push_arg(target.user_at_host());
            command.arg("echo 'Connection successful'");
            assert(command@ == session_of(target, password).probe_words());
            Ok(command)
        },
        None => Err(TransferError::password_required()),
    }
}

/// Tells what the outcome of a connection test means.
pub fn connection_test_report(outcome: &ProcessOutcome) -> (report: ConnectionReport)
    ensures
        report.success == connection_ok(*outcome),
        report.message@ == connection_status(*outcome),
{
    match outcome {
        ProcessOutcome::LaunchFailed(_) => ConnectionReport {
            success: false,
            message: String::from_str("Failed to execute SSH command"),
        },
        ProcessOutcome::Exited { success, stdout, stderr } => {
            if *success {
                ConnectionReport {
                    success: true,
                    message: String::from_str("Connection successful!"),
                }
            } else {
                let message = match classify_failure(stderr.as_str()) {
                    TransferError::TransferFailed(_) => String::from_str(
                        "Connection failed. See console for details.",
                    ),
                    TransferError::ConnectionFailed(message) => message,
                    TransferError::AuthenticationFailed(message) => message,
                    TransferError::PermissionDenied(message) => message,
                    TransferError::FileNotFound(message) => message,
                };
                ConnectionReport { success: false, message }
            }
        },
    }
}

} // verus!
