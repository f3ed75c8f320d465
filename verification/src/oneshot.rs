//! One-shot (non-interactive) command path: no terminal mode to manage and
//! no resize feed; the remote stdout and stderr streams race with the
//! completion signal, and the outcome decides what is forwarded locally
//! and which exit code the process reports.

use vstd::prelude::*;

use crate::errors::EXIT_FAILURE;
use crate::errors::EXIT_OK;
use crate::errors::RshError;

verus! {

/// How establishing the one-shot session went: either the session attached
/// and the remote process yielded its output before signalling completion,
/// or the collaborator refused with a distinguished condition.
pub enum ExecSetup {
    /// The remote process ran; these are the bytes its two streams yielded
    /// before the completion signal.
    Attached { stdout: Vec<u8>, stderr: Vec<u8> },
    /// The target could not be resolved.
    NotFound,
    /// The collaborator rejected the sub-target or parameters.
    BadRequest,
}

/// What the one-shot path forwarded locally and how it ended.
pub struct OneShotReport {
    /// Bytes forwarded to the local stdout, in stream order.
    pub forwarded_stdout: Vec<u8>,
    /// Bytes forwarded to the local stderr, in stream order.
    pub forwarded_stderr: Vec<u8>,
    /// The distinguished error, when the session could not attach.
    pub error: Option<RshError>,
    /// The process exit code.
    pub exit_code: i32,
}

/// Decides the one-shot outcome: an attached session has both remote
/// streams forwarded whole to their local counterparts and reports
/// success; a refused session forwards nothing and exits with the
/// distinguished non-zero code for its condition.
pub fn run_one_shot(setup: ExecSetup) -> (r: OneShotReport)
    ensures
        (setup matches ExecSetup::Attached { stdout, stderr } ==> r.forwarded_stdout@ == stdout@
            && r.forwarded_stderr@ == stderr@ && r.error is None && r.exit_code == EXIT_OK),
        (setup is NotFound ==> r.forwarded_stdout@.len() == 0 && r.forwarded_stderr@.len() == 0
            && r.error == Some(RshError::TargetNotFound) && r.exit_code == EXIT_FAILURE),
        (setup is BadRequest ==> r.forwarded_stdout@.len() == 0 && r.forwarded_stderr@.len() == 0
            && r.error == Some(RshError::MalformedRequest) && r.exit_code == EXIT_FAILURE),
{
    match setup {
        ExecSetup::Attached { stdout, stderr } => OneShotReport {
            forwarded_stdout: stdout,
            forwarded_stderr: stderr,
            error: None,
            exit_code: EXIT_OK,
        },
        ExecSetup::NotFound => OneShotReport {
            forwarded_stdout: Vec::new(),
            forwarded_stderr: Vec::new(),
            error: Some(RshError::TargetNotFound),
            exit_code: EXIT_FAILURE,
        },
        ExecSetup::BadRequest => OneShotReport {
            forwarded_stdout: Vec::new(),
            forwarded_stderr: Vec::new(),
            error: Some(RshError::MalformedRequest),
            exit_code: EXIT_FAILURE,
        },
    }
}

} // verus!
