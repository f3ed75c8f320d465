//! Error kinds a session can surface, the user-facing messages for the
//! fatal collaborator errors, and the process exit codes.

use vstd::prelude::*;

verus! {

/// Exit code reported on graceful termination.
pub const EXIT_OK: i32 = 0;

/// Exit code reported for the fatal, user-facing collaborator errors.
pub const EXIT_FAILURE: i32 = -1;

/// Every kind of error the session driver distinguishes.
#[derive(Clone, Copy, PartialEq, Eq, Structural, Debug)]
pub enum RshError {
    /// Stdin has no controlling terminal; raised before any mutation.
    NotATerminal,
    /// Applying or restoring the terminal attributes failed.
    TerminalConfigError,
    /// The collaborator reports that the target does not exist.
    TargetNotFound,
    /// The collaborator rejected the sub-target or parameters.
    MalformedRequest,
    /// I/O failure on a copy loop or the resize sink.
    ChannelError,
    /// The environment refused resize-notification delivery.
    SignalSubscriptionError,
}

/// Message shown when the remote target cannot be resolved.
pub open spec fn spec_not_found_message() -> Seq<char> {
    "Not found - check the pod's name and make sure it exists"@
}

/// Message shown when the collaborator rejects the request parameters.
pub open spec fn spec_bad_request_message() -> Seq<char> {
    "Bad request - check the container's name and make sure it exists inside the pod"@
}

/// Message shown when the cluster rejects the client's credentials.
pub open spec fn spec_unauthorized_message() -> Seq<char> {
    "Unauthorized - are you logged in on the cluster?"@
}

/// Message shown when the resize-update channel cannot be obtained.
pub open spec fn spec_no_resize_channel_message() -> Seq<char> {
    "cannot communication terminal size to server"@
}

/// Message shown when stdin has no controlling terminal.
pub open spec fn spec_not_a_terminal_message() -> Seq<char> {
    "stdin is not a terminal"@
}

/// Classifies a protocol-switch failure status from the session
/// establishment call: the not-found status names a missing target, the
/// bad-request status a rejected sub-target; every other status is not a
/// distinguished, user-facing error.
pub fn classify_protocol_switch(status: u16) -> (r: Option<RshError>)
    ensures
        status == 404 ==> r == Some(RshError::TargetNotFound),
        status == 400 ==> r == Some(RshError::MalformedRequest),
        (status != 404 && status != 400) ==> r is None,
{
    if status == 404 {
        Some(RshError::TargetNotFound)
    } else if status == 400 {
        Some(RshError::MalformedRequest)
    } else {
        None
    }
}

/// Hint shown when client setup fails: only an authentication rejection
/// gets a user-facing message; every other failure propagates as it is.
pub fn unauthorized_hint(status: u16) -> (r: Option<&'static str>)
    ensures
        r is Some <==> status == 401,
        (r matches Some(hint) ==> hint@ == spec_unauthorized_message()),
{
    if status == 401 {
        Some("Unauthorized - are you logged in on the cluster?")
    } else {
        None
    }
}

/// The user-facing message for each fatal error kind.
pub fn error_message(e: RshError) -> (m: &'static str)
    ensures
        e == RshError::TargetNotFound ==> m@ == spec_not_found_message(),
        e == RshError::MalformedRequest ==> m@ == spec_bad_request_message(),
        e == RshError::NotATerminal ==> m@ == spec_not_a_terminal_message(),
        e == RshError::SignalSubscriptionError ==> m@ == spec_no_resize_channel_message(),
{
    match e {
        RshError::NotATerminal => "stdin is not a terminal",
        RshError::TerminalConfigError => "error configuring the terminal attributes",
        RshError::TargetNotFound => "Not found - check the pod's name and make sure it exists",
        RshError::MalformedRequest => "Bad request - check the container's name and make sure it exists inside the pod",
        RshError::ChannelError => "error on a session channel",
        RshError::SignalSubscriptionError => "cannot communication terminal size to server",
    }
}

/// The process exit code for a session outcome: success exits cleanly,
/// every fatal error exits with the distinguished non-zero code.
pub fn exit_code_for(outcome: Option<RshError>) -> (code: i32)
    ensures
        outcome is None ==> code == EXIT_OK,
        outcome is Some ==> code == EXIT_FAILURE,
{
    match outcome {
        None => EXIT_OK,
        Some(_) => EXIT_FAILURE,
    }
}

} // verus!
