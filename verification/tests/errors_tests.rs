use kubectl_rsh::errors::classify_protocol_switch;
use kubectl_rsh::errors::error_message;
use kubectl_rsh::errors::exit_code_for;
use kubectl_rsh::errors::unauthorized_hint;
use kubectl_rsh::errors::RshError;

#[test]
fn protocol_switch_statuses_are_classified() {
    assert_eq!(Some(RshError::TargetNotFound), classify_protocol_switch(404));
    assert_eq!(Some(RshError::MalformedRequest), classify_protocol_switch(400));
    assert_eq!(None, classify_protocol_switch(500));
    assert_eq!(None, classify_protocol_switch(200));
}

#[test]
fn only_an_authentication_rejection_gets_a_hint() {
    assert_eq!(
        Some("Unauthorized - are you logged in on the cluster?"),
        unauthorized_hint(401)
    );
    assert_eq!(None, unauthorized_hint(403));
    assert_eq!(None, unauthorized_hint(200));
}

#[test]
fn fatal_errors_have_their_messages() {
    assert_eq!(
        "Not found - check the pod's name and make sure it exists",
        error_message(RshError::TargetNotFound)
    );
    assert_eq!(
        "Bad request - check the container's name and make sure it exists inside the pod",
        error_message(RshError::MalformedRequest)
    );
    assert_eq!("stdin is not a terminal", error_message(RshError::NotATerminal));
}

#[test]
fn exit_codes_distinguish_success_from_failure() {
    assert_eq!(0, exit_code_for(None));
    assert_eq!(-1, exit_code_for(Some(RshError::TargetNotFound)));
    assert_eq!(-1, exit_code_for(Some(RshError::ChannelError)));
}
