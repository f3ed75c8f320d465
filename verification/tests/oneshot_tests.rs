use kubectl_rsh::errors::RshError;
use kubectl_rsh::oneshot::ExecSetup;
use kubectl_rsh::oneshot::run_one_shot;
use kubectl_rsh::terminal::Winsize;
use kubectl_rsh::terminal::window_size_of;

#[test]
fn attached_session_forwards_both_streams_then_succeeds() {
    let report = run_one_shot(ExecSetup::Attached {
        stdout: b"out".to_vec(),
        stderr: b"err".to_vec(),
    });

    assert_eq!(b"out".to_vec(), report.forwarded_stdout);
    assert_eq!(b"err".to_vec(), report.forwarded_stderr);
    assert!(report.error.is_none());
    assert_eq!(0, report.exit_code);
}

#[test]
fn not_found_forwards_nothing_and_exits_distinguished() {
    let report = run_one_shot(ExecSetup::NotFound);

    assert!(report.forwarded_stdout.is_empty());
    assert!(report.forwarded_stderr.is_empty());
    assert_eq!(Some(RshError::TargetNotFound), report.error);
    assert_eq!(-1, report.exit_code);
}

#[test]
fn bad_request_forwards_nothing_and_exits_distinguished() {
    let report = run_one_shot(ExecSetup::BadRequest);

    assert!(report.forwarded_stdout.is_empty());
    assert!(report.forwarded_stderr.is_empty());
    assert_eq!(Some(RshError::MalformedRequest), report.error);
    assert_eq!(-1, report.exit_code);
}

#[test]
fn sampled_geometry_passes_rows_and_cols_through() {
    let ws = Winsize {
        ws_row: 52,
        ws_col: 217,
        ws_xpixel: 0,
        ws_ypixel: 0,
    };
    let s = window_size_of(&ws);
    assert_eq!(52, s.rows);
    assert_eq!(217, s.cols);
}

#[test]
fn zero_geometry_is_passed_through_as_valid() {
    let ws = Winsize {
        ws_row: 0,
        ws_col: 0,
        ws_xpixel: 0,
        ws_ypixel: 0,
    };
    let s = window_size_of(&ws);
    assert_eq!(0, s.rows);
    assert_eq!(0, s.cols);
}
