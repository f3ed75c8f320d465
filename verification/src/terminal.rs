//! Terminal mode controller and size sampling: probes that stdin has a
//! controlling terminal, captures and restores the local terminal's
//! attributes around a raw-mode session, and converts a sampled terminal
//! geometry into the size update sent to the remote session.

use vstd::prelude::*;

use crate::errors::RshError;
use nix::sys::termios::Termios;

verus! {

/// The local terminal's attribute snapshot lives in nix's `Termios`; the
/// library carries it opaquely between capture and restore.
#[verifier::external_type_specification]
#[verifier::external_body]
pub struct ExTermios(Termios);

/// The terminal geometry as the platform reports it.
pub struct Winsize {
    pub ws_row: u16,
    pub ws_col: u16,
    pub ws_xpixel: u16,
    pub ws_ypixel: u16,
}

/// A terminal size update: rows and columns, pixels dropped.
pub struct WindowSize {
    pub rows: u16,
    pub cols: u16,
}

/// The size update for a sampled geometry: rows and columns are passed
/// through untouched; any geometry, including zero, is valid.
pub fn window_size_of(ws: &Winsize) -> (s: WindowSize)
    ensures
        s.rows == ws.ws_row,
        s.cols == ws.ws_col,
{
    WindowSize { rows: ws.ws_row, cols: ws.ws_col }
}

/// Relies on nix's `tcgetsid` on stdin: the owning-session query succeeds
/// exactly on a controlling terminal. Whether it succeeds depends on the
/// process's environment, so nothing is promised of the answer.
#[verifier::external_body]
fn stdin_session_query_succeeds() -> bool {
    nix::sys::termios::tcgetsid(std::io::stdin()).is_ok()
}

/// Relies on nix's `tcgetattr` on stdin: returns the terminal's current
/// attributes, or nothing when the query fails. The attributes depend on
/// the terminal's state, so nothing is promised of the snapshot.
#[verifier::external_body]
fn capture_stdin_attributes() -> Option<Termios> {
    nix::sys::termios::tcgetattr(std::io::stdin()).ok()
}

/// Relies on `Termios::clone` from nix's derived `Clone`.
#[verifier::external_body]
fn clone_attributes(attrs: &Termios) -> Termios {
    attrs.clone()
}

/// Relies on nix's `cfmakeraw` for the conventional raw-mode
/// transformation, then sets the control characters so that reads block
/// for at least one byte with no inter-byte timeout.
#[verifier::external_body]
fn apply_raw_mode_settings(attrs: &mut Termios) {
    nix::sys::termios::cfmakeraw(attrs);
    attrs.control_chars[nix::libc::VTIME] = 0;
    attrs.control_chars[nix::libc::VMIN] = 1;
}

/// Relies on nix's `tcsetattr` with the flush-then-apply action, as both
/// the raw-mode switch and the restore use it: pending terminal data is
/// flushed before the attributes are applied. Success depends on the
/// descriptor, so only the call's outcome is reported.
#[verifier::external_body]
fn apply_stdin_attributes(attrs: &Termios) -> bool {
    nix::sys::termios::tcsetattr(std::io::stdin(), nix::sys::termios::SetArg::TCSAFLUSH, attrs)
        .is_ok()
}

/// Checks that stdin is connected to a controlling terminal; must pass
/// before any terminal attribute is mutated.
pub fn probe_local_terminal() -> (r: Result<(), RshError>)
    ensures
        (r matches Err(e) ==> e == RshError::NotATerminal),
{
    if stdin_session_query_succeeds() {
        Ok(())
    } else {
        Err(RshError::NotATerminal)
    }
}

/// Captures the terminal's current attributes, then switches it to raw
/// mode: no canonical processing, no echo, no signal generation, no
/// translation, reads blocking for at least one byte. Returns the
/// pre-mutation snapshot for the later restore; any failure of the
/// underlying attribute calls is the terminal-configuration error, and no
/// copy loop may start after it.
pub fn make_terminal_raw() -> (r: Result<Termios, RshError>)
    ensures
        (r matches Err(e) ==> e == RshError::TerminalConfigError),
{
    match capture_stdin_attributes() {
        None => Err(RshError::TerminalConfigError),
        Some(previous) => {
            let mut raw = clone_attributes(&previous);
            apply_raw_mode_settings(&mut raw);
            if apply_stdin_attributes(&raw) {
                Ok(previous)
            } else {
                Err(RshError::TerminalConfigError)
            }
        },
    }
}

/// Reapplies a captured snapshot, flushing pending terminal data first.
/// Runs on every exit path after a successful raw-mode switch; its
/// failure is reported as the terminal-configuration error, never
/// silently dropped and never in place of the error that ended the
/// session.
pub fn restore_term_attr(previous: &Termios) -> (r: Result<(), RshError>)
    ensures
        (r matches Err(e) ==> e == RshError::TerminalConfigError),
{
    if apply_stdin_attributes(previous) {
        Ok(())
    } else {
        Err(RshError::TerminalConfigError)
    }
}

/// In the model, restoring assigns the captured snapshot to the terminal
/// mode wholesale, whatever the mode had become.
pub open spec fn mode_after_restore<M>(current: M, snapshot: M) -> M {
    snapshot
}

/// Restoring a second time with the same captured snapshot is a no-op on
/// the modelled terminal mode, which is what makes the unconditional
/// restore-on-every-exit-path policy safe against double restores.
pub proof fn lemma_restore_idempotent<M>(current: M, snapshot: M)
    ensures
        mode_after_restore(mode_after_restore(current, snapshot), snapshot) == mode_after_restore(
            current,
            snapshot,
        ),
{
}

} // verus!
