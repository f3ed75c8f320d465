//! Interactive remote-shell session library: a verified model of the session
//! multiplexer, terminal-mode lifecycle, resize coalescing policy, shell
//! invocation builder and command-line grammar used by the `kubectl_rsh` tool.

pub mod args;
pub mod coalesce;
pub mod errors;
pub mod oneshot;
pub mod session;
pub mod shell;
pub mod terminal;
