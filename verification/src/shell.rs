//! Shell invocation builder: constructs the remote command line for an
//! interactive session, optionally re-exporting the local `TERM` value
//! through a nested shell invocation.

use vstd::prelude::*;

verus! {

/// The conventional POSIX shell path used when no shell is requested.
pub open spec fn spec_default_shell() -> Seq<char> {
    "/bin/sh"@
}

/// Executable counterpart of [`spec_default_shell`].
pub fn default_shell() -> (s: &'static str)
    ensures
        s@ == spec_default_shell(),
{
    "/bin/sh"
}

/// The argv to run remotely, as the specification sees it.
///
/// * the default shell runs bare, with no environment forwarding;
/// * any other shell is re-invoked through `-c` with `TERM` re-exported,
///   when the local environment defines `TERM`;
/// * without a local `TERM`, any shell runs bare.
pub open spec fn spec_create_command(shell: Seq<char>, term: Option<Seq<char>>) -> Seq<
    Seq<char>,
> {
    if shell == spec_default_shell() {
        seq![shell]
    } else {
        match term {
            None => seq![shell],
            Some(t) => seq![shell, "-c"@, "TERM="@ + t + " "@ + shell],
        }
    }
}

/// Builds the remote argv for an interactive session.
///
/// `term` is the value of the local `TERM` variable, if defined; reading the
/// environment is the caller's concern, which keeps this a pure function.
pub fn create_command(shell: &str, term: Option<&str>) -> (cmd: Vec<String>)
    ensures
        cmd@.map_values(|s: String| s@) == spec_create_command(
            shell@,
            match term {
                None => None::<Seq<char>>,
                Some(t) => Some(t@),
            },
        ),
{
    let shell_string = shell.to_owned();
    let default = default_shell().to_owned();
    let mut cmd: Vec<String> = Vec::new();
    if shell_string == default {
        cmd.push(shell_string);
        assert(cmd@.map_values(|s: String| s@) =~= seq![shell@]);
    } else {
        match term {
            None => {
                cmd.push(shell_string);
                assert(cmd@.map_values(|s: String| s@) =~= seq![shell@]);
            },
            Some(t) => {
                let mut wrapped = String::from_str("TERM=");
                wrapped.append(t);
                wrapped.append(" ");
                wrapped.append(shell);
                cmd.push(shell_string);
                cmd.push(String::from_str("-c"));
                cmd.push(wrapped);
                assert(cmd@.map_values(|s: String| s@) =~= seq![
                    shell@,
                    "-c"@,
                    "TERM="@ + t@ + " "@ + shell@,
                ]);
            },
        }
    }
    cmd
}

} // verus!
