//! Command-line grammar: a target name, optional container, shell and
//! namespace flags, and an optional trailing literal command whose presence
//! selects the one-shot path. Once the trailing command starts, every
//! remaining token belongs to it verbatim, flag-like or not.

use vstd::prelude::*;

use crate::shell::spec_default_shell;
use crate::shell::default_shell;

verus! {

/// Errors the command-line grammar reports.
#[derive(Clone, Copy, PartialEq, Eq, Structural, Debug)]
pub enum ArgsError {
    /// No target name was given.
    MissingPodName,
    /// A flag that takes a value ends the command line.
    MissingFlagValue,
    /// An unknown flag appears before the trailing command starts.
    UnknownFlag,
    /// A value-taking flag appears twice.
    DuplicateFlag,
}

/// The parsed command surface.
pub struct Args {
    /// Target name (required).
    pub pod: String,
    /// Sub-target name; defaults to the first available when omitted.
    pub container: Option<String>,
    /// Shell path; defaults to the conventional POSIX shell path.
    pub shell: String,
    /// Scope override; defaults to the current context's scope.
    pub namespace: Option<String>,
    /// The trailing literal command; its presence selects the one-shot path.
    pub command: Option<Vec<String>>,
}

/// The mathematical shape of a parsed command surface.
pub struct ArgsView {
    pub pod: Seq<char>,
    pub container: Option<Seq<char>>,
    pub shell: Seq<char>,
    pub namespace: Option<Seq<char>>,
    pub command: Option<Seq<Seq<char>>>,
}

impl View for Args {
    type V = ArgsView;

    open spec fn view(&self) -> ArgsView {
        ArgsView {
            pod: self.pod@,
            container: opt_string_view(self.container),
            shell: self.shell@,
            namespace: opt_string_view(self.namespace),
            command: match self.command {
                None => None,
                Some(c) => Some(c@.map_values(|t: String| t@)),
            },
        }
    }
}

/// The view of an optional string.
pub open spec fn opt_string_view(o: Option<String>) -> Option<Seq<char>> {
    match o {
        None => None,
        Some(s) => Some(s@),
    }
}

/// The views of a token list.
pub open spec fn tokens_view(v: Seq<String>) -> Seq<Seq<char>> {
    v.map_values(|t: String| t@)
}

/// What has been gathered while scanning the tokens.
pub struct PartialArgs {
    pub pod: Option<Seq<char>>,
    pub container: Option<Seq<char>>,
    pub shell: Option<Seq<char>>,
    pub namespace: Option<Seq<char>>,
    pub command: Option<Seq<Seq<char>>>,
}

/// Nothing gathered yet.
pub open spec fn empty_partial() -> PartialArgs {
    PartialArgs { pod: None, container: None, shell: None, namespace: None, command: None }
}

/// Closes a scan: the target name is required, the shell falls back to the
/// default, everything else stays as gathered.
pub open spec fn finalize(st: PartialArgs) -> Result<ArgsView, ArgsError> {
    match st.pod {
        None => Err(ArgsError::MissingPodName),
        Some(p) => Ok(
            ArgsView {
                pod: p,
                container: st.container,
                shell: match st.shell {
                    None => spec_default_shell(),
                    Some(s) => s,
                },
                namespace: st.namespace,
                command: st.command,
            },
        ),
    }
}

pub open spec fn is_container_flag(t: Seq<char>) -> bool {
    t == "-c"@ || t == "--container"@
}

pub open spec fn is_shell_flag(t: Seq<char>) -> bool {
    t == "-s"@ || t == "--shell"@
}

pub open spec fn is_namespace_flag(t: Seq<char>) -> bool {
    t == "-n"@ || t == "--namespace"@
}

/// A token that looks like a flag: two or more characters, the first a dash.
pub open spec fn is_flag_like(t: Seq<char>) -> bool {
    t.len() >= 2 && t[0] == '-'
}

/// The grammar itself, one token at a time. Tokens of a started trailing
/// command are taken verbatim; before that, the three value-taking flags
/// are recognised, any other flag-like token is refused, the first bare
/// token names the target, and the next one starts the trailing command.
pub open spec fn parse_rest(st: PartialArgs, toks: Seq<Seq<char>>) -> Result<
    ArgsView,
    ArgsError,
>
    decreases toks.len(),
{
    if toks.len() == 0 {
        finalize(st)
    } else {
        let t = toks[0];
        if st.command is Some {
            parse_rest(
                PartialArgs {
                    command: match st.command {
                        Some(c) => Some(c.push(t)),
                        None => None,
                    },
                    ..st
                },
                toks.skip(1),
            )
        } else if is_container_flag(t) || is_shell_flag(t) || is_namespace_flag(t) {
            if toks.len() < 2 {
                Err(ArgsError::MissingFlagValue)
            } else {
                let v = toks[1];
                if is_container_flag(t) {
                    if st.container is Some {
                        Err(ArgsError::DuplicateFlag)
                    } else {
                        parse_rest(PartialArgs { container: Some(v), ..st }, toks.skip(2))
                    }
                } else if is_shell_flag(t) {
                    if st.shell is Some {
                        Err(ArgsError::DuplicateFlag)
                    } else {
                        parse_rest(PartialArgs { shell: Some(v), ..st }, toks.skip(2))
                    }
                } else {
                    if st.namespace is Some {
                        Err(ArgsError::DuplicateFlag)
                    } else {
                        parse_rest(PartialArgs { namespace: Some(v), ..st }, toks.skip(2))
                    }
                }
            }
        } else if is_flag_like(t) {
            Err(ArgsError::UnknownFlag)
        } else if st.pod is None {
            parse_rest(PartialArgs { pod: Some(t), ..st }, toks.skip(1))
        } else {
            parse_rest(PartialArgs { command: Some(seq![t]), ..st }, toks.skip(1))
        }
    }
}

/// The whole command line: the first token names the program and is
/// skipped; an empty line has no target name.
pub open spec fn spec_parse(argv: Seq<Seq<char>>) -> Result<ArgsView, ArgsError> {
    if argv.len() == 0 {
        Err(ArgsError::MissingPodName)
    } else {
        parse_rest(empty_partial(), argv.skip(1))
    }
}

/// A parse result, seen mathematically.
pub open spec fn result_view(r: Result<Args, ArgsError>) -> Result<ArgsView, ArgsError> {
    match r {
        Ok(a) => Ok(a@),
        Err(e) => Err(e),
    }
}

/// True exactly when the token reads as the given literal.
fn token_is(t: &String, lit: &str) -> (b: bool)
    ensures
        b == (t@ == lit@),
{
    let l: String = lit.to_owned();
    *t == l
}

impl Args {
    /// Parses a full command line, program name first.
    pub fn parse(argv: Vec<String>) -> (r: Result<Args, ArgsError>)
        ensures
            result_view(r) == spec_parse(tokens_view(argv@)),
    {
        if argv.len() == 0 {
            return Err(ArgsError::MissingPodName);
        }
        let ghost toks = tokens_view(argv@);
        let mut rest: Vec<String> = Vec::new();
        let mut k: usize = 1;
        while k < argv.len()
            invariant
                1 <= k <= argv@.len(),
                rest@.len() == k - 1,
                forall|m: int| 0 <= m < rest@.len() ==> rest@[m] == argv@[m + 1],
            decreases argv@.len() - k,
        {
            rest.push(argv[k].clone());
            k = k + 1;
        }
        proof {
            assert(tokens_view(rest@) =~= toks.skip(1));
        }
        Self::build(rest)
    }

    /// Parses a full command line given as one space-separated string.
    pub fn parse_from(line: &str) -> (r: Result<Args, ArgsError>)
        ensures
            result_view(r) == spec_parse(spec_split_spaces(line@)),
    {
        let argv = split_spaces(line);
        Args::parse(argv)
    }

    /// Scans the tokens that follow the program name.
    fn build(tokens: Vec<String>) -> (r: Result<Args, ArgsError>)
        ensures
            result_view(r) == parse_rest(empty_partial(), tokens_view(tokens@)),
    {
        let ghost toks = tokens_view(tokens@);
        let n = tokens.len();
        let mut pod: Option<String> = None;
        let mut container: Option<String> = None;
        let mut shell: Option<String> = None;
        let mut namespace: Option<String> = None;
        let mut command_started = false;
        let mut command: Vec<String> = Vec::new();
        let mut i: usize = 0;
        proof {
            assert(toks.skip(0) =~= toks);
        }
        while i < n
            invariant
                i <= n,
                n == tokens@.len(),
                toks == tokens_view(tokens@),
                !command_started ==> command@.len() == 0,
                parse_rest(
                    (PartialArgs {
                        pod: opt_string_view(pod),
                        container: opt_string_view(container),
                        shell: opt_string_view(shell),
                        namespace: opt_string_view(namespace),
                        command: if command_started {
                            Some(tokens_view(command@))
                        } else {
                            None
                        },
                    }),
                    toks.skip(i as int),
                ) == parse_rest(empty_partial(), toks),
            decreases n - i,
        {
            let ghost st = PartialArgs {
                pod: opt_string_view(pod),
                container: opt_string_view(container),
                shell: opt_string_view(shell),
                namespace: opt_string_view(namespace),
                command: if command_started {
                    Some(tokens_view(command@))
                } else {
                    None
                },
            };
            proof {
                assert(toks.skip(i as int).len() == n - i);
                assert(toks.skip(i as int)[0] == toks[i as int]);
                assert(toks.skip(i as int).skip(1) =~= toks.skip(i as int + 1));
            }
            let t = &tokens[i];
            if command_started {
                command.push(t.clone());
                proof {
                    assert(tokens_view(command@) =~= st.command.unwrap().push(toks[i as int]));
                }
                i = i + 1;
                continue;
            }
            let c_flag = token_is(t, "-c") || token_is(t, "--container");
            let s_flag = token_is(t, "-s") || token_is(t, "--shell");
            let n_flag = token_is(t, "-n") || token_is(t, "--namespace");
            if c_flag || s_flag || n_flag {
                if i + 1 >= n {
                    return Err(ArgsError::MissingFlagValue);
                }
                proof {
                    assert(toks.skip(i as int)[1] == toks[i as int + 1]);
                    assert(toks.skip(i as int).skip(2) =~= toks.skip(i as int + 2));
                }
                let v = tokens[i + 1].clone();
                if c_flag {
                    if container.is_some() {
                        return Err(ArgsError::DuplicateFlag);
                    }
                    container = Some(v);
                } else if s_flag {
                    if shell.is_some() {
                        return Err(ArgsError::DuplicateFlag);
                    }
                    shell = Some(v);
                } else {
                    if namespace.is_some() {
                        return Err(ArgsError::DuplicateFlag);
                    }
                    namespace = Some(v);
                }
                i = i + 2;
                continue;
            }
            let flag_like = t.as_str().unicode_len() >= 2 && t.as_str().get_char(0) == '-';
            if flag_like {
                return Err(ArgsError::UnknownFlag);
            }
            if pod.is_none() {
                pod = Some(t.clone());
            } else {
                command_started = true;
                command.push(t.clone());
                proof {
                    assert(tokens_view(command@) =~= seq![toks[i as int]]);
                }
            }
            i = i + 1;
        }
        proof {
            assert(toks.skip(i as int) =~= Seq::<Seq<char>>::empty());
        }
        let shell_value = match shell {
            None => default_shell().to_owned(),
            Some(s) => s,
        };
        match pod {
            None => Err(ArgsError::MissingPodName),
            Some(p) => Ok(
                Args {
                    pod: p,
                    container,
                    shell: shell_value,
                    namespace,
                    command: if command_started {
                        Some(command)
                    } else {
                        None
                    },
                },
            ),
        }
    }
}

/// Splits a command line on single spaces; consecutive spaces yield empty
/// tokens, as the scan position by position prescribes.
pub open spec fn split_step(s: Seq<char>, start: int, i: int, toks: Seq<Seq<char>>) -> Seq<
    Seq<char>,
>
    decreases s.len() - i,
{
    if i >= s.len() {
        toks.push(s.subrange(start, s.len() as int))
    } else if s[i] == ' ' {
        split_step(s, i + 1, i + 1, toks.push(s.subrange(start, i)))
    } else {
        split_step(s, start, i + 1, toks)
    }
}

/// The tokens of a space-separated command line.
pub open spec fn spec_split_spaces(s: Seq<char>) -> Seq<Seq<char>> {
    split_step(s, 0, 0, Seq::empty())
}

/// Splits a command line into its space-separated tokens.
fn split_spaces(line: &str) -> (toks: Vec<String>)
    ensures
        tokens_view(toks@) == spec_split_spaces(line@),
{
    let n = line.unicode_len();
    let mut toks: Vec<String> = Vec::new();
    let mut start: usize = 0;
    let mut i: usize = 0;
    proof {
        assert(tokens_view(toks@) =~= Seq::<Seq<char>>::empty());
    }
    while i < n
        invariant
            start <= i <= n,
            n == line@.len(),
            split_step(line@, start as int, i as int, tokens_view(toks@)) == spec_split_spaces(
                line@,
            ),
        decreases n - i,
    {
        if line.get_char(i) == ' ' {
            let piece = line.substring_char(start, i).to_owned();
            proof {
                assert(tokens_view(toks@.push(piece)) =~= tokens_view(toks@).push(
                    line@.subrange(start as int, i as int),
                ));
            }
            toks.push(piece);
            start = i + 1;
        }
        i = i + 1;
    }
    let piece = line.substring_char(start, n).to_owned();
    proof {
        assert(tokens_view(toks@.push(piece)) =~= tokens_view(toks@).push(
            line@.subrange(start as int, line@.len() as int),
        ));
    }
    toks.push(piece);
    toks
}

} // verus!
