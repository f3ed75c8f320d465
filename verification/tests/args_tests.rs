use kubectl_rsh::args::Args;
use kubectl_rsh::args::ArgsError;

#[test]
fn parse_for_interractive() {
    let sut = Args::parse_from("kubectl-rsh shell -c first -s /bin/bash -n my_space").unwrap();

    assert_eq!("shell", sut.pod);
    assert_eq!(Some("first"), sut.container.as_ref().map(|i| i.as_str()));
    assert_eq!("/bin/bash", sut.shell);
    assert_eq!(Some("my_space"), sut.namespace.as_ref().map(|i| i.as_str()));
}

#[test]
fn parse_for_command() {
    let sut = Args::parse_from("kubectl-rsh shell ls -lAh").unwrap();

    assert_eq!("shell", sut.pod);
    assert_eq!(Some(vec!["ls".to_owned(), "-lAh".to_owned()]), sut.command);
}

#[test]
fn parse_defaults_shell_and_leaves_options_unset() {
    let sut = Args::parse_from("kubectl-rsh mypod").unwrap();

    assert_eq!("mypod", sut.pod);
    assert_eq!("/bin/sh", sut.shell);
    assert!(sut.container.is_none());
    assert!(sut.namespace.is_none());
    assert!(sut.command.is_none());
}

#[test]
fn parse_long_flags() {
    let sut = Args::parse_from(
        "kubectl-rsh shell --container first --shell /bin/bash --namespace my_space",
    )
    .unwrap();

    assert_eq!("shell", sut.pod);
    assert_eq!(Some("first"), sut.container.as_ref().map(|i| i.as_str()));
    assert_eq!("/bin/bash", sut.shell);
    assert_eq!(Some("my_space"), sut.namespace.as_ref().map(|i| i.as_str()));
}

#[test]
fn parse_missing_pod_name() {
    let r = Args::parse_from("kubectl-rsh");
    assert_eq!(Err(ArgsError::MissingPodName), r.map(|a| a.pod));
}

#[test]
fn parse_empty_argv() {
    let r = Args::parse(Vec::new());
    assert_eq!(Err(ArgsError::MissingPodName), r.map(|a| a.pod));
}

#[test]
fn parse_flag_without_value() {
    let r = Args::parse_from("kubectl-rsh shell -c");
    assert_eq!(Err(ArgsError::MissingFlagValue), r.map(|a| a.pod));
}

#[test]
fn parse_unknown_flag_before_command() {
    let r = Args::parse_from("kubectl-rsh shell -x foo");
    assert_eq!(Err(ArgsError::UnknownFlag), r.map(|a| a.pod));
}

#[test]
fn parse_duplicate_flag() {
    let r = Args::parse_from("kubectl-rsh shell -c one -c two");
    assert_eq!(Err(ArgsError::DuplicateFlag), r.map(|a| a.pod));
}

#[test]
fn parse_command_keeps_flag_like_tokens_verbatim() {
    let sut = Args::parse_from("kubectl-rsh shell ls -c -n --shell").unwrap();

    assert_eq!("shell", sut.pod);
    assert_eq!(
        Some(vec![
            "ls".to_owned(),
            "-c".to_owned(),
            "-n".to_owned(),
            "--shell".to_owned()
        ]),
        sut.command
    );
}
