use kubectl_rsh::shell::create_command;
use kubectl_rsh::shell::default_shell;

#[test]
fn default_shell_runs_bare_whatever_term_is() {
    assert_eq!(vec!["/bin/sh".to_owned()], create_command("/bin/sh", Some("xterm")));
    assert_eq!(vec!["/bin/sh".to_owned()], create_command("/bin/sh", None));
}

#[test]
fn other_shell_reexports_term() {
    assert_eq!(
        vec![
            "/bin/bash".to_owned(),
            "-c".to_owned(),
            "TERM=xterm /bin/bash".to_owned()
        ],
        create_command("/bin/bash", Some("xterm"))
    );
}

#[test]
fn other_shell_without_term_runs_bare() {
    assert_eq!(
        vec!["/bin/bash".to_owned()],
        create_command("/bin/bash", None)
    );
}

#[test]
fn the_default_shell_path_is_the_posix_one() {
    assert_eq!("/bin/sh", default_shell());
}
