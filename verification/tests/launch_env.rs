use choot::launch::{build_env, command_or_default};

#[test]
fn env_inherits_shell_and_term() {
    let env = build_env(Some("/bin/bash".to_string()), Some("xterm-256color".to_string()));
    assert_eq!(
        env,
        vec![
            "HOME=/root".to_string(),
            "SHELL=/bin/bash".to_string(),
            "PATH=/usr/sbin:/usr/bin:/sbin:/bin".to_string(),
            "TERM=xterm-256color".to_string(),
        ]
    );
}

#[test]
fn env_unset_variables_stay_as_empty_entries() {
    // An unset SHELL or TERM is passed with an empty value, not omitted.
    let env = build_env(None, None);
    assert_eq!(env.len(), 4);
    assert_eq!(env[1], "SHELL=");
    assert_eq!(env[3], "TERM=");
}

#[test]
fn command_defaults_to_shell() {
    let cmd = command_or_default(Vec::new());
    assert_eq!(cmd, vec!["/bin/sh".to_string()]);
}

#[test]
fn command_passes_arguments_through_in_order() {
    let args = vec!["/usr/bin/env".to_string(), "ls".to_string(), "-l".to_string()];
    let cmd = command_or_default(args.clone());
    assert_eq!(cmd, args);
}
