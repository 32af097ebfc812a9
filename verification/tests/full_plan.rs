use choot::flags::{MS_MOVE, REC_SLAVE_FLAGS};
use choot::plan::build_plan;

#[test]
fn plan_composes_all_parts() {
    let plan = build_plan(
        "/var/jail",
        true,
        vec!["/bin/ls".to_string(), "/".to_string()],
        Some("/bin/zsh".to_string()),
        None,
    );

    assert_eq!(plan.mounts.len(), 6);
    assert_eq!(plan.mounts[0].target, "/");
    assert_eq!(plan.mounts[0].flags, REC_SLAVE_FLAGS);
    assert_eq!(plan.mounts[5].target, "/var/jail/dev");

    assert_eq!(plan.devices.len(), 7);
    assert_eq!(plan.links.len(), 4);

    assert_eq!(plan.root_move.source.as_deref(), Some("."));
    assert_eq!(plan.root_move.target, "/");
    assert_eq!(plan.root_move.flags, MS_MOVE);

    assert_eq!(plan.env.len(), 4);
    assert_eq!(plan.env[1], "SHELL=/bin/zsh");
    assert_eq!(plan.env[3], "TERM=");

    assert_eq!(plan.command, vec!["/bin/ls".to_string(), "/".to_string()]);
}

#[test]
fn plan_with_no_command_defaults_to_shell() {
    let plan = build_plan("/var/jail", false, Vec::new(), None, None);
    assert_eq!(plan.mounts.len(), 5);
    assert_eq!(plan.command, vec!["/bin/sh".to_string()]);
}
