use choot::devices::{device_plan, link_plan};
use choot::flags::DEV_NODE_MODE;

#[test]
fn device_table_identities() {
    let devs = device_plan();
    let expected: [(&str, u64, u64); 7] = [
        ("dev/null", 1, 3),
        ("dev/zero", 1, 5),
        ("dev/full", 1, 7),
        ("dev/random", 1, 8),
        ("dev/urandom", 1, 9),
        ("dev/tty", 5, 0),
        ("dev/ptmx", 5, 2),
    ];
    assert_eq!(devs.len(), expected.len());
    for (node, (path, major, minor)) in devs.iter().zip(expected.iter()) {
        assert_eq!(node.path, *path);
        assert_eq!(node.major, *major);
        assert_eq!(node.minor, *minor);
        assert_eq!(node.mode, DEV_NODE_MODE);
    }
}

#[test]
fn device_mode_is_rw_for_all() {
    assert_eq!(DEV_NODE_MODE, 0o666);
}

#[test]
fn link_table_entries() {
    let links = link_plan();
    assert_eq!(links.len(), 4);
    assert_eq!(links[0].link_target, "/proc/self/fd");
    assert_eq!(links[0].link_path, "dev/fd");
    assert_eq!(links[1].link_target, "/proc/self/fd/0");
    assert_eq!(links[1].link_path, "dev/stdin");
    assert_eq!(links[2].link_target, "/proc/self/fd/1");
    assert_eq!(links[2].link_path, "dev/stdout");
    assert_eq!(links[3].link_target, "/proc/self/fd/2");
    assert_eq!(links[3].link_path, "dev/stderr");
}
