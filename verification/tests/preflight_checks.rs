use choot::invocation::{
    preflight, refusal_exit_code, Preflight, PRIVILEGE_EXIT_CODE, USAGE_EXIT_CODE,
};

#[test]
fn non_root_with_target_is_refused_with_code_one() {
    let d = preflight(1000, true);
    assert_eq!(d, Preflight::NotRoot);
    assert_eq!(refusal_exit_code(&d), Some(1));
    assert_eq!(PRIVILEGE_EXIT_CODE, 1);
}

#[test]
fn missing_target_is_refused_with_code_two() {
    let d = preflight(0, false);
    assert_eq!(d, Preflight::MissingTarget);
    assert_eq!(refusal_exit_code(&d), Some(2));
    assert_eq!(USAGE_EXIT_CODE, 2);
}

#[test]
fn argument_check_precedes_privilege_check() {
    // Without a target the invocation is malformed even for a non-root
    // caller: the usage refusal wins.
    assert_eq!(preflight(1000, false), Preflight::MissingTarget);
}

#[test]
fn root_with_target_runs() {
    let d = preflight(0, true);
    assert_eq!(d, Preflight::Run);
    assert_eq!(refusal_exit_code(&d), None);
}
