use noc::update::{
    encode_arg, encode_args, helper_step, restore_previous, stage_name, update_wanted, HelperStep,
};

fn args(list: &[&str]) -> Vec<String> {
    list.iter().map(|a| a.to_string()).collect()
}

#[test]
fn update_runs_by_default() {
    assert!(update_wanted("noc-agent", None, None, &args(&["noc", "agent"])));
}

#[test]
fn freshly_installed_executable_skips_its_own_update() {
    assert!(!update_wanted("noc-agent", Some("noc-agent"), None, &args(&["noc"])));
    assert!(update_wanted("noc-agent", Some("noc-manager"), None, &args(&["noc"])));
}

#[test]
fn updates_can_be_disabled_by_environment() {
    assert!(!update_wanted("noc-manager", None, Some("1"), &args(&["noc"])));
    assert!(update_wanted("noc-manager", None, Some("0"), &args(&["noc"])));
}

#[test]
fn informational_flags_never_update() {
    for flag in ["--version", "-V", "--set-credentials", "--no-update"] {
        assert!(!update_wanted("noc-agent", None, None, &args(&["noc", "agent", flag])));
    }
    assert!(update_wanted("noc-agent", None, None, &args(&["noc", "--versions"])));
}

#[test]
fn staging_directory_name() {
    assert_eq!(stage_name("noc-agent", 42, 1_700_000_000_123_456_789), "noc-agent-42-1700000000123456789");
}

#[test]
fn arguments_are_hex_encoded_one_per_line() {
    assert_eq!(encode_arg(&vec![0x61, 0x0a, 0xff, 0x00]), "x610aff00");
    assert_eq!(encode_arg(&vec![]), "x");
    assert_eq!(encode_args(&vec![b"agent".to_vec(), vec![], vec![0xe9]]), "x6167656e74\nx\nxe9");
    assert_eq!(encode_args(&vec![]), "");
}

#[test]
fn helper_hand_off_restart_and_time_limit() {
    assert!(matches!(helper_step(true, None, 0, false), HelperStep::HandOff));
    assert!(matches!(helper_step(false, Some(Some(20)), 10, true), HelperStep::Restart));
    assert!(matches!(helper_step(false, Some(Some(20)), 10, false), HelperStep::KeepCurrent));
    assert!(matches!(helper_step(false, Some(Some(0)), 10, true), HelperStep::KeepCurrent));
    assert!(matches!(helper_step(false, Some(None), 10, true), HelperStep::KeepCurrent));
    assert!(matches!(helper_step(false, None, 44_999, true), HelperStep::Wait));
    assert!(matches!(helper_step(false, None, 45_000, true), HelperStep::TimedOut));
}

#[test]
fn previous_executable_is_restored_only_if_unchanged() {
    assert!(restore_previous(7, Some(7)));
    assert!(!restore_previous(7, Some(8)));
    assert!(!restore_previous(7, None));
}
