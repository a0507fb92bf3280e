//! The shell rules: what each argument list leads to, and how HTTP statuses
//! map to messages and exit codes.

use lgremote::{
    bad_key_outcome, command_outcome, display_code_outcome, pair_outcome, plan, sending_message,
    unknown_command_outcome, usage_outcome, Plan,
};

fn args(list: &[&str]) -> Vec<String> {
    list.iter().map(|s| s.to_string()).collect()
}

#[test]
fn no_address_prints_usage_and_fails() {
    assert_eq!(plan(&args(&["lgremote"])), Plan::Usage);
    assert_eq!(plan(&args(&[])), Plan::Usage);
    let o = usage_outcome("lgremote");
    assert_eq!(o.exit_code, 1);
    assert!(o.message.starts_with("Usage:\n\tlgremote IP [KEY] [COMMAND]"));
}

#[test]
fn one_argument_requests_the_display_code() {
    assert_eq!(plan(&args(&["lgremote", "192.168.1.250"])), Plan::DisplayCode);
    let ok = display_code_outcome(200);
    assert_eq!(ok.exit_code, 0);
    assert_eq!(ok.message, "Requested authkey to be displayed.");
}

#[test]
fn display_code_failure_points_at_the_ip() {
    let o = display_code_outcome(404);
    assert_eq!(o.exit_code, 1);
    assert_eq!(o.message, "Failed to request auth key. Check IP. Status: 404");
}

#[test]
fn two_arguments_pair_only() {
    assert_eq!(
        plan(&args(&["lgremote", "192.168.1.250", "1234"])),
        Plan::PairOnly { key: 1234 }
    );
    let ok = pair_outcome(200);
    assert_eq!(ok.exit_code, 0);
    assert_eq!(ok.message, "Paired with TV.");
}

#[test]
fn rejected_pairing_points_at_ip_and_key() {
    let o = pair_outcome(401);
    assert_eq!(o.exit_code, 1);
    assert_eq!(o.message, "Auth failed check IP/Key. Status 401.");
}

#[test]
fn three_arguments_pair_then_send_the_named_command() {
    assert_eq!(
        plan(&args(&["lgremote", "192.168.1.250", "1234", "volume_up"])),
        Plan::PairThenCommand { key: 1234, code: 24 }
    );
    assert_eq!(sending_message(24), "Sending command 24");
    let ok = command_outcome(200);
    assert_eq!(ok.exit_code, 0);
    assert_eq!(ok.message, "Command received.");
}

#[test]
fn command_failure_reports_the_status() {
    let o = command_outcome(500);
    assert_eq!(o.exit_code, 1);
    assert_eq!(o.message, "TV did not get command. Status: 500");
}

#[test]
fn unknown_command_fails_before_any_request() {
    assert_eq!(
        plan(&args(&["lgremote", "192.168.1.250", "1234", "not_a_command"])),
        Plan::UnknownCommand { key: 1234 }
    );
    let o = unknown_command_outcome();
    assert_eq!(o.exit_code, 1);
    assert_eq!(o.message, "Command not found.");
}

#[test]
fn malformed_key_fails_before_any_request() {
    assert_eq!(plan(&args(&["lgremote", "192.168.1.250", "abc"])), Plan::BadKey);
    assert_eq!(
        plan(&args(&["lgremote", "192.168.1.250", "12a", "volume_up"])),
        Plan::BadKey
    );
    let o = bad_key_outcome();
    assert_eq!(o.exit_code, 1);
    assert_eq!(o.message, "Key should be made up of digits.");
}

#[test]
fn extra_arguments_pair_and_ignore_the_rest() {
    assert_eq!(
        plan(&args(&["lgremote", "192.168.1.250", "1234", "volume_up", "extra"])),
        Plan::PairOnly { key: 1234 }
    );
}

#[test]
fn command_names_match_case_insensitively_in_a_plan() {
    assert_eq!(
        plan(&args(&["lgremote", "tv.local", "7", "Mute"])),
        Plan::PairThenCommand { key: 7, code: 26 }
    );
    assert_eq!(
        plan(&args(&["lgremote", "tv.local", "7", "APPS"])),
        Plan::PairThenCommand { key: 7, code: 417 }
    );
}
