use cursor_speed_pin::decimal::{push_decimal, push_signed_decimal};
use cursor_speed_pin::message::Message;
use cursor_speed_pin::state::PinState;
use cursor_speed_pin::status::{update_status, IconVariant};

fn decimal_of(n: u32) -> String {
    let mut text = String::new();
    push_decimal(&mut text, n);
    text
}

fn signed_decimal_of(n: i32) -> String {
    let mut text = String::new();
    push_signed_decimal(&mut text, n);
    text
}

#[test]
fn decimal_numerals() {
    assert_eq!(decimal_of(0), "0");
    assert_eq!(decimal_of(7), "7");
    assert_eq!(decimal_of(10), "10");
    assert_eq!(decimal_of(20), "20");
    assert_eq!(decimal_of(255), "255");
    assert_eq!(decimal_of(1000), "1000");
    assert_eq!(decimal_of(u32::MAX), "4294967295");
}

#[test]
fn decimal_numerals_agree_with_the_standard_library() {
    for n in (0..100_000u32).step_by(37) {
        assert_eq!(decimal_of(n), n.to_string());
    }
}

#[test]
fn decimal_is_appended_to_what_is_there() {
    let mut text = String::from("speed ");
    push_decimal(&mut text, 12);
    assert_eq!(text, "speed 12");
}

#[test]
fn signed_decimal_numerals() {
    assert_eq!(signed_decimal_of(0), "0");
    assert_eq!(signed_decimal_of(42), "42");
    assert_eq!(signed_decimal_of(-1), "-1");
    assert_eq!(signed_decimal_of(-120), "-120");
    assert_eq!(signed_decimal_of(i32::MAX), "2147483647");
    assert_eq!(signed_decimal_of(i32::MIN), "-2147483648");
}

#[test]
fn message_texts() {
    assert_eq!(Message::Pinned { speed: 10 }.text(), "Pinning cursor speed of 10");
    assert_eq!(Message::Unpinned.text(), "Unpinned cursor speed");
    assert_eq!(
        Message::SpeedReset { observed: 7, desired: 10 }.text(),
        "Speed was set to 7, resetting to desired speed 10"
    );
    assert_eq!(
        Message::SpeedReset { observed: 255, desired: 0 }.text(),
        "Speed was set to 255, resetting to desired speed 0"
    );
    assert_eq!(
        Message::SetFailed.text(),
        "Failed to set cursor speed, see the log file for more."
    );
    assert_eq!(
        Message::GetFailed.text(),
        "Failed to get current cursor speed, see the logfile for more."
    );
}

#[test]
fn failures_are_told_apart() {
    assert!(Message::SetFailed.is_failure());
    assert!(Message::GetFailed.is_failure());
    assert!(!Message::Unpinned.is_failure());
    assert!(!Message::Pinned { speed: 1 }.is_failure());
    assert!(!Message::SpeedReset { observed: 1, desired: 2 }.is_failure());
}

#[test]
fn status_of_an_active_state() {
    let update = update_status(&PinState { enabled: true, desired_speed: 12 });
    assert_eq!(update.notification, "Pinning cursor speed of 12");
    assert_eq!(update.tooltip, "Enabled, Speed: 12");
    assert_eq!(update.icon, IconVariant::Enabled);
}

#[test]
fn status_of_an_idle_state() {
    let update = update_status(&PinState { enabled: false, desired_speed: 12 });
    assert_eq!(update.notification, "Unpinned cursor speed");
    assert_eq!(update.tooltip, "Disabled");
    assert_eq!(update.icon, IconVariant::Disabled);
}
