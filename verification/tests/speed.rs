use cursor_speed_pin::speed::{get_mouse_speed, set_mouse_speed, SetSpeedError};

#[test]
fn an_answered_query_has_the_stored_speed() {
    assert_eq!(get_mouse_speed(1, 10), Some(10));
    assert_eq!(get_mouse_speed(1, 1), Some(1));
    assert_eq!(get_mouse_speed(-1, 20), Some(20));
    assert_eq!(get_mouse_speed(1, 0), Some(0));
}

#[test]
fn a_refused_query_has_no_speed() {
    assert_eq!(get_mouse_speed(0, 10), None);
    assert_eq!(get_mouse_speed(0, 0), None);
}

#[test]
fn an_accepted_write_is_ok() {
    assert_eq!(set_mouse_speed(1), Ok(()));
    assert_eq!(set_mouse_speed(-7), Ok(()));
}

#[test]
fn a_refused_write_is_an_error_with_its_status() {
    let outcome = set_mouse_speed(0);
    assert_eq!(outcome, Err(SetSpeedError { status: 0 }));
    assert_eq!(
        outcome.unwrap_err().message(),
        "Failed to set mouse speed, return code was 0"
    );
}

#[test]
fn the_error_names_its_status() {
    assert_eq!(
        SetSpeedError { status: -3 }.message(),
        "Failed to set mouse speed, return code was -3"
    );
}
