use mcpwm::driver::{to_result, McpwmError, ESP_OK};
use mcpwm::group::{Group, Group0, Group1};
use mcpwm::units::Hertz;

#[test]
fn esp_ok_is_zero() {
    assert_eq!(ESP_OK, 0);
}

#[test]
fn to_result_accepts_the_success_status() {
    assert_eq!(to_result(0), Ok(()));
}

#[test]
fn to_result_keeps_the_code_of_a_failure() {
    assert_eq!(to_result(0x102), Err(McpwmError::Driver(0x102)));
    assert_eq!(to_result(1), Err(McpwmError::Driver(1)));
}

#[test]
fn to_result_treats_negative_codes_as_failures() {
    assert_eq!(to_result(-1), Err(McpwmError::Driver(-1)));
    assert_eq!(to_result(i32::MIN), Err(McpwmError::Driver(i32::MIN)));
    assert_eq!(to_result(i32::MAX), Err(McpwmError::Driver(i32::MAX)));
}

#[test]
fn groups_are_numbered_from_zero() {
    assert_eq!(<Group0 as Group>::ID, 0);
    assert_eq!(<Group1 as Group>::ID, 1);
}

#[test]
fn hertz_from_plain_number() {
    assert_eq!(Hertz::from(1000), Hertz(1000));
    let h: Hertz = 0u32.into();
    assert_eq!(h, Hertz(0));
    assert_eq!(Hertz::from(u32::MAX).0, u32::MAX);
}
