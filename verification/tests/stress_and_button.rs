use boot_guard::button::{BSP_PB_Callback, DEFAULT_DELAY_MS, SLOW_DELAY_MS};

#[test]
fn stress_counts_up_to_the_limit() {
    assert_eq!(boot_guard::stress::test(0, 30), 30);
}

#[test]
fn stress_returns_increment_past_the_limit() {
    assert_eq!(boot_guard::stress::test(5, 3), 6);
}

#[test]
fn stress_with_zero_limit_returns_one() {
    assert_eq!(boot_guard::stress::test(0, 0), 1);
}

#[test]
fn user_button_toggles_the_delay() {
    assert_eq!(BSP_PB_Callback(0, DEFAULT_DELAY_MS), SLOW_DELAY_MS);
    assert_eq!(BSP_PB_Callback(0, SLOW_DELAY_MS), DEFAULT_DELAY_MS);
    assert_eq!(BSP_PB_Callback(0, 750), DEFAULT_DELAY_MS);
}

#[test]
fn other_buttons_leave_the_delay_alone() {
    assert_eq!(BSP_PB_Callback(1, DEFAULT_DELAY_MS), DEFAULT_DELAY_MS);
    assert_eq!(BSP_PB_Callback(7, SLOW_DELAY_MS), SLOW_DELAY_MS);
}
