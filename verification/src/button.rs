//! The user-button callback's decision logic. The board support package
//! reports which button raised the interrupt; the callback's only decision
//! is the next delay for the application's blink loop. The delay is explicit
//! state passed in and returned — no hidden process-wide mutable value.

use vstd::prelude::*;

verus! {

/// Delay, in milliseconds, the blink loop starts with.
pub const DEFAULT_DELAY_MS: u32 = 500;

/// Delay, in milliseconds, the blink loop toggles to.
pub const SLOW_DELAY_MS: u32 = 1000;

/// Next blink-loop delay after a button event: the user button (id 0)
/// toggles the delay between the default and the slow value; any other
/// button leaves it unchanged.
#[allow(non_snake_case)]
pub fn BSP_PB_Callback(Button: u32, delay_ms: u32) -> (next_delay_ms: u32)
    ensures
        Button == 0 ==> next_delay_ms == (if delay_ms == DEFAULT_DELAY_MS {
            SLOW_DELAY_MS
        } else {
            DEFAULT_DELAY_MS
        }),
        Button != 0 ==> next_delay_ms == delay_ms,
{
    if Button == 0 {
        if delay_ms == DEFAULT_DELAY_MS {
            SLOW_DELAY_MS
        } else {
            DEFAULT_DELAY_MS
        }
    } else {
        delay_ms
    }
}

} // verus!
