//! Pacing of outbound Telegram calls. Telegram allows a private chat one
//! message a second and a group twenty a minute (an edit counts like a
//! send), and a bot thirty calls a second overall. Every quota allows a
//! burst of one and paces strictly at its period; the limiter that waits
//! out the periods runs in the caller.

use vstd::prelude::*;

verus! {

/// Period of the global quota (about 29 calls a second, under the cap).
pub const GLOBAL_PERIOD_MS: u64 = 34;

/// Period of the quota of one chat: three seconds for groups and
/// supergroups (negative ids), one second for private chats.
pub fn chat_period_ms(chat_id: i64) -> (r: u64)
    ensures
        r == if chat_id < 0 {
            3000u64
        } else {
            1000u64
        },
{
    if chat_id < 0 {
        3000
    } else {
        1000
    }
}

} // verus!
