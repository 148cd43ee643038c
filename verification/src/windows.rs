use vstd::prelude::*;

use crate::duration::IdleDuration;
use crate::Error;

verus! {

/// The idle milliseconds the two native counters imply. Both are unsigned
/// 32-bit millisecond counters, so the difference wraps at 2^32; a counter
/// that wrapped since the last input (more than ~49.7 days of uptime) is a
/// known boundary limitation, not handled specially.
pub open spec fn wrapping_elapsed_ms(tick_count: u32, last_input_time: u32) -> int {
    if tick_count >= last_input_time {
        tick_count - last_input_time
    } else {
        tick_count - last_input_time + 0x1_0000_0000
    }
}

/// The whole Windows probe decision: `last_input_ok` is the status the
/// last-input query returned (zero means it failed), `tick_count` the
/// current system tick count and `last_input_time` the recorded tick count
/// of the last input event, both in milliseconds.
pub fn idle(last_input_ok: i32, tick_count: u32, last_input_time: u32) -> (r: Result<
    IdleDuration,
    Error,
>)
    ensures
        last_input_ok == 0 ==> (r matches Err(e) && e.cause@ == "failed to get last input info"@),
        last_input_ok != 0 ==> (r matches Ok(d) && d.wf() && d.total_nanos() == wrapping_elapsed_ms(
            tick_count,
            last_input_time,
        ) * 1_000_000),
        last_input_ok != 0 && tick_count >= last_input_time ==> (r matches Ok(d) && d.total_nanos()
            == (tick_count - last_input_time) * 1_000_000),
{
    if last_input_ok == 0 {
        Err(Error::new(String::from_str("failed to get last input info")))
    } else {
        let elapsed = tick_count.wrapping_sub(last_input_time);
        proof {
            assert(tick_count.wrapping_sub(last_input_time) == wrapping_elapsed_ms(
                tick_count,
                last_input_time,
            ));
        }
        Ok(IdleDuration::from_millis(elapsed as u64))
    }
}

} // verus!
