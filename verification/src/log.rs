use vstd::prelude::*;
use vstd::string::StringExecFns;

verus! {

/// The text of the moment `micros` after the epoch, rendered as
/// `%Y-%m-%d %H:%M:%S`: a fixed function of the offset alone.
pub uninterp spec fn timestamp_text(micros: i64) -> Seq<char>;

/// Offsets up to the end of year 9999 stay well inside the range chrono
/// can represent (about 262,000 years either side of the common era).
pub const MAX_LOG_TIMESTAMP_MICROS: i64 = 253_402_300_800_000_000;

/// Relies on chrono's `NaiveDateTime::from_timestamp_micros`, which returns
/// a value for every in-range epoch offset, and on its `%Y-%m-%d %H:%M:%S`
/// formatter, whose text depends on that value alone.
#[verifier::external_body]
#[allow(deprecated)]
fn format_timestamp(micros: i64) -> (r: String)
    requires
        0 <= micros < MAX_LOG_TIMESTAMP_MICROS,
    ensures
        r@ == timestamp_text(micros),
{
    let stamp = chrono::NaiveDateTime::from_timestamp_micros(micros)
        .expect("epoch offset out of range");
    stamp.format("%Y-%m-%d %H:%M:%S").to_string()
}

/// One log line: the timestamp of the moment `micros` after the epoch,
/// a space, the message, and a trailing newline.
pub fn log_line(micros: i64, msg: &str) -> (line: String)
    requires
        0 <= micros < MAX_LOG_TIMESTAMP_MICROS,
    ensures
        line@ == timestamp_text(micros) + " "@ + msg@ + "\n"@,
{
    let stamped = format_timestamp(micros);
    let with_space = stamped.concat(" ");
    let with_msg = with_space.concat(msg);
    with_msg.concat("\n")
}

} // verus!
