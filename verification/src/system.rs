//! The clock, and the formatting of elapsed time.

use vstd::prelude::*;

use crate::strutil::dec_str;
use crate::strutil::u64_to_dec;

verus! {

/// Relies on std's SystemTime: seconds of the system clock since the
/// Unix epoch. The clock is the machine's; nothing is promised of the
/// value.
#[verifier::external_body]
pub fn current_timestamp() -> u64 {
    let start = std::time::SystemTime::now();
    match start.duration_since(std::time::UNIX_EPOCH) {
        Ok(since_the_epoch) => since_the_epoch.as_secs(),
        Err(_) => 0,
    }
}

/// A number padded to at least two digits.
pub open spec fn pad2_spec(n: nat) -> Seq<char> {
    if n < 10 {
        "0"@ + dec_str(n)
    } else {
        dec_str(n)
    }
}

/// `HH:MM:SS` of a span of seconds; hours may run past two digits.
pub open spec fn hms_spec(d: nat) -> Seq<char> {
    pad2_spec(d / 3600) + ":"@ + pad2_spec((d % 3600) / 60) + ":"@ + pad2_spec(d % 60)
}

/// The display of a timestamp against a reading of the clock: the time
/// since it, or, for a timestamp still ahead, the time until it with a
/// leading minus.
pub open spec fn offset_display_spec(now: u64, timestamp: u64) -> Seq<char> {
    if now >= timestamp {
        hms_spec((now - timestamp) as nat)
    } else {
        "-"@ + hms_spec((timestamp - now) as nat)
    }
}

/// Renders a number padded to at least two digits.
pub fn pad2(n: u64) -> (r: String)
    ensures
        r@ == pad2_spec(n as nat),
{
    if n < 10 {
        let mut out = String::from_str("0");
        let digits = u64_to_dec(n);
        out.append(digits.as_str());
        out
    } else {
        u64_to_dec(n)
    }
}

/// Renders a span of seconds as `HH:MM:SS`.
pub fn format_hms(d: u64) -> (r: String)
    ensures
        r@ == hms_spec(d as nat),
{
    let mut out = pad2(d / 3600);
    out.append(":");
    let minutes = pad2((d % 3600) / 60);
    out.append(minutes.as_str());
    out.append(":");
    let seconds = pad2(d % 60);
    out.append(seconds.as_str());
    out
}

/// Renders a timestamp against a given clock reading.
pub fn format_offset(now: u64, timestamp: u64) -> (r: String)
    ensures
        r@ == offset_display_spec(now, timestamp),
{
    if now >= timestamp {
        format_hms(now - timestamp)
    } else {
        let mut out = String::from_str("-");
        let rest = format_hms(timestamp - now);
        out.append(rest.as_str());
        out
    }
}

/// Renders a timestamp against the clock as it stands now: elapsed time
/// as `HH:MM:SS`, with a leading minus for a timestamp in the future.
pub fn format_unix_timestamp(timestamp: u64) -> (r: String)
    ensures
        exists|now: u64| r@ == offset_display_spec(now, timestamp),
{
    let now = current_timestamp();
    let r = format_offset(now, timestamp);
    proof {
        assert(r@ == offset_display_spec(now, timestamp));
    }
    r
}

} // verus!
