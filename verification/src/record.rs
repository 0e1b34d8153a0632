//! Recording an event: the timestamp string, the event file's name,
//! and the rendering of the file's contents.
//!
//! The caller supplies the cache directory, reads the clock through
//! [`timestamp`], and persists the returned file name and contents;
//! everything between those edges is computed here.

use vstd::prelude::*;
use vstd::string::StringExecFns;
use crate::decimal::dec_digits;
use crate::decimal::u64_to_dec;
use crate::event::Event;
use crate::event::event_json;

verus! {

pub const NANOS_PER_SEC: u32 = 1_000_000_000;

/// The timestamp string for a clock reading: seconds and nanoseconds
/// since the epoch as `"<secs>.<nanos>"`, or the sentinel `"0.0"`
/// where the clock could not produce a reading.
pub open spec fn timestamp_render(clock: Option<(u64, u32)>) -> Seq<char> {
    match clock {
        Some(t) => dec_digits(t.0 as nat) + "."@ + dec_digits(t.1 as nat),
        None => "0.0"@,
    }
}

/// Render a clock reading as the event timestamp string.
pub fn timestamp_string(clock: Option<(u64, u32)>) -> (r: String)
    ensures
        r@ == timestamp_render(clock),
{
    match clock {
        Some((secs, nanos)) => {
            let mut s = u64_to_dec(secs);
            s.append(".");
            let n = u64_to_dec(nanos as u64);
            s.append(n.as_str());
            proof {
                assert(s@ =~= timestamp_render(clock));
            }
            s
        },
        None => String::from_str("0.0"),
    }
}

/// Relies on `std::time::SystemTime::now` and
/// `SystemTime::duration_since(UNIX_EPOCH)`: the duration's
/// nanosecond part is always below one billion, and the reading fails
/// only where the clock is set before the epoch.
#[verifier::external_body]
fn now_since_epoch() -> (r: Option<(u64, u32)>)
    ensures
        r matches Some(t) ==> t.1 < NANOS_PER_SEC,
{
    match std::time::SystemTime::now().duration_since(std::time::UNIX_EPOCH) {
        Ok(d) => Some((d.as_secs(), d.subsec_nanos())),
        Err(_) => None,
    }
}

/// The current wall-clock time as an event timestamp string. A clock
/// failure degrades to the sentinel rather than aborting: recording
/// something is preferable to losing the event.
pub fn timestamp() -> (r: String)
    ensures
        exists|clock: Option<(u64, u32)>|
            {
                &&& (#[trigger] timestamp_render(clock)) == r@
                &&& (clock matches Some(t) ==> t.1 < NANOS_PER_SEC)
            },
{
    let clock = now_since_epoch();
    let r = timestamp_string(clock);
    proof {
        assert(timestamp_render(clock) == r@);
    }
    r
}

/// The name of the file a given event timestamp is recorded under.
pub open spec fn event_file_name_spec(timestamp: Seq<char>) -> Seq<char> {
    "event-"@ + timestamp + ".json"@
}

/// The file name for an event recorded at `timestamp`:
/// `event-<timestamp>.json`.
pub fn event_file_name(timestamp: &str) -> (r: String)
    ensures
        r@ == event_file_name_spec(timestamp@),
{
    let mut s = String::from_str("event-");
    s.append(timestamp);
    s.append(".json");
    proof {
        assert(s@ =~= event_file_name_spec(timestamp@));
    }
    s
}

/// Everything of recording an event that is not an edge: build the
/// event from its name, the client identifier and the timestamp, and
/// return the file name to record it under together with the file's
/// exact contents.
pub fn prepare_event_file(name: &str, clientid: &str, timestamp: &str) -> (r: (String, String))
    ensures
        r.0@ == event_file_name_spec(timestamp@),
        r.1@ == event_json(name@, clientid@, timestamp@),
{
    let event = Event::new(name, clientid, timestamp);
    let file_name = event_file_name(event.timestamp.as_str());
    let contents = event.to_json();
    (file_name, contents)
}

} // verus!
