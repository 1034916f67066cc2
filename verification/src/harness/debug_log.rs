//! Time stamps of the debug log.
//!
//! The monitor runs full-screen, so it cannot trace to the terminal; the log is a file that
//! survives quitting. Writing it is left to the caller.

use crate::text::{chars_of, dec, dec_string};
use vstd::prelude::*;
use vstd::string::*;

verus! {

/// Where the log goes where no other place is asked for.
pub const DEFAULT_LOG_PATH: &'static str = "/tmp/botc-tui-debug.log";

/// A number with characters before it, up to a width.
pub open spec fn filled_up(n: nat, width: nat, fill: char) -> Seq<char> {
    let d = dec(n);
    if d.len() < width { Seq::new((width - d.len()) as nat, |i: int| fill) + d } else { d }
}

fn fill_up(n: u64, width: usize, fill: char) -> (s: String)
    ensures
        s@ == filled_up(n as nat, width as nat, fill),
{
    let d = dec_string(n);
    let len = chars_of(d.as_str()).len();
    if len >= width {
        return d;
    }
    let mut s = String::new();
    let mut i: usize = 0;
    assert(s@ =~= Seq::new(0, |i: int| fill));
    while i < width - len
        invariant
            len < width,
            i <= width - len,
            s@ == Seq::new(i as nat, |i: int| fill),
        decreases width - len - i,
    {
        s.push(fill);
        i += 1;
        assert(s@ =~= Seq::new(i as nat, |i: int| fill));
    }
    s.append(d.as_str());
    s
}

/// Time of day and time since the start.
pub open spec fn stamp_words(unix_secs: u64, millis: u32, elapsed_ms: u64) -> Seq<char> {
    "["@ + filled_up(((unix_secs / 3600) % 24) as nat, 2, '0') + ":"@ + filled_up(
        ((unix_secs / 60) % 60) as nat,
        2,
        '0',
    ) + ":"@ + filled_up((unix_secs % 60) as nat, 2, '0') + "."@ + filled_up(millis as nat, 3, '0')
        + " +"@ + filled_up(elapsed_ms as nat, 6, ' ') + "ms]"@
}

/// Time of day and time since the start, for the head of a log line.
pub fn timestamp(unix_secs: u64, millis: u32, elapsed_ms: u64) -> (s: String)
    ensures
        s@ == stamp_words(unix_secs, millis, elapsed_ms),
{
    let mut s = "[".to_owned();
    s.append(fill_up((unix_secs / 3600) % 24, 2, '0').as_str());
    s.append(":");
    s.append(fill_up((unix_secs / 60) % 60, 2, '0').as_str());
    s.append(":");
    s.append(fill_up(unix_secs % 60, 2, '0').as_str());
    s.append(".");
    s.append(fill_up(millis as u64, 3, '0').as_str());
    s.append(" +");
    s.append(fill_up(elapsed_ms, 6, ' ').as_str());
    s.append("ms]");
    s
}

/// A log line.
pub fn log_line(stamp: &str, msg: &str) -> (s: String)
    ensures
        s@ == stamp@ + " "@ + msg@,
{
    let mut s = stamp.to_owned();
    s.append(" ");
    s.append(msg);
    s
}

} // verus!
