//! Readings of the gateway's own health taken from kernel reports: the WiFi
//! signal of an interface (from `/proc/net/wireless`, or from the output of
//! `iw dev <interface> link`) and the resident memory of the process (from
//! `/proc/self/status`). The runtime reads the reports; this module reads
//! the values in them.

use crate::system::text::{
    chars_of, contains, contains_chars, fields, lines, parse_i32, parse_u64, spec_parse_i32, spec_parse_u64, split_fields,
    split_lines, starts_with, starts_with_chars, trim_end_dots, trim_end_dots_chars, trim_start, trim_start_chars,
};
use crate::system::domain::InternalEvent;
use crate::system::timer::TimerOrder;
use vstd::prelude::*;
use vstd::string::*;

verus! {

/// Quality (0 to 100) and level (dBm) of a WiFi signal.
#[derive(Debug, Clone, Copy, PartialEq, Eq, Structural)]
pub struct WifiSignal {
    pub rssi: i32,
    pub dbm: i32,
}

// ---------------------------------------------------------------------------
// Specification
// ---------------------------------------------------------------------------

/// Quality of a level: 0 at -90 dBm or below, 100 at -30 dBm or above,
/// linear (rounded toward zero) in between.
pub open spec fn spec_rssi_from_dbm(dbm: i32) -> i32 {
    if dbm <= -90 {
        0
    } else if dbm >= -30 {
        100
    } else {
        ((dbm + 90) * 100 / 60) as i32
    }
}

/// The signal on a line of `/proc/net/wireless`: the third and fourth fields
/// without their trailing dots; nothing when the line has fewer than four
/// fields or either value is not an integer.
pub open spec fn spec_proc_line(line: Seq<char>) -> Option<WifiSignal> {
    let f = fields(line);
    if f.len() < 4 {
        None
    } else {
        match (spec_parse_i32(trim_end_dots(f[2])), spec_parse_i32(trim_end_dots(f[3]))) {
            (Some(rssi), Some(dbm)) => Some(WifiSignal { rssi, dbm }),
            _ => None,
        }
    }
}

/// The signal of the first of `ls` that names the interface (after its
/// leading whitespace).
pub open spec fn spec_proc_pick(ls: Seq<Seq<char>>, interface: Seq<char>) -> Option<WifiSignal>
    decreases ls.len(),
{
    if ls.len() == 0 {
        None
    } else if starts_with(trim_start(ls[0]), interface) {
        spec_proc_line(trim_start(ls[0]))
    } else {
        spec_proc_pick(ls.drop_first(), interface)
    }
}

/// The signal of `interface` in `/proc/net/wireless`, whose first two lines
/// are headers.
pub open spec fn spec_wifi_from_proc(content: Seq<char>, interface: Seq<char>) -> Option<WifiSignal> {
    let ls = lines(content);
    if ls.len() <= 2 { None } else { spec_proc_pick(ls.skip(2), interface) }
}

/// The signal on a `signal:` line of `iw`: its second field is the level.
pub open spec fn spec_iw_line(line: Seq<char>) -> Option<WifiSignal> {
    let f = fields(line);
    if f.len() < 2 {
        None
    } else {
        match spec_parse_i32(f[1]) {
            Some(dbm) => Some(WifiSignal { rssi: spec_rssi_from_dbm(dbm), dbm }),
            None => None,
        }
    }
}

/// The signal of the first of `ls` that contains `signal:`.
pub open spec fn spec_iw_pick(ls: Seq<Seq<char>>) -> Option<WifiSignal>
    decreases ls.len(),
{
    if ls.len() == 0 {
        None
    } else if contains(ls[0], "signal:"@) {
        spec_iw_line(ls[0])
    } else {
        spec_iw_pick(ls.drop_first())
    }
}

/// The signal in the output of `iw dev <interface> link`.
pub open spec fn spec_wifi_from_iw(output: Seq<char>) -> Option<WifiSignal> {
    spec_iw_pick(lines(output))
}

/// The resident size (KiB) on the first `VmRSS:` line that has a second
/// field; nothing when that field is not an integer.
pub open spec fn spec_vmrss_pick(ls: Seq<Seq<char>>) -> Option<u64>
    decreases ls.len(),
{
    if ls.len() == 0 {
        None
    } else if starts_with(ls[0], "VmRSS:"@) && fields(ls[0]).len() >= 2 {
        spec_parse_u64(fields(ls[0])[1])
    } else {
        spec_vmrss_pick(ls.drop_first())
    }
}

/// The resident size (KiB) reported in `/proc/self/status`.
pub open spec fn spec_vmrss_kb(content: Seq<char>) -> Option<u64> {
    spec_vmrss_pick(lines(content))
}

// ---------------------------------------------------------------------------
// Executable
// ---------------------------------------------------------------------------

/// Quality (0 to 100) of a WiFi level in dBm.
pub fn calculate_rssi_from_dbm(dbm: i32) -> (r: i32)
    ensures
        r == spec_rssi_from_dbm(dbm),
        0 <= r <= 100,
{
    if dbm <= -90 {
        0
    } else if dbm >= -30 {
        100
    } else {
        let v = (dbm + 90) * 100 / 60;
        assert(0 <= v <= 100) by (nonlinear_arith)
            requires
                -90 < dbm < -30,
                v == (dbm + 90) * 100 / 60,
        ;
        if v < 0 {
            0
        } else if v > 100 {
            100
        } else {
            v
        }
    }
}

/// The signal of `interface` in the text of `/proc/net/wireless`: on the
/// first line after the two header lines that begins (after whitespace) with
/// the interface name, the third and fourth fields without trailing dots.
pub fn read_wifi_from_proc(content: &str, interface: &str) -> (r: Option<WifiSignal>)
    ensures
        r == spec_wifi_from_proc(content@, interface@),
{
    let chars = chars_of(content);
    let ls = split_lines(&chars);
    if ls.len() <= 2 {
        return None;
    }
    let ghost all: Seq<Seq<char>> = lines(content@);
    let mut i: usize = 2;
    proof {
        assert(all.skip(2).skip(0) =~= all.skip(2));
    }
    while i < ls.len()
        invariant
            ls@.len() == all.len(),
            forall|j: int| 0 <= j < ls@.len() ==> (#[trigger] ls@[j])@ == all[j],
            all == lines(content@),
            2 <= i <= ls@.len(),
            spec_proc_pick(all.skip(i as int), interface@) == spec_proc_pick(all.skip(2), interface@),
        decreases ls@.len() - i,
    {
        let trimmed = trim_start_chars(&ls[i]);
        proof {
            assert(all.skip(i as int)[0] == all[i as int]);
            assert(all.skip(i as int).drop_first() =~= all.skip(i as int + 1));
        }
        if starts_with_chars(&trimmed, interface) {
            proof {
                assert(all.skip(i as int).len() > 0);
                assert(spec_proc_pick(all.skip(i as int), interface@) == spec_proc_line(trim_start(all[i as int])));
            }
            let parts = split_fields(&trimmed);
            if parts.len() < 4 {
                return None;
            }
            proof {
                assert(parts@[2]@ == fields(trimmed@)[2]);
                assert(parts@[3]@ == fields(trimmed@)[3]);
            }
            let rssi_text = trim_end_dots_chars(&parts[2]);
            let dbm_text = trim_end_dots_chars(&parts[3]);
            let rssi = parse_i32(&rssi_text);
            let dbm = parse_i32(&dbm_text);
            return match (rssi, dbm) {
                (Some(rssi), Some(dbm)) => Some(WifiSignal { rssi, dbm }),
                _ => None,
            };
        }
        i = i + 1;
    }
    proof {
        assert(all.skip(i as int).len() == 0);
    }
    None
}

/// The signal in the output of `iw dev <interface> link`: on the first line
/// that contains `signal:`, the second field is the level, and the quality
/// follows from it.
pub fn read_wifi_from_iw(output: &str) -> (r: Option<WifiSignal>)
    ensures
        r == spec_wifi_from_iw(output@),
{
    let chars = chars_of(output);
    let ls = split_lines(&chars);
    let ghost all: Seq<Seq<char>> = lines(output@);
    let mut i: usize = 0;
    proof {
        assert(all.skip(0) =~= all);
    }
    while i < ls.len()
        invariant
            ls@.len() == all.len(),
            forall|j: int| 0 <= j < ls@.len() ==> (#[trigger] ls@[j])@ == all[j],
            all == lines(output@),
            i <= ls@.len(),
            spec_iw_pick(all.skip(i as int)) == spec_iw_pick(all),
        decreases ls@.len() - i,
    {
        proof {
            assert(all.skip(i as int)[0] == all[i as int]);
            assert(all.skip(i as int).drop_first() =~= all.skip(i as int + 1));
        }
        if contains_chars(&ls[i], "signal:") {
            proof {
                assert(all.skip(i as int).len() > 0);
                assert(spec_iw_pick(all.skip(i as int)) == spec_iw_line(all[i as int]));
            }
            let parts = split_fields(&ls[i]);
            if parts.len() < 2 {
                return None;
            }
            proof {
                assert(parts@[1]@ == fields(ls@[i as int]@)[1]);
            }
            return match parse_i32(&parts[1]) {
                Some(dbm) => Some(WifiSignal { rssi: calculate_rssi_from_dbm(dbm), dbm }),
                None => None,
            };
        }
        i = i + 1;
    }
    proof {
        assert(all.skip(i as int).len() == 0);
    }
    None
}

/// The WiFi signal of `interface`: from `/proc/net/wireless` when that report
/// was read and names the interface with a readable signal, otherwise from
/// the output of `iw` when it was obtained.
pub fn read_wifi_signal(proc_content: Option<&str>, iw_output: Option<&str>, interface: &str) -> (r: Option<WifiSignal>)
    ensures
        r == match proc_content {
            Some(c) if spec_wifi_from_proc(c@, interface@) is Some => spec_wifi_from_proc(c@, interface@),
            _ => match iw_output {
                Some(o) => spec_wifi_from_iw(o@),
                None => None,
            },
        },
{
    match proc_content {
        Some(c) => {
            let signal = read_wifi_from_proc(c, interface);
            if signal.is_some() {
                return signal;
            }
        },
        None => {},
    }
    match iw_output {
        Some(o) => read_wifi_from_iw(o),
        None => None,
    }
}

/// The resident size (KiB) in the text of `/proc/self/status`: the second
/// field of the first `VmRSS:` line that has one.
pub fn service_memory_kb(content: &str) -> (r: Option<u64>)
    ensures
        r == spec_vmrss_kb(content@),
{
    let chars = chars_of(content);
    let ls = split_lines(&chars);
    let ghost all: Seq<Seq<char>> = lines(content@);
    let mut i: usize = 0;
    proof {
        assert(all.skip(0) =~= all);
    }
    while i < ls.len()
        invariant
            ls@.len() == all.len(),
            forall|j: int| 0 <= j < ls@.len() ==> (#[trigger] ls@[j])@ == all[j],
            all == lines(content@),
            i <= ls@.len(),
            spec_vmrss_pick(all.skip(i as int)) == spec_vmrss_pick(all),
        decreases ls@.len() - i,
    {
        proof {
            assert(all.skip(i as int)[0] == all[i as int]);
            assert(all.skip(i as int).drop_first() =~= all.skip(i as int + 1));
        }
        if starts_with_chars(&ls[i], "VmRSS:") {
            let parts = split_fields(&ls[i]);
            if parts.len() >= 2 {
                proof {
                    assert(all.skip(i as int).len() > 0);
                    assert(parts@[1]@ == fields(ls@[i as int]@)[1]);
                    assert(spec_vmrss_pick(all.skip(i as int)) == spec_parse_u64(fields(all[i as int])[1]));
                }
                return parse_u64(&parts[1]);
            }
        }
        i = i + 1;
    }
    proof {
        assert(all.skip(i as int).len() == 0);
    }
    None
}

/// The resident memory of the process in MB (KiB × 1024 / 1 000 000), from
/// the text of `/proc/self/status`.
pub fn read_service_memory_mb(content: &str) -> (r: Option<u64>)
    requires
        spec_vmrss_kb(content@) matches Some(kb) ==> kb <= u64::MAX / 1024,
    ensures
        r == match spec_vmrss_kb(content@) {
            Some(kb) => Some(((kb * 1024) / 1000000) as u64),
            None => None,
        },
{
    match service_memory_kb(content) {
        Some(kb) => Some((kb * 1024) / 1000000),
        None => None,
    }
}


// ---------------------------------------------------------------------------
// Reporting cadence
// ---------------------------------------------------------------------------

/// Seconds between two metric reports.
pub const METRICS_PERIOD_SECS: u64 = 30;

/// How the metrics timer follows the server connection: reports run every
/// `METRICS_PERIOD_SECS` seconds while the server is connected and stop
/// while it is not; other events leave the timer alone.
pub fn metrics_on_connection(event: &InternalEvent) -> (r: Option<TimerOrder>)
    ensures
        r == match *event {
            InternalEvent::ServerConnected => Some(TimerOrder::Init(METRICS_PERIOD_SECS)),
            InternalEvent::ServerDisconnected => Some(TimerOrder::Stop),
            _ => None,
        },
{
    match event {
        InternalEvent::ServerConnected => Some(TimerOrder::Init(METRICS_PERIOD_SECS)),
        InternalEvent::ServerDisconnected => Some(TimerOrder::Stop),
        _ => None,
    }
}

} // verus!
