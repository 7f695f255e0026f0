//! Container-metadata record for the info panel.
//!
//! The multimedia framework probes a file and hands over plain values:
//! an optional format description, a duration in microseconds, a bit
//! rate in bits per second, and a free-form tag table. This module turns
//! those values into the displayed record: a clock-style duration, a
//! megabit-per-second rate with two decimals, and a tag table with
//! normalized keys. The record is recomputed and replaced wholesale on
//! every probe; a failed probe leaves the previous record untouched.

use crate::numerals::{decimal_string, decimal_text, two_digit_text, two_digits};
use crate::tags::{normal_key, normalize_tags};
use vstd::prelude::*;
use vstd::string::*;

verus! {

/// Duration in whole seconds, with the framework's "unknown" and other
/// non-positive readings clamped to zero.
pub open spec fn clamped_seconds(duration_us: i64) -> int {
    if duration_us <= 0 {
        0
    } else {
        duration_us as int / 1_000_000
    }
}

/// Clock-style duration text: hours, minutes and seconds, each taken
/// modulo sixty and zero-padded to two digits.
pub open spec fn duration_text(duration_us: i64) -> Seq<char> {
    let s = clamped_seconds(duration_us);
    two_digit_text(s / 3600 % 60) + seq![':'] + two_digit_text(s / 60 % 60) + seq![':']
        + two_digit_text(s % 60)
}

/// Magnitude of a bit rate, in bits per second.
pub open spec fn abs_bits(bit_rate: i64) -> int {
    if bit_rate < 0 {
        -(bit_rate as int)
    } else {
        bit_rate as int
    }
}

/// The bit rate in hundredths of a megabit per second, rounded to the
/// nearest hundredth with halves away from zero.
pub open spec fn centi_mbps(bit_rate: i64) -> int {
    (abs_bits(bit_rate) + 5_000) / 10_000
}

/// The unit that follows the number.
pub open spec fn mbps_suffix() -> Seq<char> {
    seq![' ', 'M', 'b', 'p', 's']
}

/// Bit-rate text: megabits per second with exactly two decimals, a
/// leading minus sign for negative readings, and the unit suffix.
pub open spec fn bitrate_text(bit_rate: i64) -> Seq<char> {
    let sign: Seq<char> = if bit_rate < 0 {
        seq!['-']
    } else {
        Seq::empty()
    };
    sign + decimal_text((centi_mbps(bit_rate) / 100) as nat) + seq!['.'] + two_digit_text(
        centi_mbps(bit_rate) % 100,
    ) + mbps_suffix()
}

/// Format a microsecond duration as `HH:MM:SS`.
pub fn format_duration(duration_us: i64) -> (r: String)
    ensures
        r@ == duration_text(duration_us),
{
    let us: u64 = if duration_us <= 0 {
        0
    } else {
        duration_us as u64
    };
    let seconds: u64 = us / 1_000_000;
    proof {
        assert(seconds == clamped_seconds(duration_us));
    }
    let h: u64 = seconds / 3600 % 60;
    let m: u64 = seconds / 60 % 60;
    let s: u64 = seconds % 60;
    proof {
        reveal_strlit(":");
        assert(":"@ =~= seq![':']);
    }
    let mut r = two_digits(h);
    r.append(":");
    let mm = two_digits(m);
    r.append(mm.as_str());
    r.append(":");
    let ss = two_digits(s);
    r.append(ss.as_str());
    proof {
        assert(r@ =~= duration_text(duration_us));
    }
    r
}

/// Format a bit rate as megabits per second with two decimals.
pub fn format_bitrate(bit_rate: i64) -> (r: String)
    ensures
        r@ == bitrate_text(bit_rate),
{
    let magnitude: u64 = if bit_rate < 0 {
        proof {
            assert(-(bit_rate as int) <= 0x8000_0000_0000_0000);
        }
        (-(bit_rate as i128)) as u64
    } else {
        bit_rate as u64
    };
    proof {
        assert(magnitude == abs_bits(bit_rate));
    }
    let centi: u64 = (magnitude + 5_000) / 10_000;
    let whole: u64 = centi / 100;
    let frac: u64 = centi % 100;
    proof {
        reveal_strlit("-");
        reveal_strlit(".");
        reveal_strlit(" Mbps");
        assert("-"@ =~= seq!['-']);
        assert("."@ =~= seq!['.']);
        assert(" Mbps"@ =~= mbps_suffix());
    }
    let mut r = if bit_rate < 0 {
        String::from_str("-")
    } else {
        String::new()
    };
    let w = decimal_string(whole);
    r.append(w.as_str());
    r.append(".");
    let f = two_digits(frac);
    r.append(f.as_str());
    r.append(" Mbps");
    proof {
        assert(r@ =~= bitrate_text(bit_rate));
    }
    r
}

/// Plain values read from a container by the probing step: the detected
/// format's description, the total duration in microseconds, the bit
/// rate in bits per second, and the tag table in enumeration order.
#[derive(Debug)]
pub struct ProbeData {
    pub format: Option<String>,
    pub duration_us: i64,
    pub bit_rate: i64,
    pub tags: Vec<(String, String)>,
}

/// Commands the media-info panel accepts.
#[derive(Debug)]
pub enum MediaInfoMsg {
    /// Probe this file and replace the displayed record.
    GetInfo(String),
    /// Present the panel's window.
    Show,
}

/// A failed extraction, surfaced to the caller instead of aborting.
#[derive(Debug)]
pub enum ExtractError {
    /// The container could not be opened or probed.
    UnreadableContainer { path: String, cause: String },
}

/// Text of an unreadable-container error.
pub open spec fn unreadable_text(path: Seq<char>, cause: Seq<char>) -> Seq<char> {
    "could not read container "@ + path + ": "@ + cause
}

impl ExtractError {
    /// A display line for the error.
    pub fn message(&self) -> (r: String)
        ensures
            (match self {
                ExtractError::UnreadableContainer { path, cause } => r@ == unreadable_text(
                    path@,
                    cause@,
                ),
            }),
    {
        match self {
            ExtractError::UnreadableContainer { path, cause } => {
                let mut r = String::from_str("could not read container ");
                r.append(path.as_str());
                r.append(": ");
                r.append(cause.as_str());
                r
            }
        }
    }
}

/// The tag table as displayed: every key normalized, values and order
/// kept, duplicate keys kept as separate rows.
pub open spec fn normal_tags_view(ts: Seq<(Seq<char>, Seq<char>)>) -> Seq<(Seq<char>, Seq<char>)> {
    ts.map_values(|p: (Seq<char>, Seq<char>)| (normal_key(p.0), p.1))
}

/// State of the media-info panel: the record shown for the file probed
/// last, or nothing before the first successful probe.
#[derive(Debug)]
pub struct MediaInfoWindow {
    /// Detected container format's description, as probed.
    pub format: Option<String>,
    /// Duration as `HH:MM:SS`.
    pub duration: Option<String>,
    /// Bit rate as `X.YZ Mbps`.
    pub bitrate: Option<String>,
    /// Tag rows with normalized keys, in enumeration order.
    pub metadata: Vec<(String, String)>,
}

impl MediaInfoWindow {
    /// The panel shows exactly the record extracted from `d`.
    pub open spec fn shows(self, d: ProbeData) -> bool {
        &&& self.format.deep_view() == d.format.deep_view()
        &&& self.duration.deep_view() == Some(duration_text(d.duration_us))
        &&& self.bitrate.deep_view() == Some(bitrate_text(d.bit_rate))
        &&& self.metadata.deep_view() == normal_tags_view(d.tags.deep_view())
    }

    /// Empty panel: nothing probed yet.
    pub fn new() -> (r: MediaInfoWindow)
        ensures
            r.format is None,
            r.duration is None,
            r.bitrate is None,
            r.metadata@.len() == 0,
    {
        MediaInfoWindow { format: None, duration: None, bitrate: None, metadata: Vec::new() }
    }

    /// Apply one probe outcome. A successful probe replaces the whole
    /// record with the values extracted from it; a failed probe changes
    /// nothing and hands the error back.
    pub fn apply_probe(&mut self, probe: Result<ProbeData, ExtractError>) -> (r: Result<
        (),
        ExtractError,
    >)
        ensures
            (match probe {
                Ok(d) => final(self).shows(d) && r is Ok,
                Err(e) => *final(self) == *old(self) && r == Err::<(), ExtractError>(e),
            }),
    {
        match probe {
            Ok(d) => {
                let ghost tags0: Seq<(Seq<char>, Seq<char>)> = d.tags.deep_view();
                self.format = d.format;
                self.duration = Some(format_duration(d.duration_us));
                self.bitrate = Some(format_bitrate(d.bit_rate));
                self.metadata = normalize_tags(d.tags);
                proof {
                    assert(self.metadata.deep_view() =~= normal_tags_view(tags0));
                }
                Ok(())
            }
            Err(e) => Err(e),
        }
    }
}

/// Extraction is deterministic: two panels that show records probed from
/// the same container values show the same record, character for
/// character. Re-probing an unmodified file can therefore never change
/// what is displayed.
pub proof fn lemma_extract_deterministic(
    w1: MediaInfoWindow,
    w2: MediaInfoWindow,
    d1: ProbeData,
    d2: ProbeData,
)
    requires
        w1.shows(d1),
        w2.shows(d2),
        d1.format.deep_view() == d2.format.deep_view(),
        d1.duration_us == d2.duration_us,
        d1.bit_rate == d2.bit_rate,
        d1.tags.deep_view() == d2.tags.deep_view(),
    ensures
        w1.format.deep_view() == w2.format.deep_view(),
        w1.duration.deep_view() == w2.duration.deep_view(),
        w1.bitrate.deep_view() == w2.bitrate.deep_view(),
        w1.metadata.deep_view() == w2.metadata.deep_view(),
{
}

} // verus!
