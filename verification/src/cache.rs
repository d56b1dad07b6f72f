use vstd::prelude::*;

use crate::location::LocationInfo;
use crate::time::TimeOfDay;

verus! {

// The on-disk cache format is the ASCII text `HH:MM:SS,HH:MM:SS`:
// the sunset time, a comma, the sunrise time, each field two zero-padded
// decimal digits. Byte 48 is '0', 57 is '9', 58 is ':', 44 is ','.

pub open spec fn is_digit(b: u8) -> bool {
    48 <= b <= 57
}

pub open spec fn digit_val(b: u8) -> int {
    b - 48
}

/// Eight bytes spelling a valid time of day as `HH:MM:SS`.
pub open spec fn valid_time_encoding(s: Seq<u8>) -> bool {
    &&& s.len() == 8
    &&& is_digit(s[0]) && is_digit(s[1])
    &&& s[2] == 58
    &&& is_digit(s[3]) && is_digit(s[4])
    &&& s[5] == 58
    &&& is_digit(s[6]) && is_digit(s[7])
    &&& digit_val(s[0]) * 10 + digit_val(s[1]) < 24
    &&& digit_val(s[3]) * 10 + digit_val(s[4]) < 60
    &&& digit_val(s[6]) * 10 + digit_val(s[7]) < 60
}

/// The time of day that a valid `HH:MM:SS` encoding denotes.
pub open spec fn time_of_encoding(s: Seq<u8>) -> TimeOfDay {
    TimeOfDay {
        hour: (digit_val(s[0]) * 10 + digit_val(s[1])) as u8,
        minute: (digit_val(s[3]) * 10 + digit_val(s[4])) as u8,
        second: (digit_val(s[6]) * 10 + digit_val(s[7])) as u8,
    }
}

/// The `HH:MM:SS` spelling of a time of day.
pub open spec fn encode_time(t: TimeOfDay) -> Seq<u8> {
    seq![
        (t.hour / 10 + 48) as u8,
        (t.hour % 10 + 48) as u8,
        58u8,
        (t.minute / 10 + 48) as u8,
        (t.minute % 10 + 48) as u8,
        58u8,
        (t.second / 10 + 48) as u8,
        (t.second % 10 + 48) as u8,
    ]
}

/// The serialized form of a location: sunset, comma, sunrise.
pub open spec fn spec_encode(info: LocationInfo) -> Seq<u8> {
    encode_time(info.sunset) + seq![44u8] + encode_time(info.sunrise)
}

/// What a cache file's bytes denote: a location when they spell exactly
/// `HH:MM:SS,HH:MM:SS` with both fields valid times, nothing otherwise.
pub open spec fn spec_parse(s: Seq<u8>) -> Option<LocationInfo> {
    if s.len() == 17 && s[8] == 44 && valid_time_encoding(s.subrange(0, 8))
        && valid_time_encoding(s.subrange(9, 17)) {
        Some(LocationInfo {
            sunset: time_of_encoding(s.subrange(0, 8)),
            sunrise: time_of_encoding(s.subrange(9, 17)),
        })
    } else {
        None
    }
}

/// Append the `HH:MM:SS` spelling of `t`.
fn push_time(out: &mut Vec<u8>, t: TimeOfDay)
    requires
        t.wf(),
    ensures
        final(out)@ == old(out)@ + encode_time(t),
{
    out.push(t.hour / 10 + 48);
    out.push(t.hour % 10 + 48);
    out.push(58);
    out.push(t.minute / 10 + 48);
    out.push(t.minute % 10 + 48);
    out.push(58);
    out.push(t.second / 10 + 48);
    out.push(t.second % 10 + 48);
    assert(out@ =~= old(out)@ + encode_time(t));
}

/// Parse the eight bytes at `off` as an `HH:MM:SS` time of day.
fn parse_time(data: &Vec<u8>, off: usize) -> (r: Option<TimeOfDay>)
    requires
        off + 8 <= data@.len(),
    ensures
        r is Some <==> valid_time_encoding(data@.subrange(off as int, off + 8)),
        r is Some ==> r.unwrap() == time_of_encoding(
            data@.subrange(off as int, off + 8),
        ) && r.unwrap().wf(),
{
    // the executable length bounds the indices off + k below usize::MAX
    let len = data.len();
    assert(off + 8 <= len);
    if data[off + 2] != 58 || data[off + 5] != 58 {
        return None;
    }
    let hour = match parse_two_digits(data, off, 24) {
        Some(v) => v,
        None => { return None },
    };
    let minute = match parse_two_digits(data, off + 3, 60) {
        Some(v) => v,
        None => { return None },
    };
    let second = match parse_two_digits(data, off + 6, 60) {
        Some(v) => v,
        None => { return None },
    };
    Some(TimeOfDay { hour, minute, second })
}

/// Parse the two bytes at `off` as a zero-padded decimal below `limit`.
fn parse_two_digits(data: &Vec<u8>, off: usize, limit: u8) -> (r: Option<u8>)
    requires
        off + 2 <= data@.len(),
    ensures
        r is Some <==> (is_digit(data@[off as int]) && is_digit(data@[off + 1])
            && digit_val(data@[off as int]) * 10 + digit_val(data@[off + 1]) < limit),
        r is Some ==> r.unwrap() == digit_val(data@[off as int]) * 10
            + digit_val(data@[off + 1]),
{
    // the executable length bounds the indices off + k below usize::MAX
    let len = data.len();
    assert(off + 2 <= len);
    let b0 = data[off];
    let b1 = data[off + 1];
    if b0 < 48 || b0 > 57 || b1 < 48 || b1 > 57 {
        return None;
    }
    let v = (b0 - 48) * 10 + (b1 - 48);
    if v < limit {
        Some(v)
    } else {
        None
    }
}

impl LocationInfo {
    /// Serialize to the cache format `HH:MM:SS,HH:MM:SS`, sunset first.
    pub fn cache_encode(&self) -> (r: Vec<u8>)
        requires
            self.wf(),
        ensures
            r@ == spec_encode(*self),
    {
        let mut out: Vec<u8> = Vec::new();
        push_time(&mut out, self.sunset);
        out.push(44);
        push_time(&mut out, self.sunrise);
        assert(out@ =~= spec_encode(*self));
        out
    }

    /// Read a location back from a cache file's bytes. Anything malformed —
    /// wrong length, wrong separators, a field that is not a valid time —
    /// yields None, never an error.
    pub fn cache_decode(data: &Vec<u8>) -> (r: Option<LocationInfo>)
        ensures
            r == spec_parse(data@),
            r is Some ==> r.unwrap().wf(),
    {
        if data.len() != 17 {
            return None;
        }
        if data[8] != 44 {
            return None;
        }
        let sunset = match parse_time(data, 0) {
            Some(t) => t,
            None => { return None },
        };
        let sunrise = match parse_time(data, 9) {
            Some(t) => t,
            None => { return None },
        };
        Some(LocationInfo { sunset, sunrise })
    }
}

/// Law: a stored location reads back exactly: for every valid location,
/// parsing its serialized form yields the location itself.
pub proof fn lemma_cache_round_trip(info: LocationInfo)
    requires
        info.wf(),
    ensures
        spec_parse(spec_encode(info)) == Some(info),
{
    let s = spec_encode(info);
    lemma_encode_time_inverts(info.sunset);
    lemma_encode_time_inverts(info.sunrise);
    assert(s.subrange(0, 8) =~= encode_time(info.sunset));
    assert(s.subrange(9, 17) =~= encode_time(info.sunrise));
}

/// A valid time's spelling is a valid encoding and denotes the time itself.
proof fn lemma_encode_time_inverts(t: TimeOfDay)
    requires
        t.wf(),
    ensures
        valid_time_encoding(encode_time(t)),
        time_of_encoding(encode_time(t)) == t,
{
    assert(t.hour / 10 * 10 + t.hour % 10 == t.hour);
    assert(t.minute / 10 * 10 + t.minute % 10 == t.minute);
    assert(t.second / 10 * 10 + t.second % 10 == t.second);
}

} // verus!
