//! Capture times rendered as `YYYY-MM-DDTHH:MM:SS.mmmZ`.
use vstd::prelude::*;
use vstd::string::is_ascii;

verus! {

broadcast use vstd::string::is_ascii_spec_bytes;

/// Length of a rendered capture time.
pub const TIMESTAMP_LEN: usize = 24;

/// Value of an ASCII decimal digit.
pub open spec fn digit_val(c: char) -> int {
    (c as u32) as int - ('0' as u32) as int
}

pub open spec fn is_digit(c: char) -> bool {
    '0' <= c <= '9'
}

/// Positions of `YYYY-MM-DDTHH:MM:SS.mmmZ` that hold a digit.
pub open spec fn digit_position(i: int) -> bool {
    0 <= i < 24 && i != 4 && i != 7 && i != 10 && i != 13 && i != 16 && i != 19 && i != 23
}

/// The two-digit field starting at `i`.
pub open spec fn two_digits(t: Seq<char>, i: int) -> int {
    10 * digit_val(t[i]) + digit_val(t[i + 1])
}

/// `t` is an ISO-8601 UTC time with millisecond precision:
/// `YYYY-MM-DDTHH:MM:SS.mmmZ`, month 01..12, day 01..31, hour 00..23,
/// minute 00..59, second 00..60.
pub open spec fn is_utc_millis(t: Seq<char>) -> bool {
    &&& t.len() == 24
    &&& forall|i: int| #[trigger] digit_position(i) ==> is_digit(t[i])
    &&& t[4] == '-' && t[7] == '-' && t[10] == 'T'
    &&& t[13] == ':' && t[16] == ':' && t[19] == '.' && t[23] == 'Z'
    &&& 1 <= two_digits(t, 5) <= 12
    &&& 1 <= two_digits(t, 8) <= 31
    &&& two_digits(t, 11) <= 23
    &&& two_digits(t, 14) <= 59
    &&& two_digits(t, 17) <= 60
}

/// The capture time used when no clock reading could be rendered.
pub open spec fn epoch_timestamp() -> Seq<char> {
    seq![
        '1', '9', '7', '0', '-', '0', '1', '-', '0', '1', 'T', '0', '0', ':', '0', '0', ':', '0',
        '0', '.', '0', '0', '0', 'Z',
    ]
}

/// What chrono renders for `secs` seconds and `nsecs` nanoseconds after the
/// Unix epoch, in the format `%Y-%m-%dT%H:%M:%S%.3fZ`.
/// None where chrono has no such time.
pub uninterp spec fn chrono_utc_text(secs: i64, nsecs: u32) -> Option<Seq<char>>;

/// Relies on chrono's `DateTime::from_timestamp` (None outside chrono's date
/// range or for an out-of-range `nsecs`) and on formatting the result with
/// `%Y-%m-%dT%H:%M:%S%.3fZ`.
#[verifier::external_body]
fn render_utc(secs: i64, nsecs: u32) -> (r: Option<String>)
    ensures
        match r {
            Some(t) => chrono_utc_text(secs, nsecs) == Some(t@),
            None => chrono_utc_text(secs, nsecs) is None,
        },
{
    match chrono::DateTime::from_timestamp(secs, nsecs) {
        Some(d) => Some(d.format("%Y-%m-%dT%H:%M:%S%.3fZ").to_string()),
        None => None,
    }
}

/// The capture time kept from a rendering: the rendering itself when it has
/// the `YYYY-MM-DDTHH:MM:SS.mmmZ` shape, else the epoch.
pub open spec fn settled(rendered: Option<Seq<char>>) -> Seq<char> {
    match rendered {
        Some(t) => if is_utc_millis(t) { t } else { epoch_timestamp() },
        None => epoch_timestamp(),
    }
}

proof fn lemma_epoch_is_utc_millis()
    ensures
        is_utc_millis(epoch_timestamp()),
{
    let t = epoch_timestamp();
    assert forall|i: int| #[trigger] digit_position(i) implies is_digit(t[i]) by {
        assert(0 <= i < 24);
    }
}

/// Keeps `rendered` when it is a well-formed capture time, else falls back
/// to the epoch.
pub fn settle_timestamp(rendered: Option<String>) -> (r: String)
    ensures
        r@ == settled(
            match rendered {
                Some(t) => Some(t@),
                None => None,
            },
        ),
        is_utc_millis(r@),
{
    proof {
        lemma_epoch_is_utc_millis();
    }
    match rendered {
        Some(t) => {
            if is_utc_millis_text(t.as_str()) {
                return t;
            }
        },
        None => {},
    }
    let e = "1970-01-01T00:00:00.000Z".to_owned();
    proof {
        reveal_strlit("1970-01-01T00:00:00.000Z");
        assert(e@ =~= epoch_timestamp());
    }
    e
}

/// What chrono renders for a clock reading: nothing for a clock before the
/// epoch, beyond `i64` seconds, or outside chrono's date range.
pub open spec fn clock_rendering(since_epoch: Option<(u64, u32)>) -> Option<Seq<char>> {
    match since_epoch {
        Some((s, m)) => if s <= i64::MAX {
            chrono_utc_text(s as i64, (m * 1_000_000) as u32)
        } else {
            None
        },
        None => None,
    }
}

/// Renders a clock reading (`secs` seconds and `millis` milliseconds after
/// the Unix epoch) as a capture time; `None` stands for a clock that reads
/// before the epoch. The result is chrono's rendering of that reading where
/// there is one and it has the `YYYY-MM-DDTHH:MM:SS.mmmZ` shape, else the
/// epoch; either way a well-formed capture time.
pub fn format_timestamp(since_epoch: Option<(u64, u32)>) -> (r: String)
    requires
        since_epoch matches Some((_, m)) ==> m < 1000,
    ensures
        is_utc_millis(r@),
        r@ == settled(clock_rendering(since_epoch)),
{
    match since_epoch {
        Some((secs, millis)) => {
            if secs <= i64::MAX as u64 {
                settle_timestamp(render_utc(secs as i64, millis * 1_000_000))
            } else {
                settle_timestamp(None)
            }
        },
        None => settle_timestamp(None),
    }
}

/// Decides `is_utc_millis` on a string.
pub fn is_utc_millis_text(s: &str) -> (r: bool)
    ensures
        r == is_utc_millis(s@),
{
    if !s.is_ascii() {
        assert(!is_utc_millis(s@)) by {
            if is_utc_millis(s@) {
                assert forall|i: int| 0 <= i < s@.len() implies '\0' <= #[trigger] s@[i] <= '\u{7f}' by {
                    if digit_position(i) {
                    }
                }
            }
        }
        return false;
    }
    let b = s.as_bytes();
    assert(is_ascii(s));
    if b.len() != TIMESTAMP_LEN {
        return false;
    }
    assert(b@.len() == s@.len());
    assert(forall|i: int| 0 <= i < 24 ==> b@[i] == s@[i] as u8);
    let mut i: usize = 0;
    while i < TIMESTAMP_LEN
        invariant
            b@.len() == 24,
            s@.len() == 24,
            is_ascii(s),
            forall|k: int| 0 <= k < 24 ==> b@[k] == s@[k] as u8,
            i <= 24,
            forall|k: int| 0 <= k < i && #[trigger] digit_position(k) ==> is_digit(s@[k]),
            forall|k: int| 0 <= k < i && #[trigger] digit_position(k) ==> 48 <= b@[k] <= 57,
        decreases 24 - i,
    {
        if i != 4 && i != 7 && i != 10 && i != 13 && i != 16 && i != 19 && i != 23 {
            if !(48u8 <= b[i] && b[i] <= 57u8) {
                assert(!is_digit(s@[i as int]));
                assert(digit_position(i as int));
                return false;
            }
        }
        i += 1;
    }
    if !(b[4] == 45u8 && b[7] == 45u8 && b[10] == 84u8 && b[13] == 58u8 && b[16] == 58u8
        && b[19] == 46u8 && b[23] == 90u8) {
        return false;
    }
    assert forall|k: int| 0 <= k < 24 implies (#[trigger] s@[k] as u32) == b@[k] as u32 by {
        assert(s@[k] <= '\u{7f}');
    }
    assert(digit_position(5) && digit_position(6) && digit_position(8) && digit_position(9));
    assert(digit_position(11) && digit_position(12) && digit_position(14) && digit_position(15));
    assert(digit_position(17) && digit_position(18));
    let month = field(b, 5);
    let day = field(b, 8);
    let hour = field(b, 11);
    let minute = field(b, 14);
    let second = field(b, 17);
    1 <= month && month <= 12 && 1 <= day && day <= 31 && hour <= 23 && minute <= 59 && second <= 60
}

/// The two-digit field of `b` starting at `i`.
fn field(b: &[u8], i: usize) -> (r: u8)
    requires
        i + 1 < b@.len(),
        48 <= b@[i as int] <= 57,
        48 <= b@[i + 1] <= 57,
    ensures
        r as int == 10 * (b@[i as int] - 48) + (b@[i + 1] - 48),
{
    10 * (b[i] - 48) + (b[i + 1] - 48)
}

} // verus!
