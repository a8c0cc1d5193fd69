//! Timestamp parsing. Provider payloads carry departure times as RFC 3339
//! date-and-time text with an offset; the rest of the library works on
//! milliseconds since the Unix epoch.

use vstd::prelude::*;

verus! {

/// What parsing a character sequence as an RFC 3339 timestamp yields:
/// `None` for malformed text, otherwise the instant in milliseconds since
/// the Unix epoch. The result depends on the characters alone.
pub uninterp spec fn parsed_epoch_millis(s: Seq<char>) -> Option<i64>;

/// Relies on chrono's `DateTime::parse_from_rfc3339` and `timestamp_millis`:
/// both are functions of the input text alone, and parsing fails exactly on
/// text that is not a valid RFC 3339 date-and-time value.
#[verifier::external_body]
pub(crate) fn parse_rfc3339_millis(s: &str) -> (r: Option<i64>)
    ensures
        r == parsed_epoch_millis(s@),
{
    match chrono::DateTime::parse_from_rfc3339(s) {
        Ok(t) => Some(t.timestamp_millis()),
        Err(_) => None,
    }
}

/// Minutes until a departure, computed from a reference instant and the
/// current instant, both in milliseconds. Floor division: a departure that
/// lies in the past yields a negative countdown.
pub fn countdown_minutes(reference_millis: i64, now_millis: i64) -> (r: i64)
    ensures
        r == (reference_millis - now_millis) / 60000,
{
    let rm: i128 = reference_millis as i128;
    let nm: i128 = now_millis as i128;
    if rm >= nm {
        let d: u128 = (rm - nm) as u128;
        let q: u128 = d / 60000u128;
        assert(d < 0x20000000000000000u128);
        q as i64
    } else {
        let d: u128 = (nm - rm) as u128;
        let q: u128 = (d + 59999u128) / 60000u128;
        proof {
            lemma_neg_floor_div(d as int);
        }
        -(q as i64)
    }
}

proof fn lemma_neg_floor_div(d: int)
    requires
        0 < d < 0x20000000000000000,
    ensures
        (-d) / 60000 == -((d + 59999) / 60000),
        0 < (d + 59999) / 60000 < 0x8000000000000000,
{
    let k = d / 60000;
    let s = d % 60000;
    vstd::arithmetic::div_mod::lemma_fundamental_div_mod(d, 60000);
    if s == 0 {
        vstd::arithmetic::div_mod::lemma_fundamental_div_mod_converse(d + 59999, 60000, k, 59999);
        vstd::arithmetic::div_mod::lemma_fundamental_div_mod_converse(-d, 60000, -k, 0);
    } else {
        vstd::arithmetic::div_mod::lemma_fundamental_div_mod_converse(
            d + 59999,
            60000,
            k + 1,
            s - 1,
        );
        vstd::arithmetic::div_mod::lemma_fundamental_div_mod_converse(-d, 60000, -k - 1, 60000 - s);
    }
}

} // verus!
