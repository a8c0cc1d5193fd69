//! Timetable assembly: one trip per registered line of interest, in
//! registration order, from the per-provider live data, with best-effort
//! degradation when one provider's fetch failed.

use vstd::prelude::*;

use crate::dtos::TimetableDto;
use crate::dtos::TripDto;
use crate::errors::FetchError;
use crate::models::Lio;
use crate::oebb;
use crate::text::str_eq;
use crate::wl;

verus! {

/// Some registered line of interest belongs to the provider.
pub open spec fn has_provider(lios: Seq<Lio>, provider: Seq<char>) -> bool {
    exists|i: int| 0 <= i < lios.len() && (#[trigger] lios[i]).provider@ == provider
}

/// The note set on the timetable when the batch-capable provider's fetch
/// failed while the other provider's data could still be served.
pub open spec fn wl_failure_note() -> Seq<char> {
    "Failed to fetch live data from provider 'Wiener Linien'."@
}

/// The note set on the timetable when the per-station provider's fetch
/// failed while the other provider's data could still be served.
pub open spec fn oebb_failure_note() -> Seq<char> {
    "Failed to fetch live data from provider 'OEBB'."@
}

/// A trip with no departures, emitted for a line of interest whose
/// provider's live data is unavailable or whose provider is unknown.
pub open spec fn is_empty_trip(lio: Lio, trip: TripDto) -> bool {
    &&& trip.line@ == lio.line@
    &&& trip.direction@ == lio.direction@
    &&& trip.foot_minutes_to_station == 5
    &&& trip.departures@.len() == 0
}

/// The trip owed to one registered line of interest, given each provider's
/// fetch outcome and the instant `now`: the provider's live data matched and
/// normalized when the fetch succeeded, an empty trip otherwise.
pub open spec fn is_trip_for_lio(
    lio: Lio,
    wl_fetch: Result<Vec<wl::Monitor>, FetchError>,
    oebb_fetch: Result<Vec<oebb::Departure>, FetchError>,
    now: int,
    trip: TripDto,
) -> bool {
    if lio.provider@ == wl::provider_name() {
        match wl_fetch {
            Ok(monitors) => wl::is_trip_for(lio, wl::first_lines(monitors@), trip),
            Err(_) => is_empty_trip(lio, trip),
        }
    } else if lio.provider@ == oebb::provider_name() {
        match oebb_fetch {
            Ok(departures) => oebb::is_trip_for(lio, departures@, now, trip),
            Err(_) => is_empty_trip(lio, trip),
        }
    } else {
        is_empty_trip(lio, trip)
    }
}

/// Builds the trip with no departures for one line of interest.
pub fn empty_trip(lio: &Lio) -> (r: TripDto)
    ensures
        is_empty_trip(*lio, r),
{
    TripDto {
        line: lio.line.clone(),
        direction: lio.direction.clone(),
        foot_minutes_to_station: 5,
        departures: Vec::new(),
    }
}

/// Some registered line of interest belongs to the named provider.
fn any_of_provider(lios: &Vec<Lio>, provider: &str) -> (b: bool)
    ensures
        b == has_provider(lios@, provider@),
{
    let mut i: usize = 0;
    while i < lios.len()
        invariant
            i <= lios@.len(),
            forall|j: int| 0 <= j < i ==> (#[trigger] lios@[j]).provider@ != provider@,
        decreases lios@.len() - i,
    {
        if str_eq(lios[i].provider.as_str(), provider) {
            return true;
        }
        i = i + 1;
    }
    false
}

/// The character sequence occurs among the strings.
pub open spec fn contains_string(v: Seq<String>, s: Seq<char>) -> bool {
    exists|k: int| 0 <= k < v.len() && (#[trigger] v[k])@ == s
}

/// The string occurs in the vector.
fn string_in(v: &Vec<String>, s: &str) -> (b: bool)
    ensures
        b == contains_string(v@, s@),
{
    let mut k: usize = 0;
    while k < v.len()
        invariant
            k <= v@.len(),
            forall|q: int| 0 <= q < k ==> (#[trigger] v@[q])@ != s@,
        decreases v@.len() - k,
    {
        if str_eq(v[k].as_str(), s) {
            return true;
        }
        k = k + 1;
    }
    false
}

/// The distinct provider-local station identifiers of the provider's
/// registered lines of interest, in first-occurrence order: each station is
/// fetched once, however many lines of interest name it.
pub open spec fn distinct_ids(lios: Seq<Lio>, provider: Seq<char>) -> Seq<String>
    decreases lios.len(),
{
    if lios.len() == 0 {
        Seq::empty()
    } else {
        let rest = distinct_ids(lios.drop_last(), provider);
        let l = lios.last();
        if l.provider@ == provider && !contains_string(rest, l.provider_id@) {
            rest.push(l.provider_id)
        } else {
            rest
        }
    }
}

/// Collects the distinct provider-local station identifiers of the
/// provider's registered lines of interest, in first-occurrence order.
pub fn distinct_station_ids(lios: &Vec<Lio>, provider: &str) -> (r: Vec<String>)
    ensures
        r@ == distinct_ids(lios@, provider@),
{
    let mut out: Vec<String> = Vec::new();
    let mut i: usize = 0;
    while i < lios.len()
        invariant
            i <= lios@.len(),
            out@ =~= distinct_ids(lios@.take(i as int), provider@),
        decreases lios@.len() - i,
    {
        if str_eq(lios[i].provider.as_str(), provider) {
            if !string_in(&out, lios[i].provider_id.as_str()) {
                out.push(lios[i].provider_id.clone());
            }
        }
        proof {
            assert(lios@.take(i + 1 as int).drop_last() =~= lios@.take(i as int));
            assert(lios@.take(i + 1 as int).last() == lios@[i as int]);
            assert(out@ =~= distinct_ids(lios@.take(i + 1 as int), provider@));
        }
        i = i + 1;
    }
    proof {
        assert(lios@.take(lios@.len() as int) =~= lios@);
    }
    out
}

/// Assembles the timetable for the registered lines of interest, given each
/// provider's fetch outcome and the instant `now_millis`.
///
/// One trip per line of interest, in registration order. A provider whose
/// fetch failed contributes empty trips; when at least one relevant
/// provider's fetch succeeded the timetable is still returned, with a note
/// naming the failed provider. Only when every provider that has registered
/// lines of interest failed does the whole build fail, surfacing that
/// provider's fetch error.
pub fn build_timetable(
    lios: &Vec<Lio>,
    wl_fetch: &Result<Vec<wl::Monitor>, FetchError>,
    oebb_fetch: &Result<Vec<oebb::Departure>, FetchError>,
    now_millis: i64,
) -> (r: Result<TimetableDto, FetchError>)
    ensures
        ({
            let wl_relevant = has_provider(lios@, wl::provider_name());
            let oebb_relevant = has_provider(lios@, oebb::provider_name());
            let wl_failed = wl_relevant && wl_fetch is Err;
            let oebb_failed = oebb_relevant && oebb_fetch is Err;
            let all_failed = (wl_relevant || oebb_relevant) && (!wl_relevant || wl_fetch is Err) && (
            !oebb_relevant || oebb_fetch is Err);
            match r {
                Ok(t) => {
                    &&& !all_failed
                    &&& t.trips@.len() == lios@.len()
                    &&& forall|i: int|
                        0 <= i < lios@.len() ==> is_trip_for_lio(
                            lios@[i],
                            *wl_fetch,
                            *oebb_fetch,
                            now_millis as int,
                            #[trigger] t.trips@[i],
                        )
                    &&& (t.message is Some <==> wl_failed || oebb_failed)
                    &&& (wl_failed ==> (t.message matches Some(m) && m@ == wl_failure_note()))
                    &&& (oebb_failed ==> (t.message matches Some(m) && m@ == oebb_failure_note()))
                },
                Err(e) => {
                    &&& all_failed
                    &&& if wl_relevant {
                        wl_fetch matches Err(fe) && e == fe
                    } else {
                        oebb_fetch matches Err(fe) && e == fe
                    }
                },
            }
        }),
{
    let wl_relevant = any_of_provider(lios, "Wiener Linien");
    let oebb_relevant = any_of_provider(lios, "OEBB");
    let wl_failed = wl_relevant && wl_fetch.is_err();
    let oebb_failed = oebb_relevant && oebb_fetch.is_err();
    if (wl_relevant || oebb_relevant) && (!wl_relevant || wl_fetch.is_err()) && (!oebb_relevant
        || oebb_fetch.is_err()) {
        if wl_relevant {
            match wl_fetch {
                Err(fe) => {
                    return Err(fe.duplicate());
                },
                Ok(_) => {
                    assert(false);
                },
            }
        } else {
            match oebb_fetch {
                Err(fe) => {
                    return Err(fe.duplicate());
                },
                Ok(_) => {
                    assert(false);
                },
            }
        }
    }
    let firsts: Vec<&wl::Line> = match wl_fetch {
        Ok(monitors) => wl::collect_first_lines(monitors),
        Err(_) => Vec::new(),
    };
    let mut trips: Vec<TripDto> = Vec::new();
    let mut i: usize = 0;
    while i < lios.len()
        invariant
            i <= lios@.len(),
            trips@.len() == i,
            wl_fetch matches Ok(monitors) ==> wl::deref_lines(firsts@) == wl::first_lines(
                monitors@,
            ),
            forall|k: int|
                0 <= k < i ==> is_trip_for_lio(
                    lios@[k],
                    *wl_fetch,
                    *oebb_fetch,
                    now_millis as int,
                    #[trigger] trips@[k],
                ),
        decreases lios@.len() - i,
    {
        let lio: &Lio = &lios[i];
        if str_eq(lio.provider.as_str(), "Wiener Linien") {
            match wl_fetch {
                Ok(_) => {
                    let matched = wl::find_line_matching_lio(&firsts, lio);
                    let trip = wl::lio_line_pair_to_trip_dto(&(lio, matched));
                    trips.push(trip);
                },
                Err(_) => {
                    trips.push(empty_trip(lio));
                },
            }
        } else if str_eq(lio.provider.as_str(), "OEBB") {
            match oebb_fetch {
                Ok(departures) => {
                    let matched = oebb::find_departures_matching_lio(departures, lio);
                    let trip = oebb::lio_departures_pair_to_trip_dto(&(lio, matched), now_millis);
                    trips.push(trip);
                },
                Err(_) => {
                    trips.push(empty_trip(lio));
                },
            }
        } else {
            trips.push(empty_trip(lio));
        }
        i = i + 1;
    }
    let message: Option<String> = if wl_failed {
        Some("Failed to fetch live data from provider 'Wiener Linien'.".to_owned())
    } else if oebb_failed {
        Some("Failed to fetch live data from provider 'OEBB'.".to_owned())
    } else {
        None
    };
    Ok(TimetableDto { trips, message })
}

} // verus!
