//! The per-station provider: live departures come one station at a time and
//! carry no precomputed countdown. This module matches registered lines of
//! interest against live departures and normalizes them, computing the
//! countdown from the departure's reference time and the current instant.

use vstd::prelude::*;

use crate::time::countdown_minutes;
use crate::dtos::DepartureDto;
use crate::dtos::TripDto;
use crate::errors::ParseError;
use crate::models::Lio;
use crate::text::matches_folded;
use crate::text::text_match;
use crate::time::parse_rfc3339_millis;
use crate::time::parsed_epoch_millis;

verus! {

/// One entry of the provider's location search: its kind (only stops are
/// catalog material), the provider-local identifier and the display name.
#[derive(Debug)]
pub struct Location {
    pub kind: String,
    pub id: String,
    pub name: String,
}

/// The provider's live response for one station.
#[derive(Debug)]
pub struct Departures {
    pub departures: Vec<Departure>,
}

/// One raw departure: the actual time when live tracking knows one, the
/// planned time, an optional delay in seconds, the destination text and the
/// line it belongs to.
#[derive(Debug)]
pub struct Departure {
    pub when: Option<String>,
    pub planned_when: String,
    pub delay: Option<i32>,
    pub direction: String,
    pub line: Line,
}

/// The line a departure belongs to.
#[derive(Debug)]
pub struct Line {
    pub name: String,
}

impl Departure {
    /// A field-for-field copy of the raw departure.
    pub fn duplicate(&self) -> (r: Departure)
        ensures
            r == *self,
    {
        Departure {
            when: match &self.when {
                Some(w) => Some(w.clone()),
                None => None,
            },
            planned_when: self.planned_when.clone(),
            delay: self.delay,
            direction: self.direction.clone(),
            line: Line { name: self.line.name.clone() },
        }
    }
}

/// The live departure matches the target line and direction texts: its
/// line's name and its destination text, trimmed and case folded, contain
/// the case-folded targets.
pub open spec fn departure_matches(
    d: Departure,
    target_line: Seq<char>,
    target_direction: Seq<char>,
) -> bool {
    matches_folded(d.line.name@, target_line) && matches_folded(d.direction@, target_direction)
}

/// Normalization fails exactly when some timestamp the departure carries is
/// malformed.
pub open spec fn parse_fails(d: Departure) -> bool {
    parsed_epoch_millis(d.planned_when@) is None || match d.when {
        Some(w) => parsed_epoch_millis(w@) is None,
        None => false,
    }
}

/// The timestamp a failed normalization reports: the planned time when it is
/// the malformed one, otherwise the actual time.
pub open spec fn offending_text(d: Departure) -> Seq<char> {
    if parsed_epoch_millis(d.planned_when@) is None {
        d.planned_when@
    } else {
        match d.when {
            Some(w) => w@,
            None => Seq::empty(),
        }
    }
}

/// The instant the countdown counts to: the actual time when live tracking
/// knows one, otherwise the planned time. Meaningful only when parsing does
/// not fail.
pub open spec fn reference_millis(d: Departure) -> int {
    match d.when {
        Some(w) => match parsed_epoch_millis(w@) {
            Some(m) => m as int,
            None => 0,
        },
        None => match parsed_epoch_millis(d.planned_when@) {
            Some(m) => m as int,
            None => 0,
        },
    }
}

/// The departure is late when an actual time is known and parses to a later
/// instant than the planned time.
pub open spec fn late_of(d: Departure) -> bool {
    match d.when {
        Some(w) => match (parsed_epoch_millis(w@), parsed_epoch_millis(d.planned_when@)) {
            (Some(actual), Some(planned)) => actual > planned,
            _ => false,
        },
        None => false,
    }
}

/// `dto` is the canonical shape of the raw departure `d` as of the instant
/// `now` (milliseconds since the Unix epoch).
pub open spec fn is_normalized(d: Departure, now: int, dto: DepartureDto) -> bool {
    &&& dto.countdown == (reference_millis(d) - now) / 60000
    &&& dto.real_time == (d.when is Some)
    &&& dto.late == late_of(d)
    &&& dto.traffic_jam == false
    &&& match dto.direction {
        Some(dir) => dir@ == d.direction@,
        None => false,
    }
}

/// Converts one raw departure into the canonical departure shape as of the
/// instant `now_millis`. The provider reports no traffic-jam flag, so it
/// defaults to false. The countdown is the floor of the minutes between the
/// reference time and `now_millis`; it is negative for an already-departed
/// service. A malformed timestamp fails only this departure.
pub fn departure_to_departure_dto(d: &Departure, now_millis: i64) -> (r: Result<
    DepartureDto,
    ParseError,
>)
    ensures
        r is Err <==> parse_fails(*d),
        r matches Ok(dto) ==> is_normalized(*d, now_millis as int, dto),
        r matches Err(e) ==> e.value@ == offending_text(*d),
{
    let planned = match parse_rfc3339_millis(d.planned_when.as_str()) {
        Some(p) => p,
        None => {
            return Err(ParseError { value: d.planned_when.clone() });
        },
    };
    let mut reference: i64 = planned;
    let mut real_time = false;
    let mut late = false;
    match &d.when {
        Some(w) => {
            match parse_rfc3339_millis(w.as_str()) {
                Some(actual) => {
                    reference = actual;
                    real_time = true;
                    late = actual > planned;
                },
                None => {
                    return Err(ParseError { value: w.clone() });
                },
            }
        },
        None => {},
    }
    Ok(
        DepartureDto {
            direction: Some(d.direction.clone()),
            countdown: countdown_minutes(reference, now_millis),
            real_time,
            late,
            traffic_jam: false,
        },
    )
}

/// The provider tag of this provider's catalog entries.
pub open spec fn provider_name() -> Seq<char> {
    "OEBB"@
}

/// The locations of kind "stop", in response order: only those belong in the
/// station catalog.
pub open spec fn stop_locations(locations: Seq<Location>) -> Seq<Location>
    decreases locations.len(),
{
    if locations.len() == 0 {
        Seq::empty()
    } else {
        let rest = stop_locations(locations.drop_last());
        if locations.last().kind@ == "stop"@ {
            rest.push(locations.last())
        } else {
            rest
        }
    }
}

/// Turns a location search response into catalog entries: one station per
/// location of kind "stop", in response order, all tagged with this
/// provider.
pub fn stations_from_locations(locations: &Vec<Location>) -> (r: Vec<crate::models::Station>)
    ensures
        r@.len() == stop_locations(locations@).len(),
        forall|i: int|
            0 <= i < r@.len() ==> (#[trigger] r@[i]).id@ == stop_locations(locations@)[i].id@
                && r@[i].name@ == stop_locations(locations@)[i].name@ && r@[i].provider@
                == provider_name(),
{
    let mut out: Vec<crate::models::Station> = Vec::new();
    let mut i: usize = 0;
    while i < locations.len()
        invariant
            i <= locations@.len(),
            out@.len() == stop_locations(locations@.take(i as int)).len(),
            forall|k: int|
                0 <= k < out@.len() ==> (#[trigger] out@[k]).id@ == stop_locations(
                    locations@.take(i as int),
                )[k].id@ && out@[k].name@ == stop_locations(locations@.take(i as int))[k].name@
                    && out@[k].provider@ == provider_name(),
        decreases locations@.len() - i,
    {
        let l: &Location = &locations[i];
        if crate::text::str_eq(l.kind.as_str(), "stop") {
            out.push(
                crate::models::Station {
                    id: l.id.clone(),
                    name: l.name.clone(),
                    provider: "OEBB".to_owned(),
                },
            );
        }
        proof {
            assert(locations@.take(i + 1 as int).drop_last() =~= locations@.take(i as int));
            assert(locations@.take(i + 1 as int).last() == locations@[i as int]);
        }
        i = i + 1;
    }
    proof {
        assert(locations@.take(locations@.len() as int) =~= locations@);
    }
    out
}

/// The sequence of departures behind a sequence of departure references.
pub open spec fn deref_departures(deps: Seq<&Departure>) -> Seq<Departure> {
    deps.map_values(|d: &Departure| *d)
}

/// The departures matching the target line and direction, in response order.
pub open spec fn matched_departures(
    deps: Seq<Departure>,
    target_line: Seq<char>,
    target_direction: Seq<char>,
) -> Seq<Departure>
    decreases deps.len(),
{
    if deps.len() == 0 {
        Seq::empty()
    } else {
        let rest = matched_departures(deps.drop_last(), target_line, target_direction);
        if departure_matches(deps.last(), target_line, target_direction) {
            rest.push(deps.last())
        } else {
            rest
        }
    }
}

/// Matches a registered line of interest against live departures,
/// aggregation mode: every matching departure in response order.
pub fn find_departures_matching_lio<'a>(departures: &'a Vec<Departure>, lio: &Lio) -> (r: Vec<
    &'a Departure,
>)
    ensures
        deref_departures(r@) == matched_departures(departures@, lio.line@, lio.direction@),
{
    let mut out: Vec<&Departure> = Vec::new();
    let mut i: usize = 0;
    while i < departures.len()
        invariant
            i <= departures@.len(),
            deref_departures(out@) =~= matched_departures(
                departures@.take(i as int),
                lio.line@,
                lio.direction@,
            ),
        decreases departures@.len() - i,
    {
        let d: &Departure = &departures[i];
        let name_hit = text_match(d.line.name.as_str(), lio.line.as_str());
        let direction_hit = text_match(d.direction.as_str(), lio.direction.as_str());
        if name_hit && direction_hit {
            out.push(d);
        }
        proof {
            assert(departures@.take(i + 1 as int).drop_last() =~= departures@.take(i as int));
            assert(departures@.take(i + 1 as int).last() == departures@[i as int]);
            assert(deref_departures(out@) =~= matched_departures(
                departures@.take(i + 1 as int),
                lio.line@,
                lio.direction@,
            ));
        }
        i = i + 1;
    }
    proof {
        assert(departures@.take(departures@.len() as int) =~= departures@);
    }
    out
}

/// `out` is the normalization of `src` as of the instant `now`, in order,
/// with every departure whose timestamps fail to parse skipped.
pub open spec fn departures_normalized(src: Seq<Departure>, now: int, out: Seq<DepartureDto>) -> bool
    decreases src.len(),
{
    if src.len() == 0 {
        out.len() == 0
    } else if parse_fails(src.last()) {
        departures_normalized(src.drop_last(), now, out)
    } else {
        out.len() > 0 && is_normalized(src.last(), now, out.last()) && departures_normalized(
            src.drop_last(),
            now,
            out.drop_last(),
        )
    }
}

/// The departures whose timestamps parse, in order.
pub open spec fn parsed_departures(src: Seq<Departure>) -> Seq<Departure>
    decreases src.len(),
{
    if src.len() == 0 {
        Seq::empty()
    } else {
        let rest = parsed_departures(src.drop_last());
        if parse_fails(src.last()) {
            rest
        } else {
            rest.push(src.last())
        }
    }
}

/// A malformed timestamp in one departure costs only that departure: a
/// normalized sequence holds the normalization of every departure whose
/// timestamps parse, in order, and nothing else.
pub proof fn lemma_failures_skipped_individually(
    src: Seq<Departure>,
    now: int,
    out: Seq<DepartureDto>,
)
    requires
        departures_normalized(src, now, out),
    ensures
        out.len() == parsed_departures(src).len(),
        forall|k: int|
            0 <= k < out.len() ==> is_normalized(parsed_departures(src)[k], now, #[trigger] out[k]),
    decreases src.len(),
{
    if src.len() == 0 {
    } else if parse_fails(src.last()) {
        lemma_failures_skipped_individually(src.drop_last(), now, out);
    } else {
        lemma_failures_skipped_individually(src.drop_last(), now, out.drop_last());
        assert(parsed_departures(src) == parsed_departures(src.drop_last()).push(src.last()));
        assert(forall|k: int|
            0 <= k < out.len() - 1 ==> #[trigger] out[k] == out.drop_last()[k]);
    }
}

/// A departure carrying a well-formed actual time is normalized late exactly
/// when that actual time is a later instant than the planned time; one with
/// no actual time is never late.
pub proof fn lemma_late_iff_actual_after_planned(
    d: Departure,
    now: int,
    dto: DepartureDto,
    planned: i64,
)
    requires
        is_normalized(d, now, dto),
        parsed_epoch_millis(d.planned_when@) == Some(planned),
    ensures
        d.when is Some && parsed_epoch_millis(d.when->Some_0@) is Some ==> (dto.late <==> parsed_epoch_millis(
            d.when->Some_0@,
        )->Some_0 > planned),
        d.when is None ==> !dto.late,
{
}

/// Builds the trip for one registered line of interest and the live
/// departures matched to it, as of the instant `now_millis`. A departure
/// with a malformed timestamp is skipped.
pub fn lio_departures_pair_to_trip_dto(pair: &(&Lio, Vec<&Departure>), now_millis: i64) -> (r:
    TripDto)
    ensures
        r.line@ == pair.0.line@,
        r.direction@ == pair.0.direction@,
        r.foot_minutes_to_station == 5,
        departures_normalized(deref_departures(pair.1@), now_millis as int, r.departures@),
{
    let (lio, matched) = pair;
    let mut departures: Vec<DepartureDto> = Vec::new();
    let mut i: usize = 0;
    while i < matched.len()
        invariant
            i <= matched@.len(),
            departures_normalized(
                deref_departures(matched@.take(i as int)),
                now_millis as int,
                departures@,
            ),
        decreases matched@.len() - i,
    {
        let ghost pre = departures@;
        match departure_to_departure_dto(matched[i], now_millis) {
            Ok(dto) => {
                departures.push(dto);
            },
            Err(_) => {},
        }
        proof {
            assert(deref_departures(matched@.take(i + 1 as int)).drop_last() =~= deref_departures(
                matched@.take(i as int),
            ));
            assert(deref_departures(matched@.take(i + 1 as int)).last() == *matched@[i as int]);
            if !parse_fails(*matched@[i as int]) {
                assert(departures@.drop_last() =~= pre);
            }
        }
        i = i + 1;
    }
    proof {
        assert(deref_departures(matched@.take(matched@.len() as int)) =~= deref_departures(
            matched@,
        ));
    }
    TripDto {
        line: lio.line.clone(),
        direction: lio.direction.clone(),
        foot_minutes_to_station: 5,
        departures,
    }
}

/// The trip assembled for one registered line of interest against the given
/// live departures as of the instant `now`: the matching departures,
/// normalized in response order.
pub open spec fn is_trip_for(lio: Lio, departures: Seq<Departure>, now: int, trip: TripDto) -> bool {
    &&& trip.line@ == lio.line@
    &&& trip.direction@ == lio.direction@
    &&& trip.foot_minutes_to_station == 5
    &&& departures_normalized(
        matched_departures(departures, lio.line@, lio.direction@),
        now,
        trip.departures@,
    )
}

/// Builds one trip per registered line of interest, in registration order,
/// from the live departures of all their stations, as of `now_millis`.
pub fn trips_for_lios(lios: &Vec<Lio>, departures: &Vec<Departure>, now_millis: i64) -> (r: Vec<
    TripDto,
>)
    ensures
        r@.len() == lios@.len(),
        forall|k: int|
            0 <= k < lios@.len() ==> is_trip_for(
                lios@[k],
                departures@,
                now_millis as int,
                #[trigger] r@[k],
            ),
{
    let mut trips: Vec<TripDto> = Vec::new();
    let mut i: usize = 0;
    while i < lios.len()
        invariant
            i <= lios@.len(),
            trips@.len() == i,
            forall|k: int|
                0 <= k < i ==> is_trip_for(
                    lios@[k],
                    departures@,
                    now_millis as int,
                    #[trigger] trips@[k],
                ),
        decreases lios@.len() - i,
    {
        let lio: &Lio = &lios[i];
        let matched = find_departures_matching_lio(departures, lio);
        let trip = lio_departures_pair_to_trip_dto(&(lio, matched), now_millis);
        trips.push(trip);
        i = i + 1;
    }
    trips
}

/// Some registered line of interest targets this live departure.
pub open spec fn departure_targeted(d: Departure, lios: Seq<Lio>) -> bool {
    exists|i: int|
        0 <= i < lios.len() && departure_matches(d, #[trigger] lios[i].line@, lios[i].direction@)
}

/// The departures some registered line of interest targets, in response
/// order.
pub open spec fn targeted_departures(deps: Seq<Departure>, lios: Seq<Lio>) -> Seq<Departure>
    decreases deps.len(),
{
    if deps.len() == 0 {
        Seq::empty()
    } else {
        let rest = targeted_departures(deps.drop_last(), lios);
        if departure_targeted(deps.last(), lios) {
            rest.push(deps.last())
        } else {
            rest
        }
    }
}

/// Keeps the departures that some registered line of interest targets.
pub fn filter_departures_for_lios(departures: &Vec<Departure>, lios: &Vec<Lio>) -> (r: Vec<
    Departure,
>)
    ensures
        r@ == targeted_departures(departures@, lios@),
{
    let mut out: Vec<Departure> = Vec::new();
    let mut i: usize = 0;
    while i < departures.len()
        invariant
            i <= departures@.len(),
            out@ =~= targeted_departures(departures@.take(i as int), lios@),
        decreases departures@.len() - i,
    {
        let d: &Departure = &departures[i];
        let mut hit = false;
        let mut j: usize = 0;
        while j < lios.len()
            invariant
                j <= lios@.len(),
                i < departures@.len(),
                d == &departures@[i as int],
                hit ==> departure_targeted(departures@[i as int], lios@),
                !hit ==> forall|q: int|
                    0 <= q < j ==> !departure_matches(
                        departures@[i as int],
                        #[trigger] lios@[q].line@,
                        lios@[q].direction@,
                    ),
            decreases lios@.len() - j,
        {
            if !hit {
                let name_hit = text_match(d.line.name.as_str(), lios[j].line.as_str());
                let direction_hit = text_match(d.direction.as_str(), lios[j].direction.as_str());
                if name_hit && direction_hit {
                    hit = true;
                }
            }
            j = j + 1;
        }
        if hit {
            out.push(d.duplicate());
        }
        proof {
            assert(departures@.take(i + 1 as int).drop_last() =~= departures@.take(i as int));
            assert(departures@.take(i + 1 as int).last() == departures@[i as int]);
            assert(out@ =~= targeted_departures(departures@.take(i + 1 as int), lios@));
        }
        i = i + 1;
    }
    proof {
        assert(departures@.take(departures@.len() as int) =~= departures@);
    }
    out
}

/// Matches a line and direction against live departures, validation mode:
/// true when any live departure matches. The registration flow rejects a
/// line of interest for which this is false.
pub fn line_present(departures: &Vec<Departure>, line: &str, direction: &str) -> (b: bool)
    ensures
        b == exists|i: int|
            0 <= i < departures@.len() && departure_matches(
                #[trigger] departures@[i],
                line@,
                direction@,
            ),
{
    let mut i: usize = 0;
    while i < departures.len()
        invariant
            i <= departures@.len(),
            forall|j: int|
                0 <= j < i ==> !departure_matches(#[trigger] departures@[j], line@, direction@),
        decreases departures@.len() - i,
    {
        let d: &Departure = &departures[i];
        let name_hit = text_match(d.line.name.as_str(), line);
        let direction_hit = text_match(d.direction.as_str(), direction);
        if name_hit && direction_hit {
            return true;
        }
        i = i + 1;
    }
    false
}

} // verus!
