//! The batch-capable provider: live monitor data for many stations comes in
//! one response. This module matches registered lines of interest against
//! the monitors' live lines and normalizes their departures.

use vstd::prelude::*;

use crate::dtos::DepartureDto;
use crate::dtos::TripDto;
use crate::errors::ParseError;
use crate::models::Lio;
use crate::text::matches_folded;
use crate::text::text_match;
use crate::text::trimmed;
use crate::time::parse_rfc3339_millis;
use crate::time::parsed_epoch_millis;

verus! {

/// One row of the provider's station catalog file: the stop identifier and
/// the display text of the platform.
#[derive(Debug)]
pub struct StationCsvRow {
    pub diva: String,
    pub platform_text: String,
}

/// The provider's live response.
#[derive(Debug)]
pub struct MonitorResponse {
    pub data: Data,
}

/// The payload of a live response.
#[derive(Debug)]
pub struct Data {
    pub monitors: Vec<Monitor>,
}

/// Live data for one station: the lines currently served there.
#[derive(Debug)]
pub struct Monitor {
    pub lines: Vec<Line>,
}

/// One live line at a station: its display name, the destination text and
/// the upcoming departures.
#[derive(Debug)]
pub struct Line {
    pub name: String,
    pub towards: String,
    pub departures: Departures,
}

/// The departures of one live line.
#[derive(Debug)]
pub struct Departures {
    pub departure: Vec<Departure>,
}

/// One raw departure: its times and, when the provider knows the vehicle,
/// the vehicle's details.
#[derive(Debug)]
pub struct Departure {
    pub departure_time: DepartureTime,
    pub vehicle: Option<Vehicle>,
}

/// The times of one departure: the planned time, the actual time when live
/// tracking knows one, and the provider's precomputed countdown in minutes.
#[derive(Debug)]
pub struct DepartureTime {
    pub time_planned: String,
    pub time_real: Option<String>,
    pub countdown: i32,
}

/// Vehicle details of one departure.
#[derive(Debug)]
pub struct Vehicle {
    pub name: String,
    pub towards: String,
    pub realtime_supported: bool,
    pub trafficjam: bool,
}

/// Live tracking data exists for the departure's vehicle.
pub open spec fn real_time_of(d: Departure) -> bool {
    match d.vehicle {
        Some(v) => v.realtime_supported,
        None => false,
    }
}

/// The vehicle is reported to stand in a traffic jam.
pub open spec fn traffic_jam_of(d: Departure) -> bool {
    match d.vehicle {
        Some(v) => v.trafficjam,
        None => false,
    }
}

/// Lateness is only evaluated for a live-tracked departure with an actual
/// time: it is late when the actual time parses to a later instant than the
/// planned time.
pub open spec fn late_of(d: Departure) -> bool {
    real_time_of(d) && match d.departure_time.time_real {
        Some(tr) => match (parsed_epoch_millis(tr@), parsed_epoch_millis(
            d.departure_time.time_planned@,
        )) {
            (Some(actual), Some(planned)) => actual > planned,
            _ => false,
        },
        None => false,
    }
}

/// Normalization fails exactly when lateness must be evaluated and one of
/// the two timestamps is malformed.
pub open spec fn parse_fails(d: Departure) -> bool {
    real_time_of(d) && match d.departure_time.time_real {
        Some(tr) => parsed_epoch_millis(tr@) is None || parsed_epoch_millis(
            d.departure_time.time_planned@,
        ) is None,
        None => false,
    }
}

/// The timestamp a failed normalization reports: the actual time when it is
/// the malformed one, otherwise the planned time.
pub open spec fn offending_text(d: Departure) -> Seq<char> {
    match d.departure_time.time_real {
        Some(tr) => if parsed_epoch_millis(tr@) is None {
            tr@
        } else {
            d.departure_time.time_planned@
        },
        None => Seq::empty(),
    }
}

/// `dto` is the canonical shape of the raw departure `d`.
pub open spec fn is_normalized(d: Departure, dto: DepartureDto) -> bool {
    &&& dto.countdown == d.departure_time.countdown as int
    &&& dto.real_time == real_time_of(d)
    &&& dto.late == late_of(d)
    &&& dto.traffic_jam == traffic_jam_of(d)
    &&& match (d.vehicle, dto.direction) {
        (Some(v), Some(dir)) => dir@ == crate::text::trimmed_of(v.towards@),
        (None, None) => true,
        _ => false,
    }
}

/// Converts one raw departure into the canonical departure shape. The
/// countdown comes precomputed from the payload. A malformed timestamp fails
/// only this departure.
pub fn line_departure_to_departure_dto(d: &Departure) -> (r: Result<DepartureDto, ParseError>)
    ensures
        r is Err <==> parse_fails(*d),
        r matches Ok(dto) ==> is_normalized(*d, dto),
        r matches Err(e) ==> e.value@ == offending_text(*d),
{
    let real_time = match &d.vehicle {
        Some(v) => v.realtime_supported,
        None => false,
    };
    let mut late = false;
    if real_time {
        match &d.departure_time.time_real {
            Some(tr) => {
                match parse_rfc3339_millis(tr.as_str()) {
                    None => {
                        return Err(ParseError { value: tr.clone() });
                    },
                    Some(actual) => {
                        match parse_rfc3339_millis(d.departure_time.time_planned.as_str()) {
                            None => {
                                return Err(
                                    ParseError { value: d.departure_time.time_planned.clone() },
                                );
                            },
                            Some(planned) => {
                                late = actual > planned;
                            },
                        }
                    },
                }
            },
            None => {},
        }
    }
    let direction = match &d.vehicle {
        Some(v) => Some(trimmed(v.towards.as_str()).to_owned()),
        None => None,
    };
    let traffic_jam = match &d.vehicle {
        Some(v) => v.trafficjam,
        None => false,
    };
    Ok(
        DepartureDto {
            direction,
            countdown: d.departure_time.countdown as i64,
            real_time,
            late,
            traffic_jam,
        },
    )
}

/// The provider tag of this provider's catalog entries.
pub open spec fn provider_name() -> Seq<char> {
    "Wiener Linien"@
}

/// Turns the rows of the provider's station catalog file into catalog
/// entries, in file order, all tagged with this provider.
pub fn stations_from_csv_rows(rows: &Vec<StationCsvRow>) -> (r: Vec<crate::models::Station>)
    ensures
        r@.len() == rows@.len(),
        forall|i: int|
            0 <= i < rows@.len() ==> (#[trigger] r@[i]).id@ == rows@[i].diva@ && r@[i].name@
                == rows@[i].platform_text@ && r@[i].provider@ == provider_name(),
{
    let mut out: Vec<crate::models::Station> = Vec::new();
    let mut i: usize = 0;
    while i < rows.len()
        invariant
            i <= rows@.len(),
            out@.len() == i,
            forall|k: int|
                0 <= k < i ==> (#[trigger] out@[k]).id@ == rows@[k].diva@ && out@[k].name@
                    == rows@[k].platform_text@ && out@[k].provider@ == provider_name(),
        decreases rows@.len() - i,
    {
        out.push(
            crate::models::Station {
                id: rows[i].diva.clone(),
                name: rows[i].platform_text.clone(),
                provider: "Wiener Linien".to_owned(),
            },
        );
        i = i + 1;
    }
    out
}

/// The live line matches the target line and direction texts: both its name
/// and its destination text, trimmed and case folded, contain the case-folded
/// target.
pub open spec fn line_matches(line: Line, target_line: Seq<char>, target_direction: Seq<char>) -> bool {
    matches_folded(line.name@, target_line) && matches_folded(line.towards@, target_direction)
}

/// The sequence of lines behind a sequence of line references.
pub open spec fn deref_lines(lines: Seq<&Line>) -> Seq<Line> {
    lines.map_values(|l: &Line| *l)
}

/// Matches a registered line of interest against live lines, aggregation
/// mode: the first matching live line in provider response order, or `None`
/// when no live line matches.
pub fn find_line_matching_lio<'a>(lines: &Vec<&'a Line>, lio: &Lio) -> (r: Option<&'a Line>)
    ensures
        match r {
            Some(l) => exists|i: int|
                0 <= i < lines@.len() && *l == deref_lines(lines@)[i] && line_matches(
                    deref_lines(lines@)[i],
                    lio.line@,
                    lio.direction@,
                ) && (forall|j: int|
                    0 <= j < i ==> !line_matches(deref_lines(lines@)[j], lio.line@, lio.direction@)),
            None => forall|i: int|
                0 <= i < lines@.len() ==> !line_matches(
                    deref_lines(lines@)[i],
                    lio.line@,
                    lio.direction@,
                ),
        },
{
    let mut i: usize = 0;
    while i < lines.len()
        invariant
            i <= lines@.len(),
            forall|j: int|
                0 <= j < i ==> !line_matches(deref_lines(lines@)[j], lio.line@, lio.direction@),
        decreases lines@.len() - i,
    {
        let line: &Line = lines[i];
        let name_hit = text_match(line.name.as_str(), lio.line.as_str());
        let direction_hit = text_match(line.towards.as_str(), lio.direction.as_str());
        if name_hit && direction_hit {
            assert(line_matches(deref_lines(lines@)[i as int], lio.line@, lio.direction@));
            return Some(line);
        }
        assert(!line_matches(deref_lines(lines@)[i as int], lio.line@, lio.direction@));
        i = i + 1;
    }
    None
}

/// `out` is the normalization of `src` in order, with every departure whose
/// timestamps fail to parse skipped.
pub open spec fn departures_normalized(src: Seq<Departure>, out: Seq<DepartureDto>) -> bool
    decreases src.len(),
{
    if src.len() == 0 {
        out.len() == 0
    } else if parse_fails(src.last()) {
        departures_normalized(src.drop_last(), out)
    } else {
        out.len() > 0 && is_normalized(src.last(), out.last()) && departures_normalized(
            src.drop_last(),
            out.drop_last(),
        )
    }
}

/// The departures whose timestamps parse, in order.
pub open spec fn parsed_departures(src: Seq<Departure>) -> Seq<Departure>
    decreases src.len(),
{
    if src.len() == 0 {
        Seq::empty()
    } else {
        let rest = parsed_departures(src.drop_last());
        if parse_fails(src.last()) {
            rest
        } else {
            rest.push(src.last())
        }
    }
}

/// A malformed timestamp in one departure costs only that departure: a
/// normalized sequence holds the normalization of every departure whose
/// timestamps parse, in order, and nothing else.
pub proof fn lemma_failures_skipped_individually(src: Seq<Departure>, out: Seq<DepartureDto>)
    requires
        departures_normalized(src, out),
    ensures
        out.len() == parsed_departures(src).len(),
        forall|k: int|
            0 <= k < out.len() ==> is_normalized(parsed_departures(src)[k], #[trigger] out[k]),
    decreases src.len(),
{
    if src.len() == 0 {
    } else if parse_fails(src.last()) {
        lemma_failures_skipped_individually(src.drop_last(), out);
    } else {
        lemma_failures_skipped_individually(src.drop_last(), out.drop_last());
        assert(parsed_departures(src) == parsed_departures(src.drop_last()).push(src.last()));
        assert(forall|k: int|
            0 <= k < out.len() - 1 ==> #[trigger] out[k] == out.drop_last()[k]);
    }
}

/// A live-tracked departure carrying a well-formed actual time is normalized
/// late exactly when that actual time is a later instant than the planned
/// time.
pub proof fn lemma_late_iff_actual_after_planned(
    d: Departure,
    dto: DepartureDto,
    actual: i64,
    planned: i64,
)
    requires
        is_normalized(d, dto),
        real_time_of(d),
        d.departure_time.time_real is Some,
        parsed_epoch_millis(d.departure_time.time_real->Some_0@) == Some(actual),
        parsed_epoch_millis(d.departure_time.time_planned@) == Some(planned),
    ensures
        dto.late <==> actual > planned,
{
}

/// Builds the trip for one registered line of interest and the live line
/// matched to it, if any. With no matched line the trip carries an empty
/// departure list; a departure with a malformed timestamp is skipped.
pub fn lio_line_pair_to_trip_dto(pair: &(&Lio, Option<&Line>)) -> (r: TripDto)
    ensures
        r.line@ == pair.0.line@,
        r.direction@ == pair.0.direction@,
        r.foot_minutes_to_station == 5,
        match pair.1 {
            Some(l) => departures_normalized(l.departures.departure@, r.departures@),
            None => r.departures@.len() == 0,
        },
{
    let (lio, line) = pair;
    let mut departures: Vec<DepartureDto> = Vec::new();
    match line {
        Some(l) => {
            let deps: &Vec<Departure> = &l.departures.departure;
            let mut i: usize = 0;
            while i < deps.len()
                invariant
                    i <= deps@.len(),
                    departures_normalized(deps@.take(i as int), departures@),
                decreases deps@.len() - i,
            {
                let ghost pre = departures@;
                match line_departure_to_departure_dto(&deps[i]) {
                    Ok(dto) => {
                        departures.push(dto);
                    },
                    Err(_) => {},
                }
                proof {
                    assert(deps@.take(i + 1 as int).drop_last() =~= deps@.take(i as int));
                    assert(deps@.take(i + 1 as int).last() == deps@[i as int]);
                    if !parse_fails(deps@[i as int]) {
                        assert(departures@.drop_last() =~= pre);
                    }
                }
                i = i + 1;
            }
            proof {
                assert(deps@.take(deps@.len() as int) =~= deps@);
            }
        },
        None => {},
    }
    TripDto {
        line: lio.line.clone(),
        direction: lio.direction.clone(),
        foot_minutes_to_station: 5,
        departures,
    }
}

/// The first live line of every monitor that has one, in response order.
/// The provider reports one monitor per station; its first line is the one
/// the station's live view leads with.
pub open spec fn first_lines(monitors: Seq<Monitor>) -> Seq<Line>
    decreases monitors.len(),
{
    if monitors.len() == 0 {
        Seq::empty()
    } else {
        let rest = first_lines(monitors.drop_last());
        if monitors.last().lines@.len() > 0 {
            rest.push(monitors.last().lines@[0])
        } else {
            rest
        }
    }
}

/// Collects a reference to the first line of every monitor that has one.
pub fn collect_first_lines<'a>(monitors: &'a Vec<Monitor>) -> (r: Vec<&'a Line>)
    ensures
        deref_lines(r@) == first_lines(monitors@),
{
    let mut firsts: Vec<&Line> = Vec::new();
    let mut i: usize = 0;
    while i < monitors.len()
        invariant
            i <= monitors@.len(),
            deref_lines(firsts@) =~= first_lines(monitors@.take(i as int)),
        decreases monitors@.len() - i,
    {
        let ghost pre = firsts@;
        let m: &Monitor = &monitors[i];
        if m.lines.len() > 0 {
            firsts.push(&m.lines[0]);
        }
        proof {
            assert(monitors@.take(i + 1 as int).drop_last() =~= monitors@.take(i as int));
            assert(monitors@.take(i + 1 as int).last() == monitors@[i as int]);
            assert(deref_lines(firsts@) =~= first_lines(monitors@.take(i + 1 as int)));
        }
        i = i + 1;
    }
    proof {
        assert(monitors@.take(monitors@.len() as int) =~= monitors@);
    }
    firsts
}

/// The trip assembled for one registered line of interest against the given
/// live lines: the first matching live line's departures, normalized; an
/// empty departure list when no live line matches.
pub open spec fn is_trip_for(lio: Lio, lines: Seq<Line>, trip: TripDto) -> bool {
    &&& trip.line@ == lio.line@
    &&& trip.direction@ == lio.direction@
    &&& trip.foot_minutes_to_station == 5
    &&& if exists|i: int|
        0 <= i < lines.len() && line_matches(#[trigger] lines[i], lio.line@, lio.direction@) {
        exists|i: int|
            0 <= i < lines.len() && line_matches(#[trigger] lines[i], lio.line@, lio.direction@)
                && (forall|j: int|
                0 <= j < i ==> !line_matches(lines[j], lio.line@, lio.direction@))
                && departures_normalized(lines[i].departures.departure@, trip.departures@)
    } else {
        trip.departures@.len() == 0
    }
}

/// Builds one trip per registered line of interest, in registration order,
/// from one batch of live monitor data.
pub fn trips_for_lios(lios: &Vec<Lio>, monitors: &Vec<Monitor>) -> (r: Vec<TripDto>)
    ensures
        r@.len() == lios@.len(),
        forall|k: int|
            0 <= k < lios@.len() ==> is_trip_for(lios@[k], first_lines(monitors@), #[trigger] r@[k]),
{
    let firsts = collect_first_lines(monitors);
    let mut trips: Vec<TripDto> = Vec::new();
    let mut i: usize = 0;
    while i < lios.len()
        invariant
            i <= lios@.len(),
            trips@.len() == i,
            deref_lines(firsts@) == first_lines(monitors@),
            forall|k: int|
                0 <= k < i ==> is_trip_for(lios@[k], first_lines(monitors@), #[trigger] trips@[k]),
        decreases lios@.len() - i,
    {
        let lio: &Lio = &lios[i];
        let matched = find_line_matching_lio(&firsts, lio);
        let trip = lio_line_pair_to_trip_dto(&(lio, matched));
        proof {
            assert(is_trip_for(lios@[i as int], first_lines(monitors@), trip));
        }
        trips.push(trip);
        i = i + 1;
    }
    trips
}

impl Vehicle {
    /// A field-for-field copy of the vehicle details.
    pub fn duplicate(&self) -> (r: Vehicle)
        ensures
            r == *self,
    {
        Vehicle {
            name: self.name.clone(),
            towards: self.towards.clone(),
            realtime_supported: self.realtime_supported,
            trafficjam: self.trafficjam,
        }
    }
}

impl DepartureTime {
    /// A field-for-field copy of the departure times.
    pub fn duplicate(&self) -> (r: DepartureTime)
        ensures
            r == *self,
    {
        DepartureTime {
            time_planned: self.time_planned.clone(),
            time_real: match &self.time_real {
                Some(t) => Some(t.clone()),
                None => None,
            },
            countdown: self.countdown,
        }
    }
}

impl Departure {
    /// A field-for-field copy of the raw departure.
    pub fn duplicate(&self) -> (r: Departure)
        ensures
            r == *self,
    {
        Departure {
            departure_time: self.departure_time.duplicate(),
            vehicle: match &self.vehicle {
                Some(v) => Some(v.duplicate()),
                None => None,
            },
        }
    }
}

/// Two live lines carry the same text and the same departures.
pub open spec fn line_eq(a: Line, b: Line) -> bool {
    a.name@ == b.name@ && a.towards@ == b.towards@ && a.departures.departure@
        == b.departures.departure@
}

/// Two monitors carry the same lines.
pub open spec fn monitor_eq(a: Monitor, b: Monitor) -> bool {
    a.lines@.len() == b.lines@.len() && forall|k: int|
        0 <= k < a.lines@.len() ==> line_eq(#[trigger] a.lines@[k], b.lines@[k])
}

impl Line {
    /// A copy of the live line carrying the same text and departures.
    pub fn duplicate(&self) -> (r: Line)
        ensures
            line_eq(r, *self),
    {
        let mut departure: Vec<Departure> = Vec::new();
        let mut i: usize = 0;
        while i < self.departures.departure.len()
            invariant
                i <= self.departures.departure@.len(),
                departure@ =~= self.departures.departure@.take(i as int),
            decreases self.departures.departure@.len() - i,
        {
            departure.push(self.departures.departure[i].duplicate());
            proof {
                assert(departure@ =~= self.departures.departure@.take(i + 1 as int));
            }
            i = i + 1;
        }
        proof {
            assert(self.departures.departure@.take(self.departures.departure@.len() as int)
                =~= self.departures.departure@);
        }
        Line {
            name: self.name.clone(),
            towards: self.towards.clone(),
            departures: Departures { departure },
        }
    }
}

impl Monitor {
    /// A copy of the monitor carrying the same lines.
    pub fn duplicate(&self) -> (r: Monitor)
        ensures
            monitor_eq(r, *self),
    {
        let mut lines: Vec<Line> = Vec::new();
        let mut i: usize = 0;
        while i < self.lines.len()
            invariant
                i <= self.lines@.len(),
                lines@.len() == i,
                forall|k: int| 0 <= k < i ==> line_eq(#[trigger] lines@[k], self.lines@[k]),
            decreases self.lines@.len() - i,
        {
            lines.push(self.lines[i].duplicate());
            i = i + 1;
        }
        Monitor { lines }
    }
}

/// Some registered line of interest targets this live line.
pub fn lios_target_line(lios: &Vec<Lio>, line: &Line) -> (b: bool)
    ensures
        b == exists|i: int|
            0 <= i < lios@.len() && line_matches(
                *line,
                #[trigger] lios@[i].line@,
                lios@[i].direction@,
            ),
{
    let mut i: usize = 0;
    while i < lios.len()
        invariant
            i <= lios@.len(),
            forall|j: int|
                0 <= j < i ==> !line_matches(*line, #[trigger] lios@[j].line@, lios@[j].direction@),
        decreases lios@.len() - i,
    {
        let name_hit = text_match(line.name.as_str(), lios[i].line.as_str());
        let direction_hit = text_match(line.towards.as_str(), lios[i].direction.as_str());
        if name_hit && direction_hit {
            return true;
        }
        i = i + 1;
    }
    false
}

/// The monitor's leading live line is targeted by some registered line of
/// interest.
pub open spec fn monitor_targeted(m: Monitor, lios: Seq<Lio>) -> bool {
    m.lines@.len() > 0 && exists|i: int|
        0 <= i < lios.len() && line_matches(m.lines@[0], #[trigger] lios[i].line@, lios[i].direction@)
}

/// The monitors whose leading live line is targeted, in response order.
pub open spec fn targeted_monitors(monitors: Seq<Monitor>, lios: Seq<Lio>) -> Seq<Monitor>
    decreases monitors.len(),
{
    if monitors.len() == 0 {
        Seq::empty()
    } else {
        let rest = targeted_monitors(monitors.drop_last(), lios);
        if monitor_targeted(monitors.last(), lios) {
            rest.push(monitors.last())
        } else {
            rest
        }
    }
}

/// Keeps the monitors whose leading live line some registered line of
/// interest targets.
pub fn filter_monitors_for_lios(monitors: &Vec<Monitor>, lios: &Vec<Lio>) -> (r: Vec<Monitor>)
    ensures
        r@.len() == targeted_monitors(monitors@, lios@).len(),
        forall|k: int|
            0 <= k < r@.len() ==> monitor_eq(
                #[trigger] r@[k],
                targeted_monitors(monitors@, lios@)[k],
            ),
{
    let mut out: Vec<Monitor> = Vec::new();
    let mut i: usize = 0;
    while i < monitors.len()
        invariant
            i <= monitors@.len(),
            out@.len() == targeted_monitors(monitors@.take(i as int), lios@).len(),
            forall|k: int|
                0 <= k < out@.len() ==> monitor_eq(
                    #[trigger] out@[k],
                    targeted_monitors(monitors@.take(i as int), lios@)[k],
                ),
        decreases monitors@.len() - i,
    {
        let m: &Monitor = &monitors[i];
        let hit = if m.lines.len() > 0 {
            lios_target_line(lios, &m.lines[0])
        } else {
            false
        };
        if hit {
            out.push(m.duplicate());
        }
        proof {
            assert(monitors@.take(i + 1 as int).drop_last() =~= monitors@.take(i as int));
            assert(monitors@.take(i + 1 as int).last() == monitors@[i as int]);
        }
        i = i + 1;
    }
    proof {
        assert(monitors@.take(monitors@.len() as int) =~= monitors@);
    }
    out
}

/// Matches a line and direction against live monitor data, validation mode:
/// true when any live line of any monitor matches. The registration flow
/// rejects a line of interest for which this is false.
pub fn line_present(monitors: &Vec<Monitor>, line: &str, direction: &str) -> (b: bool)
    ensures
        b == exists|i: int, j: int|
            0 <= i < monitors@.len() && 0 <= j < monitors@[i].lines@.len() && line_matches(
                #[trigger] monitors@[i].lines@[j],
                line@,
                direction@,
            ),
{
    let mut i: usize = 0;
    while i < monitors.len()
        invariant
            i <= monitors@.len(),
            forall|p: int, q: int|
                0 <= p < i && 0 <= q < monitors@[p].lines@.len() ==> !line_matches(
                    #[trigger] monitors@[p].lines@[q],
                    line@,
                    direction@,
                ),
        decreases monitors@.len() - i,
    {
        let lines: &Vec<Line> = &monitors[i].lines;
        let mut j: usize = 0;
        while j < lines.len()
            invariant
                j <= lines@.len(),
                i < monitors@.len(),
                lines@ == monitors@[i as int].lines@,
                forall|q: int|
                    0 <= q < j ==> !line_matches(
                        #[trigger] monitors@[i as int].lines@[q],
                        line@,
                        direction@,
                    ),
            decreases lines@.len() - j,
        {
            let name_hit = text_match(lines[j].name.as_str(), line);
            let direction_hit = text_match(lines[j].towards.as_str(), direction);
            if name_hit && direction_hit {
                assert(line_matches(monitors@[i as int].lines@[j as int], line@, direction@));
                return true;
            }
            j = j + 1;
        }
        i = i + 1;
    }
    false
}

/// What std's `format!` renders for one monitor row: the trimmed line name,
/// the trimmed destination text and the countdown, padded into the fixed row
/// shape. The result is a function of its arguments alone.
pub uninterp spec fn formatted_row(name: Seq<char>, towards: Seq<char>, countdown: int) -> Seq<
    char,
>;

/// Relies on std's `format!`: the rendered row depends on its arguments
/// alone.
#[verifier::external_body]
fn format_monitor_row(name: &str, towards: &str, countdown: i32) -> (r: String)
    ensures
        r@ == formatted_row(name@, towards@, countdown as int),
{
    format!("{:3} -> {:20} in {:3} minutes", name, towards, countdown)
}

/// Renders one plain-text row per monitor: the leading line's trimmed name
/// and destination and its first departure's countdown. Asks for monitors
/// that each carry a leading line with at least one departure.
pub fn format_monitors_plain(monitors: &Vec<Monitor>) -> (r: Vec<String>)
    requires
        forall|i: int|
            0 <= i < monitors@.len() ==> #[trigger] monitors@[i].lines@.len() > 0 && monitors@[i].lines@[0].departures.departure@.len() > 0,
    ensures
        r@.len() == monitors@.len(),
        forall|i: int|
            0 <= i < monitors@.len() ==> #[trigger] r@[i]@ == formatted_row(
                crate::text::trimmed_of(monitors@[i].lines@[0].name@),
                crate::text::trimmed_of(monitors@[i].lines@[0].towards@),
                monitors@[i].lines@[0].departures.departure@[0].departure_time.countdown as int,
            ),
{
    let mut out: Vec<String> = Vec::new();
    let mut i: usize = 0;
    while i < monitors.len()
        invariant
            i <= monitors@.len(),
            out@.len() == i,
            forall|p: int|
                0 <= p < monitors@.len() ==> #[trigger] monitors@[p].lines@.len() > 0 && monitors@[p].lines@[0].departures.departure@.len() > 0,
            forall|p: int|
                0 <= p < i ==> #[trigger] out@[p]@ == formatted_row(
                    crate::text::trimmed_of(monitors@[p].lines@[0].name@),
                    crate::text::trimmed_of(monitors@[p].lines@[0].towards@),
                    monitors@[p].lines@[0].departures.departure@[0].departure_time.countdown as int,
                ),
        decreases monitors@.len() - i,
    {
        let first: &Line = &monitors[i].lines[0];
        let name = trimmed(first.name.as_str());
        let towards = trimmed(first.towards.as_str());
        let countdown = first.departures.departure[0].departure_time.countdown;
        out.push(format_monitor_row(name, towards, countdown));
        i = i + 1;
    }
    out
}

} // verus!
