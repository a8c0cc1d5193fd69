//! Canonical shapes handed to callers: the timetable, its trips and
//! departures, and the request/response records of the registration flow.

use vstd::prelude::*;

verus! {

/// A human-readable error description.
#[derive(Debug)]
pub struct ErrorDto {
    pub message: String,
}

/// One registered line of interest, as listed back to the user.
#[derive(Debug)]
pub struct LioViewDto {
    pub id: String,
    pub provider: String,
    pub station: String,
    pub line: String,
    pub direction: String,
}

/// A registration request: free-text provider, station, line and direction.
#[derive(Debug)]
pub struct LioCreateDto {
    pub provider: String,
    pub station: String,
    pub line: String,
    pub direction: String,
}

/// The assembled timetable: one trip per registered line of interest, in
/// registration order. `message` is set only when some provider's live data
/// could not be fetched while another provider's could.
#[derive(Debug)]
pub struct TimetableDto {
    pub trips: Vec<TripDto>,
    pub message: Option<String>,
}

/// The upcoming departures for one registered line of interest.
#[derive(Debug)]
pub struct TripDto {
    pub line: String,
    pub direction: String,
    pub foot_minutes_to_station: i32,
    pub departures: Vec<DepartureDto>,
}

/// One departure in the canonical shape, whichever provider supplied it.
/// `countdown` is in minutes and may be negative for an already-departed
/// service.
#[derive(Debug)]
pub struct DepartureDto {
    pub direction: Option<String>,
    pub countdown: i64,
    pub real_time: bool,
    pub late: bool,
    pub traffic_jam: bool,
}

} // verus!
