use lio_timetable::errors::FetchError;
use lio_timetable::models::Lio;
use lio_timetable::oebb;
use lio_timetable::timetable::build_timetable;
use lio_timetable::timetable::distinct_station_ids;
use lio_timetable::timetable::empty_trip;
use lio_timetable::wl;

fn lio(provider: &str, provider_id: &str, line: &str, direction: &str) -> Lio {
    Lio {
        id: format!("{}-{}-{}", provider, line, direction),
        provider: provider.to_string(),
        provider_id: provider_id.to_string(),
        station: "somewhere".to_string(),
        line: line.to_string(),
        direction: direction.to_string(),
    }
}

fn wl_monitor(line: &str, towards: &str, countdowns: &[i32]) -> wl::Monitor {
    wl::Monitor {
        lines: vec![wl::Line {
            name: line.to_string(),
            towards: towards.to_string(),
            departures: wl::Departures {
                departure: countdowns
                    .iter()
                    .map(|c| wl::Departure {
                        departure_time: wl::DepartureTime {
                            time_planned: "1970-01-01T00:10:00Z".to_string(),
                            time_real: None,
                            countdown: *c,
                        },
                        vehicle: Some(wl::Vehicle {
                            name: line.to_string(),
                            towards: towards.to_string(),
                            realtime_supported: true,
                            trafficjam: false,
                        }),
                    })
                    .collect(),
            },
        }],
    }
}

fn oebb_departure(planned: &str, line: &str, direction: &str) -> oebb::Departure {
    oebb::Departure {
        when: None,
        planned_when: planned.to_string(),
        delay: None,
        direction: direction.to_string(),
        line: oebb::Line { name: line.to_string() },
    }
}

fn fetch_error(provider: &str) -> FetchError {
    FetchError { provider: provider.to_string(), message: "connection refused".to_string() }
}

#[test]
fn two_lios_two_providers_two_trips_in_order_no_message() {
    let lios = vec![
        lio("Wiener Linien", "60200657", "U4", "Heiligenstadt"),
        lio("OEBB", "1290401", "S1", "Floridsdorf"),
    ];
    let wl_fetch = Ok(vec![wl_monitor("U4", "Heiligenstadt", &[3, 8])]);
    let oebb_fetch = Ok(vec![oebb_departure("1970-01-01T00:10:00Z", "S1", "Floridsdorf")]);
    let t = build_timetable(&lios, &wl_fetch, &oebb_fetch, 0).unwrap();
    assert_eq!(t.trips.len(), 2);
    assert!(t.message.is_none());
    assert_eq!(t.trips[0].line, "U4");
    assert_eq!(t.trips[0].direction, "Heiligenstadt");
    assert_eq!(t.trips[0].departures.len(), 2);
    assert_eq!(t.trips[0].departures[0].countdown, 3);
    assert_eq!(t.trips[0].departures[1].countdown, 8);
    assert_eq!(t.trips[1].line, "S1");
    assert_eq!(t.trips[1].direction, "Floridsdorf");
    assert_eq!(t.trips[1].departures.len(), 1);
    assert_eq!(t.trips[1].departures[0].countdown, 10);
}

#[test]
fn registration_order_is_preserved_across_providers() {
    let lios = vec![
        lio("OEBB", "1", "S1", "Floridsdorf"),
        lio("Wiener Linien", "2", "U4", "Heiligenstadt"),
        lio("OEBB", "3", "S2", "Laa"),
        lio("Wiener Linien", "4", "U6", "Siebenhirten"),
    ];
    let wl_fetch = Ok(vec![
        wl_monitor("U4", "Heiligenstadt", &[1]),
        wl_monitor("U6", "Siebenhirten", &[2]),
    ]);
    let oebb_fetch = Ok(vec![
        oebb_departure("1970-01-01T00:10:00Z", "S1", "Floridsdorf"),
        oebb_departure("1970-01-01T00:20:00Z", "S2", "Laa an der Thaya"),
    ]);
    let t = build_timetable(&lios, &wl_fetch, &oebb_fetch, 0).unwrap();
    let lines: Vec<&str> = t.trips.iter().map(|tr| tr.line.as_str()).collect();
    assert_eq!(lines, vec!["S1", "U4", "S2", "U6"]);
}

#[test]
fn one_provider_failing_degrades_with_message() {
    let lios = vec![
        lio("Wiener Linien", "60200657", "U4", "Heiligenstadt"),
        lio("OEBB", "1290401", "S1", "Floridsdorf"),
    ];
    let wl_fetch: Result<Vec<wl::Monitor>, FetchError> = Err(fetch_error("Wiener Linien"));
    let oebb_fetch = Ok(vec![oebb_departure("1970-01-01T00:10:00Z", "S1", "Floridsdorf")]);
    let t = build_timetable(&lios, &wl_fetch, &oebb_fetch, 0).unwrap();
    assert_eq!(
        t.message.as_deref(),
        Some("Failed to fetch live data from provider 'Wiener Linien'.")
    );
    assert_eq!(t.trips.len(), 2);
    assert!(t.trips[0].departures.is_empty());
    assert_eq!(t.trips[1].departures.len(), 1);
}

#[test]
fn oebb_failure_with_wl_success_sets_its_message() {
    let lios = vec![
        lio("Wiener Linien", "60200657", "U4", "Heiligenstadt"),
        lio("OEBB", "1290401", "S1", "Floridsdorf"),
    ];
    let wl_fetch = Ok(vec![wl_monitor("U4", "Heiligenstadt", &[3])]);
    let oebb_fetch: Result<Vec<oebb::Departure>, FetchError> = Err(fetch_error("OEBB"));
    let t = build_timetable(&lios, &wl_fetch, &oebb_fetch, 0).unwrap();
    assert_eq!(
        t.message.as_deref(),
        Some("Failed to fetch live data from provider 'OEBB'.")
    );
    assert_eq!(t.trips[0].departures.len(), 1);
    assert!(t.trips[1].departures.is_empty());
}

#[test]
fn all_relevant_providers_failing_fails_the_build() {
    let lios = vec![lio("Wiener Linien", "60200657", "U4", "Heiligenstadt")];
    let wl_fetch: Result<Vec<wl::Monitor>, FetchError> = Err(fetch_error("Wiener Linien"));
    let oebb_fetch = Ok(vec![]);
    let e = build_timetable(&lios, &wl_fetch, &oebb_fetch, 0).unwrap_err();
    assert_eq!(e.provider, "Wiener Linien");
    assert_eq!(e.message, "connection refused");
}

#[test]
fn both_providers_failing_fails_the_build() {
    let lios = vec![
        lio("Wiener Linien", "60200657", "U4", "Heiligenstadt"),
        lio("OEBB", "1290401", "S1", "Floridsdorf"),
    ];
    let wl_fetch: Result<Vec<wl::Monitor>, FetchError> = Err(fetch_error("Wiener Linien"));
    let oebb_fetch: Result<Vec<oebb::Departure>, FetchError> = Err(fetch_error("OEBB"));
    let e = build_timetable(&lios, &wl_fetch, &oebb_fetch, 0).unwrap_err();
    assert_eq!(e.provider, "Wiener Linien");
}

#[test]
fn no_lios_build_an_empty_timetable() {
    let lios: Vec<Lio> = vec![];
    let wl_fetch: Result<Vec<wl::Monitor>, FetchError> = Err(fetch_error("Wiener Linien"));
    let oebb_fetch: Result<Vec<oebb::Departure>, FetchError> = Err(fetch_error("OEBB"));
    let t = build_timetable(&lios, &wl_fetch, &oebb_fetch, 0).unwrap();
    assert!(t.trips.is_empty());
    assert!(t.message.is_none());
}

#[test]
fn unknown_provider_gets_an_empty_trip() {
    let lios = vec![lio("Nightjet", "1", "NJ", "Roma")];
    let wl_fetch = Ok(vec![]);
    let oebb_fetch = Ok(vec![]);
    let t = build_timetable(&lios, &wl_fetch, &oebb_fetch, 0).unwrap();
    assert_eq!(t.trips.len(), 1);
    assert!(t.trips[0].departures.is_empty());
    assert_eq!(t.trips[0].line, "NJ");
    assert!(t.message.is_none());
}

#[test]
fn unmatched_line_gets_an_empty_trip_without_failing_the_build() {
    let lios = vec![
        lio("Wiener Linien", "1", "U4", "Heiligenstadt"),
        lio("Wiener Linien", "2", "U999", "Nowhere"),
    ];
    let wl_fetch = Ok(vec![wl_monitor("U4", "Heiligenstadt", &[3])]);
    let oebb_fetch = Ok(vec![]);
    let t = build_timetable(&lios, &wl_fetch, &oebb_fetch, 0).unwrap();
    assert_eq!(t.trips.len(), 2);
    assert_eq!(t.trips[0].departures.len(), 1);
    assert!(t.trips[1].departures.is_empty());
    assert!(t.message.is_none());
}

#[test]
fn malformed_timestamp_skips_only_that_departure() {
    // The middle departure carries a malformed actual time; its neighbours
    // in the same trip still come through.
    let mut monitor = wl_monitor("U4", "Heiligenstadt", &[3, 8, 15]);
    monitor.lines[0].departures.departure[1].departure_time.time_real =
        Some("broken".to_string());
    let lios = vec![lio("Wiener Linien", "1", "U4", "Heiligenstadt")];
    let wl_fetch = Ok(vec![monitor]);
    let oebb_fetch = Ok(vec![]);
    let t = build_timetable(&lios, &wl_fetch, &oebb_fetch, 0).unwrap();
    assert_eq!(t.trips[0].departures.len(), 2);
    assert_eq!(t.trips[0].departures[0].countdown, 3);
    assert_eq!(t.trips[0].departures[1].countdown, 15);
}

#[test]
fn oebb_malformed_timestamp_skips_only_that_departure() {
    let lios = vec![lio("OEBB", "1", "S1", "Floridsdorf")];
    let wl_fetch = Ok(vec![]);
    let oebb_fetch = Ok(vec![
        oebb_departure("1970-01-01T00:10:00Z", "S1", "Floridsdorf"),
        oebb_departure("not a time", "S1", "Floridsdorf"),
        oebb_departure("1970-01-01T00:30:00Z", "S1", "Floridsdorf"),
    ]);
    let t = build_timetable(&lios, &wl_fetch, &oebb_fetch, 0).unwrap();
    assert_eq!(t.trips[0].departures.len(), 2);
    assert_eq!(t.trips[0].departures[0].countdown, 10);
    assert_eq!(t.trips[0].departures[1].countdown, 30);
}

#[test]
fn empty_trip_carries_the_lio_texts() {
    let l = lio("Wiener Linien", "1", "U4", "Heiligenstadt");
    let t = empty_trip(&l);
    assert_eq!(t.line, "U4");
    assert_eq!(t.direction, "Heiligenstadt");
    assert_eq!(t.foot_minutes_to_station, 5);
    assert!(t.departures.is_empty());
}

#[test]
fn distinct_station_ids_dedupes_per_provider() {
    let lios = vec![
        lio("Wiener Linien", "A", "U4", "Heiligenstadt"),
        lio("OEBB", "X", "S1", "Floridsdorf"),
        lio("Wiener Linien", "B", "U6", "Siebenhirten"),
        lio("Wiener Linien", "A", "U4", "Hütteldorf"),
    ];
    let wl_ids = distinct_station_ids(&lios, "Wiener Linien");
    assert_eq!(wl_ids, vec!["A".to_string(), "B".to_string()]);
    let oebb_ids = distinct_station_ids(&lios, "OEBB");
    assert_eq!(oebb_ids, vec!["X".to_string()]);
}
