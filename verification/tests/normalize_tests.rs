use lio_timetable::time::countdown_minutes;
use lio_timetable::oebb;
use lio_timetable::wl;

fn wl_departure(
    planned: &str,
    real: Option<&str>,
    countdown: i32,
    vehicle: Option<wl::Vehicle>,
) -> wl::Departure {
    wl::Departure {
        departure_time: wl::DepartureTime {
            time_planned: planned.to_string(),
            time_real: real.map(|s| s.to_string()),
            countdown,
        },
        vehicle,
    }
}

fn vehicle(towards: &str, realtime: bool, jam: bool) -> wl::Vehicle {
    wl::Vehicle {
        name: "U4".to_string(),
        towards: towards.to_string(),
        realtime_supported: realtime,
        trafficjam: jam,
    }
}

fn oebb_departure(when: Option<&str>, planned: &str, line: &str, direction: &str) -> oebb::Departure {
    oebb::Departure {
        when: when.map(|s| s.to_string()),
        planned_when: planned.to_string(),
        delay: None,
        direction: direction.to_string(),
        line: oebb::Line { name: line.to_string() },
    }
}

#[test]
fn countdown_floor_division() {
    assert_eq!(countdown_minutes(600_000, 0), 10);
    assert_eq!(countdown_minutes(0, 600_000), -10);
    assert_eq!(countdown_minutes(59_999, 0), 0);
    assert_eq!(countdown_minutes(-1, 0), -1);
    assert_eq!(countdown_minutes(-60_000, 0), -1);
    assert_eq!(countdown_minutes(-60_001, 0), -2);
}

#[test]
fn wl_actual_later_than_planned_is_late() {
    let d = wl_departure(
        "1970-01-01T00:10:00Z",
        Some("1970-01-01T00:12:00Z"),
        12,
        Some(vehicle(" Heiligenstadt ", true, false)),
    );
    let dto = wl::line_departure_to_departure_dto(&d).unwrap();
    assert!(dto.late);
    assert!(dto.real_time);
    assert_eq!(dto.countdown, 12);
    assert_eq!(dto.direction.as_deref(), Some("Heiligenstadt"));
    assert!(!dto.traffic_jam);
}

#[test]
fn wl_actual_equal_to_planned_is_not_late() {
    let d = wl_departure(
        "1970-01-01T00:10:00Z",
        Some("1970-01-01T00:10:00Z"),
        10,
        Some(vehicle("Heiligenstadt", true, false)),
    );
    let dto = wl::line_departure_to_departure_dto(&d).unwrap();
    assert!(!dto.late);
}

#[test]
fn wl_actual_earlier_than_planned_is_not_late() {
    let d = wl_departure(
        "1970-01-01T00:10:00Z",
        Some("1970-01-01T00:09:00Z"),
        9,
        Some(vehicle("Heiligenstadt", true, false)),
    );
    let dto = wl::line_departure_to_departure_dto(&d).unwrap();
    assert!(!dto.late);
}

#[test]
fn wl_no_vehicle_means_no_realtime_no_direction() {
    let d = wl_departure("1970-01-01T00:10:00Z", Some("1970-01-01T00:12:00Z"), 12, None);
    let dto = wl::line_departure_to_departure_dto(&d).unwrap();
    assert!(!dto.real_time);
    assert!(!dto.late);
    assert_eq!(dto.direction, None);
    assert!(!dto.traffic_jam);
}

#[test]
fn wl_traffic_jam_flag_carried() {
    let d = wl_departure("1970-01-01T00:10:00Z", None, 10, Some(vehicle("X", true, true)));
    let dto = wl::line_departure_to_departure_dto(&d).unwrap();
    assert!(dto.traffic_jam);
    assert!(dto.real_time);
    assert!(!dto.late);
}

#[test]
fn wl_malformed_actual_time_fails_that_departure() {
    let d = wl_departure(
        "1970-01-01T00:10:00Z",
        Some("not a timestamp"),
        10,
        Some(vehicle("X", true, false)),
    );
    let e = wl::line_departure_to_departure_dto(&d).unwrap_err();
    assert_eq!(e.value, "not a timestamp");
}

#[test]
fn wl_malformed_planned_time_without_realtime_is_tolerated() {
    // Lateness is only evaluated for live-tracked departures: with no
    // vehicle, malformed text is never parsed and nothing fails.
    let d = wl_departure("garbage", Some("also garbage"), 3, None);
    let dto = wl::line_departure_to_departure_dto(&d).unwrap();
    assert_eq!(dto.countdown, 3);
}

#[test]
fn oebb_planned_ten_minutes_out_without_actual() {
    let now = 0i64; // 1970-01-01T00:00:00Z
    let d = oebb_departure(None, "1970-01-01T00:10:00Z", "S1", "Floridsdorf");
    let dto = oebb::departure_to_departure_dto(&d, now).unwrap();
    assert_eq!(dto.countdown, 10);
    assert!(!dto.real_time);
    assert!(!dto.late);
    assert!(!dto.traffic_jam);
    assert_eq!(dto.direction.as_deref(), Some("Floridsdorf"));
}

#[test]
fn oebb_actual_later_than_planned_is_late() {
    let d = oebb_departure(
        Some("1970-01-01T00:12:00Z"),
        "1970-01-01T00:10:00Z",
        "S1",
        "Floridsdorf",
    );
    let dto = oebb::departure_to_departure_dto(&d, 0).unwrap();
    assert!(dto.late);
    assert!(dto.real_time);
    assert_eq!(dto.countdown, 12);
}

#[test]
fn oebb_actual_equal_or_earlier_is_not_late() {
    let equal = oebb_departure(
        Some("1970-01-01T00:10:00Z"),
        "1970-01-01T00:10:00Z",
        "S1",
        "Floridsdorf",
    );
    assert!(!oebb::departure_to_departure_dto(&equal, 0).unwrap().late);
    let earlier = oebb_departure(
        Some("1970-01-01T00:08:00Z"),
        "1970-01-01T00:10:00Z",
        "S1",
        "Floridsdorf",
    );
    assert!(!oebb::departure_to_departure_dto(&earlier, 0).unwrap().late);
}

#[test]
fn oebb_departed_service_has_negative_countdown() {
    let d = oebb_departure(None, "1970-01-01T00:10:00Z", "S1", "Floridsdorf");
    let dto = oebb::departure_to_departure_dto(&d, 900_000).unwrap();
    assert_eq!(dto.countdown, -5);
}

#[test]
fn oebb_offset_timestamps_are_honored() {
    // 00:10 at +01:00 is 23:10 of the day before in UTC.
    let d = oebb_departure(None, "1970-01-01T01:10:00+01:00", "S1", "Floridsdorf");
    let dto = oebb::departure_to_departure_dto(&d, 0).unwrap();
    assert_eq!(dto.countdown, 10);
}

#[test]
fn oebb_malformed_planned_time_fails_that_departure() {
    let d = oebb_departure(None, "yesterday-ish", "S1", "Floridsdorf");
    let e = oebb::departure_to_departure_dto(&d, 0).unwrap_err();
    assert_eq!(e.value, "yesterday-ish");
}

#[test]
fn oebb_malformed_actual_time_fails_that_departure() {
    let d = oebb_departure(Some("soon"), "1970-01-01T00:10:00Z", "S1", "Floridsdorf");
    let e = oebb::departure_to_departure_dto(&d, 0).unwrap_err();
    assert_eq!(e.value, "soon");
}
