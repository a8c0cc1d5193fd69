use lio_timetable::errors::ResolveError;
use lio_timetable::messages::resolve_error_message;
use lio_timetable::models::Station;
use lio_timetable::resolver::resolve_station;

fn station(id: &str, name: &str, provider: &str) -> Station {
    Station { id: id.to_string(), name: name.to_string(), provider: provider.to_string() }
}

fn catalog() -> Vec<Station> {
    vec![
        station("60200657", "Floridsdorf", "Wiener Linien"),
        station("60200585", "Floridsdorf Bahnhof", "Wiener Linien"),
        station("60201040", "Stephansplatz", "Wiener Linien"),
        station("1290401", "Wien Floridsdorf Bahnhof", "OEBB"),
    ]
}

#[test]
fn unique_substring_resolves_to_that_station() {
    let r = resolve_station("stephans", "Wiener Linien", &catalog()).unwrap();
    assert_eq!(r.id, "60201040");
    assert_eq!(r.name, "Stephansplatz");
    assert_eq!(r.provider, "Wiener Linien");
}

#[test]
fn case_insensitive_substring_matches() {
    let r = resolve_station("STEPHANSPLATZ", "Wiener Linien", &catalog()).unwrap();
    assert_eq!(r.id, "60201040");
}

#[test]
fn no_match_yields_not_found() {
    let r = resolve_station("Karlsplatz", "Wiener Linien", &catalog());
    match r {
        Err(ResolveError::NotFound { query, provider }) => {
            assert_eq!(query, "Karlsplatz");
            assert_eq!(provider, "Wiener Linien");
        }
        other => panic!("expected NotFound, got {:?}", other.is_ok()),
    }
}

#[test]
fn wrong_provider_yields_not_found() {
    let r = resolve_station("Stephansplatz", "OEBB", &catalog());
    assert!(matches!(r, Err(ResolveError::NotFound { .. })));
}

#[test]
fn exact_match_wins_over_broad_substring_set() {
    // "floridsdorf" is a substring of two station names of the provider, but
    // exactly one name is a case-insensitive exact match.
    let r = resolve_station("floridsdorf", "Wiener Linien", &catalog()).unwrap();
    assert_eq!(r.id, "60200657");
    assert_eq!(r.name, "Floridsdorf");
}

#[test]
fn multiple_matches_without_exact_match_yield_ambiguous_with_all_names() {
    let r = resolve_station("florids", "Wiener Linien", &catalog());
    match r {
        Err(ResolveError::Ambiguous { query, provider, candidates }) => {
            assert_eq!(query, "florids");
            assert_eq!(provider, "Wiener Linien");
            assert_eq!(candidates, vec!["Floridsdorf".to_string(), "Floridsdorf Bahnhof".to_string()]);
        }
        other => panic!("expected Ambiguous, got {:?}", other.is_ok()),
    }
}

#[test]
fn two_exact_matches_yield_ambiguous() {
    let mut c = catalog();
    c.push(station("60200999", "FLORIDSDORF", "Wiener Linien"));
    let r = resolve_station("Floridsdorf", "Wiener Linien", &c);
    match r {
        Err(ResolveError::Ambiguous { candidates, .. }) => {
            assert_eq!(candidates.len(), 3);
        }
        _ => panic!("expected Ambiguous"),
    }
}

#[test]
fn not_found_message_text() {
    let e = ResolveError::NotFound { query: "Karlsplatz".to_string(), provider: "Wiener Linien".to_string() };
    let dto = resolve_error_message(&e);
    assert_eq!(dto.message, "Station 'Karlsplatz' with provider 'Wiener Linien' not found.");
}

#[test]
fn ambiguous_message_lists_candidates() {
    let e = ResolveError::Ambiguous {
        query: "florids".to_string(),
        provider: "Wiener Linien".to_string(),
        candidates: vec!["Floridsdorf".to_string(), "Floridsdorf Bahnhof".to_string()],
    };
    let dto = resolve_error_message(&e);
    assert_eq!(
        dto.message,
        "Multiple stations found matching 'florids' with provider 'Wiener Linien'. Please be more specific. Found stations: [\"Floridsdorf\", \"Floridsdorf Bahnhof\"]"
    );
}
