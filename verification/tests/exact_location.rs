use glimmer::exact_location::{ExactAction, ExactEvent, ExactLocation, ExactStep};
use glimmer::reply::Reply;
use glimmer::store::coordinates_member;

/// Feeds the reports in turn and returns every action asked for.
fn drive(events: Vec<ExactEvent>) -> (ExactStep, Vec<ExactAction>) {
    let mut step = ExactStep::start();
    let mut actions = Vec::new();
    for event in events {
        assert!(step.accepts(&event));
        let (next, action) = step.next(event);
        step = next;
        actions.push(action);
    }
    (step, actions)
}

fn body(lat: &str, lon: &str) -> ExactEvent {
    ExactEvent::BodyParsed(Some(ExactLocation { lat: lat.to_string(), lon: lon.to_string() }))
}

#[test]
fn posting_exact_location_answers_with_stored_coordinates() {
    let lat = "12.345678";
    let lon = "-98.765432";
    let (step, actions) = drive(vec![
        body(lat, lon),
        ExactEvent::LongitudeParsed(true),
        ExactEvent::LatitudeParsed(true),
        ExactEvent::RangeChecked { lat_in_range: true, lon_in_range: true },
        ExactEvent::Stored(Ok(coordinates_member(lat, lon))),
    ]);
    assert!(step.is_done());
    assert_eq!(
        actions,
        vec![
            ExactAction::ParseLongitude(lon.to_string()),
            ExactAction::ParseLatitude(lat.to_string()),
            ExactAction::CheckRange,
            ExactAction::Store,
            ExactAction::Respond(Reply::success(format!("{}|{}", lat, lon))),
        ]
    );
}

#[test]
fn posting_malformed_body_is_refused() {
    let (step, actions) = drive(vec![ExactEvent::BodyParsed(None)]);
    assert!(step.is_done());
    assert_eq!(actions, vec![ExactAction::Respond(Reply::error("Malformed location json"))]);
}

#[test]
fn posting_bad_longitude_is_refused() {
    let (step, actions) = drive(vec![body("1", "east"), ExactEvent::LongitudeParsed(false)]);
    assert!(step.is_done());
    assert_eq!(
        actions[1],
        ExactAction::Respond(Reply::error("Invalid longitude coordinates"))
    );
}

#[test]
fn posting_bad_latitude_is_refused() {
    let (step, actions) = drive(vec![
        body("north", "1"),
        ExactEvent::LongitudeParsed(true),
        ExactEvent::LatitudeParsed(false),
    ]);
    assert!(step.is_done());
    assert_eq!(actions[2], ExactAction::Respond(Reply::error("Invalid latitude coordinates")));
}

#[test]
fn posting_longitude_is_checked_before_latitude() {
    let (_, actions) = drive(vec![body("north", "east")]);
    assert_eq!(actions, vec![ExactAction::ParseLongitude("east".to_string())]);
}

#[test]
fn posting_out_of_range_is_refused() {
    for (lat_ok, lon_ok) in [(false, true), (true, false), (false, false)] {
        let (step, actions) = drive(vec![
            body("91", "0"),
            ExactEvent::LongitudeParsed(true),
            ExactEvent::LatitudeParsed(true),
            ExactEvent::RangeChecked { lat_in_range: lat_ok, lon_in_range: lon_ok },
        ]);
        assert!(step.is_done());
        assert_eq!(actions[3], ExactAction::Respond(Reply::error("Malformed location json")));
    }
}

#[test]
fn posting_with_failed_store_answers_500() {
    let (step, actions) = drive(vec![
        body("1", "2"),
        ExactEvent::LongitudeParsed(true),
        ExactEvent::LatitudeParsed(true),
        ExactEvent::RangeChecked { lat_in_range: true, lon_in_range: true },
        ExactEvent::Stored(Err("Error: Insertion location: down".to_string())),
    ]);
    assert!(step.is_done());
    assert_eq!(actions[4], ExactAction::Respond(Reply::InternalServerError));
    assert_eq!(Reply::InternalServerError.status_code(), 500);
}

#[test]
fn posting_step_accepts_only_its_report() {
    let step = ExactStep::start();
    assert!(!step.accepts(&ExactEvent::LongitudeParsed(true)));
    assert!(!ExactStep::Done.accepts(&ExactEvent::BodyParsed(None)));
    assert!(ExactStep::AwaitStored.accepts(&ExactEvent::Stored(Ok(String::new()))));
}
