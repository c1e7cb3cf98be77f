use glimmer::store::{
    addition_outcome, connection_failure_message, coordinates_member, expiry_failure_message,
    expiry_seconds, insertion_result, location_addition, location_line, locations_key,
    refresh_interval_seconds, SetAddition, StoreOutcome,
};

#[test]
fn store_key_is_locations() {
    assert_eq!(locations_key(), "locations");
}

#[test]
fn store_member_joins_coordinates() {
    assert_eq!(coordinates_member("12.345678", "-98.765432"), "12.345678|-98.765432");
}

#[test]
fn store_insertion_result_keeps_member() {
    let res = insertion_result("1.000000|2.000000".to_string(), StoreOutcome::Added(true));
    assert_eq!(res, Ok("1.000000|2.000000".to_string()));
}

#[test]
fn store_connection_failure_message() {
    let res = insertion_result(
        "1|2".to_string(),
        StoreOutcome::ConnectionFailed("timed out".to_string()),
    );
    assert_eq!(res, Err("Error: getting redis connection: timed out".to_string()));
    assert_eq!(
        connection_failure_message("refused"),
        "Error: getting redis connection: refused"
    );
}

#[test]
fn store_add_failure_message() {
    let res = insertion_result("1|2".to_string(), StoreOutcome::AddFailed("WRONGTYPE".to_string()));
    assert_eq!(res, Err("Error: Insertion location: WRONGTYPE".to_string()));
}

#[test]
fn store_location_line_ends_with_newline() {
    assert_eq!(location_line("1.5|2.5"), "1.5|2.5\n");
    assert_eq!(location_line(""), "\n");
}

#[test]
fn store_expiry_is_shorter_than_refresh() {
    assert_eq!(expiry_seconds(), 84600);
    assert_eq!(refresh_interval_seconds(), 86400);
    assert!((expiry_seconds() as u64) < refresh_interval_seconds());
    assert_eq!(expiry_failure_message("boom"), "Setting expiry to redis SET. boom");
}

#[test]
fn store_repeated_insertion_gives_same_member() {
    let first = insertion_result("3.5|4.5".to_string(), addition_outcome(Ok(true)));
    let again = insertion_result("3.5|4.5".to_string(), addition_outcome(Ok(false)));
    assert_eq!(first, Ok("3.5|4.5".to_string()));
    assert_eq!(first, again);
}

#[test]
fn store_addition_outcome_from_reply() {
    assert_eq!(addition_outcome(Ok(false)), StoreOutcome::Added(false));
    assert_eq!(
        addition_outcome(Err("READONLY".to_string())),
        StoreOutcome::AddFailed("READONLY".to_string())
    );
}

#[test]
fn store_location_addition_targets_locations_set() {
    assert_eq!(
        location_addition("10.000000", "-20.500000"),
        SetAddition { key: "locations".to_string(), member: "10.000000|-20.500000".to_string() }
    );
}
