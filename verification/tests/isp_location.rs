use glimmer::isp_location::{is_loopback, IspAction, IspEvent, IspLookup, IspStep};
use glimmer::reply::Reply;

const API_URL: &str = "http://ip-api.com/json/{}";

fn drive(events: Vec<IspEvent>) -> (IspStep, Vec<IspAction>) {
    let mut step = IspStep::start();
    let mut actions = Vec::new();
    for event in events {
        assert!(step.accepts(&event));
        let (next, action) = step.next(API_URL, event);
        step = next;
        actions.push(action);
    }
    (step, actions)
}

#[test]
fn isp_location_of_remote_client() {
    let (step, actions) = drive(vec![
        IspEvent::PeerAddress(Some("203.0.113.7".to_string())),
        IspEvent::Lookup(IspLookup::Found),
        IspEvent::Stored(Ok("48.856600|2.352200".to_string())),
    ]);
    assert!(step.is_done());
    assert_eq!(
        actions,
        vec![
            IspAction::FetchLocation("http://ip-api.com/json/203.0.113.7".to_string()),
            IspAction::Store,
            IspAction::Respond(Reply::success("48.856600|2.352200".to_string())),
        ]
    );
}

#[test]
fn isp_location_of_local_client_uses_public_address() {
    let (step, actions) = drive(vec![
        IspEvent::PeerAddress(Some("127.0.0.1".to_string())),
        IspEvent::PublicAddress(Some("198.51.100.2".to_string())),
        IspEvent::Lookup(IspLookup::Found),
        IspEvent::Stored(Ok("1.000000|2.000000".to_string())),
    ]);
    assert!(step.is_done());
    assert_eq!(actions[0], IspAction::LookupPublicAddress);
    assert_eq!(
        actions[1],
        IspAction::FetchLocation("http://ip-api.com/json/198.51.100.2".to_string())
    );
    assert_eq!(actions[3], IspAction::Respond(Reply::success("1.000000|2.000000".to_string())));
}

#[test]
fn isp_location_without_peer_answers_500() {
    let (step, actions) = drive(vec![IspEvent::PeerAddress(None)]);
    assert!(step.is_done());
    assert_eq!(actions, vec![IspAction::Respond(Reply::InternalServerError)]);
}

#[test]
fn isp_location_without_public_address() {
    let (step, actions) = drive(vec![
        IspEvent::PeerAddress(Some("127.0.0.1".to_string())),
        IspEvent::PublicAddress(None),
    ]);
    assert!(step.is_done());
    assert_eq!(
        actions[1],
        IspAction::Respond(Reply::error("Host public IP address could not be determined"))
    );
}

#[test]
fn isp_location_service_failures() {
    for lookup in [IspLookup::Unreachable, IspLookup::Unreadable] {
        let (step, actions) = drive(vec![
            IspEvent::PeerAddress(Some("10.0.0.1".to_string())),
            IspEvent::Lookup(lookup),
        ]);
        assert!(step.is_done());
        assert_eq!(
            actions[1],
            IspAction::Respond(Reply::error("ISP location could not be determined"))
        );
    }
}

#[test]
fn isp_location_failed_store_answers_500() {
    let (_, actions) = drive(vec![
        IspEvent::PeerAddress(Some("10.0.0.1".to_string())),
        IspEvent::Lookup(IspLookup::Found),
        IspEvent::Stored(Err("Error: getting redis connection: down".to_string())),
    ]);
    assert_eq!(actions[2], IspAction::Respond(Reply::InternalServerError));
}

#[test]
fn isp_loopback_is_exact() {
    assert!(is_loopback(&"127.0.0.1".to_string()));
    assert!(!is_loopback(&"127.0.0.2".to_string()));
    assert!(!is_loopback(&"::1".to_string()));
}
