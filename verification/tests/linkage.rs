use svc_contact::linkage::{resolve_linkages, FlightPlanParcel, LinkageError};

fn link(id: &str, acquire: bool, deliver: bool) -> FlightPlanParcel {
    FlightPlanParcel {
        flight_plan_id: id.to_string(),
        acquire,
        deliver,
    }
}

#[test]
fn test_resolve_linkages_classifies_records() {
    let links = vec![
        link("pickup", true, false),
        link("middle", false, false),
        link("dropoff", false, true),
    ];
    let resolved = resolve_linkages(&links).unwrap();
    assert_eq!(resolved.origin_flight_id, "pickup");
    assert_eq!(resolved.target_flight_id, "dropoff");
    assert_eq!(
        resolved.flight_plan_ids,
        vec![
            "pickup".to_string(),
            "middle".to_string(),
            "dropoff".to_string(),
        ]
    );
}

#[test]
fn test_resolve_linkages_last_flag_wins() {
    let links = vec![
        link("early", true, true),
        link("late", true, false),
    ];
    let resolved = resolve_linkages(&links).unwrap();
    assert_eq!(resolved.origin_flight_id, "late");
    assert_eq!(resolved.target_flight_id, "early");
}

#[test]
fn test_resolve_linkages_origin_not_found() {
    let links = vec![link("dropoff", false, true)];
    let error = resolve_linkages(&links).unwrap_err();
    assert_eq!(error, LinkageError::OriginNotFound);
}

#[test]
fn test_resolve_linkages_destination_not_found() {
    let links = vec![link("pickup", true, false)];
    let error = resolve_linkages(&links).unwrap_err();
    assert_eq!(error, LinkageError::DestinationNotFound);
}

#[test]
fn test_resolve_linkages_origin_reported_first() {
    let links = vec![link("plain", false, false)];
    let error = resolve_linkages(&links).unwrap_err();
    assert_eq!(error, LinkageError::OriginNotFound);

    let error = resolve_linkages(&vec![]).unwrap_err();
    assert_eq!(error, LinkageError::OriginNotFound);
}
