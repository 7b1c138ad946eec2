use svc_contact::geo::Coordinate;
use svc_contact::hop::{FlightPlanData, FlightPlanError, FlightPlanObject, PlanData};
use svc_contact::itinerary::{assemble, resolve_itinerary, sort_hops, ItineraryError};
use svc_contact::linkage::resolve_linkages;
use svc_contact::linkage::FlightPlanParcel;

fn make_hop(id: &str, start: i64, end: i64, path: Vec<Coordinate>) -> PlanData {
    let first = path[0];
    let last = path[path.len() - 1];
    PlanData {
        id: id.to_string(),
        origin_latitude: first.y,
        origin_longitude: first.x,
        target_latitude: last.y,
        target_longitude: last.x,
        origin_vertiport_id: format!("vp-{}-origin", id),
        target_vertiport_id: format!("vp-{}-target", id),
        origin_timeslot_start: start,
        target_timeslot_end: end,
        path,
    }
}

fn point(x: i64, y: i64) -> Coordinate {
    Coordinate { x, y }
}

#[test]
fn test_merged_path_is_chronological() {
    // Fetched in the order T2, T1, T3 with T1 < T2 < T3.
    let hop_t2 = make_hop("b", 200, 250, vec![point(10, 10), point(20, 20)]);
    let hop_t1 = make_hop("a", 100, 150, vec![point(0, 0), point(10, 10)]);
    let hop_t3 = make_hop("c", 300, 350, vec![point(20, 20), point(30, 30)]);

    let itinerary = assemble(
        vec![hop_t2, hop_t1, hop_t3],
        &"a".to_string(),
        &"c".to_string(),
    )
    .unwrap();

    assert_eq!(
        itinerary.merged_path,
        vec![
            point(0, 0),
            point(10, 10),
            point(10, 10),
            point(20, 20),
            point(20, 20),
            point(30, 30),
        ]
    );
    assert_eq!(itinerary.hops[0].id, "a");
    assert_eq!(itinerary.hops[1].id, "b");
    assert_eq!(itinerary.hops[2].id, "c");
    assert_eq!(itinerary.origin_timeslot_start, 100);
    assert_eq!(itinerary.target_timeslot_end, 350);
}

#[test]
fn test_sort_is_stable_for_equal_starts() {
    let first = make_hop("first", 100, 150, vec![point(0, 0), point(1, 1)]);
    let second = make_hop("second", 100, 160, vec![point(1, 1), point(2, 2)]);
    let third = make_hop("third", 50, 90, vec![point(2, 2), point(3, 3)]);
    let sorted = sort_hops(vec![first, second, third]);
    assert_eq!(sorted[0].id, "third");
    assert_eq!(sorted[1].id, "first");
    assert_eq!(sorted[2].id, "second");
}

#[test]
fn test_assembly_origin_hop_missing() {
    let hop = make_hop("a", 100, 150, vec![point(0, 0), point(1, 1)]);
    let error = assemble(vec![hop], &"ghost".to_string(), &"a".to_string()).unwrap_err();
    assert_eq!(error, ItineraryError::OriginHopMissing);
}

#[test]
fn test_assembly_destination_hop_missing() {
    let hop = make_hop("a", 100, 150, vec![point(0, 0), point(1, 1)]);
    let error = assemble(vec![hop], &"a".to_string(), &"ghost".to_string()).unwrap_err();
    assert_eq!(error, ItineraryError::DestinationHopMissing);
}

#[test]
fn test_single_hop_itinerary() {
    // The same flight is flagged both origin and destination.
    let path = vec![point(0, 0), point(5, 5), point(9, 9)];
    let hop = make_hop("only", 100, 150, path.clone());
    let itinerary = assemble(vec![hop], &"only".to_string(), &"only".to_string()).unwrap();
    assert_eq!(itinerary.merged_path, path);
    assert_eq!(itinerary.origin_vertiport_id, "vp-only-origin");
    assert_eq!(itinerary.target_vertiport_id, "vp-only-target");
    assert_eq!(itinerary.origin_timeslot_start, 100);
    assert_eq!(itinerary.target_timeslot_end, 150);
}

#[test]
fn test_duplicate_linkage_contributes_path_once() {
    // The same flight id appears in two linkage records; assembly
    // deduplicates by hop identity, so its path is merged exactly once.
    let path = vec![point(0, 0), point(100000, 100000)];
    let first = make_hop("dup", 100, 150, path.clone());
    let second = make_hop("dup", 100, 150, path.clone());
    let itinerary = assemble(
        vec![first, second],
        &"dup".to_string(),
        &"dup".to_string(),
    )
    .unwrap();
    assert_eq!(itinerary.hops.len(), 1);
    assert_eq!(itinerary.merged_path, path);

    // The same through raw records, as a refetch per linkage record
    // produces them.
    let record = FlightPlanObject {
        id: "dup".to_string(),
        data: Some(FlightPlanData {
            path: Some(path.clone()),
            origin_vertiport_id: Some("o".to_string()),
            target_vertiport_id: Some("t".to_string()),
            origin_timeslot_start: Some(100),
            target_timeslot_end: Some(150),
        }),
    };
    let itinerary = resolve_itinerary(
        vec![record.clone(), record],
        &"dup".to_string(),
        &"dup".to_string(),
    )
    .unwrap();
    assert_eq!(itinerary.hops.len(), 1);
    assert_eq!(itinerary.merged_path, path);
}

#[test]
fn test_resolve_itinerary_rejects_first_invalid_record() {
    let good = FlightPlanObject {
        id: "good".to_string(),
        data: Some(FlightPlanData {
            path: Some(vec![point(0, 0), point(1, 1)]),
            origin_vertiport_id: Some("o".to_string()),
            target_vertiport_id: Some("t".to_string()),
            origin_timeslot_start: Some(100),
            target_timeslot_end: Some(200),
        }),
    };
    let mut bad = good.clone();
    bad.id = "bad".to_string();
    bad.data.as_mut().unwrap().path = Some(vec![point(0, 0)]);

    let error = resolve_itinerary(
        vec![good, bad],
        &"good".to_string(),
        &"good".to_string(),
    )
    .unwrap_err();
    assert_eq!(error, ItineraryError::Hop(FlightPlanError::Path));
}

#[test]
fn test_end_to_end_scenario() {
    // Parcel linked to hop A (acquire, start 09:00, path (0,0)->(1,1)) and
    // hop B (deliver, start 10:00, path (1,1)->(2,2)).
    let nine = 1672563600; // 2023-01-01 09:00:00 UTC
    let ten = 1672567200; // 2023-01-01 10:00:00 UTC
    let half_past_ten = 1672569000;

    let linkages = vec![
        FlightPlanParcel {
            flight_plan_id: "A".to_string(),
            acquire: true,
            deliver: false,
        },
        FlightPlanParcel {
            flight_plan_id: "B".to_string(),
            acquire: false,
            deliver: true,
        },
    ];
    let resolved = resolve_linkages(&linkages).unwrap();
    assert_eq!(resolved.origin_flight_id, "A");
    assert_eq!(resolved.target_flight_id, "B");
    assert_eq!(resolved.flight_plan_ids, vec!["A".to_string(), "B".to_string()]);

    let record_a = FlightPlanObject {
        id: "A".to_string(),
        data: Some(FlightPlanData {
            path: Some(vec![point(0, 0), point(100000, 100000)]),
            origin_vertiport_id: Some("vp-a".to_string()),
            target_vertiport_id: Some("vp-b".to_string()),
            origin_timeslot_start: Some(nine),
            target_timeslot_end: Some(ten),
        }),
    };
    let record_b = FlightPlanObject {
        id: "B".to_string(),
        data: Some(FlightPlanData {
            path: Some(vec![point(100000, 100000), point(200000, 200000)]),
            origin_vertiport_id: Some("vp-b".to_string()),
            target_vertiport_id: Some("vp-c".to_string()),
            origin_timeslot_start: Some(ten),
            target_timeslot_end: Some(half_past_ten),
        }),
    };

    let itinerary = resolve_itinerary(
        vec![record_a, record_b],
        &resolved.origin_flight_id,
        &resolved.target_flight_id,
    )
    .unwrap();

    assert_eq!(itinerary.origin_timeslot_start, nine);
    assert_eq!(itinerary.target_timeslot_end, half_past_ten);
    assert_eq!(itinerary.origin_vertiport_id, "vp-a");
    assert_eq!(itinerary.target_vertiport_id, "vp-c");
    assert_eq!(
        itinerary.merged_path,
        vec![
            point(0, 0),
            point(100000, 100000),
            point(100000, 100000),
            point(200000, 200000),
        ]
    );
}
