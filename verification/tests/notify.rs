use svc_contact::decimal::{coordinate_text, u64_to_string, weight_text};
use svc_contact::encode::encode_path;
use svc_contact::geo::Coordinate;
use svc_contact::hop::PlanData;
use svc_contact::itinerary::Itinerary;
use svc_contact::notify::{
    confirmation_payload, confirmation_response, contact_email, customer_name, dropoff_time_text,
    invoice_date_text, invoice_id, pickup_time_text, user_data_of, DeliveryError, UpstreamError,
    UserData, VertiportData, VertiportObject, VertiportRecord,
};

#[test]
fn test_customer_name_first_token() {
    assert_eq!(customer_name("John Doe"), "John");
    assert_eq!(customer_name("  Ada   Lovelace  "), "Ada");
    assert_eq!(customer_name("single"), "single");
    assert_eq!(customer_name(""), "there");
    assert_eq!(customer_name("   "), "there");
    assert_eq!(customer_name("\tTab\tName"), "Tab");
}

#[test]
fn test_contact_email_defaults_to_sender() {
    assert_eq!(contact_email("".to_string()), "info@aetheric.nl");
    assert_eq!(
        contact_email("someone@example.com".to_string()),
        "someone@example.com"
    );
}

#[test]
fn test_user_data_of() {
    let user = user_data_of("Grace Hopper", "".to_string());
    assert_eq!(user.name, "Grace");
    assert_eq!(user.email, "info@aetheric.nl");
}

#[test]
fn test_time_texts_shift_ten_minutes() {
    // 2023-01-01 09:00:00 UTC and 10:30:00 UTC.
    assert_eq!(pickup_time_text(1672563600), "2023-01-01 09:10 UTC+0000");
    assert_eq!(dropoff_time_text(1672569000), "2023-01-01 10:20 UTC+0000");
}

#[test]
fn test_invoice_date_text() {
    // 2023-01-01 09:00:00 UTC, unshifted.
    assert_eq!(invoice_date_text(1672563600), "2023-01-01 09:00 UTC+0000");
}

#[test]
fn test_confirmation_response_codes() {
    let response = confirmation_response(0).unwrap();
    assert!(response.success);
    let error = confirmation_response(406).unwrap_err();
    assert_eq!(error, DeliveryError::Rejected);
    let error = confirmation_response(-1).unwrap_err();
    assert_eq!(error, DeliveryError::Rejected);
}

#[test]
fn test_invoice_id_is_a_16_bit_number() {
    for _ in 0..32 {
        let id = invoice_id();
        let value: u32 = id.parse().unwrap();
        assert!(value <= u16::MAX as u32);
    }
}

#[test]
fn test_weight_text() {
    assert_eq!(weight_text(0), "0.00");
    assert_eq!(weight_text(1234), "1.23");
    assert_eq!(weight_text(1235), "1.24");
    assert_eq!(weight_text(995), "1.00");
    assert_eq!(weight_text(999999), "1000.00");
    assert_eq!(weight_text(1000), "1.00");
}

#[test]
fn test_coordinate_text() {
    assert_eq!(coordinate_text(3889037), "38.89037");
    assert_eq!(coordinate_text(-12020000), "-120.2");
    assert_eq!(coordinate_text(0), "0.0");
    assert_eq!(coordinate_text(-50), "-0.0005");
    assert_eq!(coordinate_text(100000), "1.0");
}

#[test]
fn test_u64_to_string() {
    assert_eq!(u64_to_string(0), "0");
    assert_eq!(u64_to_string(65535), "65535");
    assert_eq!(u64_to_string(1000000), "1000000");
}

#[test]
fn test_vertiport_data_try_from() {
    let object = VertiportObject {
        id: "vp".to_string(),
        data: Some(VertiportRecord {
            name: "Downtown Pad".to_string(),
            description: "1 Main Street".to_string(),
        }),
    };
    let data = VertiportData::try_from(object).unwrap();
    assert_eq!(data.name, "Downtown Pad");
    assert_eq!(data.address, "1 Main Street");

    let object = VertiportObject {
        id: "vp".to_string(),
        data: None,
    };
    let error = VertiportData::try_from(object).unwrap_err();
    assert_eq!(error, UpstreamError::MissingData);
}

#[test]
fn test_confirmation_payload_fields() {
    let path = vec![Coordinate { x: 0, y: 0 }, Coordinate { x: 100000, y: 100000 }];
    let hop = PlanData {
        id: "A".to_string(),
        origin_latitude: 0,
        origin_longitude: 0,
        target_latitude: 100000,
        target_longitude: 100000,
        origin_vertiport_id: "vp-a".to_string(),
        target_vertiport_id: "vp-b".to_string(),
        origin_timeslot_start: 1672563600,
        target_timeslot_end: 1672569000,
        path: path.clone(),
    };
    let itinerary = Itinerary {
        hops: vec![hop],
        origin_vertiport_id: "vp-a".to_string(),
        target_vertiport_id: "vp-b".to_string(),
        origin_timeslot_start: 1672563600,
        target_timeslot_end: 1672569000,
        origin_latitude: 0,
        origin_longitude: 0,
        target_latitude: 100000,
        target_longitude: 100000,
        merged_path: path.clone(),
    };
    let origin_vertiport = VertiportData {
        name: "Origin Pad".to_string(),
        address: "1 Origin Way".to_string(),
    };
    let target_vertiport = VertiportData {
        name: "Target Pad".to_string(),
        address: "2 Target Way".to_string(),
    };
    let user = UserData {
        name: "Grace".to_string(),
        email: "grace@example.com".to_string(),
    };
    let payload = confirmation_payload(
        &itinerary,
        1000,
        &origin_vertiport,
        &target_vertiport,
        &user,
        &"12345".to_string(),
        &"2023-01-01 08:00 UTC+0000".to_string(),
    );

    assert_eq!(payload.len(), 19);
    let keys: Vec<&str> = payload.iter().map(|(k, _)| k.as_str()).collect();
    assert_eq!(
        keys,
        vec![
            "customer_name",
            "customer_dropoff_time",
            "customer_pickup_time",
            "parcel_weight_kg",
            "origin_vertiport_name",
            "origin_vertiport_address",
            "target_vertiport_name",
            "target_vertiport_address",
            "origin_latitude",
            "origin_longitude",
            "target_latitude",
            "target_longitude",
            "encoded_polyline",
            "invoice_id",
            "invoice_date",
            "flight_price",
            "receipt_add_details",
            "currency",
            "total_price",
        ]
    );
    assert_eq!(payload[0].1, "Grace");
    assert_eq!(payload[1].1, "2023-01-01 10:20 UTC+0000");
    assert_eq!(payload[2].1, "2023-01-01 09:10 UTC+0000");
    assert_eq!(payload[3].1, "1.00");
    assert_eq!(payload[4].1, "Origin Pad");
    assert_eq!(payload[7].1, "2 Target Way");
    assert_eq!(payload[8].1, "0.0");
    assert_eq!(payload[11].1, "1.0");
    assert_eq!(payload[12].1, encode_path(&path));
    assert!(!payload[12].1.is_empty());
    assert_eq!(payload[13].1, "12345");
    assert_eq!(payload[14].1, "2023-01-01 08:00 UTC+0000");
    assert_eq!(payload[15].1, "0.00");
    assert_eq!(
        payload[16].1,
        "[{\"amount\":\"0.00\",\"description\":\"Network Fee\"},{\"amount\":\"0.00\",\"description\":\"VAT\"}]"
    );
    assert_eq!(payload[17].1, "EUR");
    assert_eq!(payload[18].1, "0.00");
}
