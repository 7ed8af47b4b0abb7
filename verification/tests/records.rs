use svc_itest::gis::Coordinates;
use svc_itest::number::Real;
use svc_itest::rest_types::{
    AddAircraftRequest, AddScannerRequest, AddUserRequest, AddVertipadRequest,
    AddVertiportRequest,
};
use svc_itest::schedule::weekly_schedule;
use svc_itest::storage::{AuthMethod, GeoPoint, ScannerData, ScannerStatus, ScannerType};
use svc_itest::records::{
    outline, parse_scanner_type, ring, user_data, vehicle_data, vertipad_data, vertiport_data,
    vertiport_update,
};
use svc_itest::clock::Timestamp;

fn number(x: f64) -> Real {
    Real::from_bits(x.to_bits())
}

#[test]
fn weekly_schedule_has_two_lines_and_no_blank() {
    let schedule = weekly_schedule();
    assert_eq!(
        schedule,
        "DTSTART:20221020T180000Z;DURATION:PT24H\nRRULE:FREQ=WEEKLY;BYDAY=MO,TU,WE,TH,FR,SA,SU"
    );
    let indented = "DTSTART:20221020T180000Z;DURATION:PT24H
    RRULE:FREQ=WEEKLY;BYDAY=MO,TU,WE,TH,FR,SA,SU";
    assert_eq!(schedule, indented.to_string().replace(' ', ""));
    assert_eq!(schedule.lines().count(), 2);
    assert!(!schedule.contains(' '));
}

#[test]
fn real_numbers_keep_their_bits() {
    assert_eq!(Real::zero().to_bits(), 0);
    assert_eq!(Real::zero(), number(0.0));
    assert_ne!(Real::zero(), number(-0.0));
    let x = 52.3745f64;
    assert_eq!(f64::from_bits(number(x).to_bits()), x);
    assert_eq!(Real::from_bits(7).to_bits(), 7);
}

#[test]
fn ring_lifts_vertices_in_order() {
    let vertices = vec![(number(1.0), number(2.0)), (number(3.0), number(4.0))];
    assert_eq!(
        ring(&vertices, number(9.0)),
        vec![
            GeoPoint { latitude: number(1.0), longitude: number(2.0), altitude: number(9.0) },
            GeoPoint { latitude: number(3.0), longitude: number(4.0), altitude: number(9.0) },
        ]
    );
    assert_eq!(ring(&vec![], number(9.0)), vec![]);
}

#[test]
fn outline_drops_the_altitude() {
    let vertices = vec![(number(1.0), number(2.0)), (number(3.0), number(4.0))];
    assert_eq!(
        outline(&vertices),
        vec![
            Coordinates { latitude: number(1.0), longitude: number(2.0) },
            Coordinates { latitude: number(3.0), longitude: number(4.0) },
        ]
    );
    assert_eq!(outline(&vec![]), vec![]);
}

#[test]
fn vertiport_record_of_a_request() {
    let request = AddVertiportRequest {
        label: "O'Hare".to_string(),
        address: "somewhere".to_string(),
        vertices: vec![(number(1.5), number(-2.5))],
        altitude: number(100.0),
    };
    let data = vertiport_data(&request);
    assert_eq!(data.name, "O'Hare");
    assert_eq!(data.description, "A vertiport named 'O'Hare'");
    let polygon = data.geo_location.unwrap();
    assert_eq!(
        polygon.exterior.unwrap().points,
        vec![GeoPoint {
            latitude: number(1.5),
            longitude: number(-2.5),
            altitude: number(100.0)
        }]
    );
    assert!(polygon.interiors.is_empty());
    assert_eq!(data.schedule, Some(weekly_schedule()));
    assert_eq!(data.created_at, None);
    assert_eq!(data.updated_at, None);
}

#[test]
fn vertiport_update_lists_one_vertiport() {
    let at = Timestamp { seconds: 5, nanos: 6 };
    let update = vertiport_update(
        "id-1".to_string(),
        "label-1".to_string(),
        &vec![(number(1.5), number(-2.5))],
        at,
    );
    assert_eq!(update.vertiports.len(), 1);
    assert_eq!(update.vertiports[0].identifier, "id-1");
    assert_eq!(update.vertiports[0].label, Some("label-1".to_string()));
    assert_eq!(
        update.vertiports[0].vertices,
        vec![Coordinates { latitude: number(1.5), longitude: number(-2.5) }]
    );
    assert_eq!(update.vertiports[0].altitude_meters, number(0.0));
    assert_eq!(update.vertiports[0].timestamp_network, Some(at));
}

#[test]
fn vertipad_record_of_a_request() {
    let request = AddVertipadRequest {
        vertiport_id: "vp".to_string(),
        latitude: number(10.0),
        longitude: number(20.0),
        altitude: number(30.0),
        label: "pad".to_string(),
    };
    let data = vertipad_data(&request);
    assert_eq!(data.vertiport_id, "vp");
    assert_eq!(data.name, "pad");
    assert_eq!(
        data.geo_location,
        Some(GeoPoint {
            latitude: number(10.0),
            longitude: number(20.0),
            altitude: number(30.0)
        })
    );
    assert!(data.enabled);
    assert!(!data.occupied);
    assert_eq!(data.schedule, Some(weekly_schedule()));
}

#[test]
fn vehicle_record_of_a_request() {
    let request = AddAircraftRequest {
        nickname: "Marvin".to_string(),
        registration_number: "N-1".to_string(),
        hangar_id: "h".to_string(),
        hangar_bay_id: "b".to_string(),
    };
    let data = vehicle_data(request, "m".to_string(), "s".to_string());
    assert_eq!(data.vehicle_model_id, "m");
    assert_eq!(data.serial_number, "s");
    assert_eq!(data.registration_number, "N-1");
    assert_eq!(data.description, Some("Marvin".to_string()));
    assert_eq!(data.hangar_id, Some("h".to_string()));
    assert_eq!(data.hangar_bay_id, Some("b".to_string()));
    assert_eq!(data.schedule, Some(weekly_schedule()));
}

#[test]
fn user_record_of_a_request() {
    let request =
        AddUserRequest { display_name: "Ada".to_string(), email: "ada@example.com".to_string() };
    let data = user_data(&request);
    assert_eq!(data.auth_method, AuthMethod::Local);
    assert_eq!(data.display_name, "Ada");
    assert_eq!(data.email, "ada@example.com");
}

#[test]
fn scanner_type_by_name() {
    assert_eq!(parse_scanner_type(&"underbelly".to_string()), Some(ScannerType::Underbelly));
    assert_eq!(parse_scanner_type(&"mobile".to_string()), Some(ScannerType::Mobile));
    assert_eq!(parse_scanner_type(&"locker".to_string()), Some(ScannerType::Locker));
    assert_eq!(parse_scanner_type(&"facility".to_string()), Some(ScannerType::Facility));
    assert_eq!(parse_scanner_type(&"drone".to_string()), None);
    assert_eq!(parse_scanner_type(&String::new()), None);
}

#[test]
fn scanner_record_of_a_request() {
    let request = AddScannerRequest {
        organization_id: "org1".to_string(),
        scanner_type: "mobile".to_string(),
    };
    assert_eq!(
        ScannerData::try_from(request),
        Ok(ScannerData {
            organization_id: "org1".to_string(),
            scanner_type: ScannerType::Mobile,
            scanner_status: ScannerStatus::Active,
        })
    );
}

#[test]
fn scanner_record_of_an_unknown_type() {
    let request = AddScannerRequest {
        organization_id: "org1".to_string(),
        scanner_type: "drone".to_string(),
    };
    assert_eq!(ScannerData::try_from(request), Err("Invalid scanner type.".to_string()));
}
