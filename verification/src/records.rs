//! From the body of a request to the records that the services receive.

use crate::clock::Timestamp;
use crate::gis::{Coordinates, UpdateVertiportsRequest, Vertiport, VertiportView};
use crate::number::Real;
use crate::rest_types::{
    AddAircraftRequest, AddAircraftRequestView, AddScannerRequest, AddScannerRequestView,
    AddUserRequest, AddUserRequestView, AddVertipadRequest, AddVertipadRequestView,
    AddVertiportRequest, AddVertiportRequestView,
};
use crate::schedule::{weekly_schedule, weekly_schedule_text};
use crate::storage::{
    AuthMethod, GeoLineString, GeoPoint, GeoPolygon, GeoPolygonView, ScannerData,
    ScannerDataView, ScannerStatus, ScannerType, UserData, UserDataView, VehicleData,
    VehicleDataView, VertipadData, VertipadDataView, VertiportData, VertiportDataView,
};
use vstd::prelude::*;
use vstd::string::StringExecFns;

verus! {

/// The vertices of a boundary as points at one altitude, in their order.
pub open spec fn ring_of(vertices: Seq<(Real, Real)>, altitude: Real) -> Seq<GeoPoint> {
    Seq::new(
        vertices.len(),
        |i: int| GeoPoint { latitude: vertices[i].0, longitude: vertices[i].1, altitude },
    )
}

/// The vertices of a boundary as places on the ground, in their order.
pub open spec fn outline_of(vertices: Seq<(Real, Real)>) -> Seq<Coordinates> {
    Seq::new(
        vertices.len(),
        |i: int| Coordinates { latitude: vertices[i].0, longitude: vertices[i].1 },
    )
}

/// The description that a vertiport with this label is stored under.
pub open spec fn vertiport_description(label: Seq<char>) -> Seq<char> {
    "A vertiport named '"@ + label + "'"@
}

/// The vertiport record that a request asks storage for: named by the label,
/// bounded by the request's vertices at the request's altitude, without
/// holes, open all week, and with no dates of its own.
pub open spec fn vertiport_record(request: AddVertiportRequestView) -> VertiportDataView {
    VertiportDataView {
        name: request.label,
        description: vertiport_description(request.label),
        geo_location: Some(
            GeoPolygonView {
                exterior: Some(ring_of(request.vertices, request.altitude)),
                interiors: Seq::empty(),
            },
        ),
        schedule: Some(weekly_schedule_text()),
        created_at: None,
        updated_at: None,
    }
}

/// What the geospatial service is told of a stored vertiport: its
/// identifier, label and outline, at altitude zero, stamped with the time.
pub open spec fn vertiport_summary(
    identifier: Seq<char>,
    label: Seq<char>,
    vertices: Seq<(Real, Real)>,
    now: Timestamp,
) -> VertiportView {
    VertiportView {
        identifier,
        label: Some(label),
        vertices: outline_of(vertices),
        altitude_meters: Real::spec_zero(),
        timestamp_network: Some(now),
    }
}

/// The vertipad record that a request asks storage for: attached to the
/// named vertiport, enabled, not occupied, open all week.
pub open spec fn vertipad_record(request: AddVertipadRequestView) -> VertipadDataView {
    VertipadDataView {
        vertiport_id: request.vertiport_id,
        name: request.label,
        geo_location: Some(
            GeoPoint {
                latitude: request.latitude,
                longitude: request.longitude,
                altitude: request.altitude,
            },
        ),
        enabled: true,
        occupied: false,
        schedule: Some(weekly_schedule_text()),
        created_at: None,
        updated_at: None,
    }
}

/// The vehicle record that a request asks storage for, once a model
/// identifier and a serial number have been made up for it.
pub open spec fn vehicle_record(
    request: AddAircraftRequestView,
    vehicle_model_id: Seq<char>,
    serial_number: Seq<char>,
) -> VehicleDataView {
    VehicleDataView {
        vehicle_model_id,
        registration_number: request.registration_number,
        serial_number,
        description: Some(request.nickname),
        hangar_id: Some(request.hangar_id),
        hangar_bay_id: Some(request.hangar_bay_id),
        schedule: Some(weekly_schedule_text()),
    }
}

/// The user record that a request asks storage for: a user who signs in
/// locally.
pub open spec fn user_record(request: AddUserRequestView) -> UserDataView {
    UserDataView {
        auth_method: AuthMethod::Local,
        display_name: request.display_name,
        email: request.email,
    }
}

/// The kind of scanner that a name stands for, if it stands for one.
pub open spec fn scanner_type_named(name: Seq<char>) -> Option<ScannerType> {
    if name == "underbelly"@ {
        Some(ScannerType::Underbelly)
    } else if name == "mobile"@ {
        Some(ScannerType::Mobile)
    } else if name == "locker"@ {
        Some(ScannerType::Locker)
    } else if name == "facility"@ {
        Some(ScannerType::Facility)
    } else {
        None
    }
}

/// What a request with an unknown kind of scanner is answered.
pub open spec fn invalid_scanner_type_text() -> Seq<char> {
    "Invalid scanner type."@
}

/// The scanner record that a request asks storage for, where its kind is
/// known: an active scanner of that kind.
pub open spec fn scanner_record(request: AddScannerRequestView) -> Result<
    ScannerDataView,
    Seq<char>,
> {
    match scanner_type_named(request.scanner_type) {
        Some(scanner_type) => Ok(
            ScannerDataView {
                organization_id: request.organization_id,
                scanner_type,
                scanner_status: ScannerStatus::Active,
            },
        ),
        None => Err(invalid_scanner_type_text()),
    }
}

/// Lifts the vertices of a boundary to points at the given altitude.
pub fn ring(vertices: &Vec<(Real, Real)>, altitude: Real) -> (points: Vec<GeoPoint>)
    ensures
        points@ == ring_of(vertices@, altitude),
{
    let mut points: Vec<GeoPoint> = Vec::new();
    let mut i: usize = 0;
    while i < vertices.len()
        invariant
            i <= vertices.len(),
            points@ == ring_of(vertices@.take(i as int), altitude),
        decreases vertices.len() - i,
    {
        let vertex = vertices[i];
        points.push(GeoPoint { latitude: vertex.0, longitude: vertex.1, altitude });
        i = i + 1;
        assert(points@ =~= ring_of(vertices@.take(i as int), altitude));
    }
    assert(vertices@.take(i as int) =~= vertices@);
    points
}

/// Drops the altitude: the vertices of a boundary as places on the ground.
pub fn outline(vertices: &Vec<(Real, Real)>) -> (places: Vec<Coordinates>)
    ensures
        places@ == outline_of(vertices@),
{
    let mut places: Vec<Coordinates> = Vec::new();
    let mut i: usize = 0;
    while i < vertices.len()
        invariant
            i <= vertices.len(),
            places@ == outline_of(vertices@.take(i as int)),
        decreases vertices.len() - i,
    {
        let vertex = vertices[i];
        places.push(Coordinates { latitude: vertex.0, longitude: vertex.1 });
        i = i + 1;
        assert(places@ =~= outline_of(vertices@.take(i as int)));
    }
    assert(vertices@.take(i as int) =~= vertices@);
    places
}

/// Builds the vertiport record for storage.
pub fn vertiport_data(request: &AddVertiportRequest) -> (data: VertiportData)
    ensures
        data@ == vertiport_record(request@),
{
    let description = String::from_str("A vertiport named '").concat(
        request.label.as_str(),
    ).concat("'");
    let exterior = GeoLineString { points: ring(&request.vertices, request.altitude) };
    let polygon = GeoPolygon { exterior: Some(exterior), interiors: Vec::new() };
    assert(polygon@.interiors =~= Seq::empty());
    VertiportData {
        name: request.label.clone(),
        description,
        geo_location: Some(polygon),
        schedule: Some(weekly_schedule()),
        created_at: None,
        updated_at: None,
    }
}

/// Builds the one-entry list that tells the geospatial service of a stored
/// vertiport.
pub fn vertiport_update(
    identifier: String,
    label: String,
    vertices: &Vec<(Real, Real)>,
    now: Timestamp,
) -> (update: UpdateVertiportsRequest)
    ensures
        update@ == seq![vertiport_summary(identifier@, label@, vertices@, now)],
{
    let vertiport = Vertiport {
        identifier,
        label: Some(label),
        vertices: outline(vertices),
        altitude_meters: Real::zero(),
        timestamp_network: Some(now),
    };
    let mut vertiports: Vec<Vertiport> = Vec::new();
    vertiports.push(vertiport);
    let update = UpdateVertiportsRequest { vertiports };
    assert(update@ =~= seq![vertiport_summary(identifier@, label@, vertices@, now)]);
    update
}

/// Builds the vertipad record for storage.
pub fn vertipad_data(request: &AddVertipadRequest) -> (data: VertipadData)
    ensures
        data@ == vertipad_record(request@),
{
    VertipadData {
        vertiport_id: request.vertiport_id.clone(),
        name: request.label.clone(),
        geo_location: Some(
            GeoPoint {
                latitude: request.latitude,
                longitude: request.longitude,
                altitude: request.altitude,
            },
        ),
        enabled: true,
        occupied: false,
        schedule: Some(weekly_schedule()),
        created_at: None,
        updated_at: None,
    }
}

/// Builds the vehicle record for storage from a request and the two
/// identifiers that were made up for it.
pub fn vehicle_data(
    request: AddAircraftRequest,
    vehicle_model_id: String,
    serial_number: String,
) -> (data: VehicleData)
    ensures
        data@ == vehicle_record(request@, vehicle_model_id@, serial_number@),
{
    VehicleData {
        vehicle_model_id,
        registration_number: request.registration_number,
        serial_number,
        description: Some(request.nickname),
        hangar_id: Some(request.hangar_id),
        hangar_bay_id: Some(request.hangar_bay_id),
        schedule: Some(weekly_schedule()),
    }
}

/// Builds the user record for storage.
pub fn user_data(request: &AddUserRequest) -> (data: UserData)
    ensures
        data@ == user_record(request@),
{
    UserData {
        auth_method: AuthMethod::Local,
        display_name: request.display_name.clone(),
        email: request.email.clone(),
    }
}

/// Reads the name of a kind of scanner.
pub fn parse_scanner_type(name: &String) -> (kind: Option<ScannerType>)
    ensures
        kind == scanner_type_named(name@),
{
    if *name == String::from_str("underbelly") {
        Some(ScannerType::Underbelly)
    } else if *name == String::from_str("mobile") {
        Some(ScannerType::Mobile)
    } else if *name == String::from_str("locker") {
        Some(ScannerType::Locker)
    } else if *name == String::from_str("facility") {
        Some(ScannerType::Facility)
    } else {
        None
    }
}

impl ScannerData {
    /// Builds the scanner record for storage, or says that the kind of
    /// scanner is not one of the four.
    pub fn try_from(value: AddScannerRequest) -> (data: Result<ScannerData, String>)
        ensures
            match (data, scanner_record(value@)) {
                (Ok(data), Ok(record)) => data@ == record,
                (Err(message), Err(text)) => message@ == text,
                _ => false,
            },
    {
        match parse_scanner_type(&value.scanner_type) {
            Some(scanner_type) => Ok(
                ScannerData {
                    organization_id: value.organization_id,
                    scanner_type,
                    scanner_status: ScannerStatus::Active,
                },
            ),
            None => Err(String::from_str("Invalid scanner type.")),
        }
    }
}

} // verus!
