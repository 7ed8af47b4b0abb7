//! The records that the gateway hands to the storage service.

use crate::clock::Timestamp;
use crate::number::Real;
use vstd::prelude::*;

verus! {

/// The text of an optional string.
pub open spec fn optional_text(s: Option<String>) -> Option<Seq<char>> {
    match s {
        Some(s) => Some(s@),
        None => None,
    }
}

/// A point on the globe.
#[derive(Clone, Copy, Debug, PartialEq, Eq, Structural)]
pub struct GeoPoint {
    pub latitude: Real,
    pub longitude: Real,
    /// Altitude in meters.
    pub altitude: Real,
}

/// A chain of points.
#[derive(Clone, Debug, PartialEq, Eq)]
pub struct GeoLineString {
    pub points: Vec<GeoPoint>,
}

impl View for GeoLineString {
    type V = Seq<GeoPoint>;

    open spec fn view(&self) -> Seq<GeoPoint> {
        self.points@
    }
}

/// A polygon: an outer ring and the rings of its holes.
#[derive(Clone, Debug, PartialEq, Eq)]
pub struct GeoPolygon {
    pub exterior: Option<GeoLineString>,
    pub interiors: Vec<GeoLineString>,
}

/// The mathematical content of a [`GeoPolygon`].
pub struct GeoPolygonView {
    pub exterior: Option<Seq<GeoPoint>>,
    pub interiors: Seq<Seq<GeoPoint>>,
}

impl View for GeoPolygon {
    type V = GeoPolygonView;

    open spec fn view(&self) -> GeoPolygonView {
        GeoPolygonView {
            exterior: match self.exterior {
                Some(ring) => Some(ring@),
                None => None,
            },
            interiors: Seq::new(self.interiors@.len(), |i: int| self.interiors@[i]@),
        }
    }
}

/// A vertiport to store.
#[derive(Clone, Debug, PartialEq, Eq)]
pub struct VertiportData {
    pub name: String,
    pub description: String,
    pub geo_location: Option<GeoPolygon>,
    /// When the vertiport is open, as an RFC 5545 recurrence.
    pub schedule: Option<String>,
    pub created_at: Option<Timestamp>,
    pub updated_at: Option<Timestamp>,
}

/// The mathematical content of a [`VertiportData`].
pub struct VertiportDataView {
    pub name: Seq<char>,
    pub description: Seq<char>,
    pub geo_location: Option<GeoPolygonView>,
    pub schedule: Option<Seq<char>>,
    pub created_at: Option<Timestamp>,
    pub updated_at: Option<Timestamp>,
}

impl View for VertiportData {
    type V = VertiportDataView;

    open spec fn view(&self) -> VertiportDataView {
        VertiportDataView {
            name: self.name@,
            description: self.description@,
            geo_location: match self.geo_location {
                Some(polygon) => Some(polygon@),
                None => None,
            },
            schedule: optional_text(self.schedule),
            created_at: self.created_at,
            updated_at: self.updated_at,
        }
    }
}

/// A vertipad to store.
#[derive(Clone, Debug, PartialEq, Eq)]
pub struct VertipadData {
    /// The identifier of the vertiport that the pad belongs to.
    pub vertiport_id: String,
    pub name: String,
    pub geo_location: Option<GeoPoint>,
    /// Whether the pad may be used.
    pub enabled: bool,
    /// Whether an aircraft stands on the pad.
    pub occupied: bool,
    /// When the pad is open, as an RFC 5545 recurrence.
    pub schedule: Option<String>,
    pub created_at: Option<Timestamp>,
    pub updated_at: Option<Timestamp>,
}

/// The mathematical content of a [`VertipadData`].
pub struct VertipadDataView {
    pub vertiport_id: Seq<char>,
    pub name: Seq<char>,
    pub geo_location: Option<GeoPoint>,
    pub enabled: bool,
    pub occupied: bool,
    pub schedule: Option<Seq<char>>,
    pub created_at: Option<Timestamp>,
    pub updated_at: Option<Timestamp>,
}

impl View for VertipadData {
    type V = VertipadDataView;

    open spec fn view(&self) -> VertipadDataView {
        VertipadDataView {
            vertiport_id: self.vertiport_id@,
            name: self.name@,
            geo_location: self.geo_location,
            enabled: self.enabled,
            occupied: self.occupied,
            schedule: optional_text(self.schedule),
            created_at: self.created_at,
            updated_at: self.updated_at,
        }
    }
}

/// A vehicle to store. The fields of a vehicle record that are not listed
/// here are left at their defaults.
#[derive(Clone, Debug, PartialEq, Eq)]
pub struct VehicleData {
    pub vehicle_model_id: String,
    pub registration_number: String,
    pub serial_number: String,
    pub description: Option<String>,
    pub hangar_id: Option<String>,
    pub hangar_bay_id: Option<String>,
    /// When the vehicle is available, as an RFC 5545 recurrence.
    pub schedule: Option<String>,
}

/// The mathematical content of a [`VehicleData`].
pub struct VehicleDataView {
    pub vehicle_model_id: Seq<char>,
    pub registration_number: Seq<char>,
    pub serial_number: Seq<char>,
    pub description: Option<Seq<char>>,
    pub hangar_id: Option<Seq<char>>,
    pub hangar_bay_id: Option<Seq<char>>,
    pub schedule: Option<Seq<char>>,
}

impl View for VehicleData {
    type V = VehicleDataView;

    open spec fn view(&self) -> VehicleDataView {
        VehicleDataView {
            vehicle_model_id: self.vehicle_model_id@,
            registration_number: self.registration_number@,
            serial_number: self.serial_number@,
            description: optional_text(self.description),
            hangar_id: optional_text(self.hangar_id),
            hangar_bay_id: optional_text(self.hangar_bay_id),
            schedule: optional_text(self.schedule),
        }
    }
}

/// How a user proves who they are.
#[derive(Clone, Copy, Debug, PartialEq, Eq, Structural)]
pub enum AuthMethod {
    OAuthGoogle,
    OAuthFacebook,
    OAuthAzureAd,
    Local,
}

/// A user to store.
#[derive(Clone, Debug, PartialEq, Eq)]
pub struct UserData {
    pub auth_method: AuthMethod,
    pub display_name: String,
    pub email: String,
}

/// The mathematical content of a [`UserData`].
pub struct UserDataView {
    pub auth_method: AuthMethod,
    pub display_name: Seq<char>,
    pub email: Seq<char>,
}

impl View for UserData {
    type V = UserDataView;

    open spec fn view(&self) -> UserDataView {
        UserDataView {
            auth_method: self.auth_method,
            display_name: self.display_name@,
            email: self.email@,
        }
    }
}

/// The kinds of scanner.
#[derive(Clone, Copy, Debug, PartialEq, Eq, Structural)]
pub enum ScannerType {
    /// Mounted under an aircraft.
    Underbelly,
    /// Carried by hand.
    Mobile,
    /// Built into a parcel locker.
    Locker,
    /// Fixed in a facility.
    Facility,
}

/// Whether a scanner is in service.
#[derive(Clone, Copy, Debug, PartialEq, Eq, Structural)]
pub enum ScannerStatus {
    Active,
    Disabled,
}

/// A scanner to store.
#[derive(Clone, Debug, PartialEq, Eq)]
pub struct ScannerData {
    pub organization_id: String,
    pub scanner_type: ScannerType,
    pub scanner_status: ScannerStatus,
}

/// The mathematical content of a [`ScannerData`].
pub struct ScannerDataView {
    pub organization_id: Seq<char>,
    pub scanner_type: ScannerType,
    pub scanner_status: ScannerStatus,
}

impl View for ScannerData {
    type V = ScannerDataView;

    open spec fn view(&self) -> ScannerDataView {
        ScannerDataView {
            organization_id: self.organization_id@,
            scanner_type: self.scanner_type,
            scanner_status: self.scanner_status,
        }
    }
}

} // verus!
