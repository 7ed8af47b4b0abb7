//! The bodies of the REST requests that the gateway accepts.

use crate::number::Real;
use vstd::prelude::*;

verus! {

/// What is needed to add a vertipad.
#[derive(Debug, Clone, PartialEq, Eq)]
pub struct AddVertipadRequest {
    /// The identifier of the vertiport that the pad belongs to.
    pub vertiport_id: String,
    /// The latitude of the pad.
    pub latitude: Real,
    /// The longitude of the pad.
    pub longitude: Real,
    /// The altitude of the pad in meters.
    pub altitude: Real,
    /// The informal label of the pad.
    pub label: String,
}

/// The mathematical content of an [`AddVertipadRequest`].
pub struct AddVertipadRequestView {
    pub vertiport_id: Seq<char>,
    pub latitude: Real,
    pub longitude: Real,
    pub altitude: Real,
    pub label: Seq<char>,
}

impl View for AddVertipadRequest {
    type V = AddVertipadRequestView;

    open spec fn view(&self) -> AddVertipadRequestView {
        AddVertipadRequestView {
            vertiport_id: self.vertiport_id@,
            latitude: self.latitude,
            longitude: self.longitude,
            altitude: self.altitude,
            label: self.label@,
        }
    }
}

/// What is needed to add a vertiport.
#[derive(Debug, Clone, PartialEq, Eq)]
pub struct AddVertiportRequest {
    /// The label of the vertiport.
    pub label: String,
    /// The address of the vertiport.
    pub address: String,
    /// The bounding polygon of the vertiport, each vertex as latitude and
    /// longitude.
    pub vertices: Vec<(Real, Real)>,
    /// The starting altitude of the vertiport in meters.
    pub altitude: Real,
}

/// The mathematical content of an [`AddVertiportRequest`].
pub struct AddVertiportRequestView {
    pub label: Seq<char>,
    pub address: Seq<char>,
    pub vertices: Seq<(Real, Real)>,
    pub altitude: Real,
}

impl View for AddVertiportRequest {
    type V = AddVertiportRequestView;

    open spec fn view(&self) -> AddVertiportRequestView {
        AddVertiportRequestView {
            label: self.label@,
            address: self.address@,
            vertices: self.vertices@,
            altitude: self.altitude,
        }
    }
}

/// What is needed to add an aircraft.
#[derive(Debug, Clone, PartialEq, Eq)]
pub struct AddAircraftRequest {
    /// The nickname of the aircraft.
    pub nickname: String,
    /// The registration number of the aircraft.
    pub registration_number: String,
    /// The identifier of the hangar.
    pub hangar_id: String,
    /// The identifier of the hangar bay.
    pub hangar_bay_id: String,
}

/// The mathematical content of an [`AddAircraftRequest`].
pub struct AddAircraftRequestView {
    pub nickname: Seq<char>,
    pub registration_number: Seq<char>,
    pub hangar_id: Seq<char>,
    pub hangar_bay_id: Seq<char>,
}

impl View for AddAircraftRequest {
    type V = AddAircraftRequestView;

    open spec fn view(&self) -> AddAircraftRequestView {
        AddAircraftRequestView {
            nickname: self.nickname@,
            registration_number: self.registration_number@,
            hangar_id: self.hangar_id@,
            hangar_bay_id: self.hangar_bay_id@,
        }
    }
}

/// What is needed to add a user.
#[derive(Debug, Clone, PartialEq, Eq)]
pub struct AddUserRequest {
    /// The display name of the user.
    pub display_name: String,
    /// The email address of the user.
    pub email: String,
}

/// The mathematical content of an [`AddUserRequest`].
pub struct AddUserRequestView {
    pub display_name: Seq<char>,
    pub email: Seq<char>,
}

impl View for AddUserRequest {
    type V = AddUserRequestView;

    open spec fn view(&self) -> AddUserRequestView {
        AddUserRequestView { display_name: self.display_name@, email: self.email@ }
    }
}

/// What is needed to add a scanner.
#[derive(Debug, Clone, PartialEq, Eq)]
pub struct AddScannerRequest {
    /// The identifier of the organization that owns the scanner.
    pub organization_id: String,
    /// The kind of scanner, by name: `underbelly`, `mobile`, `locker` or
    /// `facility`.
    pub scanner_type: String,
}

/// The mathematical content of an [`AddScannerRequest`].
pub struct AddScannerRequestView {
    pub organization_id: Seq<char>,
    pub scanner_type: Seq<char>,
}

impl View for AddScannerRequest {
    type V = AddScannerRequestView;

    open spec fn view(&self) -> AddScannerRequestView {
        AddScannerRequestView {
            organization_id: self.organization_id@,
            scanner_type: self.scanner_type@,
        }
    }
}

} // verus!
