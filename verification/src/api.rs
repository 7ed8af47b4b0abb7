//! The handlers of the REST interface.
//!
//! A handler never talks to a service itself. It says which call is to be
//! made and what it is waiting for; whoever drives it makes the call and
//! hands the reply to [`advance`], until an [`Outcome`] is reached. Between
//! two calls a handler keeps nothing but its [`Pending`] value.

use crate::clock::{now, Timestamp};
use crate::gis::{UpdateVertiportsRequest, VertiportView};
use crate::identifier::{is_random_uuid_text, random_identifier};
use crate::number::Real;
use crate::rest_types::{
    AddAircraftRequest, AddAircraftRequestView, AddScannerRequest, AddScannerRequestView,
    AddUserRequest, AddUserRequestView, AddVertipadRequest, AddVertipadRequestView,
    AddVertiportRequest, AddVertiportRequestView,
};
use crate::storage::{
    optional_text, ScannerData, ScannerDataView, UserData, UserDataView, VehicleData,
    VehicleDataView, VertipadData, VertipadDataView, VertiportData, VertiportDataView,
};
use crate::records::{
    scanner_record, user_data, user_record, vehicle_data, vehicle_record, vertipad_data,
    vertipad_record, vertiport_data, vertiport_record, vertiport_summary, vertiport_update,
};
use vstd::prelude::*;

verus! {

/// The services behind the gateway.
#[derive(Clone, Copy, Debug, PartialEq, Eq, Structural)]
pub enum Dependency {
    /// The storage service.
    Storage,
    /// The geospatial service.
    Geospatial,
}

/// A call that a handler asks for.
#[derive(Clone, Debug, PartialEq, Eq)]
pub enum Call {
    /// Ask storage whether its vertiport resource is ready.
    IsReady,
    /// Insert a vertiport into storage.
    InsertVertiport(VertiportData),
    /// Insert a vertipad into storage.
    InsertVertipad(VertipadData),
    /// Insert a vehicle into storage.
    InsertVehicle(VehicleData),
    /// Insert a user into storage.
    InsertUser(UserData),
    /// Insert a scanner into storage.
    InsertScanner(ScannerData),
    /// Hand vertiports to the geospatial service.
    UpdateVertiports(UpdateVertiportsRequest),
}

/// The mathematical content of a [`Call`].
pub enum CallView {
    IsReady,
    InsertVertiport(VertiportDataView),
    InsertVertipad(VertipadDataView),
    InsertVehicle(VehicleDataView),
    InsertUser(UserDataView),
    InsertScanner(ScannerDataView),
    UpdateVertiports(Seq<VertiportView>),
}

impl CallView {
    /// The service that receives the call.
    pub open spec fn dependency(self) -> Dependency {
        match self {
            CallView::UpdateVertiports(_) => Dependency::Geospatial,
            _ => Dependency::Storage,
        }
    }
}

impl View for Call {
    type V = CallView;

    open spec fn view(&self) -> CallView {
        match self {
            Call::IsReady => CallView::IsReady,
            Call::InsertVertiport(data) => CallView::InsertVertiport(data@),
            Call::InsertVertipad(data) => CallView::InsertVertipad(data@),
            Call::InsertVehicle(data) => CallView::InsertVehicle(data@),
            Call::InsertUser(data) => CallView::InsertUser(data@),
            Call::InsertScanner(data) => CallView::InsertScanner(data@),
            Call::UpdateVertiports(update) => CallView::UpdateVertiports(update@),
        }
    }
}

impl Call {
    /// The service that receives the call.
    pub fn dependency(&self) -> (dependency: Dependency)
        ensures
            dependency == self@.dependency(),
    {
        match self {
            Call::UpdateVertiports(_) => Dependency::Geospatial,
            _ => Dependency::Storage,
        }
    }
}

/// How a call ended.
#[derive(Clone, Debug, PartialEq, Eq)]
pub enum Reply {
    /// The service answered. Where the answer holds a stored object, this is
    /// the object's identifier.
    Answered(Option<String>),
    /// The call returned an error, or no answer came in time.
    Failed,
}

/// The mathematical content of a [`Reply`].
pub enum ReplyView {
    Answered(Option<Seq<char>>),
    Failed,
}

impl View for Reply {
    type V = ReplyView;

    open spec fn view(&self) -> ReplyView {
        match self {
            Reply::Answered(object) => ReplyView::Answered(optional_text(*object)),
            Reply::Failed => ReplyView::Failed,
        }
    }
}

/// Why a request was not served.
#[derive(Clone, Copy, Debug, PartialEq, Eq, Structural)]
pub enum Failure {
    /// The request names something that the gateway does not know.
    InvalidInput,
    /// A call to a service failed, or its answer lacked the stored object.
    Internal,
    /// A service that the gateway depends on is not ready.
    Unavailable,
}

impl Failure {
    /// The HTTP status that reports the failure.
    pub open spec fn spec_status_code(self) -> u16 {
        match self {
            Failure::InvalidInput => 500,
            Failure::Internal => 500,
            Failure::Unavailable => 503,
        }
    }

    /// The HTTP status that reports the failure: 503 for a service that is
    /// not ready, 500 for everything else.
    pub fn status_code(&self) -> (code: u16)
        ensures
            code == self.spec_status_code(),
    {
        match self {
            Failure::InvalidInput => 500,
            Failure::Internal => 500,
            Failure::Unavailable => 503,
        }
    }
}

/// How a request ended.
#[derive(Clone, Debug, PartialEq, Eq)]
pub enum Outcome {
    /// Every service that was probed is ready.
    Healthy,
    /// The record was stored under this identifier.
    Created(String),
    /// The request was not served.
    Failed(Failure),
}

/// The mathematical content of an [`Outcome`].
pub enum OutcomeView {
    Healthy,
    Created(Seq<char>),
    Failed(Failure),
}

impl OutcomeView {
    /// The HTTP status of the response.
    pub open spec fn status_code(self) -> u16 {
        match self {
            OutcomeView::Healthy => 200,
            OutcomeView::Created(_) => 200,
            OutcomeView::Failed(failure) => failure.spec_status_code(),
        }
    }

    /// The body of the response: the identifier of what was created, and
    /// nothing otherwise.
    pub open spec fn body(self) -> Option<Seq<char>> {
        match self {
            OutcomeView::Created(identifier) => Some(identifier),
            _ => None,
        }
    }
}

impl View for Outcome {
    type V = OutcomeView;

    open spec fn view(&self) -> OutcomeView {
        match self {
            Outcome::Healthy => OutcomeView::Healthy,
            Outcome::Created(identifier) => OutcomeView::Created(identifier@),
            Outcome::Failed(failure) => OutcomeView::Failed(*failure),
        }
    }
}

impl Outcome {
    /// The HTTP status of the response: 200 on success, else the status of
    /// the failure.
    pub fn status_code(&self) -> (code: u16)
        ensures
            code == self@.status_code(),
    {
        match self {
            Outcome::Healthy => 200,
            Outcome::Created(_) => 200,
            Outcome::Failed(failure) => failure.status_code(),
        }
    }

    /// The body of the response: the identifier of what was created, and
    /// nothing otherwise.
    pub fn body(self) -> (body: Option<String>)
        ensures
            optional_text(body) == self@.body(),
    {
        match self {
            Outcome::Created(identifier) => Some(identifier),
            _ => None,
        }
    }
}

/// What a handler that has asked for a call is waiting for.
#[derive(Clone, Debug, PartialEq, Eq)]
pub enum Pending {
    /// The answer to the readiness probe.
    Health,
    /// The identifier of an inserted record, which ends the request.
    Insert,
    /// The identifier of an inserted vertiport, which the geospatial service
    /// is then told of, with this label and these vertices.
    VertiportInsert { label: String, vertices: Vec<(Real, Real)> },
    /// The geospatial service's answer on the vertiport that storage holds
    /// under this identifier.
    VertiportUpdate { identifier: String },
}

/// The mathematical content of a [`Pending`].
pub enum PendingView {
    Health,
    Insert,
    VertiportInsert { label: Seq<char>, vertices: Seq<(Real, Real)> },
    VertiportUpdate { identifier: Seq<char> },
}

impl View for Pending {
    type V = PendingView;

    open spec fn view(&self) -> PendingView {
        match self {
            Pending::Health => PendingView::Health,
            Pending::Insert => PendingView::Insert,
            Pending::VertiportInsert { label, vertices } => PendingView::VertiportInsert {
                label: label@,
                vertices: vertices@,
            },
            Pending::VertiportUpdate { identifier } => PendingView::VertiportUpdate {
                identifier: identifier@,
            },
        }
    }
}

/// What a handler does next.
#[derive(Clone, Debug, PartialEq, Eq)]
pub enum Step {
    /// Make this call, and hand its reply to [`advance`] with `pending`.
    Call { call: Call, pending: Pending },
    /// Answer the request.
    Done(Outcome),
}

/// The mathematical content of a [`Step`].
pub enum StepView {
    Call { call: CallView, pending: PendingView },
    Done(OutcomeView),
}

impl View for Step {
    type V = StepView;

    open spec fn view(&self) -> StepView {
        match self {
            Step::Call { call, pending } => StepView::Call { call: call@, pending: pending@ },
            Step::Done(outcome) => StepView::Done(outcome@),
        }
    }
}

/// The health check starts by probing storage, and probes nothing else.
pub open spec fn health_check_step() -> StepView {
    StepView::Call { call: CallView::IsReady, pending: PendingView::Health }
}

/// Adding a vertiport starts with its insertion into storage.
pub open spec fn add_vertiport_step(request: AddVertiportRequestView) -> StepView {
    StepView::Call {
        call: CallView::InsertVertiport(vertiport_record(request)),
        pending: PendingView::VertiportInsert {
            label: request.label,
            vertices: request.vertices,
        },
    }
}

/// Adding a vertipad is its insertion into storage.
pub open spec fn add_vertipad_step(request: AddVertipadRequestView) -> StepView {
    StepView::Call {
        call: CallView::InsertVertipad(vertipad_record(request)),
        pending: PendingView::Insert,
    }
}

/// Adding an aircraft is the insertion into storage of a vehicle with the
/// given model identifier and serial number.
pub open spec fn add_aircraft_step(
    request: AddAircraftRequestView,
    vehicle_model_id: Seq<char>,
    serial_number: Seq<char>,
) -> StepView {
    StepView::Call {
        call: CallView::InsertVehicle(vehicle_record(request, vehicle_model_id, serial_number)),
        pending: PendingView::Insert,
    }
}

/// Adding a user is its insertion into storage.
pub open spec fn add_user_step(request: AddUserRequestView) -> StepView {
    StepView::Call { call: CallView::InsertUser(user_record(request)), pending: PendingView::Insert }
}

/// Adding a scanner of a known kind is its insertion into storage. A
/// request for another kind is turned down at once.
pub open spec fn add_scanner_step(request: AddScannerRequestView) -> StepView {
    match scanner_record(request) {
        Ok(record) => StepView::Call {
            call: CallView::InsertScanner(record),
            pending: PendingView::Insert,
        },
        Err(_) => StepView::Done(OutcomeView::Failed(Failure::InvalidInput)),
    }
}

/// What a waiting handler does with a reply that it receives at the time
/// `now`.
///
/// A failed call ends the request: with `Unavailable` for the readiness
/// probe, with `Internal` for every other call. So does the answer to an
/// insertion that names no stored object. An answered probe means health;
/// the identifier of an inserted record is the response, but for a
/// vertiport, whose identifier, label and outline the geospatial service is
/// told first.
pub open spec fn next_step(pending: PendingView, reply: ReplyView, now: Timestamp) -> StepView {
    match pending {
        PendingView::Health => match reply {
            ReplyView::Answered(_) => StepView::Done(OutcomeView::Healthy),
            ReplyView::Failed => StepView::Done(OutcomeView::Failed(Failure::Unavailable)),
        },
        PendingView::Insert => match reply {
            ReplyView::Answered(Some(identifier)) => StepView::Done(
                OutcomeView::Created(identifier),
            ),
            _ => StepView::Done(OutcomeView::Failed(Failure::Internal)),
        },
        PendingView::VertiportInsert { label, vertices } => match reply {
            ReplyView::Answered(Some(identifier)) => StepView::Call {
                call: CallView::UpdateVertiports(
                    seq![vertiport_summary(identifier, label, vertices, now)],
                ),
                pending: PendingView::VertiportUpdate { identifier },
            },
            _ => StepView::Done(OutcomeView::Failed(Failure::Internal)),
        },
        PendingView::VertiportUpdate { identifier } => match reply {
            ReplyView::Answered(_) => StepView::Done(OutcomeView::Created(identifier)),
            ReplyView::Failed => StepView::Done(OutcomeView::Failed(Failure::Internal)),
        },
    }
}

/// Tells a caller whether the service is healthy: starts the probe of the
/// one service that the verdict rests on.
pub fn health_check() -> (step: Step)
    ensures
        step@ == health_check_step(),
{
    Step::Call { call: Call::IsReady, pending: Pending::Health }
}

/// Adds a vertiport to storage and to the geospatial service.
pub fn add_vertiport(payload: AddVertiportRequest) -> (step: Step)
    ensures
        step@ == add_vertiport_step(payload@),
{
    let data = vertiport_data(&payload);
    Step::Call {
        call: Call::InsertVertiport(data),
        pending: Pending::VertiportInsert { label: payload.label, vertices: payload.vertices },
    }
}

/// Adds a vertipad to storage.
pub fn add_vertipad(payload: AddVertipadRequest) -> (step: Step)
    ensures
        step@ == add_vertipad_step(payload@),
{
    Step::Call { call: Call::InsertVertipad(vertipad_data(&payload)), pending: Pending::Insert }
}

/// Adds an aircraft to storage under the given model identifier and serial
/// number.
pub fn add_aircraft_as(
    payload: AddAircraftRequest,
    vehicle_model_id: String,
    serial_number: String,
) -> (step: Step)
    ensures
        step@ == add_aircraft_step(payload@, vehicle_model_id@, serial_number@),
{
    Step::Call {
        call: Call::InsertVehicle(vehicle_data(payload, vehicle_model_id, serial_number)),
        pending: Pending::Insert,
    }
}

/// Adds an aircraft to storage. The request names neither a model nor a
/// serial number, so a fresh random identifier is made up for each.
pub fn add_aircraft(payload: AddAircraftRequest) -> (step: Step)
    ensures
        exists|vehicle_model_id: Seq<char>, serial_number: Seq<char>|
            {
                &&& is_random_uuid_text(vehicle_model_id)
                &&& is_random_uuid_text(serial_number)
                &&& step@ == #[trigger] add_aircraft_step(
                    payload@,
                    vehicle_model_id,
                    serial_number,
                )
            },
{
    let vehicle_model_id = random_identifier();
    let serial_number = random_identifier();
    add_aircraft_as(payload, vehicle_model_id, serial_number)
}

/// Adds a user to storage.
pub fn add_user(payload: AddUserRequest) -> (step: Step)
    ensures
        step@ == add_user_step(payload@),
{
    Step::Call { call: Call::InsertUser(user_data(&payload)), pending: Pending::Insert }
}

/// Adds a scanner to storage, unless its kind is unknown.
pub fn add_scanner(payload: AddScannerRequest) -> (step: Step)
    ensures
        step@ == add_scanner_step(payload@),
{
    match ScannerData::try_from(payload) {
        Ok(data) => Step::Call { call: Call::InsertScanner(data), pending: Pending::Insert },
        Err(_) => Step::Done(Outcome::Failed(Failure::InvalidInput)),
    }
}

/// Takes a waiting handler one step on, with the reply to its call and the
/// time at which the reply is handled.
pub fn advance_at(pending: Pending, reply: Reply, now: Timestamp) -> (step: Step)
    ensures
        step@ == next_step(pending@, reply@, now),
{
    match pending {
        Pending::Health => match reply {
            Reply::Answered(_) => Step::Done(Outcome::Healthy),
            Reply::Failed => Step::Done(Outcome::Failed(Failure::Unavailable)),
        },
        Pending::Insert => match reply {
            Reply::Answered(Some(identifier)) => Step::Done(Outcome::Created(identifier)),
            _ => Step::Done(Outcome::Failed(Failure::Internal)),
        },
        Pending::VertiportInsert { label, vertices } => match reply {
            Reply::Answered(Some(identifier)) => {
                let update = vertiport_update(identifier.clone(), label, &vertices, now);
                Step::Call {
                    call: Call::UpdateVertiports(update),
                    pending: Pending::VertiportUpdate { identifier },
                }
            },
            _ => Step::Done(Outcome::Failed(Failure::Internal)),
        },
        Pending::VertiportUpdate { identifier } => match reply {
            Reply::Answered(_) => Step::Done(Outcome::Created(identifier)),
            Reply::Failed => Step::Done(Outcome::Failed(Failure::Internal)),
        },
    }
}

/// Takes a waiting handler one step on, with the reply to its call. Where
/// the step stamps a record, it reads the clock.
pub fn advance(pending: Pending, reply: Reply) -> (step: Step)
    ensures
        exists|now: Timestamp|
            now.well_formed() && step@ == #[trigger] next_step(pending@, reply@, now),
{
    let now = now();
    advance_at(pending, reply, now)
}

} // verus!
