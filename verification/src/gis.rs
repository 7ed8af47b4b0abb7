//! The records that the gateway hands to the geospatial service.

use crate::clock::Timestamp;
use crate::number::Real;
use crate::storage::optional_text;
use vstd::prelude::*;

verus! {

/// A place on the ground.
#[derive(Clone, Copy, Debug, PartialEq, Eq, Structural)]
pub struct Coordinates {
    pub latitude: Real,
    pub longitude: Real,
}

/// What the geospatial service keeps of a vertiport.
#[derive(Clone, Debug, PartialEq, Eq)]
pub struct Vertiport {
    /// The identifier that storage gave the vertiport.
    pub identifier: String,
    pub label: Option<String>,
    /// The vertices of the bounding polygon.
    pub vertices: Vec<Coordinates>,
    pub altitude_meters: Real,
    /// When the record left the gateway.
    pub timestamp_network: Option<Timestamp>,
}

/// The mathematical content of a [`Vertiport`].
pub struct VertiportView {
    pub identifier: Seq<char>,
    pub label: Option<Seq<char>>,
    pub vertices: Seq<Coordinates>,
    pub altitude_meters: Real,
    pub timestamp_network: Option<Timestamp>,
}

impl View for Vertiport {
    type V = VertiportView;

    open spec fn view(&self) -> VertiportView {
        VertiportView {
            identifier: self.identifier@,
            label: optional_text(self.label),
            vertices: self.vertices@,
            altitude_meters: self.altitude_meters,
            timestamp_network: self.timestamp_network,
        }
    }
}

/// A list of vertiports for the geospatial service to take over.
#[derive(Clone, Debug, PartialEq, Eq)]
pub struct UpdateVertiportsRequest {
    pub vertiports: Vec<Vertiport>,
}

impl View for UpdateVertiportsRequest {
    type V = Seq<VertiportView>;

    open spec fn view(&self) -> Seq<VertiportView> {
        Seq::new(self.vertiports@.len(), |i: int| self.vertiports@[i]@)
    }
}

} // verus!
