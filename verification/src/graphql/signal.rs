//! Signals on the wire: the measure enum and the input objects of the
//! signal mutations, with the validation that turns each into a service
//! request.

use vstd::prelude::*;
use vstd::utf8::encode_utf8;

use crate::graphql::InputFault;
use crate::graphql::id::Id;
use crate::service::input::INPUT_STRING_MAX_LENGTH;
use crate::service::input::InputString;
use crate::service::signal::CreateSignalMeasurementRequest;
use crate::service::signal::CreateSignalRequest;
use crate::service::signal::DeleteSignalRequest;
use crate::service::signal::ShelterMeasure as ShelterMeasureRepr;
use crate::text::trim_of;

verus! {

/// Which count a signal reports, as the API names it.
#[derive(Debug, Clone, Copy, PartialEq, Eq, Hash, Structural)]
pub enum ShelterMeasure {
    Spots,
    Beds,
}

/// The service-side value an API measure stands for.
pub open spec fn spec_measure_repr(measure: ShelterMeasure) -> ShelterMeasureRepr {
    match measure {
        ShelterMeasure::Spots => ShelterMeasureRepr::Spots,
        ShelterMeasure::Beds => ShelterMeasureRepr::Beds,
    }
}

/// Carry an API measure into the service.
pub fn measure_repr(measure: ShelterMeasure) -> (r: ShelterMeasureRepr)
    ensures
        r == spec_measure_repr(measure),
{
    match measure {
        ShelterMeasure::Spots => ShelterMeasureRepr::Spots,
        ShelterMeasure::Beds => ShelterMeasureRepr::Beds,
    }
}

/// Carry a service measure out to the API.
pub fn measure_of_repr(measure: ShelterMeasureRepr) -> (r: ShelterMeasure)
    ensures
        spec_measure_repr(r) == measure,
{
    match measure {
        ShelterMeasureRepr::Spots => ShelterMeasure::Spots,
        ShelterMeasureRepr::Beds => ShelterMeasure::Beds,
    }
}

/// The queries over signals.
#[derive(Debug, Clone, Copy, PartialEq, Eq, Hash, Structural)]
pub struct SignalQueries;

/// The mutations over signals.
#[derive(Debug, Clone, Copy, PartialEq, Eq, Hash, Structural)]
pub struct SignalMutations;

/// Register a new signal, as a caller hands it in.
#[derive(Debug, Clone, PartialEq, Eq)]
pub struct CreateSignalInput {
    pub name: String,
    pub shelter_id: Id,
    pub measure: ShelterMeasure,
}

impl CreateSignalInput {
    /// Validate the input into a service request: the id must be tagged
    /// as a shelter and the name must sanitize.
    pub fn into_request(self) -> (r: Result<CreateSignalRequest, InputFault>)
        ensures
            r is Ok <==> {
                &&& self.shelter_id.spec_type_tag() == "Shelter"@
                &&& encode_utf8(self.name@).len() as usize <= INPUT_STRING_MAX_LENGTH
            },
            r matches Ok(req) ==> {
                &&& req.shelter_id == self.shelter_id.spec_uuid()
                &&& req.name@ == trim_of(self.name@)
                &&& req.measure == spec_measure_repr(self.measure)
            },
            r matches Err(fault) ==> (fault == InputFault::InvalidId || fault
                == InputFault::InvalidName),
    {
        let shelter_id = match self.shelter_id.get("Shelter") {
            Ok(uuid) => uuid,
            Err(fault) => return Err(fault),
        };
        let name = match InputString::try_from(self.name) {
            Ok(name) => name,
            Err(_) => return Err(InputFault::InvalidName),
        };
        Ok(CreateSignalRequest { name, shelter_id, measure: measure_repr(self.measure) })
    }
}

/// Report a measurement, as a caller hands it in.
#[derive(Debug, Clone, PartialEq, Eq)]
pub struct CreateSignalMeasurementInput {
    pub signal_id: Id,
    pub signal_secret: String,
    pub measurement: u16,
}

impl CreateSignalMeasurementInput {
    /// Validate the input into a service request: the id must be tagged
    /// as a signal.
    pub fn into_request(self) -> (r: Result<CreateSignalMeasurementRequest, InputFault>)
        ensures
            r is Ok <==> self.signal_id.spec_type_tag() == "Signal"@,
            r matches Ok(req) ==> {
                &&& req.signal_id == self.signal_id.spec_uuid()
                &&& req.signal_secret == self.signal_secret
                &&& req.measurement == self.measurement
            },
            r matches Err(fault) ==> fault == InputFault::InvalidId,
    {
        match self.signal_id.get("Signal") {
            Ok(uuid) => Ok(
                CreateSignalMeasurementRequest {
                    signal_id: uuid,
                    signal_secret: self.signal_secret,
                    measurement: self.measurement,
                },
            ),
            Err(fault) => Err(fault),
        }
    }
}

/// Remove a signal, as a caller hands it in.
#[derive(Debug, Clone, PartialEq, Eq)]
pub struct DeleteSignalInput {
    pub signal_id: Id,
}

impl DeleteSignalInput {
    /// Validate the input into a service request: the id must be tagged
    /// as a signal.
    pub fn into_request(self) -> (r: Result<DeleteSignalRequest, InputFault>)
        ensures
            r is Ok <==> self.signal_id.spec_type_tag() == "Signal"@,
            r matches Ok(req) ==> req.signal_id == self.signal_id.spec_uuid(),
            r matches Err(fault) ==> fault == InputFault::InvalidId,
    {
        match self.signal_id.get("Signal") {
            Ok(uuid) => Ok(DeleteSignalRequest { signal_id: uuid }),
            Err(fault) => Err(fault),
        }
    }
}

} // verus!
