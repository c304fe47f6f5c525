//! Occupancy signals: the reporting devices registered for shelters, the
//! request shapes, and the pure parts of the signal operations — including
//! the heart of measurement ingestion, which turns a signal's report into
//! an occupancy snapshot and a stored measurement.

use vstd::prelude::*;

use crate::service::context::Context;
use crate::service::input::InputString;
use crate::service::meta::Meta;
use crate::service::shelter::Shelter;
use crate::service::shelter::ShelterSpace;
use crate::service::shelter_measurement::ShelterMeasurement;
use crate::service::slug::Slug;
use crate::uid::UuidValue;
use crate::uid::uuid_new_v4;
use crate::uid::uuid_to_string;

verus! {

/// Which count of a shelter's room a signal reports.
#[derive(Debug, Clone, Copy, PartialEq, Eq, Hash, Structural)]
pub enum ShelterMeasure {
    /// The signal reports occupied spots.
    Spots,
    /// The signal reports occupied beds.
    Beds,
}

/// A reporting device registered for a shelter, secret included.
#[derive(Debug, Clone)]
pub struct Signal {
    /// The signal's identifier.
    pub id: UuidValue,
    /// When the signal was registered, in epoch seconds.
    pub created_at: u64,
    /// When the signal last changed, in epoch seconds.
    pub updated_at: u64,
    /// The signal's URL slug.
    pub slug: Slug,
    /// The signal's name.
    pub name: String,
    /// The shelter the signal reports for.
    pub shelter_id: UuidValue,
    /// Which count the signal reports.
    pub measure: ShelterMeasure,
    /// The secret the device presents with each report.
    pub secret: String,
}

/// A signal as shown publicly: everything but the secret.
#[derive(Debug, Clone)]
pub struct SignalProfile {
    /// The signal's identifier.
    pub id: UuidValue,
    /// When the signal was registered, in epoch seconds.
    pub created_at: u64,
    /// When the signal last changed, in epoch seconds.
    pub updated_at: u64,
    /// The signal's URL slug.
    pub slug: Slug,
    /// The signal's name.
    pub name: String,
    /// The shelter the signal reports for.
    pub shelter_id: UuidValue,
    /// Which count the signal reports.
    pub measure: ShelterMeasure,
}

impl From<Signal> for SignalProfile {
    fn from(signal: Signal) -> (r: SignalProfile) {
        SignalProfile {
            id: signal.id,
            created_at: signal.created_at,
            updated_at: signal.updated_at,
            slug: signal.slug,
            name: signal.name,
            shelter_id: signal.shelter_id,
            measure: signal.measure,
        }
    }
}

impl vstd::std_specs::convert::FromSpecImpl<Signal> for SignalProfile {
    open spec fn obeys_from_spec() -> bool {
        true
    }

    open spec fn from_spec(signal: Signal) -> SignalProfile {
        SignalProfile {
            id: signal.id,
            created_at: signal.created_at,
            updated_at: signal.updated_at,
            slug: signal.slug,
            name: signal.name,
            shelter_id: signal.shelter_id,
            measure: signal.measure,
        }
    }
}

/// Fetch one signal, secret included, by its identifier.
#[derive(Debug, Clone, Copy, PartialEq, Eq, Structural)]
pub struct GetSignalRequest {
    /// The signal to fetch.
    pub signal_id: UuidValue,
}

/// Fetch one signal's public profile by its identifier.
#[derive(Debug, Clone, Copy, PartialEq, Eq, Structural)]
pub struct GetSignalProfileRequest {
    /// The signal whose profile to fetch.
    pub signal_id: UuidValue,
}

/// Fetch one signal's public profile by its URL slug.
#[derive(Debug, Clone, PartialEq, Eq)]
pub struct GetSignalProfileBySlugRequest {
    /// The slug to look up.
    pub slug: Slug,
}

/// Fetch the shelter a signal reports for.
#[derive(Debug, Clone, Copy, PartialEq, Eq, Structural)]
pub struct GetSignalShelterRequest {
    /// The signal whose shelter to fetch.
    pub signal_id: UuidValue,
}

/// Fetch a signal's secret.
#[derive(Debug, Clone, Copy, PartialEq, Eq, Structural)]
pub struct GetSignalSecretRequest {
    /// The signal whose secret to fetch.
    pub signal_id: UuidValue,
}

/// A signal's secret.
#[derive(Debug, Clone, PartialEq, Eq)]
pub struct GetSignalSecretResponse {
    /// The secret the device presents with each report.
    pub secret: String,
}

/// List signal profiles, paginated.
#[derive(Debug, Clone, Copy, PartialEq, Eq, Structural)]
pub struct ListSignalProfilesRequest {
    /// How many profiles to return at most.
    pub limit: u32,
    /// How many profiles to skip.
    pub offset: u32,
}

/// List the measurements one signal reported, paginated.
#[derive(Debug, Clone, Copy, PartialEq, Eq, Structural)]
pub struct ListSignalMeasurementsRequest {
    /// The signal whose measurements to list.
    pub signal_id: UuidValue,
    /// How many measurements to return at most.
    pub limit: u32,
    /// How many measurements to skip.
    pub offset: u32,
}

/// Register a new signal.
#[derive(Debug, Clone)]
pub struct CreateSignalRequest {
    /// The signal's name.
    pub name: InputString,
    /// The shelter the signal reports for.
    pub shelter_id: UuidValue,
    /// Which count the signal reports.
    pub measure: ShelterMeasure,
}

/// Report a measurement through a signal.
#[derive(Debug, Clone, PartialEq, Eq)]
pub struct CreateSignalMeasurementRequest {
    /// The reporting signal.
    pub signal_id: UuidValue,
    /// The secret the device presents.
    pub signal_secret: String,
    /// The reported count.
    pub measurement: u16,
}

/// Remove a signal.
#[derive(Debug, Clone, Copy, PartialEq, Eq, Structural)]
pub struct DeleteSignalRequest {
    /// The signal to remove.
    pub signal_id: UuidValue,
}

/// Whether `context` may list signals, secrets included: only internal
/// callers.
pub fn can_list_signals(context: &Context) -> (r: bool)
    ensures
        r == context.spec_is_internal(),
{
    context.is_internal()
}

/// Whether `context` may list signal profiles: anyone may.
pub fn can_list_signal_profiles(context: &Context) -> (r: bool)
    ensures
        r,
{
    let _ = context;
    true
}

/// Whether `context` may view the signal `signal_id`, secret included:
/// only internal callers.
pub fn can_view_signal(context: &Context, signal_id: UuidValue) -> (r: bool)
    ensures
        r == context.spec_is_internal(),
{
    let _ = signal_id;
    context.is_internal()
}

/// Whether `context` may view the profile of the signal `signal_id`:
/// anyone may.
pub fn can_view_signal_profile(context: &Context, signal_id: UuidValue) -> (r: bool)
    ensures
        r,
{
    let _ = context;
    let _ = signal_id;
    true
}

/// Whether `context` may edit the signal `signal_id`: only internal
/// callers.
pub fn can_edit_signal(context: &Context, signal_id: UuidValue) -> (r: bool)
    ensures
        r == context.spec_is_internal(),
{
    let _ = signal_id;
    context.is_internal()
}

impl CreateSignalRequest {
    /// Build the signal a registration request describes, under the given
    /// metadata: a fresh random slug and a fresh secret in canonical UUID
    /// text.
    pub fn build_signal(self, meta: Meta) -> (r: Signal)
        ensures
            r.id == meta.id,
            r.created_at == meta.created_at,
            r.updated_at == meta.updated_at,
            r.name@ == self.name@,
            r.shelter_id == self.shelter_id,
            r.measure == self.measure,
            r.secret@.len() == 36,
    {
        let secret = uuid_to_string(uuid_new_v4());
        Signal {
            id: meta.id,
            created_at: meta.created_at,
            updated_at: meta.updated_at,
            slug: Slug::default(),
            name: self.name.into_string(),
            shelter_id: self.shelter_id,
            measure: self.measure,
            secret,
        }
    }
}

/// Whether the presented secret is the signal's.
pub fn secret_matches(signal: &Signal, presented: &String) -> (r: bool)
    ensures
        r == (signal.secret@ == presented@),
{
    signal.secret == *presented
}

/// The occupancy snapshot a report produces: the last measured occupancy
/// (no room taken, when none was measured) with the reported count put in
/// the place the signal's measure names.
pub open spec fn spec_updated_occupancy(
    shelter: Shelter,
    measure: ShelterMeasure,
    measurement: u16,
) -> ShelterSpace {
    let occupancy = match shelter.occupancy {
        Some(occupancy) => occupancy,
        None => ShelterSpace { spots: 0, beds: 0 },
    };
    match measure {
        ShelterMeasure::Spots => ShelterSpace { spots: measurement, beds: occupancy.beds },
        ShelterMeasure::Beds => ShelterSpace { spots: occupancy.spots, beds: measurement },
    }
}

/// Ingest a signal's report: mutate the shelter's occupancy to the new
/// snapshot, and produce the measurement that records capacity and
/// occupancy as they now stand, under the given metadata.
pub fn apply_measurement(
    shelter: &mut Shelter,
    signal: &Signal,
    measurement: u16,
    meta: Meta,
) -> (r: ShelterMeasurement)
    ensures
        final(shelter).occupancy == Some(
            spec_updated_occupancy(*old(shelter), signal.measure, measurement),
        ),
        final(shelter).id == old(shelter).id,
        final(shelter).created_at == old(shelter).created_at,
        final(shelter).updated_at == old(shelter).updated_at,
        final(shelter).name == old(shelter).name,
        final(shelter).slug == old(shelter).slug,
        final(shelter).about == old(shelter).about,
        final(shelter).image_url == old(shelter).image_url,
        final(shelter).email == old(shelter).email,
        final(shelter).phone == old(shelter).phone,
        final(shelter).website_url == old(shelter).website_url,
        final(shelter).address == old(shelter).address,
        final(shelter).location == old(shelter).location,
        final(shelter).capacity == old(shelter).capacity,
        final(shelter).food == old(shelter).food,
        final(shelter).tags == old(shelter).tags,
        r == (ShelterMeasurement {
            id: meta.id,
            created_at: meta.created_at,
            updated_at: meta.updated_at,
            shelter_id: old(shelter).id,
            signal_id: signal.id,
            capacity: old(shelter).capacity,
            occupancy: spec_updated_occupancy(*old(shelter), signal.measure, measurement),
        }),
{
    let occupancy = match &shelter.occupancy {
        Some(occupancy) => *occupancy,
        None => ShelterSpace::default(),
    };
    let occupancy = match signal.measure {
        ShelterMeasure::Spots => ShelterSpace { spots: measurement, beds: occupancy.beds },
        ShelterMeasure::Beds => ShelterSpace { spots: occupancy.spots, beds: measurement },
    };
    shelter.occupancy = Some(occupancy);
    ShelterMeasurement {
        id: meta.id,
        created_at: meta.created_at,
        updated_at: meta.updated_at,
        shelter_id: shelter.id,
        signal_id: signal.id,
        capacity: shelter.capacity,
        occupancy,
    }
}

} // verus!
