//! Core domain records: catalog stations and registered lines of interest.

use vstd::prelude::*;

use crate::dtos::LioCreateDto;
use crate::dtos::LioViewDto;

verus! {

/// One entry of a provider's station catalog: a provider-local stop
/// identifier, the display name, and the provider the entry belongs to.
/// Loaded once at startup and never mutated.
#[derive(Debug)]
pub struct Station {
    pub id: String,
    pub name: String,
    pub provider: String,
}

/// A registered line of interest: the user's saved (provider, station, line,
/// direction) subscription. `provider_id` is the provider-local identifier of
/// the station the subscription was resolved to.
#[derive(Debug)]
pub struct Lio {
    pub id: String,
    pub provider: String,
    pub provider_id: String,
    pub station: String,
    pub line: String,
    pub direction: String,
}

impl Station {
    /// A field-for-field copy of the station.
    pub fn duplicate(&self) -> (r: Station)
        ensures
            r == *self,
    {
        Station { id: self.id.clone(), name: self.name.clone(), provider: self.provider.clone() }
    }
}

impl Lio {
    /// The record created for a validated registration: the fresh identifier,
    /// the request's texts, and the provider-local identifier of the resolved
    /// station.
    pub fn from_create(id: String, input: &LioCreateDto, station: &Station) -> (r: Lio)
        ensures
            r.id == id,
            r.provider == input.provider,
            r.provider_id == station.id,
            r.station == input.station,
            r.line == input.line,
            r.direction == input.direction,
    {
        Lio {
            id,
            provider: input.provider.clone(),
            provider_id: station.id.clone(),
            station: input.station.clone(),
            line: input.line.clone(),
            direction: input.direction.clone(),
        }
    }

    /// The registration as listed back to the user: everything but the
    /// provider-local station identifier.
    pub fn to_view(&self) -> (r: LioViewDto)
        ensures
            r.id == self.id,
            r.provider == self.provider,
            r.station == self.station,
            r.line == self.line,
            r.direction == self.direction,
    {
        LioViewDto {
            id: self.id.clone(),
            provider: self.provider.clone(),
            station: self.station.clone(),
            line: self.line.clone(),
            direction: self.direction.clone(),
        }
    }

    /// A field-for-field copy of the registration.
    pub fn duplicate(&self) -> (r: Lio)
        ensures
            r == *self,
    {
        Lio {
            id: self.id.clone(),
            provider: self.provider.clone(),
            provider_id: self.provider_id.clone(),
            station: self.station.clone(),
            line: self.line.clone(),
            direction: self.direction.clone(),
        }
    }
}

} // verus!
