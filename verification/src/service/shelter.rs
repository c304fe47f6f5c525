//! Shelters: the entity, the request shapes, and the pure parts of the
//! shelter operations — authorization decisions, construction and update
//! merging.  Loading and storing shelters stays with the caller.

use vstd::prelude::*;

use crate::service::address::Address;
use crate::service::context::Context;
use crate::service::email::Email;
use crate::service::geo::Coordinate;
use crate::service::input::InputString;
use crate::service::meta::Meta;
use crate::service::phone::Phone;
use crate::service::slug::Slug;
use crate::uid::UuidValue;

verus! {

/// Room in a shelter, counted two ways.
#[derive(Debug, Clone, Copy, PartialEq, Eq, Hash, Structural)]
pub struct ShelterSpace {
    /// Standing room.
    pub spots: u16,
    /// Beds.
    pub beds: u16,
}

impl Default for ShelterSpace {
    /// No room at all.
    fn default() -> (r: ShelterSpace)
        ensures
            r.spots == 0 && r.beds == 0,
    {
        ShelterSpace { spots: 0, beds: 0 }
    }
}

/// Who a shelter serves, and what it allows.
#[derive(Debug, Clone, Copy, PartialEq, Eq, Hash, Structural)]
pub enum ShelterTag {
    Adult,
    Youth,
    Family,
    Male,
    Female,
    LGBTQ,
    Pets,
}

/// What food a shelter offers.
#[derive(Debug, Clone, Copy, PartialEq, Eq, Hash, Structural)]
pub enum ShelterFood {
    /// Full meals.
    Meals,
    /// Snacks only.
    Snacks,
    /// No food.
    NoFood,
}

/// A shelter.
#[derive(Debug, Clone)]
pub struct Shelter {
    /// The shelter's identifier.
    pub id: UuidValue,
    /// When the shelter was registered, in epoch seconds.
    pub created_at: u64,
    /// When the shelter last changed, in epoch seconds.
    pub updated_at: u64,
    /// The shelter's name.
    pub name: String,
    /// The shelter's URL slug.
    pub slug: Slug,
    /// Free-form text about the shelter.
    pub about: Option<String>,
    /// An image URL, as text.
    pub image_url: Option<String>,
    /// A contact email address.
    pub email: Option<Email>,
    /// A contact phone number.
    pub phone: Phone,
    /// The shelter's website URL, as text.
    pub website_url: Option<String>,
    /// The shelter's postal address.
    pub address: Address,
    /// Where the shelter stands.
    pub location: Coordinate,
    /// How much room the shelter has.
    pub capacity: ShelterSpace,
    /// How much room is taken, as last measured.
    pub occupancy: Option<ShelterSpace>,
    /// What food the shelter offers.
    pub food: ShelterFood,
    /// Who the shelter serves.
    pub tags: Vec<ShelterTag>,
}

/// Fetch one shelter by its identifier.
#[derive(Debug, Clone, Copy, PartialEq, Eq, Structural)]
pub struct GetShelterRequest {
    /// The shelter to fetch.
    pub shelter_id: UuidValue,
}

/// Fetch one shelter by its URL slug.
#[derive(Debug, Clone, PartialEq, Eq)]
pub struct GetShelterBySlugRequest {
    /// The slug to look up.
    pub slug: Slug,
}

/// Fetch the signals registered for a shelter.
#[derive(Debug, Clone, Copy, PartialEq, Eq, Structural)]
pub struct GetShelterSignalsRequest {
    /// The shelter whose signals to fetch.
    pub shelter_id: UuidValue,
}

/// List shelters, paginated.
#[derive(Debug, Clone, Copy, PartialEq, Eq, Structural)]
pub struct ListSheltersRequest {
    /// How many shelters to return at most.
    pub limit: u32,
    /// How many shelters to skip.
    pub offset: u32,
}

/// Register a new shelter.
#[derive(Debug, Clone)]
pub struct CreateShelterRequest {
    /// The shelter's name.
    pub name: InputString,
    /// Free-form text about the shelter.
    pub about: Option<InputString>,
    /// An image URL, as text.
    pub image_url: Option<String>,
    /// A contact email address.
    pub email: Option<Email>,
    /// A contact phone number.
    pub phone: Phone,
    /// The shelter's website URL, as text.
    pub website_url: Option<String>,
    /// The shelter's postal address.
    pub address: Address,
    /// Where the shelter stands.
    pub location: Coordinate,
    /// How much room the shelter has.
    pub capacity: ShelterSpace,
    /// What food the shelter offers.
    pub food: ShelterFood,
    /// Who the shelter serves.
    pub tags: Vec<ShelterTag>,
}

/// Change an existing shelter; absent fields stay as they are.
#[derive(Debug, Clone)]
pub struct UpdateShelterRequest {
    /// The shelter to change.
    pub shelter_id: UuidValue,
    /// A new name, if any.
    pub name: Option<InputString>,
    /// New about text, if any; empty text clears the field.
    pub about: Option<InputString>,
    /// A new image URL, if any.
    pub image_url: Option<String>,
    /// A new contact email address, if any.
    pub email: Option<Email>,
    /// A new contact phone number, if any.
    pub phone: Option<Phone>,
    /// A new website URL, if any.
    pub website_url: Option<String>,
    /// A new postal address, if any.
    pub address: Option<Address>,
    /// A new location, if any.
    pub location: Option<Coordinate>,
    /// A new capacity, if any.
    pub capacity: Option<ShelterSpace>,
    /// A new food offering, if any.
    pub food: Option<ShelterFood>,
    /// A new tag set, if any.
    pub tags: Option<Vec<ShelterTag>>,
}

/// Remove a shelter.
#[derive(Debug, Clone, Copy, PartialEq, Eq, Structural)]
pub struct DeleteShelterRequest {
    /// The shelter to remove.
    pub shelter_id: UuidValue,
}

/// The (empty) outcome of removing a shelter.
#[derive(Debug, Clone, Copy, PartialEq, Eq, Structural)]
pub struct DeleteShelterResponse {}

/// Whether `context` may list shelters: anyone may.
pub fn can_list_shelters(context: &Context) -> (r: bool)
    ensures
        r,
{
    let _ = context;
    true
}

/// Whether `context` may view the shelter `shelter_id`: anyone may.
pub fn can_view_shelter(context: &Context, shelter_id: UuidValue) -> (r: bool)
    ensures
        r,
{
    let _ = context;
    let _ = shelter_id;
    true
}

/// Whether `context` may edit the shelter `shelter_id`: only internal
/// callers.
pub fn can_edit_shelter(context: &Context, shelter_id: UuidValue) -> (r: bool)
    ensures
        r == context.spec_is_internal(),
{
    let _ = shelter_id;
    context.is_internal()
}

impl CreateShelterRequest {
    /// Build the shelter a registration request describes, under the given
    /// metadata.  The slug is a fresh random tail, and the shelter starts
    /// with no occupancy measured.
    pub fn build_shelter(self, meta: Meta) -> (r: Shelter)
        ensures
            r.id == meta.id,
            r.created_at == meta.created_at,
            r.updated_at == meta.updated_at,
            r.name@ == self.name@,
            match self.about {
                Some(about) => r.about matches Some(s) && s@ == about@,
                None => r.about is None,
            },
            r.image_url == self.image_url,
            r.email == self.email,
            r.phone == self.phone,
            r.website_url == self.website_url,
            r.address == self.address,
            r.location == self.location,
            r.capacity == self.capacity,
            r.occupancy is None,
            r.food == self.food,
            r.tags == self.tags,
    {
        let about = match self.about {
            Some(about) => Some(about.into_string()),
            None => None,
        };
        Shelter {
            id: meta.id,
            created_at: meta.created_at,
            updated_at: meta.updated_at,
            name: self.name.into_string(),
            slug: Slug::default(),
            about,
            image_url: self.image_url,
            email: self.email,
            phone: self.phone,
            website_url: self.website_url,
            address: self.address,
            location: self.location,
            capacity: self.capacity,
            occupancy: None,
            food: self.food,
            tags: self.tags,
        }
    }
}

impl UpdateShelterRequest {
    /// Merge an update into a shelter: present fields replace the old
    /// values, absent fields keep them, and empty about text clears the
    /// field.
    pub fn apply(self, shelter: Shelter) -> (r: Shelter)
        ensures
            r.id == shelter.id,
            r.created_at == shelter.created_at,
            r.updated_at == shelter.updated_at,
            r.slug == shelter.slug,
            r.occupancy == shelter.occupancy,
            match self.name {
                Some(name) => r.name@ == name@,
                None => r.name == shelter.name,
            },
            match self.about {
                Some(about) => if about@.len() > 0 {
                    r.about matches Some(s) && s@ == about@
                } else {
                    r.about is None
                },
                None => r.about == shelter.about,
            },
            match self.image_url {
                Some(url) => r.image_url == Some(url),
                None => r.image_url == shelter.image_url,
            },
            match self.email {
                Some(email) => r.email == Some(email),
                None => r.email == shelter.email,
            },
            match self.phone {
                Some(phone) => r.phone == phone,
                None => r.phone == shelter.phone,
            },
            match self.website_url {
                Some(url) => r.website_url == Some(url),
                None => r.website_url == shelter.website_url,
            },
            match self.address {
                Some(address) => r.address == address,
                None => r.address == shelter.address,
            },
            match self.location {
                Some(location) => r.location == location,
                None => r.location == shelter.location,
            },
            match self.capacity {
                Some(capacity) => r.capacity == capacity,
                None => r.capacity == shelter.capacity,
            },
            match self.food {
                Some(food) => r.food == food,
                None => r.food == shelter.food,
            },
            match self.tags {
                Some(tags) => r.tags == tags,
                None => r.tags == shelter.tags,
            },
    {
        let mut shelter = shelter;
        if let Some(name) = self.name {
            shelter.name = name.into_string();
        }
        if let Some(about) = self.about {
            shelter.about = match about.discard_empty() {
                Some(about) => Some(about.into_string()),
                None => None,
            };
        }
        if let Some(url) = self.image_url {
            shelter.image_url = Some(url);
        }
        if let Some(email) = self.email {
            shelter.email = Some(email);
        }
        if let Some(phone) = self.phone {
            shelter.phone = phone;
        }
        if let Some(url) = self.website_url {
            shelter.website_url = Some(url);
        }
        if let Some(address) = self.address {
            shelter.address = address;
        }
        if let Some(location) = self.location {
            shelter.location = location;
        }
        if let Some(capacity) = self.capacity {
            shelter.capacity = capacity;
        }
        if let Some(food) = self.food {
            shelter.food = food;
        }
        if let Some(tags) = self.tags {
            shelter.tags = tags;
        }
        shelter
    }
}

} // verus!
