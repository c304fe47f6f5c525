//! Shelters on the wire: the enums and input objects of the shelter
//! queries and mutations, and the validation that turns each input object
//! into a service request.

use vstd::prelude::*;
use vstd::utf8::encode_utf8;

use crate::graphql::InputFault;
use crate::graphql::address::AddressInput;
use crate::graphql::address::spec_address_repr;
use crate::graphql::geo::Coordinate;
use crate::graphql::id::Id;
use crate::service::address::Address as AddressRepr;
use crate::service::email::Email;
use crate::service::email::mail_ok_of;
use crate::service::input::INPUT_STRING_MAX_LENGTH;
use crate::service::input::InputString;
use crate::service::phone::Phone;
use crate::service::phone::phone_norm_of;
use crate::service::shelter::CreateShelterRequest;
use crate::service::shelter::DeleteShelterRequest;
use crate::service::shelter::ShelterFood as ShelterFoodRepr;
use crate::service::shelter::ShelterSpace as ShelterSpaceRepr;
use crate::service::shelter::ShelterTag as ShelterTagRepr;
use crate::service::shelter::UpdateShelterRequest;
use crate::text::parse_url;
use crate::text::trim_of;
use crate::text::url_norm_of;

verus! {

/// What food a shelter offers, as the API names it.
#[derive(Debug, Clone, Copy, PartialEq, Eq, Hash, Structural)]
pub enum ShelterFood {
    Meals,
    Snacks,
    NoFood,
}

/// The service-side value an API food name stands for.
pub open spec fn spec_food_repr(food: ShelterFood) -> ShelterFoodRepr {
    match food {
        ShelterFood::Meals => ShelterFoodRepr::Meals,
        ShelterFood::Snacks => ShelterFoodRepr::Snacks,
        ShelterFood::NoFood => ShelterFoodRepr::NoFood,
    }
}

/// Carry an API food name into the service.
pub fn food_repr(food: ShelterFood) -> (r: ShelterFoodRepr)
    ensures
        r == spec_food_repr(food),
{
    match food {
        ShelterFood::Meals => ShelterFoodRepr::Meals,
        ShelterFood::Snacks => ShelterFoodRepr::Snacks,
        ShelterFood::NoFood => ShelterFoodRepr::NoFood,
    }
}

/// Carry a service food value out to the API.
pub fn food_of_repr(food: ShelterFoodRepr) -> (r: ShelterFood)
    ensures
        spec_food_repr(r) == food,
{
    match food {
        ShelterFoodRepr::Meals => ShelterFood::Meals,
        ShelterFoodRepr::Snacks => ShelterFood::Snacks,
        ShelterFoodRepr::NoFood => ShelterFood::NoFood,
    }
}

/// Who a shelter serves, as the API names it.
#[derive(Debug, Clone, Copy, PartialEq, Eq, Hash, Structural)]
pub enum ShelterTag {
    Adult,
    Youth,
    Family,
    Male,
    Female,
    LGBTQ,
    Pets,
}

/// The service-side value an API tag stands for.
pub open spec fn spec_tag_repr(tag: ShelterTag) -> ShelterTagRepr {
    match tag {
        ShelterTag::Adult => ShelterTagRepr::Adult,
        ShelterTag::Youth => ShelterTagRepr::Youth,
        ShelterTag::Family => ShelterTagRepr::Family,
        ShelterTag::Male => ShelterTagRepr::Male,
        ShelterTag::Female => ShelterTagRepr::Female,
        ShelterTag::LGBTQ => ShelterTagRepr::LGBTQ,
        ShelterTag::Pets => ShelterTagRepr::Pets,
    }
}

/// Carry an API tag into the service.
pub fn tag_repr(tag: ShelterTag) -> (r: ShelterTagRepr)
    ensures
        r == spec_tag_repr(tag),
{
    match tag {
        ShelterTag::Adult => ShelterTagRepr::Adult,
        ShelterTag::Youth => ShelterTagRepr::Youth,
        ShelterTag::Family => ShelterTagRepr::Family,
        ShelterTag::Male => ShelterTagRepr::Male,
        ShelterTag::Female => ShelterTagRepr::Female,
        ShelterTag::LGBTQ => ShelterTagRepr::LGBTQ,
        ShelterTag::Pets => ShelterTagRepr::Pets,
    }
}

/// Carry every API tag of a list into the service, in order.
pub fn tags_repr(tags: Vec<ShelterTag>) -> (r: Vec<ShelterTagRepr>)
    ensures
        r@.len() == tags@.len(),
        forall|i: int| 0 <= i < tags@.len() ==> r@[i] == spec_tag_repr(tags@[i]),
{
    let mut out: Vec<ShelterTagRepr> = Vec::new();
    let mut i: usize = 0;
    while i < tags.len()
        invariant
            i <= tags.len(),
            out@.len() == i,
            forall|j: int| 0 <= j < i ==> out@[j] == spec_tag_repr(tags@[j]),
        decreases tags.len() - i,
    {
        out.push(tag_repr(tags[i]));
        i = i + 1;
    }
    out
}

/// Room in a shelter, as the API shows it.
#[derive(Debug, Clone, Copy, PartialEq, Eq, Hash, Structural)]
pub struct ShelterSpace {
    pub spots: u16,
    pub beds: u16,
}

impl From<ShelterSpaceRepr> for ShelterSpace {
    fn from(space: ShelterSpaceRepr) -> (r: ShelterSpace) {
        ShelterSpace { spots: space.spots, beds: space.beds }
    }
}

impl vstd::std_specs::convert::FromSpecImpl<ShelterSpaceRepr> for ShelterSpace {
    open spec fn obeys_from_spec() -> bool {
        true
    }

    open spec fn from_spec(space: ShelterSpaceRepr) -> ShelterSpace {
        ShelterSpace { spots: space.spots, beds: space.beds }
    }
}

/// Room in a shelter, as a caller hands it in.
#[derive(Debug, Clone, Copy, PartialEq, Eq, Hash, Structural)]
pub struct ShelterSpaceInput {
    pub spots: u16,
    pub beds: u16,
}

impl From<ShelterSpaceInput> for ShelterSpaceRepr {
    fn from(space: ShelterSpaceInput) -> (r: ShelterSpaceRepr) {
        ShelterSpaceRepr { spots: space.spots, beds: space.beds }
    }
}

impl vstd::std_specs::convert::FromSpecImpl<ShelterSpaceInput> for ShelterSpaceRepr {
    open spec fn obeys_from_spec() -> bool {
        true
    }

    open spec fn from_spec(space: ShelterSpaceInput) -> ShelterSpaceRepr {
        ShelterSpaceRepr { spots: space.spots, beds: space.beds }
    }
}

/// The queries over shelters.
#[derive(Debug, Clone, Copy, PartialEq, Eq, Hash, Structural)]
pub struct ShelterQueries;

/// The mutations over shelters.
#[derive(Debug, Clone, Copy, PartialEq, Eq, Hash, Structural)]
pub struct ShelterMutations;

/// Register a new shelter, as a caller hands it in.
#[derive(Debug, Clone, PartialEq, Eq)]
pub struct CreateShelterInput {
    pub name: String,
    pub about: Option<String>,
    pub image_url: Option<String>,
    pub email: Option<String>,
    pub phone: String,
    pub website_url: Option<String>,
    pub address: AddressInput,
    pub location: Coordinate,
    pub capacity: ShelterSpaceInput,
    pub food: ShelterFood,
    pub tags: Vec<ShelterTag>,
}

/// Whether every validated field of a shelter registration passes.
pub open spec fn spec_create_shelter_ok(input: CreateShelterInput) -> bool {
    &&& encode_utf8(input.name@).len() as usize <= INPUT_STRING_MAX_LENGTH
    &&& match input.about {
        Some(about) => encode_utf8(about@).len() as usize <= INPUT_STRING_MAX_LENGTH,
        None => true,
    }
    &&& match input.image_url {
        Some(url) => url_norm_of(url@) is Some,
        None => true,
    }
    &&& match input.email {
        Some(email) => mail_ok_of(email@),
        None => true,
    }
    &&& phone_norm_of(input.phone@) is Some
    &&& match input.website_url {
        Some(url) => url_norm_of(url@) is Some,
        None => true,
    }
}

impl CreateShelterInput {
    /// Validate the input into a service request: the name and about text
    /// are sanitized, the email, phone and URLs must parse, and the rest
    /// is carried over.
    pub fn into_request(self) -> (r: Result<CreateShelterRequest, InputFault>)
        ensures
            r is Ok <==> spec_create_shelter_ok(self),
            r matches Ok(req) ==> {
                &&& req.name@ == trim_of(self.name@)
                &&& match self.about {
                    Some(about) => req.about matches Some(a) && a@ == trim_of(about@),
                    None => req.about is None,
                }
                &&& match self.image_url {
                    Some(url) => req.image_url matches Some(u) && url_norm_of(url@) == Some(u@),
                    None => req.image_url is None,
                }
                &&& match self.email {
                    Some(email) => req.email matches Some(e) && e@ == email@,
                    None => req.email is None,
                }
                &&& phone_norm_of(self.phone@) == Some(req.phone@)
                &&& match self.website_url {
                    Some(url) => req.website_url matches Some(u) && url_norm_of(url@) == Some(
                        u@,
                    ),
                    None => req.website_url is None,
                }
                &&& req.address == spec_address_repr(self.address)
                &&& req.location == self.location.0
                &&& req.capacity == (ShelterSpaceRepr {
                    spots: self.capacity.spots,
                    beds: self.capacity.beds,
                })
                &&& req.food == spec_food_repr(self.food)
                &&& req.tags@.len() == self.tags@.len()
                &&& forall|i: int|
                    0 <= i < self.tags@.len() ==> req.tags@[i] == spec_tag_repr(self.tags@[i])
            },
            r matches Err(fault) ==> match fault {
                InputFault::InvalidName => encode_utf8(self.name@).len() as usize
                    > INPUT_STRING_MAX_LENGTH,
                InputFault::InvalidAbout => self.about matches Some(about) && encode_utf8(
                    about@,
                ).len() as usize > INPUT_STRING_MAX_LENGTH,
                InputFault::InvalidImageUrl => self.image_url matches Some(url) && url_norm_of(
                    url@,
                ) is None,
                InputFault::InvalidEmail => self.email matches Some(email) && !mail_ok_of(
                    email@,
                ),
                InputFault::InvalidPhone => phone_norm_of(self.phone@) is None,
                InputFault::InvalidWebsiteUrl => self.website_url matches Some(url)
                    && url_norm_of(url@) is None,
                _ => false,
            },
    {
        let name = match InputString::try_from(self.name) {
            Ok(name) => name,
            Err(_) => return Err(InputFault::InvalidName),
        };
        let about = match self.about {
            Some(about) => match InputString::try_from(about) {
                Ok(about) => Some(about),
                Err(_) => return Err(InputFault::InvalidAbout),
            },
            None => None,
        };
        let image_url = match self.image_url {
            Some(url) => match parse_url(url.as_str()) {
                Some(url) => Some(url),
                None => return Err(InputFault::InvalidImageUrl),
            },
            None => None,
        };
        let email = match self.email {
            Some(email) => match Email::try_from(email) {
                Ok(email) => Some(email),
                Err(_) => return Err(InputFault::InvalidEmail),
            },
            None => None,
        };
        let phone = match Phone::try_from(self.phone) {
            Ok(phone) => phone,
            Err(_) => return Err(InputFault::InvalidPhone),
        };
        let website_url = match self.website_url {
            Some(url) => match parse_url(url.as_str()) {
                Some(url) => Some(url),
                None => return Err(InputFault::InvalidWebsiteUrl),
            },
            None => None,
        };
        Ok(
            CreateShelterRequest {
                name,
                about,
                image_url,
                email,
                phone,
                website_url,
                address: AddressRepr::from(self.address),
                location: self.location.0,
                capacity: ShelterSpaceRepr { spots: self.capacity.spots, beds: self.capacity.beds },
                food: food_repr(self.food),
                tags: tags_repr(self.tags),
            },
        )
    }
}

/// Change a shelter, as a caller hands it in; absent fields stay as they
/// are.
#[derive(Debug, Clone, PartialEq, Eq)]
pub struct UpdateShelterInput {
    pub shelter_id: Id,
    pub name: Option<String>,
    pub about: Option<String>,
    pub image_url: Option<String>,
    pub email: Option<String>,
    pub phone: Option<String>,
    pub website_url: Option<String>,
    pub address: Option<AddressInput>,
    pub location: Option<Coordinate>,
    pub capacity: Option<ShelterSpaceInput>,
    pub food: Option<ShelterFood>,
    pub tags: Option<Vec<ShelterTag>>,
}

/// Whether every validated field of a shelter update passes, the id's
/// type tag included.
pub open spec fn spec_update_shelter_ok(input: UpdateShelterInput) -> bool {
    &&& input.shelter_id.spec_type_tag() == "Shelter"@
    &&& match input.name {
        Some(name) => encode_utf8(name@).len() as usize <= INPUT_STRING_MAX_LENGTH,
        None => true,
    }
    &&& match input.about {
        Some(about) => encode_utf8(about@).len() as usize <= INPUT_STRING_MAX_LENGTH,
        None => true,
    }
    &&& match input.image_url {
        Some(url) => url_norm_of(url@) is Some,
        None => true,
    }
    &&& match input.email {
        Some(email) => mail_ok_of(email@),
        None => true,
    }
    &&& match input.phone {
        Some(phone) => phone_norm_of(phone@) is Some,
        None => true,
    }
    &&& match input.website_url {
        Some(url) => url_norm_of(url@) is Some,
        None => true,
    }
}

impl UpdateShelterInput {
    /// Validate the input into a service request: the id must be tagged as
    /// a shelter, and every present field must pass its validation.
    pub fn into_request(self) -> (r: Result<UpdateShelterRequest, InputFault>)
        ensures
            r is Ok <==> spec_update_shelter_ok(self),
            r matches Ok(req) ==> {
                &&& req.shelter_id == self.shelter_id.spec_uuid()
                &&& match self.name {
                    Some(name) => req.name matches Some(n) && n@ == trim_of(name@),
                    None => req.name is None,
                }
                &&& match self.about {
                    Some(about) => req.about matches Some(a) && a@ == trim_of(about@),
                    None => req.about is None,
                }
                &&& match self.image_url {
                    Some(url) => req.image_url matches Some(u) && url_norm_of(url@) == Some(u@),
                    None => req.image_url is None,
                }
                &&& match self.email {
                    Some(email) => req.email matches Some(e) && e@ == email@,
                    None => req.email is None,
                }
                &&& match self.phone {
                    Some(phone) => req.phone matches Some(p) && phone_norm_of(phone@) == Some(
                        p@,
                    ),
                    None => req.phone is None,
                }
                &&& match self.website_url {
                    Some(url) => req.website_url matches Some(u) && url_norm_of(url@) == Some(
                        u@,
                    ),
                    None => req.website_url is None,
                }
                &&& match self.address {
                    Some(address) => req.address == Some(spec_address_repr(address)),
                    None => req.address is None,
                }
                &&& match self.location {
                    Some(location) => req.location == Some(location.0),
                    None => req.location is None,
                }
                &&& match self.capacity {
                    Some(capacity) => req.capacity == Some(
                        ShelterSpaceRepr { spots: capacity.spots, beds: capacity.beds },
                    ),
                    None => req.capacity is None,
                }
                &&& match self.food {
                    Some(food) => req.food == Some(spec_food_repr(food)),
                    None => req.food is None,
                }
                &&& match self.tags {
                    Some(tags) => req.tags matches Some(ts) && ts@.len() == tags@.len() && (
                    forall|i: int| 0 <= i < tags@.len() ==> ts@[i] == spec_tag_repr(tags@[i])),
                    None => req.tags is None,
                }
            },
    {
        let shelter_id = match self.shelter_id.get("Shelter") {
            Ok(uuid) => uuid,
            Err(fault) => return Err(fault),
        };
        let name = match self.name {
            Some(name) => match InputString::try_from(name) {
                Ok(name) => Some(name),
                Err(_) => return Err(InputFault::InvalidName),
            },
            None => None,
        };
        let about = match self.about {
            Some(about) => match InputString::try_from(about) {
                Ok(about) => Some(about),
                Err(_) => return Err(InputFault::InvalidAbout),
            },
            None => None,
        };
        let image_url = match self.image_url {
            Some(url) => match parse_url(url.as_str()) {
                Some(url) => Some(url),
                None => return Err(InputFault::InvalidImageUrl),
            },
            None => None,
        };
        let email = match self.email {
            Some(email) => match Email::try_from(email) {
                Ok(email) => Some(email),
                Err(_) => return Err(InputFault::InvalidEmail),
            },
            None => None,
        };
        let phone = match self.phone {
            Some(phone) => match Phone::try_from(phone) {
                Ok(phone) => Some(phone),
                Err(_) => return Err(InputFault::InvalidPhone),
            },
            None => None,
        };
        let website_url = match self.website_url {
            Some(url) => match parse_url(url.as_str()) {
                Some(url) => Some(url),
                None => return Err(InputFault::InvalidWebsiteUrl),
            },
            None => None,
        };
        let address = match self.address {
            Some(address) => Some(AddressRepr::from(address)),
            None => None,
        };
        let location = match self.location {
            Some(location) => Some(location.0),
            None => None,
        };
        let capacity = match self.capacity {
            Some(capacity) => Some(
                ShelterSpaceRepr { spots: capacity.spots, beds: capacity.beds },
            ),
            None => None,
        };
        let food = match self.food {
            Some(food) => Some(food_repr(food)),
            None => None,
        };
        let tags = match self.tags {
            Some(tags) => Some(tags_repr(tags)),
            None => None,
        };
        Ok(
            UpdateShelterRequest {
                shelter_id,
                name,
                about,
                image_url,
                email,
                phone,
                website_url,
                address,
                location,
                capacity,
                food,
                tags,
            },
        )
    }
}

/// Remove a shelter, as a caller hands it in.
#[derive(Debug, Clone, PartialEq, Eq)]
pub struct DeleteShelterInput {
    pub shelter_id: Id,
}

impl DeleteShelterInput {
    /// Validate the input into a service request: the id must be tagged as
    /// a shelter.
    pub fn into_request(self) -> (r: Result<DeleteShelterRequest, InputFault>)
        ensures
            r is Ok <==> self.shelter_id.spec_type_tag() == "Shelter"@,
            r matches Ok(req) ==> req.shelter_id == self.shelter_id.spec_uuid(),
            r matches Err(fault) ==> fault == InputFault::InvalidId,
    {
        match self.shelter_id.get("Shelter") {
            Ok(uuid) => Ok(DeleteShelterRequest { shelter_id: uuid }),
            Err(fault) => Err(fault),
        }
    }
}

} // verus!
