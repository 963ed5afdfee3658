//! The service catalogue: its requests and answers, and what the handlers
//! decide before and after they go to the store.

use crate::backend::errors::{ApiError, ApiErrorView};
use vstd::prelude::*;

verus! {

/// One pricing tier of a service, as it is shown.
#[derive(Debug, Clone)]
pub struct PricingTierResponse {
    pub id: String,
    pub tier_name: String,
    pub price_amount: i64,
    pub price_token: String,
    pub quota_requests: Option<i32>,
}

/// One service with its tiers, as it is shown.
#[derive(Debug, Clone)]
pub struct ServiceDetailResponse {
    pub id: String,
    pub name: String,
    pub provider_name: String,
    pub description: String,
    pub type_: String,
    pub status: String,
    pub tags: Vec<String>,
    pub pricing_tiers: Vec<PricingTierResponse>,
}

/// One pricing tier of a service that is to be created.
#[derive(Debug, Clone)]
pub struct CreateTierRequest {
    pub name: String,
    pub price: i64,
    pub requests: i32,
}

/// A service that is to be created.
#[derive(Debug, Clone)]
pub struct CreateServiceRequest {
    pub name: String,
    pub description: String,
    pub service_type: String,
    pub tags: Vec<String>,
    pub tiers: Vec<CreateTierRequest>,
    pub provider_id: Option<String>,
}

/// The number of bytes in a catalogue identifier.
pub const ID_BYTES: usize = 16;

/// The bytes of a catalogue identifier given as text, or `None` where the
/// text is no identifier.
pub uninterp spec fn parsed_uuid(text: Seq<char>) -> Option<Seq<u8>>;

/// Reads a catalogue identifier with `uuid::Uuid::parse_str`, in any of the
/// forms that it takes. The contract names the outcome and says that an
/// identifier has sixteen bytes.
#[verifier::external_body]
fn parse_uuid(text: &str) -> (bytes: Option<Vec<u8>>)
    ensures
        match bytes {
            Some(bytes) => parsed_uuid(text@) == Some(bytes@) && bytes@.len() == ID_BYTES,
            None => parsed_uuid(text@) is None,
        },
{
    match uuid::Uuid::parse_str(text) {
        Ok(id) => Some(id.as_bytes().to_vec()),
        Err(_) => None,
    }
}

/// The identifier that stands for no provider: sixteen zero bytes.
pub open spec fn nil_id() -> Seq<u8> {
    Seq::new(ID_BYTES as nat, |i: int| 0u8)
}

/// The provider that a new service belongs to, from what reading the
/// request's provider gave, if it names one: the one that it names, and no
/// provider where it names none or names it unreadably.
pub open spec fn provider_of(named: Option<Option<Seq<u8>>>) -> Seq<u8> {
    match named {
        Some(Some(bytes)) => bytes,
        _ => nil_id(),
    }
}

/// The service that a path names, from what reading the path gave, or the
/// refusal of a path that names none.
pub open spec fn service_key_of(parsed: Option<Seq<u8>>) -> Result<Seq<u8>, ApiErrorView> {
    match parsed {
        Some(bytes) => Ok(bytes),
        None => Err(ApiErrorView::ValidationError("Invalid ID"@)),
    }
}

/// The mathematical value of a key or of the refusal that stands for it.
pub open spec fn key_view(key: Result<Vec<u8>, ApiError>) -> Result<Seq<u8>, ApiErrorView> {
    match key {
        Ok(bytes) => Ok(bytes@),
        Err(error) => Err(error@),
    }
}

/// The mathematical value of what reading an identifier gave.
pub open spec fn parsed_view(parsed: Option<Vec<u8>>) -> Option<Seq<u8>> {
    match parsed {
        Some(bytes) => Some(bytes@),
        None => None,
    }
}

/// The identifier that stands for no provider.
fn nil() -> (bytes: Vec<u8>)
    ensures
        bytes@ == nil_id(),
{
    let mut bytes: Vec<u8> = Vec::new();
    while bytes.len() < ID_BYTES
        invariant
            bytes.len() <= ID_BYTES,
            forall|i: int| 0 <= i < bytes.len() ==> bytes@[i] == 0u8,
        decreases ID_BYTES - bytes.len(),
    {
        bytes.push(0u8);
    }
    proof {
        assert(bytes@ =~= nil_id());
    }
    bytes
}

/// The service that a path names, from what reading the path gave.
pub fn service_key_from(parsed: Option<Vec<u8>>) -> (key: Result<Vec<u8>, ApiError>)
    ensures
        key_view(key) == service_key_of(parsed_view(parsed)),
{
    match parsed {
        Some(bytes) => Ok(bytes),
        None => Err(ApiError::ValidationError("Invalid ID".to_owned())),
    }
}

/// The service that a path names, or the refusal of a path that names
/// none.
pub fn service_key(id: &str) -> (key: Result<Vec<u8>, ApiError>)
    ensures
        key_view(key) == service_key_of(parsed_uuid(id@)),
        key matches Ok(bytes) ==> bytes@.len() == ID_BYTES,
{
    service_key_from(parse_uuid(id))
}

/// The provider that a new service belongs to, from what reading the
/// request's provider gave, if it names one.
pub fn provider_key_from(named: Option<Option<Vec<u8>>>) -> (key: Vec<u8>)
    ensures
        key@ == provider_of(
            match named {
                Some(parsed) => Some(parsed_view(parsed)),
                None => None,
            },
        ),
{
    match named {
        Some(Some(bytes)) => bytes,
        _ => nil(),
    }
}

/// The provider that a new service belongs to.
pub fn provider_key(request: &CreateServiceRequest) -> (key: Vec<u8>)
    ensures
        key@ == provider_of(
            match request.provider_id {
                Some(text) => Some(parsed_uuid(text@)),
                None => None,
            },
        ),
{
    let named = match &request.provider_id {
        Some(text) => Some(parse_uuid(text.as_str())),
        None => None,
    };
    provider_key_from(named)
}

/// What an update or a removal that touched `rows_affected` rows is
/// answered with: done, or not found where it touched none.
pub fn touched(rows_affected: u64) -> (outcome: Result<(), ApiError>)
    ensures
        match outcome {
            Ok(_) => rows_affected > 0,
            Err(error) => rows_affected == 0 && error@ == ApiErrorView::NotFound,
        },
{
    if rows_affected > 0 {
        Ok(())
    } else {
        Err(ApiError::NotFound)
    }
}

impl ServiceDetailResponse {
    /// A service as it is shown, from its row in the store: a description
    /// that is not set shows empty, a status that is not set shows
    /// "active", and tags that are not set show as none.
    pub fn from_record(
        id: String,
        name: String,
        provider_name: String,
        description: Option<String>,
        type_: String,
        status: Option<String>,
        tags: Option<Vec<String>>,
        pricing_tiers: Vec<PricingTierResponse>,
    ) -> (shown: ServiceDetailResponse)
        ensures
            shown.id == id,
            shown.name == name,
            shown.provider_name == provider_name,
            shown.type_ == type_,
            shown.pricing_tiers == pricing_tiers,
            shown.description@ == match description {
                Some(text) => text@,
                None => Seq::<char>::empty(),
            },
            shown.status@ == match status {
                Some(text) => text@,
                None => "active"@,
            },
            shown.tags@ == match tags {
                Some(tags) => tags@,
                None => Seq::<String>::empty(),
            },
    {
        ServiceDetailResponse {
            id,
            name,
            provider_name,
            description: match description {
                Some(text) => text,
                None => String::new(),
            },
            type_,
            status: match status {
                Some(text) => text,
                None => "active".to_owned(),
            },
            tags: match tags {
                Some(tags) => tags,
                None => Vec::new(),
            },
            pricing_tiers,
        }
    }
}

} // verus!
