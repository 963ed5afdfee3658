//! The figures of the dashboards.

use crate::backend::errors::ApiError;
use crate::backend::services::{key_view, parsed_uuid, parsed_view, service_key, ID_BYTES};
use vstd::prelude::*;

verus! {

/// The question of a provider's dashboard.
#[derive(Debug, Clone)]
pub struct ProviderStatsQuery {
    pub provider_id: Option<String>,
}

/// The users counted before any service is listed.
pub const BASE_USERS: i64 = 5000;

/// The users counted for each listed service.
pub const USERS_PER_SERVICE: i64 = 10;

/// The volume traded, as the global dashboard shows it.
pub const VOLUME_TRADED: i64 = 2_450_000;

/// The text of the identifier that stands for no provider.
pub open spec fn nil_text() -> Seq<char> {
    "00000000-0000-0000-0000-000000000000"@
}

/// The active users that the global dashboard shows for a number of listed
/// services: a base and ten for each service, held at the largest number
/// that the figure can take.
pub open spec fn active_users_of(services_count: i64) -> int {
    let users = BASE_USERS + services_count * USERS_PER_SERVICE;
    if users > i64::MAX {
        i64::MAX as int
    } else if users < i64::MIN {
        i64::MIN as int
    } else {
        users
    }
}

/// The active users that the global dashboard shows.
pub fn active_users(services_count: i64) -> (users: i64)
    ensures
        users == active_users_of(services_count),
{
    let scaled: i128 = services_count as i128 * 10;
    assert(scaled == services_count * USERS_PER_SERVICE);
    let users: i128 = BASE_USERS as i128 + scaled;
    if users > i64::MAX as i128 {
        i64::MAX
    } else if users < i64::MIN as i128 {
        i64::MIN
    } else {
        users as i64
    }
}

/// The text of the provider that a question asks about: the one that it
/// names, and the nil provider where it names none.
pub open spec fn provider_text_of(provider_id: Option<Seq<char>>) -> Seq<char> {
    match provider_id {
        Some(text) => text,
        None => nil_text(),
    }
}

/// The text of the provider that a question asks about.
pub fn provider_text(query: &ProviderStatsQuery) -> (text: String)
    ensures
        text@ == provider_text_of(
            match query.provider_id {
                Some(text) => Some(text@),
                None => None,
            },
        ),
{
    match &query.provider_id {
        Some(text) => text.clone(),
        None => "00000000-0000-0000-0000-000000000000".to_owned(),
    }
}

/// The provider whose services a dashboard counts, from the key that its
/// text gave: that provider, and no provider at all (every count is nought)
/// where the text was refused.
pub fn scope_from(key: Result<Vec<u8>, ApiError>) -> (scope: Option<Vec<u8>>)
    ensures
        parsed_view(scope) == match key_view(key) {
            Ok(bytes) => Some(bytes),
            Err(_) => None::<Seq<u8>>,
        },
{
    match key {
        Ok(bytes) => Some(bytes),
        Err(_) => None,
    }
}

/// The provider whose services a dashboard counts: the one that the
/// question names, the nil provider where it names none, and no provider at
/// all (every count is nought) where it names one unreadably.
pub fn provider_scope(query: &ProviderStatsQuery) -> (scope: Option<Vec<u8>>)
    ensures
        parsed_view(scope) == parsed_uuid(
            provider_text_of(
                match query.provider_id {
                    Some(text) => Some(text@),
                    None => None,
                },
            ),
        ),
        scope matches Some(bytes) ==> bytes@.len() == ID_BYTES,
{
    let text = provider_text(query);
    scope_from(service_key(text.as_str()))
}

} // verus!
