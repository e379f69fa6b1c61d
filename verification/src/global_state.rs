//! What every request shares: the catalog credential's header and the
//! network handles built with it. Nothing here changes after start-up.

use std::sync::Arc;
use vstd::prelude::*;
use vstd::string::StringExecFns;
use crate::model::kind::Kind;
use crate::model::steamgriddb_models::{first_url_of, yield_text, HeroesResponse, LogosResponse};
use crate::services::steamgriddb_service::{
    first_hero_step, first_logo_step, step_follows, LookupEvent, LookupStep, SteamgriddbService,
};

verus! {

/// Whether `c` may stand in the value of an HTTP header: any character
/// from the space on but DEL, and the tab.
pub open spec fn is_header_char(c: char) -> bool {
    (c as u32 >= 32 && c as u32 != 127) || c == '\t'
}

/// Whether `text` can be the value of an HTTP header.
pub open spec fn is_header_text(text: Seq<char>) -> bool {
    forall|i: int| 0 <= i < text.len() ==> is_header_char(#[trigger] text[i])
}

/// The value of the `Authorization` header for the credential `auth_key`.
pub open spec fn bearer(auth_key: Seq<char>) -> Seq<char> {
    "Bearer "@ + auth_key
}

/// Calls `reqwest::header::HeaderValue::from_str` on `text` and drops the
/// header value it builds. The call accepts `text` exactly when each of its
/// bytes is at least 32 and not 127, or is the tab; a character outside
/// ASCII is encoded in bytes from 128 on, which pass. On refusal the text
/// of the crate's error is handed back, which is always the same.
#[verifier::external_body]
fn check_header_value(text: &str) -> (r: Result<(), String>)
    ensures
        r is Ok <==> is_header_text(text@),
        r matches Err(why) ==> why@ == "failed to parse header value"@,
{
    match reqwest::header::HeaderValue::from_str(text) {
        Ok(_) => Ok(()),
        Err(e) => Err(e.to_string()),
    }
}

/// Calls `Arc::clone`: a second handle to the same value.
#[verifier::external_body]
fn share<T>(handle: &Arc<T>) -> (shared: Arc<T>)
    ensures
        shared == *handle,
{
    Arc::clone(handle)
}

/// The value of the `Authorization` header that carries `auth_key` as a
/// bearer credential, or why the credential cannot travel in a header.
pub fn authorization_header(auth_key: &str) -> (r: Result<String, String>)
    ensures
        match r {
            Ok(header) => is_header_text(auth_key@) && header@ == bearer(auth_key@),
            Err(why) => !is_header_text(auth_key@) && why@
                == "Failed to parse auth header: failed to parse header value"@,
        },
{
    let mut header = String::from_str("Bearer ");
    header.append(auth_key);
    proof {
        reveal_strlit("Bearer ");
        let prefix = "Bearer "@;
        assert(header@ == bearer(auth_key@));
        assert forall|i: int| 0 <= i < prefix.len() implies is_header_char(prefix[i]) by {
            if i == 0 {
            } else if i == 1 {
            } else if i == 2 {
            } else if i == 3 {
            } else if i == 4 {
            } else if i == 5 {
            } else {
            }
        }
        if is_header_text(auth_key@) {
            assert forall|i: int| 0 <= i < header@.len() implies is_header_char(
                #[trigger] header@[i],
            ) by {
                if i >= prefix.len() {
                    assert(header@[i] == auth_key@[i - prefix.len()]);
                }
            }
        }
        if is_header_text(header@) {
            assert forall|i: int| 0 <= i < auth_key@.len() implies is_header_char(
                #[trigger] auth_key@[i],
            ) by {
                assert(header@[i + prefix.len()] == auth_key@[i]);
            }
        }
    }
    match check_header_value(header.as_str()) {
        Ok(()) => Ok(header),
        Err(why) => {
            let mut message = String::from_str("Failed to parse auth header: ");
            message.append(why.as_str());
            proof {
                reveal_strlit("Failed to parse auth header: ");
                reveal_strlit("failed to parse header value");
                reveal_strlit("Failed to parse auth header: failed to parse header value");
                assert(message@ =~= "Failed to parse auth header: failed to parse header value"@);
            }
            Err(message)
        },
    }
}

/// The state shared by all requests: the two network handles, which hold
/// the credential, and the address of the catalog.
pub struct GlobalState {
    steamgriddb_api_client: Arc<steamgriddb_api::client::Client>,
    reqwest_client: Arc<reqwest::Client>,
    base_url: String,
}

impl GlobalState {
    /// The shared state around handles that were built with the credential.
    pub fn new(
        steamgriddb_api_client: Arc<steamgriddb_api::client::Client>,
        reqwest_client: Arc<reqwest::Client>,
        base_url: String,
    ) -> (state: GlobalState)
        ensures
            state.spec_steamgriddb_api_client() == steamgriddb_api_client,
            state.spec_reqwest_client() == reqwest_client,
            state.spec_base_url() == base_url@,
    {
        GlobalState { steamgriddb_api_client, reqwest_client, base_url }
    }

    /// The address of the catalog.
    pub closed spec fn spec_base_url(&self) -> Seq<char> {
        self.base_url@
    }

    /// The handle for the catalog's search and asset listings.
    pub closed spec fn spec_steamgriddb_api_client(&self) -> Arc<steamgriddb_api::client::Client> {
        self.steamgriddb_api_client
    }

    /// The handle for the image lookups.
    pub closed spec fn spec_reqwest_client(&self) -> Arc<reqwest::Client> {
        self.reqwest_client
    }

    /// A catalog client for one task: it shares the handles of the state and
    /// sends its lookups to the same address.
    pub fn steamgriddb_service(&self) -> (service: SteamgriddbService)
        ensures
            service.spec_sg_client() == self.spec_steamgriddb_api_client(),
            service.spec_req_client() == self.spec_reqwest_client(),
            service.spec_base_url() == self.spec_base_url(),
    {
        SteamgriddbService::new(
            share(&self.steamgriddb_api_client),
            share(&self.reqwest_client),
            self.base_url.clone(),
        )
    }

    /// The handle for the catalog's search and asset listings.
    pub fn steamgriddb_api_client(&self) -> (handle: &Arc<steamgriddb_api::client::Client>)
        ensures
            *handle == self.spec_steamgriddb_api_client(),
    {
        &self.steamgriddb_api_client
    }

    /// The handle for the image lookups.
    pub fn reqwest_client(&self) -> (handle: &Arc<reqwest::Client>)
        ensures
            *handle == self.spec_reqwest_client(),
    {
        &self.reqwest_client
    }

    /// One step of the lookup of `game_id`'s first logo, as the catalog
    /// client takes it.
    pub fn get_first_logo_by_game_id(&self, game_id: usize, event: LookupEvent<LogosResponse>) -> (step:
        LookupStep)
        ensures
            step_follows(self.spec_base_url(), Kind::Logo, game_id as nat, event, step),
            event matches LookupEvent::Body(listing) ==> step matches LookupStep::Finished(r)
                && yield_text(r) == first_url_of(Kind::Logo, listing.success, listing.urls()),
    {
        first_logo_step(self.base_url.as_str(), game_id, event)
    }

    /// One step of the lookup of `game_id`'s first hero image, as the
    /// catalog client takes it.
    pub fn get_first_hero_by_game_id(&self, game_id: usize, event: LookupEvent<HeroesResponse>) -> (step:
        LookupStep)
        ensures
            step_follows(self.spec_base_url(), Kind::Hero, game_id as nat, event, step),
            event matches LookupEvent::Body(listing) ==> step matches LookupStep::Finished(r)
                && yield_text(r) == first_url_of(Kind::Hero, listing.success, listing.urls()),
    {
        first_hero_step(self.base_url.as_str(), game_id, event)
    }
}

} // verus!
