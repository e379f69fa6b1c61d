//! The art catalog's client: which request a lookup sends, and what each
//! thing that can come back means.
//!
//! The client holds the network handles but never touches the network. A
//! lookup is driven from outside: the driver asks for the next step, does
//! what the step says, and reports what happened as the next event.

use std::sync::Arc;
use vstd::prelude::*;
use vstd::string::StringExecFns;
use crate::model::error::{Rejection, UpstreamError};
use crate::model::kind::Kind;
use crate::model::response::{is_success, spec_is_success};
use crate::model::steamgriddb_models::{first_url_of, yield_text, HeroesResponse, LogosResponse};
use crate::text::{decimal, push_decimal};

verus! {

/// The catalog crate's client, `steamgriddb_api::client::Client`: carried,
/// never looked into.
#[verifier::external_type_specification]
#[verifier::external_body]
pub struct ExCatalogClient(steamgriddb_api::client::Client);

/// The HTTP client, `reqwest::Client`: carried, never looked into.
#[verifier::external_type_specification]
#[verifier::external_body]
pub struct ExHttpClient(reqwest::Client);

/// Number of images a lookup asks the catalog for.
pub const LOOKUP_LIMIT: u32 = 1;

/// The address of the listing of `game_id`'s images of one kind, below
/// `base`: `{base}/logos/game/{id}` or `{base}/heroes/game/{id}`.
pub open spec fn lookup_url(base: Seq<char>, kind: Kind, game_id: nat) -> Seq<char> {
    base + "/"@ + kind.spec_segment() + "/game/"@ + decimal(game_id)
}

/// One outbound request of a lookup: a GET of `url` with the query
/// parameter `limit`.
#[derive(Debug)]
pub struct LookupRequest {
    pub url: String,
    pub limit: u32,
}

/// What happened since the last step of a lookup. `T` is the shape of the
/// listing the lookup expects.
#[derive(Debug)]
pub enum LookupEvent<T> {
    /// Nothing yet: the lookup begins.
    Start,
    /// The request produced no response (connection failure, timeout).
    SendFailed,
    /// A response arrived with this status.
    Responded(u16),
    /// The body could not be read to its end.
    BodyFailed,
    /// The body was read and is no listing.
    BodyMalformed,
    /// The body was read and is this listing.
    Body(T),
}

/// What a lookup does next.
#[derive(Debug)]
pub enum LookupStep {
    /// Send this request, then report `Responded` or `SendFailed`.
    Send(LookupRequest),
    /// Read and parse the body of the response, then report `Body`,
    /// `BodyMalformed` or `BodyFailed`.
    ReadBody,
    /// The lookup is over, with this result.
    Finished(Result<Option<String>, UpstreamError>),
}

/// The client of the art catalog. The credential lives inside the two
/// network handles; nothing here changes after construction.
pub struct SteamgriddbService {
    sg_client: Arc<steamgriddb_api::client::Client>,
    req_client: Arc<reqwest::Client>,
    base_url: String,
}

impl SteamgriddbService {
    /// A client that sends its lookups below `base_url`.
    pub fn new(
        sg_client: Arc<steamgriddb_api::client::Client>,
        req_client: Arc<reqwest::Client>,
        base_url: String,
    ) -> (service: SteamgriddbService)
        ensures
            service.spec_sg_client() == sg_client,
            service.spec_req_client() == req_client,
            service.spec_base_url() == base_url@,
    {
        SteamgriddbService { sg_client, req_client, base_url }
    }

    /// The handle for the catalog's search and asset listings.
    pub closed spec fn spec_sg_client(&self) -> Arc<steamgriddb_api::client::Client> {
        self.sg_client
    }

    /// The handle for the image lookups.
    pub closed spec fn spec_req_client(&self) -> Arc<reqwest::Client> {
        self.req_client
    }

    /// The address below which the client sends its lookups.
    pub closed spec fn spec_base_url(&self) -> Seq<char> {
        self.base_url@
    }

    /// The address below which the client sends its lookups.
    pub fn base_url(&self) -> (base: &str)
        ensures
            base@ == self.spec_base_url(),
    {
        self.base_url.as_str()
    }

    /// The handle for the catalog's search and asset listings.
    pub fn sg_client(&self) -> (handle: &Arc<steamgriddb_api::client::Client>)
        ensures
            *handle == self.spec_sg_client(),
    {
        &self.sg_client
    }

    /// The handle for the image lookups.
    pub fn req_client(&self) -> (handle: &Arc<reqwest::Client>)
        ensures
            *handle == self.spec_req_client(),
    {
        &self.req_client
    }

    /// The request that looks up the first image of one kind for `game_id`.
    pub fn lookup_request(&self, kind: Kind, game_id: usize) -> (request: LookupRequest)
        ensures
            request.url@ == lookup_url(self.spec_base_url(), kind, game_id as nat),
            request.limit == LOOKUP_LIMIT,
    {
        lookup_request(self.base_url.as_str(), kind, game_id)
    }

    /// One step of the lookup of `game_id`'s first logo: the request to
    /// send at the start; after a response, whether to read the body (2xx)
    /// or to give up; after the body, the lookup's result. A listing with
    /// `success` false is a refusal, an empty one yields no URL.
    pub fn get_first_logo_by_game_id(&self, game_id: usize, event: LookupEvent<LogosResponse>) -> (step:
        LookupStep)
        ensures
            step_follows(self.spec_base_url(), Kind::Logo, game_id as nat, event, step),
            event matches LookupEvent::Body(listing) ==> step matches LookupStep::Finished(r)
                && yield_text(r) == first_url_of(Kind::Logo, listing.success, listing.urls()),
    {
        first_logo_step(self.base_url.as_str(), game_id, event)
    }

    /// One step of the lookup of `game_id`'s first hero image; as for
    /// logos, against the catalog's hero listing.
    pub fn get_first_hero_by_game_id(&self, game_id: usize, event: LookupEvent<HeroesResponse>) -> (step:
        LookupStep)
        ensures
            step_follows(self.spec_base_url(), Kind::Hero, game_id as nat, event, step),
            event matches LookupEvent::Body(listing) ==> step matches LookupStep::Finished(r)
                && yield_text(r) == first_url_of(Kind::Hero, listing.success, listing.urls()),
    {
        first_hero_step(self.base_url.as_str(), game_id, event)
    }
}

/// The request that looks up, below `base_url`, the first image of one
/// kind for `game_id`: one image is asked for.
pub fn lookup_request(base_url: &str, kind: Kind, game_id: usize) -> (request: LookupRequest)
    ensures
        request.url@ == lookup_url(base_url@, kind, game_id as nat),
        request.limit == LOOKUP_LIMIT,
{
    let mut url = String::from_str(base_url);
    url.append("/");
    url.append(kind.segment());
    url.append("/game/");
    push_decimal(&mut url, game_id);
    LookupRequest { url, limit: LOOKUP_LIMIT }
}

/// The step that follows `event` in a lookup of one kind, for every event
/// but a parsed body, which is handed back.
fn step_before_body<T>(base_url: &str, kind: Kind, game_id: usize, event: LookupEvent<T>) -> (r: Result<
    LookupStep,
    T,
>)
    ensures
        match r {
            Ok(step) => !(event is Body) && step_follows(base_url@, kind, game_id as nat, event, step),
            Err(listing) => event == LookupEvent::Body(listing),
        },
{
    match event {
        LookupEvent::Start => Ok(LookupStep::Send(lookup_request(base_url, kind, game_id))),
        LookupEvent::SendFailed => Ok(LookupStep::Finished(Err(UpstreamError::TransportError(kind)))),
        LookupEvent::Responded(status) => {
            if is_success(status) {
                Ok(LookupStep::ReadBody)
            } else {
                Ok(
                    LookupStep::Finished(
                        Err(UpstreamError::UpstreamRejected(kind, Rejection::Status(status))),
                    ),
                )
            }
        },
        LookupEvent::BodyFailed => Ok(LookupStep::Finished(Err(UpstreamError::TransportError(kind)))),
        LookupEvent::BodyMalformed => Ok(
            LookupStep::Finished(Err(UpstreamError::MalformedResponse(kind))),
        ),
        LookupEvent::Body(listing) => Err(listing),
    }
}

/// One step of a lookup of the first logo of `game_id` below `base_url`.
pub fn first_logo_step(base_url: &str, game_id: usize, event: LookupEvent<LogosResponse>) -> (step:
    LookupStep)
    ensures
        step_follows(base_url@, Kind::Logo, game_id as nat, event, step),
        event matches LookupEvent::Body(listing) ==> step matches LookupStep::Finished(r)
            && yield_text(r) == first_url_of(Kind::Logo, listing.success, listing.urls()),
{
    match step_before_body(base_url, Kind::Logo, game_id, event) {
        Ok(step) => step,
        Err(listing) => LookupStep::Finished(listing.first_url()),
    }
}

/// One step of a lookup of the first hero image of `game_id` below
/// `base_url`.
pub fn first_hero_step(base_url: &str, game_id: usize, event: LookupEvent<HeroesResponse>) -> (step:
    LookupStep)
    ensures
        step_follows(base_url@, Kind::Hero, game_id as nat, event, step),
        event matches LookupEvent::Body(listing) ==> step matches LookupStep::Finished(r)
            && yield_text(r) == first_url_of(Kind::Hero, listing.success, listing.urls()),
{
    match step_before_body(base_url, Kind::Hero, game_id, event) {
        Ok(step) => step,
        Err(listing) => LookupStep::Finished(listing.first_url()),
    }
}

/// Whether `step` is what a lookup of one kind does after `event`, for
/// every event that does not carry a listing: it sends the lookup's one
/// request at the start, reads the body after a 2xx response, and ends
/// with the matching error after anything else.
pub open spec fn step_follows<T>(
    base: Seq<char>,
    kind: Kind,
    game_id: nat,
    event: LookupEvent<T>,
    step: LookupStep,
) -> bool {
    match event {
        LookupEvent::Start => step matches LookupStep::Send(request) && request.url@ == lookup_url(
            base,
            kind,
            game_id,
        ) && request.limit == LOOKUP_LIMIT,
        LookupEvent::SendFailed => step == LookupStep::Finished(
            Err(UpstreamError::TransportError(kind)),
        ),
        LookupEvent::Responded(status) => step == if spec_is_success(status) {
            LookupStep::ReadBody
        } else {
            LookupStep::Finished(
                Err(UpstreamError::UpstreamRejected(kind, Rejection::Status(status))),
            )
        },
        LookupEvent::BodyFailed => step == LookupStep::Finished(
            Err(UpstreamError::TransportError(kind)),
        ),
        LookupEvent::BodyMalformed => step == LookupStep::Finished(
            Err(UpstreamError::MalformedResponse(kind)),
        ),
        LookupEvent::Body(_) => step is Finished,
    }
}

} // verus!
