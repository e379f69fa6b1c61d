//! The wire shape of the catalog's image listings.

use vstd::prelude::*;
use crate::model::error::{Rejection, UpstreamError};
use crate::model::kind::Kind;

verus! {

/// Who uploaded an image.
#[derive(Clone, Debug)]
pub struct ResponseAuthor {
    pub name: String,
    pub steam64: String,
    pub avatar: String,
}

/// One hero image of a listing.
#[derive(Clone, Debug)]
pub struct HeroResponseData {
    pub id: u32,
    pub score: u32,
    pub style: String,
    pub width: u32,
    pub height: u32,
    pub nsfw: bool,
    pub humor: bool,
    pub notes: Option<String>,
    pub mime: String,
    pub language: String,
    pub url: String,
    pub thumb: String,
    pub lock: bool,
    pub epilepsy: bool,
    pub upvotes: u32,
    pub downvotes: u32,
    pub author: ResponseAuthor,
    pub tags: Option<Vec<String>>,
}

/// The catalog's answer to a listing of hero images.
#[derive(Clone, Debug)]
pub struct HeroesResponse {
    /// False when the catalog refused the request; `data` then means nothing.
    pub success: bool,
    pub page: u32,
    pub total: u32,
    pub limit: u32,
    pub data: Vec<HeroResponseData>,
}

/// One logo image of a listing.
#[derive(Clone, Debug)]
pub struct LogoResposeData {
    pub id: u32,
    pub score: u32,
    pub style: String,
    pub width: u32,
    pub height: u32,
    pub nsfw: bool,
    pub humor: bool,
    pub notes: Option<String>,
    pub mime: String,
    pub language: String,
    pub url: String,
    pub thumb: String,
    pub lock: bool,
    pub epilepsy: bool,
    pub upvotes: u32,
    pub downvotes: u32,
    pub author: ResponseAuthor,
    pub tags: Option<Vec<String>>,
}

/// The catalog's answer to a listing of logo images.
#[derive(Clone, Debug)]
pub struct LogosResponse {
    /// False when the catalog refused the request; `data` then means nothing.
    pub success: bool,
    pub page: u32,
    pub total: u32,
    pub limit: u32,
    pub data: Vec<LogoResposeData>,
}

/// What a listing yields for enrichment, from its `success` flag and the
/// URLs of its images in order: a refusal when the flag is false, whatever
/// the data; nothing when the list is empty; else the first URL.
pub open spec fn first_url_of(
    kind: Kind,
    success: bool,
    urls: Seq<Seq<char>>,
) -> Result<Option<Seq<char>>, UpstreamError> {
    if !success {
        Err(UpstreamError::UpstreamRejected(kind, Rejection::SuccessFlag))
    } else if urls.len() == 0 {
        Ok(None)
    } else {
        Ok(Some(urls[0]))
    }
}

/// The characters of an optional string that a lookup yielded.
pub open spec fn yield_text(r: Result<Option<String>, UpstreamError>) -> Result<
    Option<Seq<char>>,
    UpstreamError,
> {
    match r {
        Ok(Some(url)) => Ok(Some(url@)),
        Ok(None) => Ok(None),
        Err(e) => Err(e),
    }
}

impl LogosResponse {
    /// The URLs of the listed images, in order.
    pub open spec fn urls(&self) -> Seq<Seq<char>> {
        Seq::new(self.data@.len(), |i: int| self.data@[i].url@)
    }

    /// The URL of the first listed logo, if the catalog accepted the
    /// request and listed any.
    pub fn first_url(&self) -> (r: Result<Option<String>, UpstreamError>)
        ensures
            yield_text(r) == first_url_of(Kind::Logo, self.success, self.urls()),
    {
        if !self.success {
            return Err(UpstreamError::UpstreamRejected(Kind::Logo, Rejection::SuccessFlag));
        }
        if self.data.len() == 0 {
            return Ok(None);
        }
        Ok(Some(self.data[0].url.clone()))
    }
}

impl HeroesResponse {
    /// The URLs of the listed images, in order.
    pub open spec fn urls(&self) -> Seq<Seq<char>> {
        Seq::new(self.data@.len(), |i: int| self.data@[i].url@)
    }

    /// The URL of the first listed hero image, if the catalog accepted the
    /// request and listed any.
    pub fn first_url(&self) -> (r: Result<Option<String>, UpstreamError>)
        ensures
            yield_text(r) == first_url_of(Kind::Hero, self.success, self.urls()),
    {
        if !self.success {
            return Err(UpstreamError::UpstreamRejected(Kind::Hero, Rejection::SuccessFlag));
        }
        if self.data.len() == 0 {
            return Ok(None);
        }
        Ok(Some(self.data[0].url.clone()))
    }
}

} // verus!
