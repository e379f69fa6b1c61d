//! `GET /assets/{game_id}`: one page of a game's assets.

use vstd::prelude::*;
use vstd::string::StringExecFns;
use crate::model::asset::{Asset, AssetList};
use crate::model::response::{Response, STATUS_INTERNAL_SERVER_ERROR};
use crate::pagination::{
    or_default, page_is_final, page_items, paging_value, shape, DEFAULT_LIMIT, DEFAULT_OFFSET,
};

verus! {

/// The paging parameters of an asset listing.
#[derive(Clone, Copy, Debug)]
pub struct FetchAssetsQuery {
    pub limit: Option<u32>,
    pub offset: Option<u32>,
}

impl FetchAssetsQuery {
    /// The page size asked for: 15 unless the caller names one.
    pub open spec fn spec_limit(&self) -> int {
        or_default(self.limit, DEFAULT_LIMIT)
    }

    /// The page start asked for: 0 unless the caller names one.
    pub open spec fn spec_offset(&self) -> int {
        or_default(self.offset, DEFAULT_OFFSET)
    }
}

/// The answer to an asset listing. `fetched` is what the catalog listed
/// for the game, or `None` when the catalog failed: then the answer is an
/// error under status 500. Else it is the page of the listing that the
/// query asks for, and whether that page is the last.
pub fn get_assets_by_id(query: &FetchAssetsQuery, fetched: Option<Vec<Asset>>) -> (r: Response<AssetList>)
    ensures
        r.timestamp == 0,
        match fetched {
            None => {
                &&& !r.success
                &&& r.data is None
                &&& r.code == Some(STATUS_INTERNAL_SERVER_ERROR)
                &&& r.message matches Some(m) && m@ == "Failed to fetch assets"@
            },
            Some(listed) => {
                &&& r.success
                &&& r.code is None
                &&& r.message is None
                &&& r.data matches Some(list) && list.assets@ == page_items(
                    listed@,
                    query.spec_offset(),
                    query.spec_limit(),
                ) && list.is_final == page_is_final(
                    listed@.len() as int,
                    query.spec_offset(),
                    query.spec_limit(),
                )
            },
        },
{
    match fetched {
        None => Response::error(
            String::from_str("Failed to fetch assets"),
            STATUS_INTERNAL_SERVER_ERROR,
        ),
        Some(listed) => {
            let page = shape(
                listed,
                paging_value(query.offset, DEFAULT_OFFSET),
                paging_value(query.limit, DEFAULT_LIMIT),
            );
            Response::success(AssetList { assets: page.items, is_final: page.is_final })
        },
    }
}

} // verus!
