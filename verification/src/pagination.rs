//! Offset/limit slicing of an upstream result list.

use vstd::math::{max, min};
use vstd::prelude::*;

verus! {

/// Page size used when the caller names none.
pub const DEFAULT_LIMIT: u32 = 15;

/// Page start used when the caller names none.
pub const DEFAULT_OFFSET: u32 = 0;

/// The value of a paging parameter: what the caller gave, else `default`.
pub open spec fn or_default(given: Option<u32>, default: u32) -> int {
    match given {
        Some(value) => value as int,
        None => default as int,
    }
}

/// The value of a paging parameter: what the caller gave, else `default`.
pub fn paging_value(given: Option<u32>, default: u32) -> (value: usize)
    ensures
        value == or_default(given, default),
{
    match given {
        Some(value) => value as usize,
        None => default as usize,
    }
}

/// One page cut out of a longer result list.
pub struct Page<T> {
    /// The records of the page, in upstream order.
    pub items: Vec<T>,
    /// Whether no record follows this page upstream.
    pub is_final: bool,
}

/// Number of records on the page that starts at `offset` and holds at most
/// `limit` records of a list of `total` records.
pub open spec fn page_len(total: int, offset: int, limit: int) -> int {
    min(limit, max(0, total - offset))
}

/// The records `[offset, offset + limit)` of `items`, cut off at its end.
pub open spec fn page_items<T>(items: Seq<T>, offset: int, limit: int) -> Seq<T>
    recommends
        0 <= offset,
        0 <= limit,
{
    items.subrange(
        if offset <= items.len() { offset } else { items.len() as int },
        if offset + limit <= items.len() { offset + limit } else { items.len() as int },
    )
}

/// Whether the page `[offset, offset + limit)` reaches the end of a list of
/// `total` records.
pub open spec fn page_is_final(total: int, offset: int, limit: int) -> bool {
    total <= offset + limit
}

/// Cuts the page `[offset, offset + limit)` out of `items`.
pub fn shape<T>(items: Vec<T>, offset: usize, limit: usize) -> (page: Page<T>)
    ensures
        page.items@ == page_items(items@, offset as int, limit as int),
        page.items@.len() == page_len(items@.len() as int, offset as int, limit as int),
        page.is_final == page_is_final(items@.len() as int, offset as int, limit as int),
{
    let mut items = items;
    let total = items.len();
    if offset >= total {
        items.truncate(0);
        return Page { items, is_final: true };
    }
    let remaining = total - offset;
    let is_final = remaining <= limit;
    if !is_final {
        items.truncate(offset + limit);
    }
    let page_items = items.split_off(offset);
    Page { items: page_items, is_final }
}

} // verus!
