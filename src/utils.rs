//! Paging of list queries.

use vstd::prelude::*;

verus! {

/// Which page of a listing to return, and how many rows a page holds.
#[derive(Clone, Copy, Debug, PartialEq, Eq, Structural)]
pub struct Pagination {
    pub page: i64,
    pub limit: i64,
}

/// The page shown when none is asked for: the first.
pub fn default_page() -> (r: i64)
    ensures
        r == 1,
{
    1
}

/// The page size used when none is asked for.
pub fn default_limit() -> (r: i64)
    ensures
        r == 20,
{
    20
}

} // verus!
