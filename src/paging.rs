use vstd::prelude::*;

verus! {

/// Offset applied when the query names none.
pub const DEFAULT_OFFSET: i64 = 0;

/// Row limit applied when the query names none.
pub const DEFAULT_LIMIT: i64 = 100;

/// Query parameters of the list route, each of them optional.
#[derive(Debug, Clone, PartialEq, Eq)]
pub struct Pagination {
    pub offset: Option<i64>,
    pub limit: Option<i64>,
}

/// The window that the list query reads: rows skipped, then rows returned.
#[derive(Debug, Clone, PartialEq, Eq)]
pub struct Page {
    pub offset: i64,
    pub limit: i64,
}

/// The value of an optional parameter, or its default.
pub open spec fn or_default(p: Option<i64>, d: i64) -> i64 {
    match p {
        Some(v) => v,
        None => d,
    }
}

/// The window named by a query string, if one was parsed; the defaults
/// stand in for whatever is absent.
pub open spec fn page_of(query: Option<Pagination>) -> (i64, i64) {
    match query {
        Some(p) => (or_default(p.offset, DEFAULT_OFFSET), or_default(p.limit, DEFAULT_LIMIT)),
        None => (DEFAULT_OFFSET, DEFAULT_LIMIT),
    }
}

impl Default for Pagination {
    fn default() -> (r: Self)
        ensures
            r.offset is None,
            r.limit is None,
    {
        Pagination { offset: None, limit: None }
    }
}

impl Pagination {
    /// The window this query asks for, defaults filled in.
    pub fn page(&self) -> (r: Page)
        ensures
            r.offset == or_default(self.offset, DEFAULT_OFFSET),
            r.limit == or_default(self.limit, DEFAULT_LIMIT),
    {
        let offset: i64 = match self.offset {
            Some(v) => v,
            None => DEFAULT_OFFSET,
        };
        let limit: i64 = match self.limit {
            Some(v) => v,
            None => DEFAULT_LIMIT,
        };
        Page { offset, limit }
    }
}

/// The window of a list request; a query string that was absent or could not
/// be parsed counts as one that names nothing.
pub fn resolve_page(query: Option<Pagination>) -> (r: Page)
    ensures
        (r.offset, r.limit) == page_of(query),
        query is None ==> r.offset == 0 && r.limit == 100,
{
    let p = match query {
        Some(p) => p,
        None => Pagination::default(),
    };
    p.page()
}

} // verus!
