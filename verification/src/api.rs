//! Helpers of the query surface that the host process exposes over the
//! store: validated list parameters, search options, and pagination
//! arithmetic.

use vstd::prelude::*;
use vstd::string::StringExecFns;

verus! {

/// One page of a paginated listing.
#[derive(Debug)]
pub struct PaginatedAppInfo<D> {
    pub data: Vec<D>,
    pub total_count: u32,
    pub page: u32,
    pub page_size: u32,
    pub total_pages: u32,
}

/// A search over one column, exact or fuzzy.
#[derive(Debug)]
pub struct DbSearch {
    pub key: String,
    pub value: String,
    pub is_exact: bool,
}

impl DbSearch {
    pub fn new(key: String, value: String, is_exact: bool) -> (r: DbSearch)
        ensures
            r.key == key,
            r.value == value,
            r.is_exact == is_exact,
    {
        DbSearch { key, value, is_exact }
    }

    pub fn exact(key: String, value: String) -> (r: DbSearch)
        ensures
            r.key == key,
            r.value == value,
            r.is_exact,
    {
        DbSearch { key, value, is_exact: true }
    }

    pub fn fuzzy(key: String, value: String) -> (r: DbSearch)
        ensures
            r.key == key,
            r.value == value,
            !r.is_exact,
    {
        DbSearch { key, value, is_exact: false }
    }

    /// The pattern to match with: the value itself for an exact search, the
    /// value wrapped in wildcards for a fuzzy one.
    pub fn search_value(&self) -> (r: String)
        ensures
            self.is_exact ==> r@ == self.value@,
            !self.is_exact ==> r@ == "%"@ + self.value@ + "%"@,
    {
        if self.is_exact {
            self.value.clone()
        } else {
            let mut r = String::from_str("%");
            r.append(self.value.as_str());
            r.append("%");
            r
        }
    }
}

/// Query parameters of the ranking endpoints.
#[derive(Debug)]
pub struct RankingQuery {
    pub limit: Option<u32>,
    pub exclude_pattern: Option<String>,
    pub time_range: Option<String>,
}

impl Default for RankingQuery {
    /// Ten entries, nothing excluded, no time range.
    fn default() -> (r: RankingQuery)
        ensures
            r.limit == Option::Some(10u32),
            r.exclude_pattern is None,
            r.time_range is None,
    {
        RankingQuery { limit: Some(10), exclude_pattern: None, time_range: None }
    }
}

/// The sortable columns of the listing endpoint.
pub open spec fn valid_sort_key(s: Seq<char>) -> bool {
    ||| s == "download_count"@
    ||| s == "average_rating"@
    ||| s == "price"@
    ||| s == "size_bytes"@
    ||| s == "rating_count"@
    ||| s == "metrics_created_at"@
    ||| s == "created_at"@
    ||| s == "total_star_rating_count"@
}

/// The searchable columns of the listing endpoint.
pub open spec fn valid_search_key(s: Seq<char>) -> bool {
    ||| s == "name"@
    ||| s == "pkg_name"@
    ||| s == "app_id"@
    ||| s == "developer_name"@
    ||| s == "developer_en_name"@
}

/// Query parameters of the listing endpoint.
#[derive(Debug)]
pub struct AppListQuery {
    pub sort: Option<String>,
    pub desc: Option<bool>,
    pub search_key: Option<String>,
    pub search_value: Option<String>,
    pub search_exact: Option<bool>,
    pub page_size: Option<u32>,
    pub detail: Option<bool>,
}

impl AppListQuery {
    /// Whether the requested sort column is one of the sortable ones.
    pub fn is_valid_sort(&self) -> (r: bool)
        ensures
            r == match self.sort {
                Option::Some(s) => valid_sort_key(s@),
                Option::None => false,
            },
    {
        match &self.sort {
            Some(s) => {
                s.eq(&String::from_str("download_count")) || s.eq(
                    &String::from_str("average_rating"),
                ) || s.eq(&String::from_str("price")) || s.eq(&String::from_str("size_bytes"))
                    || s.eq(&String::from_str("rating_count")) || s.eq(
                    &String::from_str("metrics_created_at"),
                ) || s.eq(&String::from_str("created_at")) || s.eq(
                    &String::from_str("total_star_rating_count"),
                )
            },
            None => false,
        }
    }

    /// The sort column to use: the requested one when valid, else the
    /// creation timestamp.
    pub fn sort_key(&self) -> (r: String)
        ensures
            match self.sort {
                Option::Some(s) => r@ == if valid_sort_key(s@) {
                    s@
                } else {
                    "created_at"@
                },
                Option::None => r@ == "created_at"@,
            },
    {
        if self.is_valid_sort() {
            match &self.sort {
                Some(s) => s.clone(),
                None => String::from_str("created_at"),
            }
        } else {
            String::from_str("created_at")
        }
    }

    /// The page size to use: the requested one (100 when absent), capped at
    /// `page_limit` when one is configured.
    pub fn page_size(&self, page_limit: Option<u32>) -> (r: u32)
        ensures
            ({
                let page = match self.page_size {
                    Option::Some(p) => p,
                    Option::None => 100u32,
                };
                let limit = match page_limit {
                    Option::Some(l) => l,
                    Option::None => page,
                };
                r == if page > limit {
                    limit
                } else {
                    page
                }
            }),
    {
        let page = match self.page_size {
            Some(p) => p,
            None => 100,
        };
        let limit = match page_limit {
            Some(l) => l,
            None => page,
        };
        if page > limit {
            limit
        } else {
            page
        }
    }

    /// Whether full rows were requested (the default) or trimmed ones.
    pub fn detail(&self) -> (r: bool)
        ensures
            r == match self.detail {
                Option::Some(d) => d,
                Option::None => true,
            },
    {
        match self.detail {
            Some(d) => d,
            None => true,
        }
    }

    /// Whether the requested search column is one of the searchable ones.
    fn is_valid_search(&self) -> (r: bool)
        ensures
            r == match self.search_key {
                Option::Some(s) => valid_search_key(s@),
                Option::None => false,
            },
    {
        match &self.search_key {
            Some(s) => {
                s.eq(&String::from_str("name")) || s.eq(&String::from_str("pkg_name")) || s.eq(
                    &String::from_str("app_id"),
                ) || s.eq(&String::from_str("developer_name")) || s.eq(
                    &String::from_str("developer_en_name"),
                )
            },
            None => false,
        }
    }

    /// The search to run, when a valid column and a value were both given;
    /// exact matching only when explicitly requested.
    pub fn search_option(&self) -> (r: Option<DbSearch>)
        ensures
            match r {
                Option::Some(s) => {
                    &&& self.search_key matches Option::Some(k) && valid_search_key(k@) && s.key@
                        == k@
                    &&& self.search_value matches Option::Some(v) && s.value@ == v@
                    &&& s.is_exact == (self.search_exact == Option::Some(true))
                },
                Option::None => {
                    ||| (match self.search_key {
                        Option::Some(k) => !valid_search_key(k@),
                        Option::None => true,
                    })
                    ||| self.search_value is None
                },
            },
    {
        if !self.is_valid_search() {
            return None;
        }
        match (&self.search_key, &self.search_value) {
            (Some(key), Some(value)) => {
                let exact = match self.search_exact {
                    Some(e) => e,
                    None => false,
                };
                Some(DbSearch::new(key.clone(), value.clone(), exact))
            },
            _ => None,
        }
    }
}

/// Pagination arithmetic: the row offset of `page` (pages start at 1) and
/// the total number of pages, zero when the page size is zero.  Both capped
/// at `u32::MAX` instead of overflowing.
pub fn paginate(total_count: u32, page: u32, page_size: u32) -> (r: (u32, u32))
    ensures
        page_size == 0 ==> r.1 == 0,
        page_size > 0 ==> r.1 == (total_count + page_size - 1) / (page_size as int),
        ({
            let off = (if page >= 1 {
                page - 1
            } else {
                0
            }) * page_size;
            r.0 == if off > u32::MAX {
                u32::MAX as int
            } else {
                off
            }
        }),
{
    let total_pages: u32 = if page_size == 0 {
        0
    } else {
        proof {
            assert(((total_count as int) + (page_size as int) - 1) / (page_size as int)
                <= u32::MAX) by (nonlinear_arith)
                requires
                    0 <= total_count <= u32::MAX,
                    1 <= page_size,
            ;
        }
        (((total_count as u64) + (page_size as u64) - 1) / (page_size as u64)) as u32
    };
    let prev: u64 = if page >= 1 {
        (page - 1) as u64
    } else {
        0
    };
    proof {
        assert((prev as int) * (page_size as int) <= (u32::MAX as int) * (u32::MAX as int))
            by (nonlinear_arith)
            requires
                0 <= prev <= u32::MAX,
                0 <= page_size <= u32::MAX,
        ;
    }
    let off_wide: u64 = prev * (page_size as u64);
    let offset: u32 = if off_wide > u32::MAX as u64 {
        u32::MAX
    } else {
        off_wide as u32
    };
    (offset, total_pages)
}

} // verus!
