//! The entity key: a discriminated reference to a target entity, either by
//! canonical identifier or by package name, so the two addressing schemes
//! are interchangeable at the API boundary.

use vstd::prelude::*;
use vstd::string::StringExecFns;

verus! {

/// A reference to one entity, by canonical identifier or by package name.
#[derive(Debug)]
pub enum AppQuery {
    AppId(String),
    PkgName(String),
}

/// The referenced name itself, whichever scheme is used.
pub open spec fn query_name(q: AppQuery) -> Seq<char> {
    match q {
        AppQuery::AppId(s) => s@,
        AppQuery::PkgName(s) => s@,
    }
}

impl AppQuery {
    /// A reference by canonical identifier.
    pub fn app_id(id: &str) -> (r: AppQuery)
        ensures
            r matches AppQuery::AppId(s) && s@ == id@,
    {
        AppQuery::AppId(String::from_str(id))
    }

    /// A reference by package name.
    pub fn pkg_name(name: &str) -> (r: AppQuery)
        ensures
            r matches AppQuery::PkgName(s) && s@ == name@,
    {
        AppQuery::PkgName(String::from_str(name))
    }

    /// The referenced name.
    pub fn name(&self) -> (r: &str)
        ensures
            r@ == query_name(*self),
    {
        match self {
            AppQuery::AppId(s) => s.as_str(),
            AppQuery::PkgName(s) => s.as_str(),
        }
    }

    /// The attribute name the remote lookup endpoint expects for this
    /// addressing scheme.
    pub fn app_info_type(&self) -> (r: &str)
        ensures
            self matches AppQuery::AppId(_) ==> r@ == "appId"@,
            self matches AppQuery::PkgName(_) ==> r@ == "pkgName"@,
    {
        match self {
            AppQuery::AppId(_) => "appId",
            AppQuery::PkgName(_) => "pkgName",
        }
    }

    /// The column name the backing store uses for this addressing scheme.
    pub fn app_db_name(&self) -> (r: &str)
        ensures
            self matches AppQuery::AppId(_) ==> r@ == "app_id"@,
            self matches AppQuery::PkgName(_) ==> r@ == "pkg_name"@,
    {
        match self {
            AppQuery::AppId(_) => "app_id",
            AppQuery::PkgName(_) => "pkg_name",
        }
    }
}

} // verus!
