//! Region names, as the storage client understands them.

use crate::error::{UsageError, UsageErrorView};
use rusoto_core::region::ParseRegionError;
use rusoto_core::Region;
use vstd::prelude::*;

verus! {

/// Declares `rusoto_core::Region`. A region is carried through as it is;
/// nothing here looks inside one.
#[verifier::external_type_specification]
#[verifier::external_body]
pub struct ExRegion(Region);

/// Declares `rusoto_core::region::ParseRegionError`, the error of a failed
/// region lookup. Nothing here looks inside one.
#[verifier::external_type_specification]
#[verifier::external_body]
pub struct ExParseRegionError(ParseRegionError);

/// The region that the storage client resolves `name` to, if it knows the
/// name. The table of names lives in the client library.
pub uninterp spec fn region_named(name: Seq<char>) -> Option<Region>;

/// Calls `<rusoto_core::Region as FromStr>::from_str`.
///
/// Trusted: the call looks `name` up in a fixed table, so it depends on
/// `name` alone; it yields the region for a known name and an error for any
/// other.
#[verifier::external_body]
fn region_from_str(name: &str) -> (r: Result<Region, ParseRegionError>)
    ensures
        r is Ok ==> region_named(name@) == Some(r->Ok_0),
        r is Err ==> region_named(name@) is None,
{
    name.parse::<Region>()
}

/// Turns the outcome of a region lookup for `name` into the library's terms.
pub fn region_or_usage_error(name: &str, looked_up: Result<Region, ParseRegionError>) -> (r: Result<
    Region,
    UsageError,
>)
    ensures
        looked_up is Ok ==> r == Ok::<Region, UsageError>(looked_up->Ok_0),
        looked_up is Err ==> r is Err && r->Err_0@ == UsageErrorView::MalformedRegion(name@),
{
    match looked_up {
        Ok(region) => Ok(region),
        Err(_) => Err(UsageError::MalformedRegion(name.to_owned())),
    }
}

/// Resolves a region name. Fails with `MalformedRegion`, carrying the name,
/// exactly when the storage client does not know it.
pub fn parse_region(name: &str) -> (r: Result<Region, UsageError>)
    ensures
        match r {
            Ok(region) => region_named(name@) == Some(region),
            Err(e) => region_named(name@) is None && e@ == UsageErrorView::MalformedRegion(name@),
        },
{
    region_or_usage_error(name, region_from_str(name))
}

} // verus!
