//! Resolution of a request to the origin that serves it, from its path and
//! the region or edge location that received it.

use vstd::prelude::*;

use crate::classify::{classify, classify_spec, is_unrecognized, lemma_unrecognized_is_images};
use crate::origin::{
    backend_of, catalog_entry, host_of, host_prefix, host_suffix, lookup, region_token, Category,
    Origin, OriginView, Region,
};
use crate::region::{
    host_region_token, is_token_char, region_for_pop, region_from_name, region_named,
    region_of_pop,
};

verus! {

/// The origin that serves `path` in `region`.
pub open spec fn resolve_spec(path: Seq<char>, region: Region) -> OriginView {
    catalog_entry(classify_spec(path), region)
}

/// The origin of a region when no category applies: the images origin.
pub open spec fn default_origin_spec(region: Region) -> OriginView {
    catalog_entry(Category::Images, region)
}

/// The origin that serves `path` in `region`. Never fails: unrecognized
/// paths are served from the images bucket.
pub fn resolve(path: &str, region: Region) -> (r: Origin)
    ensures
        r@ == resolve_spec(path@, region),
        r@.wf(),
        r@.backend_name == "eu_origin"@ <==> region == Region::Eu,
{
    let category = classify(path);
    let r = lookup(category, region);
    proof {
        lemma_backend_follows_region(path@, region);
    }
    r
}

/// The origin that serves `path` at the edge location `pop`.
pub fn resolve_for_pop(path: &str, pop: &str) -> (r: Origin)
    ensures
        r@ == resolve_spec(path@, region_of_pop(pop@)),
        r@.wf(),
{
    let region = region_for_pop(pop);
    resolve(path, region)
}

/// Content-type based routing: the origin that serves `path` in the region
/// named `region` (`eu` for the EU region, anything else for the US region).
pub fn get_origin_for_content_path(path: &str, region: &str) -> (r: Origin)
    ensures
        r@ == resolve_spec(path@, region_named(region@)),
        r@.wf(),
{
    let region = region_from_name(region);
    resolve(path, region)
}

/// The default origin of a region, the one for images.
pub fn default_origin(region: Region) -> (r: Origin)
    ensures
        r@ == default_origin_spec(region),
        r@.wf(),
{
    lookup(Category::Images, region)
}

/// The default origin of the edge location `pop`, for callers that do not
/// route by category.
pub fn origin_for_pop(pop: &str) -> (r: Origin)
    ensures
        r@ == default_origin_spec(region_of_pop(pop@)),
        r@.wf(),
{
    default_origin(region_for_pop(pop))
}

/// Whatever the path, the origin is on the EU backend exactly when the region
/// is EU.
pub proof fn lemma_backend_follows_region(path: Seq<char>, region: Region)
    ensures
        resolve_spec(path, region).backend_name == "eu_origin"@ <==> region == Region::Eu,
{
    reveal_strlit("eu_origin");
    reveal_strlit("us_origin");
    if region == Region::Us {
        assert(backend_of(region)[0] != "eu_origin"@[0]);
    }
}

/// A path with no category prefix is served from the region's default
/// origin, the images origin.
pub proof fn lemma_unrecognized_path_uses_default(path: Seq<char>, region: Region)
    requires
        is_unrecognized(path),
    ensures
        resolve_spec(path, region) == default_origin_spec(region),
        resolve_spec(path, region) == catalog_entry(Category::Images, region),
{
    lemma_unrecognized_is_images(path);
}

/// Resolution depends on its inputs alone: two origins resolved from the same
/// path and region are the same record.
pub proof fn lemma_resolve_idempotent(
    path: Seq<char>,
    region: Region,
    first: OriginView,
    second: OriginView,
)
    requires
        first == resolve_spec(path, region),
        second == resolve_spec(path, region),
    ensures
        first == second,
{
}

/// The storage host of every catalog entry names the data centre of the
/// entry's region.
pub proof fn lemma_catalog_host_names_region(category: Category, region: Region)
    ensures
        host_region_token(catalog_entry(category, region).bucket_host) == Some(region_token(region)),
{
    reveal_strlit("s3.");
    reveal_strlit(".backblazeb2.com");
    reveal_strlit("eu-central-003");
    reveal_strlit("us-west-004");
    let host = host_of(region);
    let lo = host_prefix().len() as int;
    let hi = host.len() - host_suffix().len();
    assert(host.subrange(0, lo) =~= host_prefix());
    assert(host.subrange(hi, host.len() as int) =~= host_suffix());
    assert(host.subrange(lo, hi) =~= region_token(region));
    assert forall|i: int| lo <= i < hi implies is_token_char(#[trigger] host[i]) by {
        assert(host[i] == region_token(region)[i - lo]);
    }
}

} // verus!
