//! Picks the storage origin that serves a content request at a CDN edge node,
//! from the category of the requested path and the region of the edge location.

pub mod classify;
pub mod origin;
pub mod region;
pub mod resolver;
pub mod text;

pub use classify::{classify, lemma_unrecognized_is_images};
pub use origin::{lemma_catalog_entry_wf, lookup, Category, Origin, Region};
pub use region::{
    region_for_pop, region_from_bucket_host, region_from_name, DEFAULT_POP, DEFAULT_REGION,
};
pub use resolver::{
    default_origin, get_origin_for_content_path, lemma_backend_follows_region,
    lemma_catalog_host_names_region, lemma_resolve_idempotent, lemma_unrecognized_path_uses_default,
    origin_for_pop, resolve, resolve_for_pop,
};
pub use text::{same_text, starts_with};
