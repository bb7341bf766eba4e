//! Regions, content categories, origin records and the catalog that maps each
//! (category, region) pair to the origin serving it.

use vstd::prelude::*;

verus! {

/// Where an edge location sends its storage traffic.
#[derive(Clone, Copy, Debug, PartialEq, Eq, Structural)]
pub enum Region {
    Eu,
    Us,
}

/// The kind of content a request path asks for.
#[derive(Clone, Copy, Debug, PartialEq, Eq, Structural)]
pub enum Category {
    Images,
    Games,
    Music,
    Video,
    Comics,
    Art,
    PublicImages,
}

/// The storage backend that serves a request.
#[derive(Clone, Copy, Debug, PartialEq, Eq)]
pub struct Origin {
    /// Name of one of the two pre-provisioned network backends.
    pub backend_name: &'static str,
    /// The bucket the content is served from.
    pub bucket_name: &'static str,
    /// The host the bucket is served on.
    pub bucket_host: &'static str,
}

/// An origin record as text.
pub struct OriginView {
    pub backend_name: Seq<char>,
    pub bucket_name: Seq<char>,
    pub bucket_host: Seq<char>,
}

impl View for Origin {
    type V = OriginView;

    open spec fn view(&self) -> OriginView {
        OriginView {
            backend_name: self.backend_name@,
            bucket_name: self.bucket_name@,
            bucket_host: self.bucket_host@,
        }
    }
}

impl OriginView {
    /// All fields are non-empty and the backend is one of the two that exist.
    pub open spec fn wf(self) -> bool {
        &&& self.backend_name.len() > 0
        &&& self.bucket_name.len() > 0
        &&& self.bucket_host.len() > 0
        &&& (self.backend_name == "eu_origin"@ || self.backend_name == "us_origin"@)
    }
}

/// The network backend that serves a region.
pub open spec fn backend_of(region: Region) -> Seq<char> {
    match region {
        Region::Eu => "eu_origin"@,
        Region::Us => "us_origin"@,
    }
}

/// The storage provider's name for the data centre of a region.
pub open spec fn region_token(region: Region) -> Seq<char> {
    match region {
        Region::Eu => "eu-central-003"@,
        Region::Us => "us-west-004"@,
    }
}

/// Host names of the storage provider read `s3.<region token>.backblazeb2.com`.
pub open spec fn host_prefix() -> Seq<char> {
    "s3."@
}

/// What follows the region token in a storage host name.
pub open spec fn host_suffix() -> Seq<char> {
    ".backblazeb2.com"@
}

/// The storage host of a region.
pub open spec fn host_of(region: Region) -> Seq<char> {
    host_prefix() + region_token(region) + host_suffix()
}

/// The bucket of a category in the EU region.
pub open spec fn bucket_base(category: Category) -> Seq<char> {
    match category {
        Category::Images => "images-shobl-cache"@,
        Category::Games => "games-shobl"@,
        Category::Music => "music-shobl"@,
        Category::Video => "videos-shobl"@,
        Category::Comics => "comics-shobl"@,
        Category::Art => "art-shobl"@,
        Category::PublicImages => "images-public-seo"@,
    }
}

/// US buckets carry the suffix `-us` after the EU bucket's name.
pub open spec fn bucket_suffix(region: Region) -> Seq<char> {
    match region {
        Region::Eu => Seq::empty(),
        Region::Us => "-us"@,
    }
}

/// The catalog entry of a (category, region) pair.
pub open spec fn catalog_entry(category: Category, region: Region) -> OriginView {
    OriginView {
        backend_name: backend_of(region),
        bucket_name: bucket_base(category) + bucket_suffix(region),
        bucket_host: host_of(region),
    }
}

/// The backend name of a region.
fn backend_name(region: Region) -> (r: &'static str)
    ensures
        r@ == backend_of(region),
{
    match region {
        Region::Eu => "eu_origin",
        Region::Us => "us_origin",
    }
}

/// The storage host of a region.
fn bucket_host(region: Region) -> (r: &'static str)
    ensures
        r@ == host_of(region),
{
    proof {
        reveal_strlit("s3.");
        reveal_strlit(".backblazeb2.com");
    }
    match region {
        Region::Eu => {
            proof {
                reveal_strlit("eu-central-003");
                reveal_strlit("s3.eu-central-003.backblazeb2.com");
            }
            assert("s3.eu-central-003.backblazeb2.com"@ =~= host_of(region));
            "s3.eu-central-003.backblazeb2.com"
        },
        Region::Us => {
            proof {
                reveal_strlit("us-west-004");
                reveal_strlit("s3.us-west-004.backblazeb2.com");
            }
            assert("s3.us-west-004.backblazeb2.com"@ =~= host_of(region));
            "s3.us-west-004.backblazeb2.com"
        },
    }
}

/// The bucket of a (category, region) pair.
fn bucket_name(category: Category, region: Region) -> (r: &'static str)
    ensures
        r@ == bucket_base(category) + bucket_suffix(region),
{
    proof {
        reveal_strlit("-us");
    }
    match (category, region) {
        (Category::Images, Region::Eu) => {
            assert("images-shobl-cache"@ =~= "images-shobl-cache"@ + Seq::<char>::empty());
            "images-shobl-cache"
        },
        (Category::Images, Region::Us) => {
            proof {
                reveal_strlit("images-shobl-cache");
                reveal_strlit("images-shobl-cache-us");
            }
            assert("images-shobl-cache-us"@ =~= "images-shobl-cache"@ + "-us"@);
            "images-shobl-cache-us"
        },
        (Category::Games, Region::Eu) => {
            assert("games-shobl"@ =~= "games-shobl"@ + Seq::<char>::empty());
            "games-shobl"
        },
        (Category::Games, Region::Us) => {
            proof {
                reveal_strlit("games-shobl");
                reveal_strlit("games-shobl-us");
            }
            assert("games-shobl-us"@ =~= "games-shobl"@ + "-us"@);
            "games-shobl-us"
        },
        (Category::Music, Region::Eu) => {
            assert("music-shobl"@ =~= "music-shobl"@ + Seq::<char>::empty());
            "music-shobl"
        },
        (Category::Music, Region::Us) => {
            proof {
                reveal_strlit("music-shobl");
                reveal_strlit("music-shobl-us");
            }
            assert("music-shobl-us"@ =~= "music-shobl"@ + "-us"@);
            "music-shobl-us"
        },
        (Category::Video, Region::Eu) => {
            assert("videos-shobl"@ =~= "videos-shobl"@ + Seq::<char>::empty());
            "videos-shobl"
        },
        (Category::Video, Region::Us) => {
            proof {
                reveal_strlit("videos-shobl");
                reveal_strlit("videos-shobl-us");
            }
            assert("videos-shobl-us"@ =~= "videos-shobl"@ + "-us"@);
            "videos-shobl-us"
        },
        (Category::Comics, Region::Eu) => {
            assert("comics-shobl"@ =~= "comics-shobl"@ + Seq::<char>::empty());
            "comics-shobl"
        },
        (Category::Comics, Region::Us) => {
            proof {
                reveal_strlit("comics-shobl");
                reveal_strlit("comics-shobl-us");
            }
            assert("comics-shobl-us"@ =~= "comics-shobl"@ + "-us"@);
            "comics-shobl-us"
        },
        (Category::Art, Region::Eu) => {
            assert("art-shobl"@ =~= "art-shobl"@ + Seq::<char>::empty());
            "art-shobl"
        },
        (Category::Art, Region::Us) => {
            proof {
                reveal_strlit("art-shobl");
                reveal_strlit("art-shobl-us");
            }
            assert("art-shobl-us"@ =~= "art-shobl"@ + "-us"@);
            "art-shobl-us"
        },
        (Category::PublicImages, Region::Eu) => {
            assert("images-public-seo"@ =~= "images-public-seo"@ + Seq::<char>::empty());
            "images-public-seo"
        },
        (Category::PublicImages, Region::Us) => {
            proof {
                reveal_strlit("images-public-seo");
                reveal_strlit("images-public-seo-us");
            }
            assert("images-public-seo-us"@ =~= "images-public-seo"@ + "-us"@);
            "images-public-seo-us"
        },
    }
}

/// The catalog: the origin that serves `category` in `region`. Every pair has
/// an entry, and the record is well formed.
pub fn lookup(category: Category, region: Region) -> (r: Origin)
    ensures
        r@ == catalog_entry(category, region),
        r@.wf(),
{
    let r = Origin {
        backend_name: backend_name(region),
        bucket_name: bucket_name(category, region),
        bucket_host: bucket_host(region),
    };
    proof {
        lemma_catalog_entry_wf(category, region);
    }
    r
}

/// Every entry of the catalog is a well-formed origin: all fields non-empty
/// and the backend one of the two that exist.
pub proof fn lemma_catalog_entry_wf(category: Category, region: Region)
    ensures
        catalog_entry(category, region).wf(),
{
    reveal_strlit("eu_origin");
    reveal_strlit("us_origin");
    reveal_strlit("s3.");
    reveal_strlit("images-shobl-cache");
    reveal_strlit("games-shobl");
    reveal_strlit("music-shobl");
    reveal_strlit("videos-shobl");
    reveal_strlit("comics-shobl");
    reveal_strlit("art-shobl");
    reveal_strlit("images-public-seo");
}

} // verus!
