//! Regions of edge locations and of storage hosts.

use vstd::prelude::*;

use crate::origin::{host_prefix, host_suffix, Region};
use crate::text::{has_prefix, same_text, starts_with};

verus! {

/// The edge location that a local test server stands for.
pub const DEFAULT_POP: &'static str = "SJC";

/// The region of every edge location that is not listed as European. Most
/// listed locations are served from the US region, so unknown codes go there
/// too; this is a choice of this library, not a property of the codes.
pub const DEFAULT_REGION: Region = Region::Us;

/// Edge locations in Europe and Africa, which are served from the EU region.
pub open spec fn is_eu_pop(pop: Seq<char>) -> bool {
    ||| pop == "AMS"@
    ||| pop == "CPT"@
    ||| pop == "CPH"@
    ||| pop == "DUB"@
    ||| pop == "FRA"@
    ||| pop == "HHN"@
    ||| pop == "ACC"@
    ||| pop == "HEL"@
    ||| pop == "JNB"@
    ||| pop == "LCY"@
    ||| pop == "LHR"@
    ||| pop == "LON"@
    ||| pop == "MAD"@
    ||| pop == "MAN"@
    ||| pop == "MRS"@
    ||| pop == "MXP"@
    ||| pop == "LIN"@
    ||| pop == "MUC"@
    ||| pop == "OSL"@
    ||| pop == "CDG"@
    ||| pop == "FCO"@
    ||| pop == "SOF"@
    ||| pop == "BMA"@
    ||| pop == "VIE"@
}

/// The region that serves an edge location. North and South America and
/// Asia-Pacific, and any code not known here, are served from the default
/// region.
pub open spec fn region_of_pop(pop: Seq<char>) -> Region {
    if is_eu_pop(pop) {
        Region::Eu
    } else {
        DEFAULT_REGION
    }
}

/// The region that serves the edge location `pop` (a code such as `AMS`).
pub fn region_for_pop(pop: &str) -> (r: Region)
    ensures
        r == region_of_pop(pop@),
{
    if same_text(pop, "AMS") ||
        same_text(pop, "CPT") ||
        same_text(pop, "CPH") ||
        same_text(pop, "DUB") ||
        same_text(pop, "FRA") ||
        same_text(pop, "HHN") ||
        same_text(pop, "ACC") ||
        same_text(pop, "HEL") ||
        same_text(pop, "JNB") ||
        same_text(pop, "LCY") ||
        same_text(pop, "LHR") ||
        same_text(pop, "LON") ||
        same_text(pop, "MAD") ||
        same_text(pop, "MAN") ||
        same_text(pop, "MRS") ||
        same_text(pop, "MXP") ||
        same_text(pop, "LIN") ||
        same_text(pop, "MUC") ||
        same_text(pop, "OSL") ||
        same_text(pop, "CDG") ||
        same_text(pop, "FCO") ||
        same_text(pop, "SOF") ||
        same_text(pop, "BMA") ||
        same_text(pop, "VIE")
    {
        Region::Eu
    } else {
        DEFAULT_REGION
    }
}

/// The region a caller names: `eu` names the EU region, anything else the US
/// region.
pub open spec fn region_named(name: Seq<char>) -> Region {
    if name == "eu"@ {
        Region::Eu
    } else {
        Region::Us
    }
}

/// Reads a region name: `eu` is the EU region, anything else the US region.
pub fn region_from_name(name: &str) -> (r: Region)
    ensures
        r == region_named(name@),
{
    if same_text(name, "eu") {
        Region::Eu
    } else {
        Region::Us
    }
}

/// A character that may stand in a region token: an ASCII letter or digit, or
/// `-`.
pub open spec fn is_token_char(c: char) -> bool {
    ||| ('a' <= c && c <= 'z')
    ||| ('A' <= c && c <= 'Z')
    ||| ('0' <= c && c <= '9')
    ||| c == '-'
}

/// The region token of a storage host `s3.<token>.backblazeb2.com`, where the
/// token is non-empty and made of token characters; `None` for any other
/// host.
pub open spec fn host_region_token(host: Seq<char>) -> Option<Seq<char>> {
    let lo = host_prefix().len() as int;
    let hi = host.len() - host_suffix().len();
    if lo < hi && has_prefix(host, host_prefix()) && host.subrange(hi, host.len() as int)
        == host_suffix() && (forall|i: int| lo <= i < hi ==> is_token_char(#[trigger] host[i])) {
        Some(host.subrange(lo, hi))
    } else {
        None
    }
}

fn is_token_char_exec(c: char) -> (r: bool)
    ensures
        r == is_token_char(c),
{
    ('a' <= c && c <= 'z') || ('A' <= c && c <= 'Z') || ('0' <= c && c <= '9') || c == '-'
}

/// Extracts the region token from a storage host name, such as
/// `eu-central-003` from `s3.eu-central-003.backblazeb2.com`.
pub fn region_from_bucket_host(host: &str) -> (r: Option<String>)
    ensures
        r.deep_view() == host_region_token(host@),
{
    let prefix = "s3.";
    let suffix = ".backblazeb2.com";
    proof {
        reveal_strlit("s3.");
        reveal_strlit(".backblazeb2.com");
    }
    let n = host.unicode_len();
    let lo = prefix.unicode_len();
    let ls = suffix.unicode_len();
    if n <= lo + ls {
        return None;
    }
    let hi = n - ls;
    if !starts_with(host, prefix) {
        return None;
    }
    let tail = host.substring_char(hi, n);
    if !same_text(tail, suffix) {
        return None;
    }
    let mut i: usize = lo;
    while i < hi
        invariant
            n == host@.len(),
            lo <= i <= hi <= n,
            lo == host_prefix().len(),
            hi == host@.len() - host_suffix().len(),
            forall|j: int| lo <= j < i ==> is_token_char(#[trigger] host@[j]),
        decreases hi - i,
    {
        if !is_token_char_exec(host.get_char(i)) {
            assert(!is_token_char(host@[i as int]));
            return None;
        }
        i = i + 1;
    }
    let token = host.substring_char(lo, hi);
    Some(token.to_owned())
}

} // verus!
