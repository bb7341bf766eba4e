//! Classification of request paths into content categories.

use vstd::prelude::*;

use crate::origin::Category;
use crate::text::{has_prefix, starts_with};

verus! {

/// The path without one leading `/`, if it has one.
pub open spec fn relative_path(path: Seq<char>) -> Seq<char> {
    if path.len() > 0 && path[0] == '/' {
        path.subrange(1, path.len() as int)
    } else {
        path
    }
}

/// The category of a relative path, by the first prefix that matches, in the
/// order listed; a path that matches none of them holds images.
pub open spec fn category_of(rel: Seq<char>) -> Category {
    if has_prefix(rel, "games/"@) {
        Category::Games
    } else if has_prefix(rel, "art/"@) {
        Category::Art
    } else if has_prefix(rel, "music/"@) || has_prefix(rel, "audio/"@) {
        Category::Music
    } else if has_prefix(rel, "videos/"@) || has_prefix(rel, "video/"@) {
        Category::Video
    } else if has_prefix(rel, "comics/"@) {
        Category::Comics
    } else if has_prefix(rel, "images-public/"@) {
        Category::PublicImages
    } else {
        Category::Images
    }
}

/// The category of a request path; a leading `/` is ignored.
pub open spec fn classify_spec(path: Seq<char>) -> Category {
    category_of(relative_path(path))
}

/// A path with none of the category prefixes.
pub open spec fn is_unrecognized(path: Seq<char>) -> bool {
    let rel = relative_path(path);
    &&& !has_prefix(rel, "games/"@)
    &&& !has_prefix(rel, "art/"@)
    &&& !has_prefix(rel, "music/"@)
    &&& !has_prefix(rel, "audio/"@)
    &&& !has_prefix(rel, "videos/"@)
    &&& !has_prefix(rel, "video/"@)
    &&& !has_prefix(rel, "comics/"@)
    &&& !has_prefix(rel, "images-public/"@)
}

/// Classifies a request path by its prefix. Matching is case-sensitive and
/// never fails: unrecognized paths are images.
pub fn classify(path: &str) -> (r: Category)
    ensures
        r == classify_spec(path@),
{
    let n = path.unicode_len();
    let rel = if n > 0 && path.get_char(0) == '/' {
        path.substring_char(1, n)
    } else {
        path
    };
    if starts_with(rel, "games/") {
        Category::Games
    } else if starts_with(rel, "art/") {
        Category::Art
    } else if starts_with(rel, "music/") || starts_with(rel, "audio/") {
        Category::Music
    } else if starts_with(rel, "videos/") || starts_with(rel, "video/") {
        Category::Video
    } else if starts_with(rel, "comics/") {
        Category::Comics
    } else if starts_with(rel, "images-public/") {
        Category::PublicImages
    } else {
        Category::Images
    }
}

/// A path that carries none of the category prefixes is classified as images.
pub proof fn lemma_unrecognized_is_images(path: Seq<char>)
    requires
        is_unrecognized(path),
    ensures
        classify_spec(path) == Category::Images,
{
}

} // verus!
