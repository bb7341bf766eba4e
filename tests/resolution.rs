use origin_resolver::{
    classify, default_origin, get_origin_for_content_path, lookup, origin_for_pop,
    region_for_pop, region_from_bucket_host, region_from_name, resolve, resolve_for_pop,
    same_text, starts_with, Category, Origin, Region, DEFAULT_POP, DEFAULT_REGION,
};

const CATEGORIES: [Category; 7] = [
    Category::Images,
    Category::Games,
    Category::Music,
    Category::Video,
    Category::Comics,
    Category::Art,
    Category::PublicImages,
];

const REGIONS: [Region; 2] = [Region::Eu, Region::Us];

fn assert_origin(o: Origin, backend: &str, bucket: &str, host: &str) {
    assert_eq!(o.backend_name, backend);
    assert_eq!(o.bucket_name, bucket);
    assert_eq!(o.bucket_host, host);
}

#[test]
fn classify_is_case_sensitive() {
    assert_eq!(classify("games/foo.png"), Category::Games);
    assert_eq!(classify("GAMES/foo.png"), Category::Images);
}

#[test]
fn classify_public_images_and_fallback() {
    assert_eq!(classify("images-public/x"), Category::PublicImages);
    assert_eq!(classify("random/x"), Category::Images);
}

#[test]
fn classify_every_prefix() {
    assert_eq!(classify("art/a.png"), Category::Art);
    assert_eq!(classify("music/a.mp3"), Category::Music);
    assert_eq!(classify("audio/a.mp3"), Category::Music);
    assert_eq!(classify("videos/a.mp4"), Category::Video);
    assert_eq!(classify("video/a.mp4"), Category::Video);
    assert_eq!(classify("comics/a.png"), Category::Comics);
    assert_eq!(classify("images/a.png"), Category::Images);
}

#[test]
fn classify_needs_the_slash_of_the_prefix() {
    assert_eq!(classify("gamesX/foo"), Category::Images);
    assert_eq!(classify("games"), Category::Images);
    assert_eq!(classify("images-public"), Category::Images);
    assert_eq!(classify(""), Category::Images);
    assert_eq!(classify("/"), Category::Images);
}

#[test]
fn classify_ignores_one_leading_slash() {
    assert_eq!(classify("/games/foo.png"), Category::Games);
    assert_eq!(classify("/comics/x"), Category::Comics);
    assert_eq!(classify("//games/foo.png"), Category::Images);
}

#[test]
fn classify_non_ascii_paths() {
    assert_eq!(classify("art/é.png"), Category::Art);
    assert_eq!(classify("été/x"), Category::Images);
}

#[test]
fn unrecognized_category_uses_images_origin() {
    for region in REGIONS {
        assert_eq!(resolve("random/x", region), lookup(Category::Images, region));
        assert_eq!(resolve("random/x", region), default_origin(region));
    }
    assert_eq!(lookup(Category::Images, Region::Us), resolve("", Region::Us));
}

#[test]
fn region_for_known_and_unknown_pops() {
    assert_eq!(region_for_pop("SJC"), Region::Us);
    assert_eq!(region_for_pop("AMS"), Region::Eu);
    assert_eq!(region_for_pop("ZZZ"), DEFAULT_REGION);
    assert_eq!(DEFAULT_REGION, Region::Us);
    assert_eq!(region_for_pop(DEFAULT_POP), Region::Us);
    assert_eq!(region_for_pop("ams"), Region::Us);
    assert_eq!(region_for_pop(""), Region::Us);
    assert_eq!(region_for_pop("AMSX"), Region::Us);
}

#[test]
fn region_for_european_and_african_pops() {
    for pop in ["CPT", "CPH", "DUB", "FRA", "LHR", "JNB", "VIE", "MXP", "BMA", "ACC"] {
        assert_eq!(region_for_pop(pop), Region::Eu, "{}", pop);
    }
    for pop in ["DXB", "HKG", "GRU", "SYD", "NRT", "YYZ", "IAD"] {
        assert_eq!(region_for_pop(pop), Region::Us, "{}", pop);
    }
}

#[test]
fn region_names() {
    assert_eq!(region_from_name("eu"), Region::Eu);
    assert_eq!(region_from_name("us"), Region::Us);
    assert_eq!(region_from_name("EU"), Region::Us);
    assert_eq!(region_from_name(""), Region::Us);
}

#[test]
fn host_region_token() {
    assert_eq!(
        region_from_bucket_host("s3.eu-central-003.backblazeb2.com"),
        Some("eu-central-003".to_string())
    );
    assert_eq!(
        region_from_bucket_host("s3.us-west-004.backblazeb2.com"),
        Some("us-west-004".to_string())
    );
    assert_eq!(region_from_bucket_host("s3.amazonaws.com"), None);
    assert_eq!(region_from_bucket_host("s3..backblazeb2.com"), None);
    assert_eq!(region_from_bucket_host("s3.eu.central.backblazeb2.com"), None);
    assert_eq!(region_from_bucket_host("s4.eu-central-003.backblazeb2.com"), None);
    assert_eq!(region_from_bucket_host("s3.eu-central-003.backblazeb2.comx"), None);
    assert_eq!(region_from_bucket_host("s3.été.backblazeb2.com"), None);
    assert_eq!(region_from_bucket_host(""), None);
}

#[test]
fn host_region_token_agrees_with_pattern() {
    let re = regex::Regex::new(r"^s3\.([[:alnum:]\-]+)\.backblazeb2\.com$").unwrap();
    let hosts = [
        "s3.eu-central-003.backblazeb2.com",
        "s3.us-west-004.backblazeb2.com",
        "s3.A-9.backblazeb2.com",
        "s3.x.backblazeb2.com",
        "s3..backblazeb2.com",
        "s3.backblazeb2.com",
        "s3.a_b.backblazeb2.com",
        "s3.a.b.backblazeb2.com",
        "S3.eu.backblazeb2.com",
        "s3.eu.backblazeb2.comm",
        "xs3.eu.backblazeb2.com",
        "s3.ü.backblazeb2.com",
        "",
    ];
    for host in hosts {
        let expected = re.captures(host).map(|c| c[1].to_string());
        assert_eq!(region_from_bucket_host(host), expected, "{}", host);
    }
}

#[test]
fn catalog_is_complete_and_well_formed() {
    for category in CATEGORIES {
        for region in REGIONS {
            let o = lookup(category, region);
            assert!(!o.backend_name.is_empty());
            assert!(!o.bucket_name.is_empty());
            assert!(!o.bucket_host.is_empty());
            assert!(o.backend_name == "eu_origin" || o.backend_name == "us_origin");
            let token = region_from_bucket_host(o.bucket_host);
            let expected = if region == Region::Eu { "eu-central-003" } else { "us-west-004" };
            assert_eq!(token, Some(expected.to_string()));
        }
    }
}

#[test]
fn catalog_entries() {
    let eu = "s3.eu-central-003.backblazeb2.com";
    let us = "s3.us-west-004.backblazeb2.com";
    assert_origin(lookup(Category::Images, Region::Eu), "eu_origin", "images-shobl-cache", eu);
    assert_origin(lookup(Category::Images, Region::Us), "us_origin", "images-shobl-cache-us", us);
    assert_origin(lookup(Category::Games, Region::Eu), "eu_origin", "games-shobl", eu);
    assert_origin(lookup(Category::Games, Region::Us), "us_origin", "games-shobl-us", us);
    assert_origin(lookup(Category::Music, Region::Eu), "eu_origin", "music-shobl", eu);
    assert_origin(lookup(Category::Music, Region::Us), "us_origin", "music-shobl-us", us);
    assert_origin(lookup(Category::Video, Region::Eu), "eu_origin", "videos-shobl", eu);
    assert_origin(lookup(Category::Video, Region::Us), "us_origin", "videos-shobl-us", us);
    assert_origin(lookup(Category::Comics, Region::Eu), "eu_origin", "comics-shobl", eu);
    assert_origin(lookup(Category::Comics, Region::Us), "us_origin", "comics-shobl-us", us);
    assert_origin(lookup(Category::Art, Region::Eu), "eu_origin", "art-shobl", eu);
    assert_origin(lookup(Category::Art, Region::Us), "us_origin", "art-shobl-us", us);
    assert_origin(lookup(Category::PublicImages, Region::Eu), "eu_origin", "images-public-seo", eu);
    assert_origin(
        lookup(Category::PublicImages, Region::Us),
        "us_origin",
        "images-public-seo-us",
        us,
    );
}

#[test]
fn backend_follows_region() {
    for path in ["games/a", "art/b", "random", "", "/music/c", "images-public/d"] {
        assert_eq!(resolve(path, Region::Eu).backend_name, "eu_origin");
        assert_eq!(resolve(path, Region::Us).backend_name, "us_origin");
    }
}

#[test]
fn resolve_twice_gives_the_same_origin() {
    for path in ["games/a", "random", "video/x"] {
        for region in REGIONS {
            assert_eq!(resolve(path, region), resolve(path, region));
        }
    }
    assert_eq!(resolve_for_pop("art/x", "AMS"), resolve_for_pop("art/x", "AMS"));
}

#[test]
fn resolve_by_pop() {
    assert_origin(
        resolve_for_pop("games/x", "AMS"),
        "eu_origin",
        "games-shobl",
        "s3.eu-central-003.backblazeb2.com",
    );
    assert_origin(
        resolve_for_pop("music/x", "SJC"),
        "us_origin",
        "music-shobl-us",
        "s3.us-west-004.backblazeb2.com",
    );
    assert_eq!(resolve_for_pop("comics/x", "ZZZ"), lookup(Category::Comics, Region::Us));
}

#[test]
fn legacy_pop_origin_is_images_origin() {
    for pop in ["AMS", "SJC", "ZZZ", "FRA", "SYD"] {
        assert_eq!(origin_for_pop(pop), lookup(Category::Images, region_for_pop(pop)));
    }
    assert_eq!(origin_for_pop("LHR").bucket_name, "images-shobl-cache");
    assert_eq!(origin_for_pop("IAD").bucket_name, "images-shobl-cache-us");
}

#[test]
fn content_path_with_region_name() {
    assert_origin(
        get_origin_for_content_path("games/x.zip", "eu"),
        "eu_origin",
        "games-shobl",
        "s3.eu-central-003.backblazeb2.com",
    );
    assert_origin(
        get_origin_for_content_path("videos/x.mp4", "us"),
        "us_origin",
        "videos-shobl-us",
        "s3.us-west-004.backblazeb2.com",
    );
    assert_eq!(
        get_origin_for_content_path("audio/x", "anything"),
        lookup(Category::Music, Region::Us)
    );
    assert_eq!(
        get_origin_for_content_path("images-public/x", "eu"),
        lookup(Category::PublicImages, Region::Eu)
    );
}

#[test]
fn text_helpers() {
    assert!(starts_with("games/x", "games/"));
    assert!(!starts_with("game", "games/"));
    assert!(starts_with("abc", ""));
    assert!(same_text("AMS", "AMS"));
    assert!(!same_text("AMS", "AMSX"));
    assert!(!same_text("AMS", "AMT"));
}
