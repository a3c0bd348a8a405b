use base64::Engine;
use sha2::Digest;

use mycelium::helpers::jarapi::{get_builds_url, get_download_url, get_versions_url};
use mycelium::objects::token::derive_token;
use mycelium::text::{join_comma, split_terminator_char, u32_to_string};

#[test]
fn token_matches_precomputed_digest() {
    // base64(SHA-224("supersecret" + "default"))
    assert_eq!(
        derive_token("supersecret", "default"),
        "KDKfDaqjx6ik/QjhDGDxmefmKwMMyIuz7dzW1Q=="
    );
    assert_eq!(
        derive_token("globalsecret", "default"),
        "spJ1zLVaZk81rID2BzUVtbJLOHeA04PLrHvKAg=="
    );
}

#[test]
fn token_matches_direct_computation() {
    let digest = sha2::Sha224::digest("supersecretdefault".as_bytes());
    let expected = base64::engine::general_purpose::STANDARD.encode(digest);
    assert_eq!(derive_token("supersecret", "default"), expected);
}

#[test]
fn token_is_stable_across_runs() {
    assert_eq!(derive_token("supersecret", "default"), derive_token("supersecret", "default"));
}

#[test]
fn token_differs_across_these_namespaces() {
    assert_eq!(
        derive_token("supersecret", "other"),
        "fnT0rbZtE7YT75BrbT3RRsvbfOZdSQyNYeVmJw=="
    );
    assert_ne!(derive_token("supersecret", "default"), derive_token("supersecret", "other"));
}

#[test]
fn download_url_follows_papermc_pattern() {
    assert_eq!(
        get_download_url("paper", "1.19.3", "123"),
        "https://papermc.io/api/v2/projects/paper/versions/1.19.3/builds/123/downloads/paper-1.19.3-123.jar"
    );
    assert_eq!(
        get_download_url("velocity", "3.1.2", "45"),
        "https://papermc.io/api/v2/projects/velocity/versions/3.1.2/builds/45/downloads/velocity-3.1.2-45.jar"
    );
}

#[test]
fn listing_urls_follow_papermc_pattern() {
    assert_eq!(
        get_versions_url("paper"),
        "https://papermc.io/api/v2/projects/paper"
    );
    assert_eq!(
        get_builds_url("paper", "1.19.3"),
        "https://papermc.io/api/v2/projects/paper/versions/1.19.3"
    );
}

#[test]
fn decimal_rendering_is_exact() {
    assert_eq!(u32_to_string(0), "0");
    assert_eq!(u32_to_string(7), "7");
    assert_eq!(u32_to_string(10), "10");
    assert_eq!(u32_to_string(409), "409");
    assert_eq!(u32_to_string(4_294_967_295), "4294967295");
}

#[test]
fn comma_join_matches_std_join() {
    let items = vec!["a".to_string(), "b".to_string(), "c".to_string()];
    assert_eq!(join_comma(&items), items.join(","));
    assert_eq!(join_comma(&vec![]), "");
    assert_eq!(join_comma(&vec!["only".to_string()]), "only");
    assert_eq!(join_comma(&vec!["".to_string(), "".to_string()]), ",");
}

#[test]
fn join_then_split_recovers_the_fields() {
    let items = vec![
        "https://example.test/a.jar".to_string(),
        "https://example.test/b.jar".to_string(),
        "c".to_string(),
    ];
    assert_eq!(split_terminator_char(&join_comma(&items), ','), items);
    let one = vec!["solo".to_string()];
    assert_eq!(split_terminator_char(&join_comma(&one), ','), one);
    let none: Vec<String> = vec![];
    assert_eq!(split_terminator_char(&join_comma(&none), ','), none);
}

#[test]
fn split_terminator_matches_std_behaviour() {
    for input in ["", ",", "a", "a,b", "a,b,", "a,,b", ",a", "x,,"] {
        let expected: Vec<String> =
            input.split_terminator(',').map(|s| s.to_string()).collect();
        assert_eq!(split_terminator_char(input, ','), expected, "input {:?}", input);
    }
    let expected: Vec<String> =
        "-Xmx2G -Xms1G".split_terminator(' ').map(|s| s.to_string()).collect();
    assert_eq!(split_terminator_char("-Xmx2G -Xms1G", ' '), expected);
}
