//! Tests of the crawl-side helpers: URL filtering, logs, manifest lookup,
//! snapshot paths and the text primitives.
use map_search::client::Link;
use map_search::decode_photo::parse_u32;
use map_search::ingest::is_valid_url;
use map_search::json::{JsonNumber, JsonValue};
use map_search::manifest::{ManifestContext, ManifestSpec, ProjectSpec};
use map_search::parse::parse_json;
use map_search::path_utils;
use map_search::settings::{FailedFilterReason, UrlVisitorSettings};
use map_search::snappath;
use map_search::weblog::{
    OriginalUrlString, RelativeFilePath, SnapshotDate, SnapshotDirectory, SnapshotManifest,
    Status, TaskLog, Timestamp, VisitedPage,
};
use map_search::weburl::{parse_url, UrlInfo};

fn url_info(full: &str, scheme: &str, domain: Option<&str>) -> UrlInfo {
    UrlInfo {
        full: full.to_string(),
        scheme: scheme.to_string(),
        domain: domain.map(|d| d.to_string()),
        host: domain.map(|d| d.to_string()),
        path: "/".to_string(),
        query: None,
    }
}

#[test]
fn parse_json_models_the_document() {
    let v = parse_json("[null, 5, \"a\"]").unwrap();
    match v {
        JsonValue::Arr(items) => {
            assert_eq!(items[0], JsonValue::Null);
            assert_eq!(items[1], JsonValue::Num(JsonNumber::Int(5)));
            assert_eq!(items[2], JsonValue::Text("a".to_string()));
        }
        other => panic!("expected an array, got {other:?}"),
    }
    assert!(parse_json("]oops").is_none());
}

#[test]
fn parse_url_extracts_the_parts() {
    let u = parse_url("https://Example.com/a/b?x=1").unwrap();
    assert_eq!(u.scheme, "https");
    assert_eq!(u.domain.as_deref(), Some("example.com"));
    assert_eq!(u.path, "/a/b");
    assert_eq!(u.query.as_deref(), Some("x=1"));
    assert!(parse_url("not a url").is_none());
}

#[test]
fn endpoint_url_check_is_a_prefix_test() {
    assert!(is_valid_url("https://www.google.com/search?tbm=map&q=roofers"));
    assert!(!is_valid_url("https://www.google.com/search?q=roofers"));
}

#[test]
fn parse_u32_matches_decimal_parsing() {
    assert_eq!(parse_u32("469"), Some(469));
    assert_eq!(parse_u32("+12"), Some(12));
    assert_eq!(parse_u32("0"), Some(0));
    assert_eq!(parse_u32("4294967295"), Some(u32::MAX));
    assert_eq!(parse_u32("4294967296"), None);
    assert_eq!(parse_u32(""), None);
    assert_eq!(parse_u32("+"), None);
    assert_eq!(parse_u32("12a"), None);
    assert_eq!(parse_u32("-3"), None);
}

#[test]
fn defaults_whitelist_web_schemes_and_blacklist_tel() {
    let s = UrlVisitorSettings::standard_defaults();
    assert_eq!(s.protocol_whitelist, vec!["http".to_string(), "https".to_string()]);
    assert_eq!(s.protocol_blacklist, vec!["tel".to_string()]);
    assert!(s.domain_whitelist.is_empty());
}

#[test]
fn domain_whitelist_is_lowercased_and_checked() {
    let s = UrlVisitorSettings::from_domain_whitelist_with_defaults(vec![
        "Example.COM".to_string(),
    ]);
    assert_eq!(s.domain_whitelist, vec!["example.com".to_string()]);
    let ok = url_info("https://example.com/", "https", Some("Example.com"));
    assert_eq!(s.should_visit(&ok), Ok(()));
    let other = url_info("https://other.com/", "https", Some("other.com"));
    assert_eq!(
        s.should_visit(&other),
        Err(FailedFilterReason::FailedWhitelistedDomainCheck)
    );
    let tel = url_info("tel:+1801", "tel", Some("example.com"));
    assert_eq!(s.should_visit(&tel), Err(FailedFilterReason::IsBlacklistedScheme));
}

#[test]
fn empty_protocol_whitelist_fails_the_scheme_check() {
    let s = UrlVisitorSettings {
        domain_whitelist: vec!["example.com".to_string()],
        protocol_whitelist: Vec::new(),
        protocol_blacklist: Vec::new(),
    };
    let u = url_info("https://example.com/", "https", Some("example.com"));
    assert_eq!(
        s.should_visit(&u),
        Err(FailedFilterReason::FailedWhitelistedSchemeCheck)
    );
}

#[test]
fn merge_and_builders_deduplicate() {
    let s = UrlVisitorSettings::standard_defaults()
        .with_whitelisted_protocol("https".to_string())
        .with_whitelisted_protocol("ftp".to_string())
        .with_blacklisted_protocol("mailto".to_string());
    assert_eq!(
        s.protocol_whitelist,
        vec!["http".to_string(), "https".to_string(), "ftp".to_string()]
    );
    assert_eq!(s.protocol_blacklist, vec!["tel".to_string(), "mailto".to_string()]);
    let mut a = UrlVisitorSettings::from_domain_whitelist_with_defaults(vec![
        "a.com".to_string(),
    ]);
    let b = UrlVisitorSettings::from_domain_whitelist_with_defaults(vec![
        "a.com".to_string(),
        "b.com".to_string(),
    ]);
    a.merge_mut(b);
    assert_eq!(a.domain_whitelist, vec!["a.com".to_string(), "b.com".to_string()]);
}

#[test]
fn subdomains_of_whitelisted_domains_are_recognized() {
    let s = UrlVisitorSettings::from_domain_whitelist_with_defaults(vec![
        "example.com".to_string(),
    ]);
    let sub = url_info("https://shop.example.com/", "https", Some("shop.Example.com"));
    assert!(s.is_subdomain_of_whitelisted(&sub));
    let not = url_info("https://notexample.com/", "https", Some("notexample.com"));
    assert!(!s.is_subdomain_of_whitelisted(&not));
}

#[test]
fn manifest_lookup_finds_the_first_match() {
    let ctx = ManifestContext::new(
        ManifestSpec {
            projects: vec![
                ProjectSpec { id: "alpha".to_string(), seed_urls: vec!["https://a.com/".to_string()] },
                ProjectSpec { id: "beta".to_string(), seed_urls: Vec::new() },
            ],
        },
        "web-automation.toml".to_string(),
    );
    assert_eq!(ctx.get_project("beta").unwrap().id, "beta");
    assert!(ctx.get_project("gamma").is_none());
}

#[test]
fn task_log_queries() {
    let log = TaskLog {
        entries: vec![
            Status::Redirected {
                from: OriginalUrlString("https://a.com/".to_string()),
                to: OriginalUrlString("https://b.com/".to_string()),
                http_status: Some(301),
            },
        ],
    };
    let persisted = vec![Status::Failure {
        url: OriginalUrlString("https://c.com/".to_string()),
        http_status: None,
    }];
    assert!(log.contains_url("https://b.com/", &persisted));
    assert!(log.contains_url("https://c.com/", &persisted));
    assert!(!log.contains_url("https://d.com/", &persisted));
    assert!(!log.contains_failures());
    let failing = TaskLog { entries: persisted };
    assert!(failing.contains_failures());
}

#[test]
fn snapshot_manifest_skips_visited_pages() {
    let mut m = SnapshotManifest::new();
    assert!(m.should_visit("https://a.com/"));
    m.visited_pages.push(VisitedPage::Success {
        url: OriginalUrlString("https://a.com/".to_string()),
        http_status: Some(200),
    });
    assert!(!m.should_visit("https://a.com/"));
}

#[test]
fn path_newtypes_render() {
    let p = RelativeFilePath("example.com/index/snapshot.html".to_string());
    assert_eq!(p.to_file_url(), "file://./example.com/index/snapshot.html");
    let d = SnapshotDirectory("out/example.com".to_string());
    assert_eq!(d.join("log.toml"), "out/example.com/log.toml");
}

#[test]
fn clock_wrappers_produce_text() {
    assert!(!SnapshotDate::now().0.is_empty());
    assert!(!Timestamp::now().0.is_empty());
}

#[test]
fn link_list_parses_scraped_anchors() {
    let links = Link::parse_list("[{\"href\": \"https://a.com/\", \"text\": \"A\"}]").unwrap();
    assert_eq!(links.len(), 1);
    assert_eq!(links[0].href, "https://a.com/");
    assert_eq!(links[0].text, "A");
    assert!(Link::parse_list("[{\"href\": 1}]").is_err());
    assert!(Link::parse_list("{}").is_err());
}

#[test]
fn crawler_snapshot_paths_join_sanitized_segments() {
    let dir = snappath::build_rel_html_snapshot_dir("https://example.com/a/b?x=1").unwrap();
    assert_eq!(dir, "example.com/a/b~q~x_1");
    let file = snappath::build_rel_html_snapshot_file_path("https://example.com/").unwrap();
    assert_eq!(file.0, "example.com/index/snapshot.html");
    assert!(snappath::build_rel_html_snapshot_dir("not a url").is_none());
}

#[test]
fn crawler_snapshot_paths_hash_overlong_urls() {
    let mut url = String::from("https://example.com/");
    for _ in 0..150 {
        url.push('a');
    }
    url.push_str("/b");
    // The digest-backed fallback: h plus the first four digest bytes in hex.
    assert_eq!(
        snappath::build_rel_html_snapshot_dir(&url).unwrap(),
        "example.com/long/h5a41744a"
    );
}

#[test]
fn recorder_snapshot_paths_hash_only_the_long_segment() {
    let mut url = String::from("https://example.com/");
    for _ in 0..30 {
        url.push('x');
    }
    url.push_str("/ok");
    assert_eq!(
        path_utils::build_rel_html_snapshot_dir(&url).unwrap(),
        "example.com/h666a596d/ok"
    );
    assert_eq!(
        path_utils::build_rel_html_snapshot_dir("https://example.com/a?q=1").unwrap(),
        "example.com/a/~q~q_1"
    );
}
