use traffic_audit::analyzer::{
    analyze_traffic, classify, extract_domain, has_keyword, has_pii, host_or_unknown, is_tracker,
    search_found, text_to_search, violations_for, EMAIL_PATTERN, TRACKER_KEYWORDS,
};
use traffic_audit::geo::{fallback_location, CityRecord, Coordinates, IpAddress, LocalName};
use traffic_audit::types::{RawTraffic, TrafficUpdate, Violation};

fn request(url: &str) -> RawTraffic {
    RawTraffic {
        url: url.to_string(),
        method: "GET".to_string(),
        resource_type: "image".to_string(),
        post_data: None,
    }
}

fn report(url: &str, main_domain: &str) -> TrafficUpdate {
    classify(&request(url), main_domain, fallback_location())
}

fn pairs(list: &[Violation]) -> Vec<(String, String)> {
    list.iter().map(|v| (v.issue.clone(), v.severity.clone())).collect()
}

fn pair(issue: &str, severity: &str) -> (String, String) {
    (issue.to_string(), severity.to_string())
}

#[test]
fn plain_http_third_party_pixel() {
    let update = report("http://ads.doubleclick.net/pixel?x=1", "example.com");
    assert_eq!(
        pairs(&update.violations),
        vec![pair("Unencrypted (HTTP)", "high"), pair("3rd Party Tracker", "medium")]
    );
    assert!(update.is_tracker);
    assert_eq!(update.domain, "ads.doubleclick.net");
    assert_eq!(update.url, "http://ads.doubleclick.net/pixel?x=1");
    assert_eq!(update.method, "GET");
    assert_eq!(update.type_, "image");
}

#[test]
fn first_party_collect_with_encoded_email() {
    let update = report("https://example.com/collect?email=alice%40example.com", "example.com");
    assert_eq!(
        pairs(&update.violations),
        vec![pair("Hidden 1st Party Tracker", "medium"), pair("PII (Email) Leak", "critical")]
    );
    assert!(update.is_tracker);
    assert_eq!(update.domain, "example.com");
}

#[test]
fn all_three_findings_in_check_order() {
    let update = report("http://cdn.example.com/beacon?u=bob@example.org", "example.com");
    assert_eq!(
        pairs(&update.violations),
        vec![
            pair("Unencrypted (HTTP)", "high"),
            pair("Hidden 1st Party Tracker", "medium"),
            pair("PII (Email) Leak", "critical"),
        ]
    );
}

#[test]
fn clean_request_has_no_findings() {
    let update = report("https://example.com/index.html", "example.com");
    assert!(update.violations.is_empty());
    assert!(!update.is_tracker);
    assert_eq!(update.domain, "example.com");
}

#[test]
fn update_carries_the_given_place() {
    let mut place = fallback_location();
    place.lat = 7;
    place.lon = 9;
    place.country = "Iceland".to_string();
    let update = classify(&request("https://example.com/"), "example.com", place);
    assert_eq!(update.geo.lat, 7);
    assert_eq!(update.geo.lon, 9);
    assert_eq!(update.geo.country, "Iceland");
}

#[test]
fn http_scheme_is_flagged_https_is_not() {
    let plain = report("http://example.com/", "example.com");
    assert_eq!(pairs(&plain.violations), vec![pair("Unencrypted (HTTP)", "high")]);
    let secure = report("https://example.com/", "example.com");
    assert!(secure.violations.iter().all(|v| v.issue != "Unencrypted (HTTP)"));
}

#[test]
fn scheme_prefix_is_case_sensitive() {
    let update = report("HTTP://example.com/", "example.com");
    assert!(update.violations.is_empty());
    assert_eq!(update.domain, "example.com");
}

#[test]
fn unparsable_url_is_third_party_to_every_audit() {
    let update = report("tracker without scheme", "example.com");
    assert_eq!(update.domain, "unknown");
    assert_eq!(pairs(&update.violations), vec![pair("3rd Party Tracker", "medium")]);
    assert!(update.is_tracker);
}

#[test]
fn unknown_main_domain_matches_unknown_request_domain() {
    let update = report("pixel", "unknown");
    assert_eq!(pairs(&update.violations), vec![pair("Hidden 1st Party Tracker", "medium")]);
}

#[test]
fn subdomain_of_main_domain_is_first_party() {
    let update = report("https://metrics.example.com/collect", "example.com");
    assert_eq!(pairs(&update.violations), vec![pair("Hidden 1st Party Tracker", "medium")]);
    let other = report("https://example.com/collect", "metrics.example.com");
    assert_eq!(pairs(&other.violations), vec![pair("3rd Party Tracker", "medium")]);
}

#[test]
fn extract_domain_of_text_that_is_no_url() {
    assert_eq!(extract_domain("not a url"), "unknown");
    assert_eq!(extract_domain(""), "unknown");
    assert_eq!(extract_domain("//example.com/path"), "unknown");
}

#[test]
fn extract_domain_of_url_without_host() {
    assert_eq!(extract_domain("data:text/plain,Stuff"), "unknown");
    assert_eq!(extract_domain("mailto:alice@example.com"), "unknown");
}

#[test]
fn extract_domain_gives_the_host() {
    assert_eq!(extract_domain("https://example.com/a/b?c=d"), "example.com");
    assert_eq!(extract_domain("https://Sub.Example.COM:8443/"), "sub.example.com");
    assert_eq!(extract_domain("ftp://user@files.example.org/x"), "files.example.org");
    assert_eq!(extract_domain("http://127.0.0.1/index.html"), "127.0.0.1");
}

#[test]
fn host_or_unknown_on_both_cases() {
    assert_eq!(host_or_unknown(Some("example.com".to_string())), "example.com");
    assert_eq!(host_or_unknown(None), "unknown");
}

#[test]
fn tracker_keywords_are_the_fifteen() {
    assert_eq!(
        TRACKER_KEYWORDS,
        [
            "analytics", "pixel", "tracker", "telemetry", "collect", "facebook", "tiktok",
            "adsystem", "googleads", "doubleclick", "clarity", "hotjar", "fbevents", "measure",
            "beacon",
        ]
    );
}

#[test]
fn every_keyword_marks_a_tracker() {
    for keyword in TRACKER_KEYWORDS {
        let url = format!("https://example.com/a/{}/b", keyword);
        assert!(is_tracker(&url), "{}", keyword);
        assert!(has_keyword(&url), "{}", keyword);
        assert!(has_keyword(keyword), "{}", keyword);
    }
}

#[test]
fn has_keyword_reads_letter_for_letter() {
    assert!(has_keyword("https://example.com/pixel.gif"));
    assert!(!has_keyword("https://example.com/PIXEL.gif"));
    assert!(!has_keyword("https://example.com/"));
    assert!(!has_keyword(""));
}

#[test]
fn text_to_search_prefers_the_decoded_text() {
    assert_eq!(text_to_search("a%40b", Some("a@b".to_string())), "a@b");
    assert_eq!(text_to_search("a%ffb", None), "a%ffb");
}

#[test]
fn keywords_are_found_without_regard_to_case() {
    assert!(is_tracker("https://example.com/ANALYTICS.js"));
    assert!(is_tracker("https://www.FaceBook.com/tr"));
    assert!(is_tracker("HTTPS://CDN.EXAMPLE.COM/HOTJAR"));
}

#[test]
fn url_without_keyword_is_no_tracker() {
    assert!(!is_tracker("https://example.com/index.html"));
    assert!(!is_tracker("https://example.com/pix/el"));
    assert!(!is_tracker(""));
}

#[test]
fn email_in_plain_text_is_found() {
    assert!(has_pii("https://example.com/?q=bob@example.org"));
    assert!(has_pii("bob.smith+tag@mail.example.co"));
    assert!(has_pii("https://bob@example.com/path"));
}

#[test]
fn percent_encoded_email_is_found() {
    assert!(has_pii("https://example.com/collect?email=alice%40example.com"));
    assert!(has_pii("https://example.com/?e=alice%40example%2Ecom"));
}

#[test]
fn text_without_email_has_no_pii() {
    assert!(!has_pii("https://example.com/index.html"));
    assert!(!has_pii("https://example.com/?e=alice%2540example.com"));
    assert!(!has_pii("@example.com"));
    assert!(!has_pii("alice@"));
    assert!(!has_pii(""));
}

#[test]
fn email_needs_two_letters_after_the_last_dot() {
    assert!(!has_pii("a@b.c"));
    assert!(has_pii("a@b.co"));
    assert!(!has_pii("a@b.1x"));
}

#[test]
fn text_that_cannot_be_decoded_is_searched_as_it_is() {
    assert!(has_pii("https://example.com/%ff?e=carol@example.com"));
    assert!(!has_pii("https://example.com/%ff?e=carol%40example.com"));
}

#[test]
fn search_found_counts_only_a_match() {
    assert!(search_found(Some(true)));
    assert!(!search_found(Some(false)));
    assert!(!search_found(None));
}

#[test]
fn email_pattern_text() {
    assert_eq!(EMAIL_PATTERN, r"[a-zA-Z0-9._%+-]+@[a-zA-Z0-9.-]+\.[a-zA-Z]{2,}");
}

#[test]
fn violations_for_each_outcome() {
    for bits in 0..16u8 {
        let insecure = bits & 1 != 0;
        let tracker = bits & 2 != 0;
        let first_party = bits & 4 != 0;
        let pii = bits & 8 != 0;
        let mut expected = Vec::new();
        if insecure {
            expected.push(pair("Unencrypted (HTTP)", "high"));
        }
        if tracker && first_party {
            expected.push(pair("Hidden 1st Party Tracker", "medium"));
        }
        if tracker && !first_party {
            expected.push(pair("3rd Party Tracker", "medium"));
        }
        if pii {
            expected.push(pair("PII (Email) Leak", "critical"));
        }
        assert_eq!(pairs(&violations_for(insecure, tracker, first_party, pii)), expected);
    }
}

#[test]
fn analyze_traffic_locates_and_classifies() {
    let update = analyze_traffic(
        &request("http://ads.doubleclick.net/pixel?x=1"),
        "example.com",
        |host: String| {
            assert_eq!(host, "ads.doubleclick.net");
            Some(vec![IpAddress::V4([203, 0, 113, 5])])
        },
        |address: IpAddress| {
            assert_eq!(address, IpAddress::V4([203, 0, 113, 5]));
            Some(CityRecord {
                location: Some(Coordinates {
                    latitude: Some(37.751f64.to_bits()),
                    longitude: Some((-97.822f64).to_bits()),
                }),
                country_names: vec![LocalName {
                    language: "en".to_string(),
                    name: "United States".to_string(),
                }],
            })
        },
    );
    assert_eq!(
        pairs(&update.violations),
        vec![pair("Unencrypted (HTTP)", "high"), pair("3rd Party Tracker", "medium")]
    );
    assert!(update.is_tracker);
    assert_eq!(update.domain, "ads.doubleclick.net");
    assert_eq!(f64::from_bits(update.geo.lat), 37.751);
    assert_eq!(f64::from_bits(update.geo.lon), -97.822);
    assert_eq!(update.geo.country, "United States");
}

#[test]
fn analyze_traffic_falls_back_when_nothing_resolves() {
    let update = analyze_traffic(
        &request("https://example.com/collect?email=alice%40example.com"),
        "example.com",
        |_host: String| None,
        |address: IpAddress| -> Option<CityRecord> { panic!("looked up {:?}", address) },
    );
    assert_eq!(
        pairs(&update.violations),
        vec![pair("Hidden 1st Party Tracker", "medium"), pair("PII (Email) Leak", "critical")]
    );
    assert!(update.is_tracker);
    assert_eq!(f64::from_bits(update.geo.lat), 20.5937);
    assert_eq!(f64::from_bits(update.geo.lon), 78.9629);
    assert_eq!(update.geo.country, "Unknown");
}
