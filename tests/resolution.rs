use std::cmp::Ordering;

use webdriver_downloader::{
    build_url, driver_version_urls, listing_from_versions, parse_listing, resolve, resolve_index, sort_descending,
    Descriptor, DriverKind, DriverVersion, HostOs, ListingError, ResolveError, VersionUrl,
};

fn entry(version: &str) -> VersionUrl {
    VersionUrl {
        driver_version: DriverVersion::parse(version).unwrap(),
        url: format!("https://example.org/{}", version),
    }
}

fn listing(versions: &[&str]) -> Vec<VersionUrl> {
    versions.iter().map(|v| entry(v)).collect()
}

fn chrome_index(versions: &[&str]) -> String {
    let mut xml = String::from("<ListBucketResult>");
    for v in versions {
        xml.push_str(&format!("<Contents><Key>{}/chromedriver_win32.zip</Key></Contents>", v));
        xml.push_str(&format!("<Contents><Key>{}/chromedriver_linux64.zip</Key></Contents>", v));
    }
    xml.push_str("</ListBucketResult>");
    xml
}

#[test]
fn hint_major_selects_highest_of_that_major() {
    let r = resolve(listing(&["5.0", "6.1", "6.3"]), &DriverVersion::parse("6.0.1"));
    let v = r.unwrap();
    assert_eq!((v.driver_version.major(), v.driver_version.minor()), (6, 3));
    assert_eq!(v.url, "https://example.org/6.3");
}

#[test]
fn hint_major_without_match_fails() {
    let r = resolve(listing(&["5.0", "6.1", "6.3"]), &DriverVersion::parse("7"));
    assert!(matches!(r, Err(ResolveError::NoMatchingVersion)));
}

#[test]
fn no_hint_selects_overall_maximum() {
    let r = resolve(listing(&["6.1", "5.0", "6.3"]), &None);
    assert_eq!(r.unwrap().url, "https://example.org/6.3");
}

#[test]
fn empty_listing_is_an_error() {
    assert!(matches!(resolve(Vec::new(), &None), Err(ResolveError::EmptyListing)));
    let hint = DriverVersion::parse("6");
    assert!(matches!(resolve(Vec::new(), &hint), Err(ResolveError::EmptyListing)));
}

#[test]
fn lenient_parse_accepts_prefix_and_short_forms() {
    let v = DriverVersion::parse("v1.2").unwrap();
    assert_eq!((v.major(), v.minor(), v.patch()), (1, 2, 0));
    let v = DriverVersion::parse("114.0.5735.90").unwrap();
    assert_eq!((v.major(), v.minor(), v.patch()), (114, 0, 5735));
    assert_eq!(v.build(), "90");
    assert_eq!(v.pre(), "");
    assert!(DriverVersion::parse("not a version").is_none());
    assert!(DriverVersion::parse("").is_none());
}

#[test]
fn precedence_follows_semver() {
    let a = DriverVersion::parse("1.0.0-alpha").unwrap();
    let b = DriverVersion::parse("1.0.0").unwrap();
    assert_eq!(a.pre(), "alpha");
    assert_eq!(a.compare(&b), Ordering::Less);
    assert_eq!(b.compare(&a), Ordering::Greater);
    let c = DriverVersion::parse("1.10.0").unwrap();
    let d = DriverVersion::parse("1.9.7").unwrap();
    assert_eq!(c.compare(&d), Ordering::Greater);
    assert_eq!(c.compare(&c), Ordering::Equal);
    let e = DriverVersion::parse("114.0.5735.16").unwrap();
    let f = DriverVersion::parse("114.0.5735.90").unwrap();
    assert_eq!(e.compare(&f), Ordering::Less);
}

#[test]
fn sort_is_descending_and_stable() {
    let mut input = listing(&["1.2", "3.0", "1.10", "2.5"]);
    input.push(VersionUrl {
        driver_version: DriverVersion::parse("3.0.0").unwrap(),
        url: String::from("second"),
    });
    let sorted = sort_descending(input);
    let urls: Vec<&str> = sorted.iter().map(|e| e.url.as_str()).collect();
    assert_eq!(
        urls,
        vec![
            "https://example.org/3.0",
            "second",
            "https://example.org/2.5",
            "https://example.org/1.10",
            "https://example.org/1.2"
        ]
    );
}

#[test]
fn sort_of_empty_listing_is_empty() {
    assert!(sort_descending(Vec::new()).is_empty());
}

#[test]
fn listing_drops_unparsable_versions() {
    let caps = vec![String::from("2.1"), String::from("junk"), String::from("2.0")];
    let entries = listing_from_versions(DriverKind::Chrome, HostOs::Linux, &caps).unwrap();
    assert_eq!(entries.len(), 2);
    assert_eq!(
        entries[0].url,
        "https://chromedriver.storage.googleapis.com/2.1/chromedriver_linux64.zip"
    );
    assert_eq!(entries[1].driver_version.minor(), 0);
}

#[test]
fn listing_without_versions_is_an_error() {
    let caps = vec![String::from("junk"), String::new()];
    let r = listing_from_versions(DriverKind::Chrome, HostOs::Linux, &caps);
    assert_eq!(r.err(), Some(ListingError::Unparsable(String::from("junk"))));
    let r = listing_from_versions(DriverKind::Gecko, HostOs::Linux, &Vec::new());
    assert!(matches!(r, Err(ListingError::NoVersions)));
}

#[test]
fn listing_parses_chrome_index() {
    let desc = Descriptor::new(DriverKind::Chrome, HostOs::Windows, String::new(), String::new());
    let xml = chrome_index(&["2.46", "114.0.5735.90", "113.0.5672.63"]);
    let entries = parse_listing(desc.kind, desc.os, desc.listing_pattern(), &xml).unwrap();
    assert_eq!(entries.len(), 3);
    assert_eq!(entries[1].driver_version.major(), 114);
    assert_eq!(
        entries[1].url,
        "https://chromedriver.storage.googleapis.com/114.0.5735.90/chromedriver_win32.zip"
    );
}

#[test]
fn bad_pattern_is_reported() {
    let r = parse_listing(DriverKind::Chrome, HostOs::Linux, "(", "anything");
    assert!(matches!(r, Err(ListingError::BadPattern)));
}

#[test]
fn resolve_index_picks_browser_major() {
    let desc = Descriptor::new(DriverKind::Chrome, HostOs::Linux, String::new(), String::new());
    let xml = chrome_index(&["113.0.5672.63", "114.0.5735.16", "114.0.5735.90", "112.0.5615.49"]);
    let hint = DriverVersion::parse("114.0.5735.199");
    let v = resolve_index(&desc, &xml, &hint).unwrap();
    assert_eq!(
        v.url,
        "https://chromedriver.storage.googleapis.com/114.0.5735.90/chromedriver_linux64.zip"
    );
    let v = resolve_index(&desc, &xml, &None).unwrap();
    assert_eq!(v.driver_version.major(), 114);
    let hint = DriverVersion::parse("120");
    assert!(matches!(
        resolve_index(&desc, &xml, &hint),
        Err(ResolveError::NoMatchingVersion)
    ));
    assert!(matches!(
        resolve_index(&desc, "<ListBucketResult/>", &None),
        Err(ResolveError::Listing(ListingError::NoVersions))
    ));
}

#[test]
fn resolve_index_reads_gecko_releases() {
    let desc = Descriptor::new(DriverKind::Gecko, HostOs::Windows, String::new(), String::new());
    let json = r#"[{"tag_name": "v0.32.2"}, {"tag_name":"v0.33.0"}, {"tag_name": "v0.31.0"}]"#;
    let v = resolve_index(&desc, json, &None).unwrap();
    assert_eq!(v.url, build_url("0.33.0"));
}

#[test]
fn browser_version_is_last_parsable_word() {
    let v = webdriver_downloader::version_in_output("Google Chrome 114.0.5735.198 \n").unwrap();
    assert_eq!((v.major(), v.minor(), v.patch()), (114, 0, 5735));
    assert_eq!(v.build(), "198");
    let v = webdriver_downloader::version_in_output("112.0.1\r\n").unwrap();
    assert_eq!(v.major(), 112);
    let v = webdriver_downloader::version_in_output("Mozilla Firefox 115.0 (unofficial)").unwrap();
    assert_eq!((v.major(), v.minor()), (115, 0));
    assert!(webdriver_downloader::version_in_output("").is_none());
    assert!(webdriver_downloader::version_in_output("  \t ").is_none());
    assert!(webdriver_downloader::version_in_output("no such file").is_none());
}

#[test]
fn listing_keeps_parsable_among_bad_versions() {
    let caps = vec![String::from("x.y"), String::from("6.1"), String::from("bad"), String::from("6.3")];
    let entries = listing_from_versions(DriverKind::Gecko, HostOs::Windows, &caps).unwrap();
    let minors: Vec<u64> = entries.iter().map(|e| e.driver_version.minor()).collect();
    assert_eq!(minors, vec![1, 3]);
}

#[test]
fn driver_version_urls_sorted_descending() {
    let desc = Descriptor::new(DriverKind::Chrome, HostOs::Windows, String::new(), String::new());
    let xml = chrome_index(&["2.46", "114.0.5735.90", "junk", "113.0.5672.63"]);
    let sorted = driver_version_urls(&desc, &xml).unwrap();
    let majors: Vec<u64> = sorted.iter().map(|e| e.driver_version.major()).collect();
    assert_eq!(majors, vec![114, 113, 2]);
    let none = driver_version_urls(&desc, "<ListBucketResult/>");
    assert_eq!(none.err(), Some(ListingError::NoVersions));
    let bad = driver_version_urls(&desc, &chrome_index(&[""]));
    assert_eq!(bad.err(), Some(ListingError::Unparsable(String::new())));
}

#[test]
fn release_beats_prerelease_and_ties_keep_order() {
    let mut input = listing(&["6.3.0-beta", "6.1"]);
    input.push(VersionUrl {
        driver_version: DriverVersion::parse("6.3.0").unwrap(),
        url: String::from("first"),
    });
    input.push(VersionUrl {
        driver_version: DriverVersion::parse("6.3.0").unwrap(),
        url: String::from("second"),
    });
    let v = resolve(input, &DriverVersion::parse("6")).unwrap();
    assert_eq!(v.url, "first");
}
