use webdriver_downloader::{
    default_browser, uses_program_files, build_url, capabilities, default_browser_path, download_url, driver_name_in_archive,
    listing_url, ChromedriverInfo, Descriptor, DriverKind, HostOs,
};

#[test]
fn gecko_url_for_windows() {
    assert_eq!(
        build_url("0.33.0"),
        "https://github.com/mozilla/geckodriver/releases/download/v0.33.0/geckodriver-v0.33.0-win64.zip"
    );
}

#[test]
fn download_urls_per_platform() {
    assert_eq!(
        download_url(DriverKind::Chrome, HostOs::MacOs, "2.46"),
        "https://chromedriver.storage.googleapis.com/2.46/chromedriver_mac64.zip"
    );
    assert_eq!(
        download_url(DriverKind::Gecko, HostOs::Linux, "0.33.0"),
        "https://github.com/mozilla/geckodriver/releases/download/v0.33.0/geckodriver-v0.33.0-linux64.tar.gz"
    );
}

#[test]
fn firefox_default_path() {
    assert_eq!(
        default_browser_path(r"C:\Program Files"),
        r"C:\Program Files\Mozilla Firefox\firefox.exe"
    );
}

#[test]
fn archive_entry_names() {
    assert_eq!(driver_name_in_archive(DriverKind::Chrome, HostOs::Windows), "chromedriver.exe");
    assert_eq!(driver_name_in_archive(DriverKind::Chrome, HostOs::Linux), "chromedriver");
    assert_eq!(driver_name_in_archive(DriverKind::Gecko, HostOs::Windows), "geckodriver.exe");
    assert_eq!(driver_name_in_archive(DriverKind::Gecko, HostOs::MacOs), "geckodriver");
    assert_eq!(listing_url(DriverKind::Chrome), "https://chromedriver.storage.googleapis.com");
}

#[test]
fn chrome_capabilities_escape_the_path() {
    let caps = capabilities(DriverKind::Chrome, r#"C:\Chrome "x"\chrome.exe"#);
    assert_eq!(
        caps,
        r#"{"goog:chromeOptions":{"binary":"C:\\Chrome \"x\"\\chrome.exe","args":["-headless"]}}"#
    );
    let value: serde_json::Value = serde_json::from_str(&caps).unwrap();
    assert_eq!(value["goog:chromeOptions"]["binary"], r#"C:\Chrome "x"\chrome.exe"#);
}

#[test]
fn gecko_capabilities() {
    let desc = Descriptor::new(
        DriverKind::Gecko,
        HostOs::Linux,
        String::from("/tmp/geckodriver"),
        String::from("/usr/bin/firefox"),
    );
    assert_eq!(
        desc.driver_capabilities(),
        r#"{"moz:firefoxOptions":{"binary":"/usr/bin/firefox","args":["-headless"]}}"#
    );
    assert_eq!(desc.driver_install_path(), "/tmp/geckodriver");
    assert_eq!(desc.browser_path(), "/usr/bin/firefox");
    assert_eq!(desc.driver_name_in_archive(), "geckodriver");
}

#[test]
fn chromedriver_info_keeps_paths() {
    let info = ChromedriverInfo::new(String::from("/opt/chromedriver"), String::from("/opt/chrome"));
    assert_eq!(info.driver_install_path, "/opt/chromedriver");
    assert_eq!(info.browser_path, "/opt/chrome");
    let desc = info.descriptor(HostOs::Linux);
    assert_eq!(desc.kind, DriverKind::Chrome);
    assert_eq!(
        desc.download_url("114.0.5735.90"),
        "https://chromedriver.storage.googleapis.com/114.0.5735.90/chromedriver_linux64.zip"
    );
    assert_eq!(desc.listing_url(), "https://chromedriver.storage.googleapis.com");
}

#[test]
fn default_browser_locations() {
    assert_eq!(default_browser(DriverKind::Chrome, HostOs::Linux, ""), "/usr/bin/google-chrome");
    assert_eq!(
        default_browser(DriverKind::Gecko, HostOs::Windows, r"D:\Apps"),
        r"D:\Apps\Mozilla Firefox\firefox.exe"
    );
    assert!(uses_program_files(DriverKind::Gecko, HostOs::Windows));
    assert!(!uses_program_files(DriverKind::Chrome, HostOs::Windows));
}
