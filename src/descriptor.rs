use vstd::prelude::*;

verus! {

/// The drivers the library can install.
#[derive(Clone, Copy, PartialEq, Eq, Structural, Debug)]
pub enum DriverKind {
    Chrome,
    Gecko,
}

/// The host systems for which each driver has a published artifact.
#[derive(Clone, Copy, PartialEq, Eq, Structural, Debug)]
pub enum HostOs {
    Windows,
    Linux,
    MacOs,
}

/// The platform part of an artifact's file name.
pub open spec fn platform_spec(kind: DriverKind, os: HostOs) -> Seq<char> {
    match (kind, os) {
        (DriverKind::Chrome, HostOs::Windows) => "win32"@,
        (DriverKind::Chrome, HostOs::Linux) => "linux64"@,
        (DriverKind::Chrome, HostOs::MacOs) => "mac64"@,
        (DriverKind::Gecko, HostOs::Windows) => "win64.zip"@,
        (DriverKind::Gecko, HostOs::Linux) => "linux64.tar.gz"@,
        (DriverKind::Gecko, HostOs::MacOs) => "macos.tar.gz"@,
    }
}

/// The download URL of release `ver` of a driver for a host system.
pub open spec fn download_url_spec(kind: DriverKind, os: HostOs, ver: Seq<char>) -> Seq<char> {
    match kind {
        DriverKind::Chrome => "https://chromedriver.storage.googleapis.com/"@ + ver
            + "/chromedriver_"@ + platform_spec(kind, os) + ".zip"@,
        DriverKind::Gecko => "https://github.com/mozilla/geckodriver/releases/download/v"@ + ver
            + "/geckodriver-v"@ + ver + "-"@ + platform_spec(kind, os),
    }
}

/// The name of the driver executable inside the downloaded archive.
pub open spec fn name_in_archive_spec(kind: DriverKind, os: HostOs) -> Seq<char> {
    match (kind, os) {
        (DriverKind::Chrome, HostOs::Windows) => "chromedriver.exe"@,
        (DriverKind::Chrome, _) => "chromedriver"@,
        (DriverKind::Gecko, HostOs::Windows) => "geckodriver.exe"@,
        (DriverKind::Gecko, _) => "geckodriver"@,
    }
}

/// The address of the remote index that lists a driver's releases.
pub open spec fn listing_url_spec(kind: DriverKind) -> Seq<char> {
    match kind {
        DriverKind::Chrome => "https://chromedriver.storage.googleapis.com"@,
        DriverKind::Gecko => "https://api.github.com/repos/mozilla/geckodriver/releases"@,
    }
}

/// The pattern whose first group picks each release's version text out of
/// the remote index.
pub open spec fn listing_pattern_spec(kind: DriverKind, os: HostOs) -> Seq<char> {
    match (kind, os) {
        (DriverKind::Chrome, HostOs::Windows) => "<Key>([0-9.]*?)/chromedriver_win32\\.zip</Key>"@,
        (DriverKind::Chrome, HostOs::Linux) => "<Key>([0-9.]*?)/chromedriver_linux64\\.zip</Key>"@,
        (DriverKind::Chrome, HostOs::MacOs) => "<Key>([0-9.]*?)/chromedriver_mac64\\.zip</Key>"@,
        (DriverKind::Gecko, _) => "\"tag_name\":\\s*\"v([0-9.]+)\""@,
    }
}

pub fn platform(kind: DriverKind, os: HostOs) -> (r: &'static str)
    ensures
        r@ == platform_spec(kind, os),
{
    match (kind, os) {
        (DriverKind::Chrome, HostOs::Windows) => "win32",
        (DriverKind::Chrome, HostOs::Linux) => "linux64",
        (DriverKind::Chrome, HostOs::MacOs) => "mac64",
        (DriverKind::Gecko, HostOs::Windows) => "win64.zip",
        (DriverKind::Gecko, HostOs::Linux) => "linux64.tar.gz",
        (DriverKind::Gecko, HostOs::MacOs) => "macos.tar.gz",
    }
}

/// The download URL of release `version_string` of a driver for a host system.
pub fn download_url(kind: DriverKind, os: HostOs, version_string: &str) -> (r: String)
    ensures
        r@ == download_url_spec(kind, os, version_string@),
{
    match kind {
        DriverKind::Chrome => {
            let mut url = String::from_str("https://chromedriver.storage.googleapis.com/");
            url.append(version_string);
            url.append("/chromedriver_");
            url.append(platform(kind, os));
            url.append(".zip");
            url
        },
        DriverKind::Gecko => {
            let mut url = String::from_str(
                "https://github.com/mozilla/geckodriver/releases/download/v",
            );
            url.append(version_string);
            url.append("/geckodriver-v");
            url.append(version_string);
            url.append("-");
            url.append(platform(kind, os));
            url
        },
    }
}

/// The download URL of geckodriver release `version_string` for 64-bit Windows.
pub fn build_url(version_string: &str) -> (r: String)
    ensures
        r@ == download_url_spec(DriverKind::Gecko, HostOs::Windows, version_string@),
{
    download_url(DriverKind::Gecko, HostOs::Windows, version_string)
}

/// Firefox's usual location under the "Program Files" directory of Windows.
pub fn default_browser_path(program_files: &str) -> (r: String)
    ensures
        r@ == program_files@ + "\\Mozilla Firefox\\firefox.exe"@,
{
    let mut path = String::from_str(program_files);
    path.append("\\Mozilla Firefox\\firefox.exe");
    path
}

/// Whether the browser's usual location depends on the "Program Files"
/// directory of Windows.
pub open spec fn uses_program_files_spec(kind: DriverKind, os: HostOs) -> bool {
    kind == DriverKind::Gecko && os == HostOs::Windows
}

pub fn uses_program_files(kind: DriverKind, os: HostOs) -> (r: bool)
    ensures
        r == uses_program_files_spec(kind, os),
{
    matches!((kind, os), (DriverKind::Gecko, HostOs::Windows))
}

/// The browser's usual location on a host system; `program_files` is read
/// only where `uses_program_files` says so.
pub open spec fn default_browser_spec(kind: DriverKind, os: HostOs, program_files: Seq<char>) -> Seq<char> {
    match (kind, os) {
        (DriverKind::Chrome, HostOs::Windows) => "C:\\Program Files\\Google\\Chrome\\Application\\chrome.exe"@,
        (DriverKind::Chrome, HostOs::MacOs) => "/Applications/Google Chrome.app/Contents/MacOS/Google Chrome"@,
        (DriverKind::Chrome, HostOs::Linux) => "/usr/bin/google-chrome"@,
        (DriverKind::Gecko, HostOs::Windows) => program_files + "\\Mozilla Firefox\\firefox.exe"@,
        (DriverKind::Gecko, HostOs::MacOs) => "/Applications/Firefox.app/Contents/MacOS/firefox"@,
        (DriverKind::Gecko, HostOs::Linux) => "/usr/bin/firefox"@,
    }
}

pub fn default_browser(kind: DriverKind, os: HostOs, program_files: &str) -> (r: String)
    ensures
        r@ == default_browser_spec(kind, os, program_files@),
{
    match (kind, os) {
        (DriverKind::Chrome, HostOs::Windows) => String::from_str(
            "C:\\Program Files\\Google\\Chrome\\Application\\chrome.exe",
        ),
        (DriverKind::Chrome, HostOs::MacOs) => String::from_str(
            "/Applications/Google Chrome.app/Contents/MacOS/Google Chrome",
        ),
        (DriverKind::Chrome, HostOs::Linux) => String::from_str("/usr/bin/google-chrome"),
        (DriverKind::Gecko, HostOs::Windows) => default_browser_path(program_files),
        (DriverKind::Gecko, HostOs::MacOs) => String::from_str(
            "/Applications/Firefox.app/Contents/MacOS/firefox",
        ),
        (DriverKind::Gecko, HostOs::Linux) => String::from_str("/usr/bin/firefox"),
    }
}

pub fn driver_name_in_archive(kind: DriverKind, os: HostOs) -> (r: &'static str)
    ensures
        r@ == name_in_archive_spec(kind, os),
{
    match (kind, os) {
        (DriverKind::Chrome, HostOs::Windows) => "chromedriver.exe",
        (DriverKind::Chrome, _) => "chromedriver",
        (DriverKind::Gecko, HostOs::Windows) => "geckodriver.exe",
        (DriverKind::Gecko, _) => "geckodriver",
    }
}

pub fn listing_url(kind: DriverKind) -> (r: &'static str)
    ensures
        r@ == listing_url_spec(kind),
{
    match kind {
        DriverKind::Chrome => "https://chromedriver.storage.googleapis.com",
        DriverKind::Gecko => "https://api.github.com/repos/mozilla/geckodriver/releases",
    }
}

pub fn listing_pattern(kind: DriverKind, os: HostOs) -> (r: &'static str)
    ensures
        r@ == listing_pattern_spec(kind, os),
{
    match (kind, os) {
        (DriverKind::Chrome, HostOs::Windows) => "<Key>([0-9.]*?)/chromedriver_win32\\.zip</Key>",
        (DriverKind::Chrome, HostOs::Linux) => "<Key>([0-9.]*?)/chromedriver_linux64\\.zip</Key>",
        (DriverKind::Chrome, HostOs::MacOs) => "<Key>([0-9.]*?)/chromedriver_mac64\\.zip</Key>",
        (DriverKind::Gecko, _) => "\"tag_name\":\\s*\"v([0-9.]+)\"",
    }
}

/// The JSON text that serde_json writes for a string value: the string in
/// quotes, with the characters that JSON requires escaped.
pub uninterp spec fn json_string(s: Seq<char>) -> Seq<char>;

/// Relies on `Display for serde_json::Value`, which writes a `Value::String`
/// as a JSON string literal; the text depends on the string alone.
#[verifier::external_body]
fn json_string_literal(s: &str) -> (r: String)
    ensures
        r@ == json_string(s@),
{
    serde_json::Value::String(s.to_string()).to_string()
}

/// The session capabilities, as JSON text, that point a driver at the browser
/// binary and run it headless.
pub open spec fn capabilities_spec(kind: DriverKind, browser_path: Seq<char>) -> Seq<char> {
    "{\""@ + match kind {
        DriverKind::Chrome => "goog:chromeOptions"@,
        DriverKind::Gecko => "moz:firefoxOptions"@,
    } + "\":{\"binary\":"@ + json_string(browser_path) + ",\"args\":[\"-headless\"]}}"@
}

/// Builds the session capabilities for a driver; total on every path.
pub fn capabilities(kind: DriverKind, browser_path: &str) -> (r: String)
    ensures
        r@ == capabilities_spec(kind, browser_path@),
{
    let mut text = String::from_str("{\"");
    match kind {
        DriverKind::Chrome => text.append("goog:chromeOptions"),
        DriverKind::Gecko => text.append("moz:firefoxOptions"),
    }
    text.append("\":{\"binary\":");
    let quoted = json_string_literal(browser_path);
    text.append(quoted.as_str());
    text.append(",\"args\":[\"-headless\"]}}");
    text
}

/// Everything the installer and the verifier need to know of one driver on
/// one host system: which driver, where it goes, and which browser it drives.
pub struct Descriptor {
    pub kind: DriverKind,
    pub os: HostOs,
    pub driver_install_path: String,
    pub browser_path: String,
}

impl Descriptor {
    /// The registry: the descriptor of driver `kind` on host `os`.
    pub fn new(kind: DriverKind, os: HostOs, driver_install_path: String, browser_path: String) -> (r: Descriptor)
        ensures
            r.kind == kind,
            r.os == os,
            r.driver_install_path@ == driver_install_path@,
            r.browser_path@ == browser_path@,
    {
        Descriptor { kind, os, driver_install_path, browser_path }
    }

    pub fn driver_install_path(&self) -> (r: &str)
        ensures
            r@ == self.driver_install_path@,
    {
        self.driver_install_path.as_str()
    }

    pub fn browser_path(&self) -> (r: &str)
        ensures
            r@ == self.browser_path@,
    {
        self.browser_path.as_str()
    }

    pub fn driver_name_in_archive(&self) -> (r: &'static str)
        ensures
            r@ == name_in_archive_spec(self.kind, self.os),
    {
        driver_name_in_archive(self.kind, self.os)
    }

    pub fn listing_url(&self) -> (r: &'static str)
        ensures
            r@ == listing_url_spec(self.kind),
    {
        listing_url(self.kind)
    }

    pub open spec fn listing_pattern_view(&self) -> Seq<char> {
        listing_pattern_spec(self.kind, self.os)
    }

    pub fn listing_pattern(&self) -> (r: &'static str)
        ensures
            r@ == listing_pattern_spec(self.kind, self.os),
    {
        listing_pattern(self.kind, self.os)
    }

    pub fn download_url(&self, version_string: &str) -> (r: String)
        ensures
            r@ == download_url_spec(self.kind, self.os, version_string@),
    {
        download_url(self.kind, self.os, version_string)
    }

    pub fn driver_capabilities(&self) -> (r: String)
        ensures
            r@ == capabilities_spec(self.kind, self.browser_path@),
    {
        capabilities(self.kind, self.browser_path.as_str())
    }
}

/// The paths of a chromedriver installation: where the driver goes and where
/// the browser it drives is.
pub struct ChromedriverInfo {
    pub driver_install_path: String,
    pub browser_path: String,
}

impl ChromedriverInfo {
    pub fn new(driver_install_path: String, browser_path: String) -> (r: Self)
        ensures
            r.driver_install_path@ == driver_install_path@,
            r.browser_path@ == browser_path@,
    {
        ChromedriverInfo { driver_install_path, browser_path }
    }

    /// The descriptor of chromedriver on host `os` with these paths.
    pub fn descriptor(self, os: HostOs) -> (r: Descriptor)
        ensures
            r.kind == DriverKind::Chrome,
            r.os == os,
            r.driver_install_path@ == self.driver_install_path@,
            r.browser_path@ == self.browser_path@,
    {
        Descriptor::new(DriverKind::Chrome, os, self.driver_install_path, self.browser_path)
    }
}

} // verus!
