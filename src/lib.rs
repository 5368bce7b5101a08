//! Installs a WebDriver binary that matches a locally installed browser.
//!
//! The verified part of the crate holds the version model and ordering, the
//! resolution of a remote listing into one download, the per-driver facts
//! (URLs, archive entry names, session capabilities), and the decision logic
//! of the installer and of the post-install verification.
mod descriptor;
mod install;
mod listing;
mod resolve;
mod session;
mod version;

pub use descriptor::{
    build_url, capabilities, default_browser, default_browser_path, uses_program_files, download_url, driver_name_in_archive,
    listing_pattern, listing_url, platform, ChromedriverInfo, Descriptor, DriverKind, HostOs,
};
pub use install::{
    existing_driver_is_kept, missing_directory_is_created, missing_directory_is_not_created,
    reinstall_replaces_driver, resolution_message, InstallFailure, InstallOptions, InstallOutcome,
    InstallStep,
};
pub use listing::{driver_version_urls, listing_from_versions, parse_listing, ListingError};
pub use resolve::{resolve, resolve_index, ResolveCause, ResolveError};
pub use session::{
    driver_is_always_terminated, unusable_browser_fails, VerifyFailure, VerifyOutcome, VerifyStep,
};
pub use version::{sort_descending, version_in_output, DriverVersion, VersionUrl};
