use crate::descriptor::{download_url, download_url_spec, listing_pattern_spec, Descriptor, DriverKind, HostOs};
use crate::version::{is_stable_sort_of, lenient_parse, sort_descending, DriverVersion, VersionUrl, VersionView};
use vstd::prelude::*;

verus! {

/// The texts of the first group of every match of `pattern` in `text`, in the
/// order of the matches.
pub uninterp spec fn first_group_captures(pattern: Seq<char>, text: Seq<char>) -> Seq<Seq<char>>;

/// Whether `regex::Regex::new` accepts `pattern`.
pub uninterp spec fn pattern_compiles(pattern: Seq<char>) -> bool;

/// Relies on `regex::Regex::new` and `Regex::captures_iter`: the first group of
/// each match, in order, with an empty text for a match where the group did
/// not take part. `None` where the pattern does not compile.
#[verifier::external_body]
fn regex_first_groups(pattern: &str, text: &str) -> (r: Option<Vec<String>>)
    ensures
        r.is_some() == pattern_compiles(pattern@),
        r matches Some(caps) ==> caps@.map_values(|c: String| c@) == first_group_captures(
            pattern@,
            text@,
        ),
{
    let re = regex::Regex::new(pattern).ok()?;
    Some(
        re.captures_iter(text).map(|c| c.get(1).map_or("", |m| m.as_str()).to_string()).collect(),
    )
}

/// Why a remote index yields no listing.
#[derive(Clone, PartialEq, Eq, Debug)]
pub enum ListingError {
    /// The pattern of the driver's artifact names does not compile.
    BadPattern,
    /// The index names no release at all.
    NoVersions,
    /// The index names releases, but none of their version texts parses; the
    /// first of them is given.
    Unparsable(String),
}

/// `e` is the error that the version texts `caps` call for, when none of
/// them gives an entry.
pub open spec fn error_fits(e: ListingError, caps: Seq<Seq<char>>) -> bool {
    match e {
        ListingError::NoVersions => caps.len() == 0,
        ListingError::Unparsable(t) => caps.len() > 0 && t@ == caps[0],
        ListingError::BadPattern => false,
    }
}

/// What the entries of a listing look like: a version and its download URL.
pub type EntryView = (VersionView, Seq<char>);

/// The views of the entries of `s`.
pub open spec fn entry_views(s: Seq<VersionUrl>) -> Seq<EntryView> {
    s.map_values(|e: VersionUrl| e@)
}

impl View for VersionUrl {
    type V = EntryView;

    open spec fn view(&self) -> EntryView {
        (self.driver_version@, self.url@)
    }
}

/// The entries that the version texts `caps` give, in their order: each text
/// that parses yields its version and its download URL, the others are dropped.
pub open spec fn listing_entries(kind: DriverKind, os: HostOs, caps: Seq<Seq<char>>) -> Seq<EntryView>
    decreases caps.len(),
{
    if caps.len() == 0 {
        Seq::empty()
    } else {
        let prev = listing_entries(kind, os, caps.drop_last());
        match lenient_parse(caps.last()) {
            Some(v) => prev.push((v, download_url_spec(kind, os, caps.last()))),
            None => prev,
        }
    }
}

/// Turns the version texts found in a remote index into a listing, in the
/// order in which they were found. Texts that do not parse are dropped; a
/// listing with no entry left is an error.
pub fn listing_from_versions(kind: DriverKind, os: HostOs, caps: &Vec<String>) -> (r: Result<Vec<VersionUrl>, ListingError>)
    ensures
        ({
            let l = listing_entries(kind, os, caps@.map_values(|c: String| c@));
            &&& r matches Ok(entries) ==> entry_views(entries@) == l
            &&& r is Err <==> l.len() == 0
            &&& r matches Err(e) ==> error_fits(e, caps@.map_values(|c: String| c@))
        }),
{
    let ghost texts = caps@.map_values(|c: String| c@);
    let mut entries: Vec<VersionUrl> = Vec::new();
    let mut i: usize = 0;
    while i < caps.len()
        invariant
            i <= caps@.len(),
            texts == caps@.map_values(|c: String| c@),
            entry_views(entries@) == listing_entries(kind, os, texts.subrange(0, i as int)),
        decreases caps@.len() - i,
    {
        let text = caps[i].as_str();
        assert(texts.subrange(0, i + 1).drop_last() == texts.subrange(0, i as int));
        assert(texts.subrange(0, i + 1).last() == text@);
        match DriverVersion::parse(text) {
            Some(v) => {
                let url = download_url(kind, os, text);
                let ghost before = entries@;
                entries.push(VersionUrl { driver_version: v, url });
                assert(entry_views(entries@) == entry_views(before).push(entries@.last()@));
            },
            None => {},
        }
        i = i + 1;
    }
    assert(texts.subrange(0, caps@.len() as int) == texts);
    if entries.len() > 0 {
        Ok(entries)
    } else if caps.len() == 0 {
        Err(ListingError::NoVersions)
    } else {
        let first = caps[0].clone();
        assert(texts[0] == first@);
        Err(ListingError::Unparsable(first))
    }
}

/// Parses a driver's remote index into its listing of releases, in the order
/// of the index: every match of `pattern` names a version, which is paired
/// with its download URL.
pub fn parse_listing(kind: DriverKind, os: HostOs, pattern: &str, index: &str) -> (r: Result<Vec<VersionUrl>, ListingError>)
    ensures
        r == Err::<Vec<VersionUrl>, ListingError>(ListingError::BadPattern) <==> !pattern_compiles(pattern@),
        ({
            let caps = first_group_captures(pattern@, index@);
            let l = listing_entries(kind, os, caps);
            pattern_compiles(pattern@) ==> {
                &&& r matches Ok(entries) ==> entry_views(entries@) == l
                &&& r is Err <==> l.len() == 0
                &&& r matches Err(e) ==> error_fits(e, caps)
            }
        }),
{
    match regex_first_groups(pattern, index) {
        Some(caps) => {
            listing_from_versions(kind, os, &caps)
        },
        None => Err(ListingError::BadPattern),
    }
}

/// The remote index's listing of a driver's releases, sorted from the highest
/// version down, releases of equal precedence kept in the order of the index.
pub fn driver_version_urls(descriptor: &Descriptor, index: &str) -> (r: Result<Vec<VersionUrl>, ListingError>)
    ensures
        ({
            let pattern = listing_pattern_spec(descriptor.kind, descriptor.os);
            let caps = first_group_captures(pattern, index@);
            let l = listing_entries(descriptor.kind, descriptor.os, caps);
            &&& r == Err::<Vec<VersionUrl>, ListingError>(ListingError::BadPattern) <==> !pattern_compiles(pattern)
            &&& pattern_compiles(pattern) ==> {
                &&& r matches Ok(sorted) ==> exists|found: Seq<VersionUrl>|
                    entry_views(found) == l && is_stable_sort_of(sorted@, found)
                &&& r is Err <==> l.len() == 0
                &&& r matches Err(e) ==> error_fits(e, caps)
            }
        }),
{
    let pattern = descriptor.listing_pattern();
    let parsed = parse_listing(descriptor.kind, descriptor.os, pattern, index);
    assert(pattern@ == listing_pattern_spec(descriptor.kind, descriptor.os));
    match parsed {
        Ok(found) => {
            let ghost g = found@;
            let sorted = sort_descending(found);
            assert(is_stable_sort_of(sorted@, g));
            assert(entry_views(g) == listing_entries(
                descriptor.kind,
                descriptor.os,
                first_group_captures(listing_pattern_spec(descriptor.kind, descriptor.os), index@),
            ));
            assert(entry_views(g).len() > 0);
            assert(exists|found: Seq<VersionUrl>|
                entry_views(found) == listing_entries(
                    descriptor.kind,
                    descriptor.os,
                    first_group_captures(listing_pattern_spec(descriptor.kind, descriptor.os), index@),
                ) && is_stable_sort_of(sorted@, found));
            assert(pattern_compiles(pattern@));
            Ok(sorted)
        },
        Err(e) => Err(e),
    }
}

} // verus!
