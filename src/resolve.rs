use crate::descriptor::{listing_pattern_spec, Descriptor};
use crate::listing::{
    entry_views, first_group_captures, listing_entries, parse_listing, pattern_compiles, EntryView, ListingError,
};
use crate::version::{
    is_rearrangement, is_stable_sort_of, keeps_ties_in_order, numeric_le, semver_precedence,
    sort_descending, takes_value, DriverVersion, VersionUrl,
};
use vstd::prelude::*;

verus! {

/// Why no release of a listing can be chosen.
#[derive(Clone, PartialEq, Eq, Debug)]
pub enum ResolveError {
    /// The listing holds no release at all.
    EmptyListing,
    /// No release has the major version of the installed browser.
    NoMatchingVersion,
    /// The remote index yields no listing.
    Listing(ListingError),
}

/// The kind of a resolution error, without the texts it carries.
#[derive(Clone, Copy, PartialEq, Eq, Structural, Debug)]
pub enum ResolveCause {
    EmptyListing,
    NoMatchingVersion,
    BadPattern,
    NoVersions,
    Unparsable,
}

pub open spec fn cause_spec(e: ResolveError) -> ResolveCause {
    match e {
        ResolveError::EmptyListing => ResolveCause::EmptyListing,
        ResolveError::NoMatchingVersion => ResolveCause::NoMatchingVersion,
        ResolveError::Listing(ListingError::BadPattern) => ResolveCause::BadPattern,
        ResolveError::Listing(ListingError::NoVersions) => ResolveCause::NoVersions,
        ResolveError::Listing(ListingError::Unparsable(_)) => ResolveCause::Unparsable,
    }
}

impl ResolveError {
    pub fn cause(&self) -> (r: ResolveCause)
        ensures
            r == cause_spec(*self),
    {
        match self {
            ResolveError::EmptyListing => ResolveCause::EmptyListing,
            ResolveError::NoMatchingVersion => ResolveCause::NoMatchingVersion,
            ResolveError::Listing(ListingError::BadPattern) => ResolveCause::BadPattern,
            ResolveError::Listing(ListingError::NoVersions) => ResolveCause::NoVersions,
            ResolveError::Listing(ListingError::Unparsable(_)) => ResolveCause::Unparsable,
        }
    }
}

/// Some entry of `s` has major version `m`.
pub open spec fn has_major(s: Seq<VersionUrl>, m: nat) -> bool {
    exists|i: int| 0 <= i < s.len() && (#[trigger] s[i]).driver_version@.0 == m
}

/// `e` has major version `m`, or `m` is `None`.
pub open spec fn fits(e: EntryView, m: Option<nat>) -> bool {
    m.is_some() ==> e.0.0 == m.unwrap()
}

/// `s[k]` is the release to take for major `m` (any major where `None`): it
/// fits, no fitting entry takes precedence over it or is above it in major,
/// minor and patch, and every fitting entry of equal precedence comes later.
pub open spec fn is_first_best_at(s: Seq<EntryView>, m: Option<nat>, k: int) -> bool {
    &&& 0 <= k < s.len()
    &&& fits(s[k], m)
    &&& forall|a: int|
        0 <= a < s.len() && fits(#[trigger] s[a], m) ==> {
            &&& semver_precedence(s[k].0, s[a].0) >= 0
            &&& numeric_le(s[a].0, s[k].0)
            &&& semver_precedence(s[k].0, s[a].0) == 0 ==> k <= a
        }
}

/// `v` is, at some place of `s`, the release to take for major `m`.
pub open spec fn is_first_best(s: Seq<EntryView>, m: Option<nat>, v: EntryView) -> bool {
    exists|k: int| is_first_best_at(s, m, k) && s[k] == v
}

/// The major version that a browser's version asks for, if it is known.
pub open spec fn hint_major(hint: Option<DriverVersion>) -> Option<nat> {
    match hint {
        Some(h) => Some(h@.0),
        None => None,
    }
}

/// Chooses the release to install: the listing is sorted from the highest
/// version down (equal versions keep their order), and the first entry whose
/// major version is the browser's is taken, or the first entry of all where
/// the browser's version is unknown.
pub fn resolve(listing: Vec<VersionUrl>, hint: &Option<DriverVersion>) -> (r: Result<VersionUrl, ResolveError>)
    ensures
        match r {
            Ok(v) => exists|k: int| is_first_best_at(entry_views(listing@), hint_major(*hint), k) && listing@[k] == v,
            Err(ResolveError::EmptyListing) => listing@.len() == 0,
            Err(ResolveError::NoMatchingVersion) => listing@.len() > 0 && hint_major(*hint).is_some()
                && !has_major(listing@, hint_major(*hint).unwrap()),
            Err(ResolveError::Listing(_)) => false,
        },
        listing@.len() == 0 <==> r == Err::<VersionUrl, ResolveError>(ResolveError::EmptyListing),
{
    let ghost original = listing@;
    let ghost ov = entry_views(original);
    let ghost m = hint_major(*hint);
    if listing.len() == 0 {
        return Err(ResolveError::EmptyListing);
    }
    let mut sorted = sort_descending(listing);
    let ghost s = sorted@;
    let ghost perm = choose|perm: Seq<int>| is_rearrangement(s, original, perm) && keeps_ties_in_order(s, perm);
    let mut i: usize = 0;
    match hint {
        Some(h) => {
            let mm: u64 = h.major();
            while i < sorted.len() && sorted[i].driver_version.major() != mm
                invariant
                    sorted@ == s,
                    i <= s.len(),
                    m == Some(mm as nat),
                    forall|j: int| 0 <= j < i ==> !fits((#[trigger] s[j])@, m),
                decreases s.len() - i,
            {
                i = i + 1;
            }
            if i == sorted.len() {
                assert forall|a: int| 0 <= a < original.len() implies (
                #[trigger] original[a]).driver_version@.0 != mm by {
                    assert(takes_value(perm, a));
                    let j = choose|j: int| 0 <= j < perm.len() && perm[j] == a;
                    assert(s[j] == original[a]);
                }
                return Err(ResolveError::NoMatchingVersion);
            }
            assert(fits(s[i as int]@, m));
        },
        None => {},
    }
    assert(i < s.len() && fits(s[i as int]@, m));
    assert(forall|j: int| 0 <= j < i ==> !fits((#[trigger] s[j])@, m));
    // fixes the precedence of the chosen entry against itself
    let _ = sorted[i].driver_version.compare(&sorted[i].driver_version);
    let ghost k = perm[i as int];
    assert forall|a: int| 0 <= a < ov.len() && fits(#[trigger] ov[a], m) implies {
        &&& semver_precedence(ov[k].0, ov[a].0) >= 0
        &&& numeric_le(ov[a].0, ov[k].0)
        &&& semver_precedence(ov[k].0, ov[a].0) == 0 ==> k <= a
    } by {
        assert(takes_value(perm, a));
        let j = choose|j: int| 0 <= j < perm.len() && perm[j] == a;
        assert(s[j] == original[a] && s[i as int] == original[k]);
        assert(ov[a] == original[a]@ && ov[k] == original[k]@);
        assert(ov[a].0 == s[j].driver_version@ && ov[k].0 == s[i as int].driver_version@);
        if j < i {
            assert(!fits(s[j]@, m));
        } else if j > i {
            assert(semver_precedence(s[i as int].driver_version@, s[j].driver_version@) >= 0);
            assert(numeric_le(s[j].driver_version@, s[i as int].driver_version@));
        }
    }
    assert(ov[k] == original[k]@);
    let v = sorted.remove(i);
    assert(is_first_best_at(ov, m, k) && original[k] == v);
    Ok(v)
}

/// Resolves a driver's remote index into the release to install, for a
/// browser of version `hint` (unknown where `None`). The listing's errors come
/// back as they are.
pub fn resolve_index(descriptor: &Descriptor, index: &str, hint: &Option<DriverVersion>) -> (r: Result<VersionUrl, ResolveError>)
    ensures
        ({
            let pattern = listing_pattern_spec(descriptor.kind, descriptor.os);
            let caps = first_group_captures(pattern, index@);
            let entries = listing_entries(descriptor.kind, descriptor.os, caps);
            &&& r == Err::<VersionUrl, ResolveError>(ResolveError::Listing(ListingError::BadPattern))
                <==> !pattern_compiles(pattern)
            &&& pattern_compiles(pattern) ==> {
                &&& r matches Ok(v) ==> is_first_best(entries, hint_major(*hint), v@)
                &&& r matches Err(ResolveError::Listing(ListingError::NoVersions)) ==> caps.len() == 0
                &&& r matches Err(ResolveError::Listing(ListingError::Unparsable(t))) ==> caps.len() > 0
                    && t@ == caps[0] && entries.len() == 0
                &&& r matches Err(ResolveError::NoMatchingVersion) ==> entries.len() > 0 && hint_major(
                    *hint,
                ).is_some() && forall|i: int|
                    0 <= i < entries.len() ==> (#[trigger] entries[i]).0.0 != hint_major(*hint).unwrap()
                &&& !(r matches Err(ResolveError::EmptyListing))
            }
        }),
{
    let pattern = descriptor.listing_pattern();
    match parse_listing(descriptor.kind, descriptor.os, pattern, index) {
        Err(e) => Err(ResolveError::Listing(e)),
        Ok(listing) => {
            let ghost original = listing@;
            let r = resolve(listing, hint);
            proof {
                if r is Err && r->Err_0 is NoMatchingVersion {
                    assert forall|i: int| 0 <= i < entry_views(original).len() implies (#[trigger] entry_views(
                        original,
                    )[i]).0.0 != hint_major(*hint).unwrap() by {
                        assert(entry_views(original)[i] == original[i]@);
                    }
                }
            }
            r
        },
    }
}

} // verus!
