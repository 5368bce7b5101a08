use std::cmp::Ordering;
use vstd::prelude::*;

verus! {

/// The value of a version as the ordering sees it: major, minor, patch,
/// pre-release text and build-metadata text.
pub type VersionView = (nat, nat, nat, Seq<char>, Seq<char>);

/// What `lenient_semver::parse` makes of a text, as the five parts of the
/// version it returns, or `None` where it rejects the text.
pub uninterp spec fn lenient_parse(s: Seq<char>) -> Option<(nat, nat, nat, Seq<char>, Seq<char>)>;

/// The precedence that `semver::Version`'s `Ord` gives two versions, as
/// -1, 0 or 1.
pub uninterp spec fn semver_precedence(
    a: (nat, nat, nat, Seq<char>, Seq<char>),
    b: (nat, nat, nat, Seq<char>, Seq<char>),
) -> int;

/// The parsed version of the `semver` crate, carried opaquely so that its own
/// ordering can be used.
#[verifier::external_type_specification]
#[verifier::external_body]
pub struct ExSemverVersion(semver::Version);

/// A semantic version of a driver or a browser.
///
/// The plain fields mirror the parsed `semver::Version` held beside them;
/// values are only made by `DriverVersion::parse`, which sets both from one
/// parse.
pub struct DriverVersion {
    major: u64,
    minor: u64,
    patch: u64,
    pre: String,
    build: String,
    parsed: semver::Version,
}

/// `v` is the value of some version that `lenient_semver::parse` returns.
pub open spec fn is_parsed(v: VersionView) -> bool {
    exists|s: Seq<char>| lenient_parse(s) == Some(v)
}

impl DriverVersion {
    /// Every value comes out of a parse.
    #[verifier::type_invariant]
    closed spec fn came_from_parse(self) -> bool {
        is_parsed(self@)
    }
}

impl View for DriverVersion {
    type V = VersionView;

    closed spec fn view(&self) -> VersionView {
        (self.major as nat, self.minor as nat, self.patch as nat, self.pre@, self.build@)
    }
}

/// `a` is below `b` in major, then minor, then patch.
pub open spec fn numeric_lt(a: VersionView, b: VersionView) -> bool {
    a.0 < b.0 || (a.0 == b.0 && (a.1 < b.1 || (a.1 == b.1 && a.2 < b.2)))
}

/// `a` is at most `b` in major, then minor, then patch.
pub open spec fn numeric_le(a: VersionView, b: VersionView) -> bool {
    !numeric_lt(b, a)
}

pub open spec fn ordering_value(o: Ordering) -> int {
    match o {
        Ordering::Less => -1,
        Ordering::Equal => 0,
        Ordering::Greater => 1,
    }
}

/// Relies on `lenient_semver::parse`, which accepts a "v" prefix and missing
/// minor or patch parts; the parts of its result are copied out as they are.
#[verifier::external_body]
fn lenient_semver_parse(s: &str) -> (r: Option<DriverVersion>)
    ensures
        match r {
            Some(v) => lenient_parse(s@) == Some(v@),
            None => lenient_parse(s@).is_none(),
        },
{
    match lenient_semver::parse(s) {
        Ok(v) => Some(DriverVersion {
            major: v.major,
            minor: v.minor,
            patch: v.patch,
            pre: v.pre.as_str().to_string(),
            build: v.build.as_str().to_string(),
            parsed: v,
        }),
        Err(_) => None,
    }
}

/// Relies on `Ord for semver::Version`, which is derived: it compares major,
/// minor, patch, pre-release and build metadata in that order, and is a total
/// order, transitive over every parsed version.
#[verifier::external_body]
fn semver_cmp(a: &DriverVersion, b: &DriverVersion) -> (r: Ordering)
    ensures
        ordering_value(r) == semver_precedence(a@, b@),
        ordering_value(r) == -semver_precedence(b@, a@),
        numeric_lt(a@, b@) ==> r == Ordering::Less,
        numeric_lt(b@, a@) ==> r == Ordering::Greater,
        a@ == b@ ==> r == Ordering::Equal,
        r == Ordering::Greater ==> forall|c: VersionView|
            is_parsed(c) && semver_precedence(b@, c) >= 0 ==> #[trigger] semver_precedence(a@, c) > 0,
{
    a.parsed.cmp(&b.parsed)
}

impl DriverVersion {
    /// Parses a version leniently; `None` where the text holds no version.
    pub fn parse(s: &str) -> (r: Option<DriverVersion>)
        ensures
            match r {
                Some(v) => lenient_parse(s@) == Some(v@),
                None => lenient_parse(s@).is_none(),
            },
    {
        lenient_semver_parse(s)
    }

    /// Semantic-version precedence of `self` against `other`.
    pub fn compare(&self, other: &DriverVersion) -> (r: Ordering)
        ensures
            ordering_value(r) == semver_precedence(self@, other@),
            ordering_value(r) == -semver_precedence(other@, self@),
            numeric_lt(self@, other@) ==> r == Ordering::Less,
            numeric_lt(other@, self@) ==> r == Ordering::Greater,
            self@ == other@ ==> r == Ordering::Equal,
            r == Ordering::Greater ==> forall|c: VersionView|
                is_parsed(c) && semver_precedence(other@, c) >= 0 ==> #[trigger] semver_precedence(self@, c) > 0,
    {
        semver_cmp(self, other)
    }

    pub fn major(&self) -> (r: u64)
        ensures
            r == self@.0,
    {
        self.major
    }

    pub fn minor(&self) -> (r: u64)
        ensures
            r == self@.1,
    {
        self.minor
    }

    pub fn patch(&self) -> (r: u64)
        ensures
            r == self@.2,
    {
        self.patch
    }

    /// The pre-release text, empty where there is none.
    pub fn pre(&self) -> (r: &str)
        ensures
            r@ == self@.3,
    {
        self.pre.as_str()
    }

    /// The build-metadata text, empty where there is none.
    pub fn build(&self) -> (r: &str)
        ensures
            r@ == self@.4,
    {
        self.build.as_str()
    }
}

/// A blank that separates words in a program's output.
pub open spec fn is_blank(c: char) -> bool {
    c == ' ' || c == '\t' || c == '\n' || c == '\r'
}

/// `s[i..j]` is a word: a run of non-blank characters with a blank or an end
/// of `s` on either side.
pub open spec fn is_word(s: Seq<char>, i: int, j: int) -> bool {
    &&& 0 <= i < j <= s.len()
    &&& i == 0 || is_blank(s[i - 1])
    &&& j == s.len() || is_blank(s[j])
    &&& forall|k: int| i <= k < j ==> !is_blank(#[trigger] s[k])
}

/// The version a browser reports about itself: the parse of the whole of
/// `output` where it parses (Windows reports the bare version), else the last
/// word of `output` that parses (a report that reads like
/// "Google Chrome 114.0.5735.198"), or `None` where no word does.
pub fn version_in_output(output: &str) -> (r: Option<DriverVersion>)
    ensures
        lenient_parse(output@).is_some() ==> r.is_some() && lenient_parse(output@) == Some(
            r.unwrap()@,
        ),
        lenient_parse(output@).is_none() ==> last_word_version(output@, r),
{
    match DriverVersion::parse(output) {
        Some(v) => Some(v),
        None => last_version_word(output),
    }
}

/// `r` is the version of the last word of `s` that parses, or `None` where no
/// word does.
pub open spec fn last_word_version(s: Seq<char>, r: Option<DriverVersion>) -> bool {
    match r {
        Some(v) => exists|i: int, j: int|
            is_word(s, i, j) && lenient_parse(s.subrange(i, j)) == Some(v@) && forall|i2: int, j2: int|
                is_word(s, i2, j2) && i2 > i ==> lenient_parse(#[trigger] s.subrange(i2, j2)).is_none(),
        None => forall|i: int, j: int|
            is_word(s, i, j) ==> lenient_parse(#[trigger] s.subrange(i, j)).is_none(),
    }
}

fn last_version_word(output: &str) -> (r: Option<DriverVersion>)
    ensures
        last_word_version(output@, r),
{
    let ghost s = output@;
    let n: usize = output.unicode_len();
    let mut pos: usize = n;
    while pos > 0
        invariant
            s == output@,
            n == s.len(),
            pos <= n,
            pos == n || (pos > 0 ==> is_blank(s[pos - 1])),
            forall|i: int, j: int|
                is_word(s, i, j) && i >= pos ==> lenient_parse(#[trigger] s.subrange(i, j)).is_none(),
        decreases pos,
    {
        let old_pos: usize = pos;
        while pos > 0 && is_blank_char(output.get_char(pos - 1))
            invariant
                s == output@,
                n == s.len(),
                pos <= old_pos <= n,
                forall|k: int| pos <= k < old_pos ==> is_blank(#[trigger] s[k]),
            decreases pos,
        {
            pos = pos - 1;
        }
        if pos == 0 {
            assert forall|i: int, j: int| is_word(s, i, j) && i >= 0 implies lenient_parse(
                #[trigger] s.subrange(i, j),
            ).is_none() by {
                if i < old_pos {
                    assert(is_blank(s[i]));
                }
            }
            return None;
        }
        let end: usize = pos;
        while pos > 0 && !is_blank_char(output.get_char(pos - 1))
            invariant
                s == output@,
                n == s.len(),
                pos <= end,
                end <= n,
                forall|k: int| pos <= k < end ==> !is_blank(#[trigger] s[k]),
            decreases pos,
        {
            pos = pos - 1;
        }
        let word = output.substring_char(pos, end);
        assert(is_word(s, pos as int, end as int));
        match DriverVersion::parse(word) {
            Some(v) => {
                assert forall|i2: int, j2: int|
                    is_word(s, i2, j2) && i2 > pos implies lenient_parse(
                    #[trigger] s.subrange(i2, j2),
                ).is_none() by {
                    if i2 < end {
                        assert(!is_blank(s[i2 - 1]));
                    } else if i2 < old_pos {
                        assert(is_blank(s[i2]));
                    }
                }
                return Some(v);
            },
            None => {
                assert forall|i: int, j: int| is_word(s, i, j) && i >= pos implies lenient_parse(
                    #[trigger] s.subrange(i, j),
                ).is_none() by {
                    if i == pos {
                        if j < end {
                            assert(!is_blank(s[j]));
                        } else if j > end {
                            assert(is_blank(s[end as int]));
                        }
                    } else if i < end {
                        assert(!is_blank(s[i - 1]));
                    } else if i < old_pos {
                        assert(is_blank(s[i]));
                    }
                }
            },
        }
    }
    None
}

fn is_blank_char(c: char) -> (r: bool)
    ensures
        r == is_blank(c),
{
    c == ' ' || c == '\t' || c == '\n' || c == '\r'
}

/// A download URL of one driver release, with the release's version.
pub struct VersionUrl {
    pub driver_version: DriverVersion,
    pub url: String,
}

/// `s` is ordered from the highest version down: no entry takes precedence
/// over an earlier one, and no later entry is above an earlier one in major,
/// minor and patch.
pub open spec fn sorted_descending(s: Seq<VersionUrl>) -> bool {
    &&& forall|i: int, j: int|
        0 <= i < j < s.len() ==> #[trigger] semver_precedence(
            s[i].driver_version@,
            s[j].driver_version@,
        ) >= 0
    &&& forall|i: int, j: int|
        0 <= i < j < s.len() ==> numeric_le(
            #[trigger] s[j].driver_version@,
            #[trigger] s[i].driver_version@,
        )
}

/// `perm` is a one-to-one map of the places of `r` onto those of `listing`,
/// with `r[i] == listing[perm[i]]`.
pub open spec fn is_rearrangement(r: Seq<VersionUrl>, listing: Seq<VersionUrl>, perm: Seq<int>) -> bool {
    &&& perm.len() == r.len() == listing.len()
    &&& forall|i: int|
        0 <= i < r.len() ==> 0 <= #[trigger] perm[i] < listing.len() && r[i] == listing[perm[i]]
    &&& forall|i: int, j: int| 0 <= i < j < r.len() ==> #[trigger] perm[i] != #[trigger] perm[j]
    &&& forall|a: int| 0 <= a < listing.len() ==> #[trigger] takes_value(perm, a)
}

/// Some place of `perm` holds `a`.
pub open spec fn takes_value(perm: Seq<int>, a: int) -> bool {
    exists|i: int| 0 <= i < perm.len() && perm[i] == a
}

/// Entries of `r` of equal precedence stand in the order in which `perm` says
/// they came.
pub open spec fn keeps_ties_in_order(r: Seq<VersionUrl>, perm: Seq<int>) -> bool {
    forall|i: int, j: int|
        0 <= i < j < r.len() && #[trigger] semver_precedence(r[i].driver_version@, r[j].driver_version@)
            == 0 ==> perm[i] < perm[j]
}

/// `r` is `listing` sorted from the highest version down, entries of equal
/// precedence kept in the order in which they came.
pub open spec fn is_stable_sort_of(r: Seq<VersionUrl>, listing: Seq<VersionUrl>) -> bool {
    &&& sorted_descending(r)
    &&& exists|perm: Seq<int>| is_rearrangement(r, listing, perm) && keeps_ties_in_order(r, perm)
}

/// Sorts a listing from the highest version down, keeping entries of equal
/// precedence in the order in which they came.
pub fn sort_descending(listing: Vec<VersionUrl>) -> (r: Vec<VersionUrl>)
    ensures
        r@.to_multiset() == listing@.to_multiset(),
        r@.len() == listing@.len(),
        is_stable_sort_of(r@, listing@),
{
    broadcast use vstd::seq_lib::group_to_multiset_ensures;

    let ghost original = listing@;
    let n: usize = listing.len();
    let mut rest = listing;
    let mut out: Vec<VersionUrl> = Vec::new();
    let mut k: usize = 0;
    let ghost mut perm: Seq<int> = Seq::empty();
    while k < n
        invariant
            n == original.len(),
            k <= n,
            rest@ == original.subrange(k as int, n as int),
            out@.to_multiset() == original.subrange(0, k as int).to_multiset(),
            out@.len() == k,
            sorted_descending(out@),
            forall|i: int| 0 <= i < out@.len() ==> is_parsed(#[trigger] out@[i].driver_version@),
            is_rearrangement(out@, original.subrange(0, k as int), perm),
            keeps_ties_in_order(out@, perm),
        decreases n - k,
    {
        let x = rest.remove(0);
        proof {
            use_type_invariant(&x.driver_version);
        }
        assert(original.subrange(0, k + 1) == original.subrange(0, k as int).push(x));
        assert(x == original[k as int]);
        assert(rest@ == original.subrange(k + 1, n as int));
        let mut p: usize = 0;
        while p < out.len() && !matches!(x.driver_version.compare(&out[p].driver_version), Ordering::Greater)
            invariant
                p <= out@.len(),
                forall|i: int|
                    0 <= i < p ==> numeric_le(x.driver_version@, #[trigger] out@[i].driver_version@),
                forall|i: int|
                    0 <= i < p ==> semver_precedence(#[trigger] out@[i].driver_version@, x.driver_version@) >= 0,
            decreases out@.len() - p,
        {
            p = p + 1;
        }
        if p < out.len() {
            let order = x.driver_version.compare(&out[p].driver_version);
            assert(order == Ordering::Greater);
            assert forall|j: int| p <= j < out@.len() implies semver_precedence(
                x.driver_version@,
                #[trigger] out@[j].driver_version@,
            ) > 0 by {
                if j > p {
                    assert(semver_precedence(out@[p as int].driver_version@, out@[j].driver_version@) >= 0);
                    assert(is_parsed(out@[j].driver_version@));
                }
            }
        }
        let ghost before = out@;
        let ghost before_perm = perm;
        let ghost gx = x;
        assert(is_parsed(gx.driver_version@));
        assert(forall|j: int| p <= j < before.len() ==> semver_precedence(
            gx.driver_version@,
            #[trigger] before[j].driver_version@,
        ) > 0);
        assert(forall|j: int| p <= j < before.len() ==> numeric_le(
            #[trigger] before[j].driver_version@,
            gx.driver_version@,
        ));
        out.insert(p, x);
        assert(out@ == before.insert(p as int, gx));
        proof {
            perm = before_perm.insert(p as int, k as int);
            vstd::seq_lib::to_multiset_insert(before, p as int, gx);
            vstd::seq_lib::to_multiset_build(original.subrange(0, k as int), gx);
        }
        let ghost sub = original.subrange(0, k + 1);
        assert forall|i: int, j: int| 0 <= i < j < out@.len() implies #[trigger] semver_precedence(
            out@[i].driver_version@,
            out@[j].driver_version@,
        ) >= 0 && numeric_le(out@[j].driver_version@, out@[i].driver_version@) && (
        semver_precedence(out@[i].driver_version@, out@[j].driver_version@) == 0 ==> perm[i] < perm[j]) by {
            if j < p {
                assert(out@[i] == before[i] && out@[j] == before[j]);
                assert(perm[i] == before_perm[i] && perm[j] == before_perm[j]);
                assert(semver_precedence(before[i].driver_version@, before[j].driver_version@) >= 0);
            } else if j == p {
                assert(out@[i] == before[i] && out@[j] == gx);
                assert(perm[i] == before_perm[i] && perm[j] == k);
            } else if i < p {
                assert(out@[i] == before[i] && out@[j] == before[j - 1]);
                assert(perm[i] == before_perm[i] && perm[j] == before_perm[j - 1]);
                assert(semver_precedence(before[i].driver_version@, before[j - 1].driver_version@) >= 0);
                assert(numeric_le(before[j - 1].driver_version@, before[i].driver_version@));
            } else if i == p {
                assert(out@[i] == gx && out@[j] == before[j - 1]);
            } else {
                assert(out@[i] == before[i - 1] && out@[j] == before[j - 1]);
                assert(perm[i] == before_perm[i - 1] && perm[j] == before_perm[j - 1]);
                assert(semver_precedence(before[i - 1].driver_version@, before[j - 1].driver_version@) >= 0);
                assert(numeric_le(before[j - 1].driver_version@, before[i - 1].driver_version@));
            }
        }
        assert forall|i: int, j: int| 0 <= i < j < out@.len() implies numeric_le(
            #[trigger] out@[j].driver_version@,
            #[trigger] out@[i].driver_version@,
        ) by {
            assert(semver_precedence(out@[i].driver_version@, out@[j].driver_version@) >= 0);
        }
        assert(sorted_descending(out@));
        assert forall|i: int| 0 <= i < out@.len() implies 0 <= #[trigger] perm[i] < sub.len() && out@[i]
            == sub[perm[i]] by {
            if i < p {
                assert(out@[i] == before[i] && perm[i] == before_perm[i]);
            } else if i > p {
                assert(out@[i] == before[i - 1] && perm[i] == before_perm[i - 1]);
            }
        }
        assert forall|i: int| 0 <= i < out@.len() implies is_parsed(#[trigger] out@[i].driver_version@) by {
            if i < p {
                assert(out@[i] == before[i]);
                assert(is_parsed(before[i].driver_version@));
            } else if i > p {
                assert(out@[i] == before[i - 1]);
                assert(is_parsed(before[i - 1].driver_version@));
            } else {
                assert(out@[i] == gx);
            }
        }
        assert forall|i: int, j: int| 0 <= i < j < out@.len() implies #[trigger] perm[i] != #[trigger] perm[j] by {
            if j < p {
                assert(perm[i] == before_perm[i] && perm[j] == before_perm[j]);
            } else if j == p {
                assert(perm[i] == before_perm[i]);
            } else if i < p {
                assert(perm[i] == before_perm[i] && perm[j] == before_perm[j - 1]);
            } else if i == p {
                assert(perm[j] == before_perm[j - 1]);
            } else {
                assert(perm[i] == before_perm[i - 1] && perm[j] == before_perm[j - 1]);
            }
        }
        assert forall|a: int| 0 <= a < sub.len() implies #[trigger] takes_value(perm, a) by {
            if a == k {
                assert(perm[p as int] == a);
            } else {
                assert(takes_value(before_perm, a));
                let i0 = choose|i: int| 0 <= i < before_perm.len() && before_perm[i] == a;
                if i0 < p {
                    assert(perm[i0] == a);
                } else {
                    assert(perm[i0 + 1] == a);
                }
            }
        }
        k = k + 1;
    }
    assert(original.subrange(0, n as int) == original);
    assert(is_rearrangement(out@, original, perm) && keeps_ties_in_order(out@, perm));
    out
}

} // verus!
