//! Version strings: an optional leading `v` and semantic-version comparison.
use vstd::prelude::*;
use crate::text::{concat, starts_with_char, str_eq, strip_char, strip_leading_char};

verus! {

/// `semver::Version::parse(text)` succeeds.
pub uninterp spec fn semver_parses(text: Seq<char>) -> bool;

/// `Ord::cmp` of the versions that `semver::Version::parse` gives for `a` and `b`,
/// as -1 (less), 0 (equal) or 1 (greater).
pub uninterp spec fn semver_order(a: Seq<char>, b: Seq<char>) -> i8;

/// Parses both texts with `semver::Version::parse` and, when both parse, compares the
/// versions with their `Ord` (major, minor, patch, pre-release, build metadata).
/// Claimed: the result is present exactly when both texts parse; it is -1, 0 or 1; and a
/// text compares equal to itself (`Ord` is a total order).
#[verifier::external_body]
fn compare_semver(a: &str, b: &str) -> (r: Option<i8>)
    ensures
        r.is_some() == (semver_parses(a@) && semver_parses(b@)),
        r matches Some(c) ==> c == semver_order(a@, b@) && -1 <= c <= 1,
        r matches Some(c) ==> (a@ == b@ ==> c == 0),
{
    match (semver::Version::parse(a), semver::Version::parse(b)) {
        (Ok(x), Ok(y)) => Some(
            match x.cmp(&y) {
                std::cmp::Ordering::Less => -1,
                std::cmp::Ordering::Equal => 0,
                std::cmp::Ordering::Greater => 1,
            },
        ),
        _ => None,
    }
}

/// Whether `text` is a valid semantic version.
pub fn is_semver(text: &str) -> (r: bool)
    ensures
        r == semver_parses(text@),
{
    compare_semver(text, text).is_some()
}

/// `v` followed by the text, unless it already starts with `v`.
pub open spec fn with_v_prefix(s: Seq<char>) -> Seq<char> {
    if s.len() > 0 && s[0] == 'v' {
        s
    } else {
        seq!['v'] + s
    }
}

/// The text with one leading `v` removed.
pub open spec fn without_v(s: Seq<char>) -> Seq<char> {
    strip_char(s, 'v')
}

/// Prefixes a version string with `v` unless it already has one.
pub fn ensure_v_prefix(v: &str) -> (r: String)
    ensures
        r@ == with_v_prefix(v@),
{
    if starts_with_char(v, 'v') {
        v.to_owned()
    } else {
        proof {
            reveal_strlit("v");
        }
        concat("v", v)
    }
}

/// Semantic comparison of two version texts, each read without one leading `v`:
/// `Some` of -1, 0 or 1 when both are valid semantic versions.
pub open spec fn version_order(a: Seq<char>, b: Seq<char>) -> Option<i8> {
    if semver_parses(without_v(a)) && semver_parses(without_v(b)) {
        Some(semver_order(without_v(a), without_v(b)))
    } else {
        None
    }
}

/// Compares two version strings, each with a `v` ensured and then stripped:
/// `(order, true)` when both are valid semantic versions, `(Equal, false)` otherwise.
pub fn compare_versions_safe(a: &str, b: &str) -> (r: (std::cmp::Ordering, bool))
    ensures
        r.1 == version_order(a@, b@) is Some,
        r.1 ==> (match r.0 {
            std::cmp::Ordering::Less => version_order(a@, b@) == Some(-1i8),
            std::cmp::Ordering::Equal => version_order(a@, b@) == Some(0i8),
            std::cmp::Ordering::Greater => version_order(a@, b@) == Some(1i8),
        }),
        !r.1 ==> r.0 == std::cmp::Ordering::Equal,
        a@ == b@ && r.1 ==> r.0 == std::cmp::Ordering::Equal,
{
    let va = ensure_v_prefix(a);
    let vb = ensure_v_prefix(b);
    let sa = strip_leading_char(va.as_str(), 'v');
    let sb = strip_leading_char(vb.as_str(), 'v');
    proof {
        if a@.len() > 0 && a@[0] == 'v' {
        } else {
            assert((seq!['v'] + a@).drop_first() =~= a@);
        }
        if b@.len() > 0 && b@[0] == 'v' {
        } else {
            assert((seq!['v'] + b@).drop_first() =~= b@);
        }
    }
    assert(sa@ == without_v(a@));
    assert(sb@ == without_v(b@));
    match compare_semver(sa.as_str(), sb.as_str()) {
        Some(c) => {
            if c < 0 {
                (std::cmp::Ordering::Less, true)
            } else if c == 0 {
                (std::cmp::Ordering::Equal, true)
            } else {
                (std::cmp::Ordering::Greater, true)
            }
        },
        None => (std::cmp::Ordering::Equal, false),
    }
}

/// The installed version counts as up to date: semantically at least the current one when
/// both are valid semantic versions (one leading `v` ignored), else textually equal.
pub open spec fn up_to_date(installed: Seq<char>, current: Seq<char>) -> bool {
    match version_order(installed, current) {
        Some(c) => c >= 0,
        None => installed == current,
    }
}

/// Whether an installed skill version is up to date with the current version.
pub fn is_up_to_date(installed: &str, current: &str) -> (r: bool)
    ensures
        r == up_to_date(installed@, current@),
        installed@ == current@ ==> r,
{
    let i_str = strip_leading_char(installed, 'v');
    let c_str = strip_leading_char(current, 'v');
    match compare_semver(i_str.as_str(), c_str.as_str()) {
        Some(c) => c >= 0,
        None => str_eq(installed, current),
    }
}

} // verus!
