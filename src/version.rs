//! Ordering of version strings: semantic-version precedence where both
//! strings are valid semantic versions, plain text order otherwise.
use vstd::prelude::*;
use crate::text::chars_of;

verus! {

/// Whether `semver::Version::parse` accepts the text.
pub uninterp spec fn semver_valid(s: Seq<char>) -> bool;

/// Whether the version written `a` has higher precedence than the version
/// written `b` (both texts being valid versions): major, minor and patch
/// compared as numbers, then the pre-release; build metadata is ignored.
pub uninterp spec fn semver_greater(a: Seq<char>, b: Seq<char>) -> bool;

/// `a` sorts strictly before `b` in text order: at the first position where
/// they differ the character of `a` is the smaller, or `a` is a proper prefix
/// of `b`. On UTF-8 text this is the order of `str`'s comparison operators.
pub open spec fn text_less(a: Seq<char>, b: Seq<char>) -> bool {
    exists|k: int|
        #![trigger a.take(k), b.take(k)]
        0 <= k <= a.len() && k <= b.len() && a.take(k) =~= b.take(k) && ((k == a.len() && k
            < b.len()) || (k < a.len() && k < b.len() && (a[k] as u32) < (b[k] as u32)))
}

/// The fallback order: the candidate differs from the current text and sorts
/// after it.
pub open spec fn text_newer(current: Seq<char>, candidate: Seq<char>) -> bool {
    current != candidate && text_less(current, candidate)
}

/// Whether `candidate` is a newer version than `current`.
pub open spec fn is_newer(current: Seq<char>, candidate: Seq<char>) -> bool {
    if semver_valid(current) && semver_valid(candidate) {
        semver_greater(candidate, current)
    } else {
        text_newer(current, candidate)
    }
}

/// Relies on `semver::Version::parse`: success exactly for valid versions.
#[verifier::external_body]
fn parses_as_semver(s: &str) -> (r: bool)
    ensures
        r == semver_valid(s@),
{
    semver::Version::parse(s).is_ok()
}

/// Relies on `semver::Version::cmp_precedence` of two versions parsed from
/// the texts. It is a total order, so a version never has higher precedence
/// than itself, and of two versions at most one is above the other.
#[verifier::external_body]
fn semver_after(a: &str, b: &str) -> (r: bool)
    ensures
        semver_valid(a@) && semver_valid(b@) ==> r == semver_greater(a@, b@),
        a@ == b@ ==> !r,
        semver_valid(a@) && semver_valid(b@) && r ==> !semver_greater(b@, a@),
{
    match (semver::Version::parse(a), semver::Version::parse(b)) {
        (Ok(x), Ok(y)) => x.cmp_precedence(&y) == std::cmp::Ordering::Greater,
        _ => false,
    }
}

/// Text order is asymmetric: of two sequences at most one sorts before the
/// other.
pub proof fn text_less_asymmetric(a: Seq<char>, b: Seq<char>)
    ensures
        !(text_less(a, b) && text_less(b, a)),
{
    if text_less(a, b) && text_less(b, a) {
        let k = choose|k: int|
            #![trigger a.take(k), b.take(k)]
            0 <= k <= a.len() && k <= b.len() && a.take(k) =~= b.take(k) && ((k == a.len() && k
                < b.len()) || (k < a.len() && k < b.len() && (a[k] as u32) < (b[k] as u32)));
        let m = choose|m: int|
            #![trigger b.take(m), a.take(m)]
            0 <= m <= b.len() && m <= a.len() && b.take(m) =~= a.take(m) && ((m == b.len() && m
                < a.len()) || (m < b.len() && m < a.len() && (b[m] as u32) < (a[m] as u32)));
        if k < m {
            assert(a.take(m)[k] == b.take(m)[k]);
        } else if m < k {
            assert(a.take(k)[m] == b.take(k)[m]);
        }
    }
}

/// Text order on two character sequences, as `str`'s `<` orders them.
pub fn text_before(a: &Vec<char>, b: &Vec<char>) -> (r: bool)
    ensures
        r == text_less(a@, b@),
{
    let mut i: usize = 0;
    while i < a.len() && i < b.len() && a[i] == b[i]
        invariant
            i <= a.len(),
            i <= b.len(),
            forall|j: int| 0 <= j < i ==> a@[j] == b@[j],
        decreases a.len() - i,
    {
        i = i + 1;
    }
    let r = if i < a.len() && i < b.len() {
        (a[i] as u32) < (b[i] as u32)
    } else {
        i == a.len() && i < b.len()
    };
    assert(a@.take(i as int) =~= b@.take(i as int));
    if !r {
        assert forall|k: int|
            0 <= k <= a@.len() && k <= b@.len() && a@.take(k) =~= b@.take(k) implies !((k
                == a@.len() && k < b@.len()) || (k < a@.len() && k < b@.len() && (a@[k] as u32)
                < (b@[k] as u32))) by {
            if k < i {
                assert(a@[k] == b@[k]);
            } else if k > i {
                assert(a@.take(k)[i as int] == b@.take(k)[i as int]);
            }
        }
    }
    r
}

/// The comparison once the semantic-version step is known: `parsed` is
/// `Some(g)` where both texts are valid versions and `g` tells whether the
/// candidate comes after the current one, `None` where either is not valid.
pub fn decide_newer(current: &str, candidate: &str, parsed: Option<bool>) -> (r: bool)
    ensures
        r == match parsed {
            Some(g) => g,
            None => text_newer(current@, candidate@),
        },
{
    match parsed {
        Some(g) => g,
        None => {
            let a = chars_of(current);
            let b = chars_of(candidate);
            let lt = text_before(&a, &b);
            if lt {
                assert(current@ != candidate@) by {
                    if current@ == candidate@ {
                        let k = choose|k: int|
                            #![trigger a@.take(k), b@.take(k)]
                            0 <= k <= a@.len() && k <= b@.len() && a@.take(k) =~= b@.take(k)
                                && ((k == a@.len() && k < b@.len()) || (k < a@.len() && k
                                < b@.len() && (a@[k] as u32) < (b@[k] as u32)));
                    }
                }
            }
            lt
        },
    }
}

/// Whether `latest` is a newer version than `current`.
pub fn compare_versions(current: &str, latest: &str) -> (r: bool)
    ensures
        r == is_newer(current@, latest@),
        current@ == latest@ ==> !r,
        r ==> !is_newer(latest@, current@),
{
    proof {
        text_less_asymmetric(current@, latest@);
    }
    let both = parses_as_semver(current) && parses_as_semver(latest);
    let parsed = if both {
        Some(semver_after(latest, current))
    } else {
        None
    };
    decide_newer(current, latest, parsed)
}

} // verus!
