//! The pattern scan over a device's private region.
//!
//! The region is unstructured memory. The scan looks for two adjacent
//! pointer-words: the address of a class device, followed by a word that is taken
//! for the class driver's service callback. Whether the second word is taken is
//! decided by a heuristic, [`accepts`], and by nothing else.

use vstd::prelude::*;
use crate::kernel::ULONG_PTR;

verus! {

/// The acceptance heuristic for one pair of adjacent words.
///
/// The first word must be the address of the class device under examination. The
/// second must be numerically greater than the address of the class driver
/// object. That is a coarse test that the word lies above the driver object in
/// the address space. It is no range check against the driver's code, and it can
/// accept a word that is no callback.
pub open spec fn accepts_pair(
    first: ULONG_PTR,
    second: ULONG_PTR,
    class_device: ULONG_PTR,
    class_driver: ULONG_PTR,
) -> bool {
    first == class_device && second > class_driver
}

/// Decides whether a pair of adjacent words is accepted.
pub fn accepts(
    first: ULONG_PTR,
    second: ULONG_PTR,
    class_device: ULONG_PTR,
    class_driver: ULONG_PTR,
) -> (accepted: bool)
    ensures
        accepted == accepts_pair(first, second, class_device, class_driver),
{
    first == class_device && second > class_driver
}

/// The number of adjacent pairs in a region of `words` pointer-words.
pub open spec fn pair_count(words: nat) -> nat {
    if words == 0 {
        0
    } else {
        (words - 1) as nat
    }
}

/// Whether the pair that starts at word `at` exists and is accepted.
pub open spec fn matches_at(
    words: Seq<ULONG_PTR>,
    at: int,
    class_device: ULONG_PTR,
    class_driver: ULONG_PTR,
) -> bool {
    &&& 0 <= at
    &&& at + 1 < words.len()
    &&& accepts_pair(words[at], words[at + 1], class_device, class_driver)
}

/// Whether `at` starts the first accepted pair of the region.
pub open spec fn is_first_match(
    words: Seq<ULONG_PTR>,
    at: int,
    class_device: ULONG_PTR,
    class_driver: ULONG_PTR,
) -> bool {
    &&& matches_at(words, at, class_device, class_driver)
    &&& forall|earlier: int|
        0 <= earlier < at ==> !#[trigger] matches_at(words, earlier, class_device, class_driver)
}

/// Where the first accepted pair of the region starts, if any pair is accepted.
pub open spec fn first_match(
    words: Seq<ULONG_PTR>,
    class_device: ULONG_PTR,
    class_driver: ULONG_PTR,
) -> Option<int> {
    if exists|at: int| is_first_match(words, at, class_device, class_driver) {
        Some(choose|at: int| is_first_match(words, at, class_device, class_driver))
    } else {
        None
    }
}

/// What one scan of a region found, and how much work it did.
#[derive(Clone, Copy, Debug, PartialEq, Eq, Structural)]
pub struct ScanOutcome {
    /// Where the first accepted pair starts.
    pub found: Option<usize>,
    /// How many pairs were held against the heuristic.
    pub comparisons: usize,
}

/// The outcome of scanning `words` for a class device: the first accepted pair,
/// reached after examining every pair before it and no pair after it.
pub open spec fn scan_outcome(
    words: Seq<ULONG_PTR>,
    class_device: ULONG_PTR,
    class_driver: ULONG_PTR,
) -> ScanOutcome {
    match first_match(words, class_device, class_driver) {
        Some(at) => ScanOutcome { found: Some(at as usize), comparisons: (at + 1) as usize },
        None => ScanOutcome { found: None, comparisons: pair_count(words.len()) as usize },
    }
}

/// The first accepted pair is the only position that `is_first_match` holds of.
pub proof fn lemma_first_match_is(
    words: Seq<ULONG_PTR>,
    at: int,
    class_device: ULONG_PTR,
    class_driver: ULONG_PTR,
)
    requires
        is_first_match(words, at, class_device, class_driver),
    ensures
        first_match(words, class_device, class_driver) == Some(at),
{
    let chosen = choose|k: int| is_first_match(words, k, class_device, class_driver);
    assert(is_first_match(words, chosen, class_device, class_driver));
    if chosen < at {
        assert(!matches_at(words, chosen, class_device, class_driver));
    }
    if at < chosen {
        assert(!matches_at(words, at, class_device, class_driver));
    }
}

/// A region in which no pair is accepted has no first match.
pub proof fn lemma_first_match_none(
    words: Seq<ULONG_PTR>,
    class_device: ULONG_PTR,
    class_driver: ULONG_PTR,
)
    requires
        forall|at: int| !#[trigger] matches_at(words, at, class_device, class_driver),
    ensures
        first_match(words, class_device, class_driver) is None,
{
}

/// Where any pair is accepted, there is a first accepted pair, and it starts no
/// later.
pub proof fn lemma_first_match_exists(
    words: Seq<ULONG_PTR>,
    at: int,
    class_device: ULONG_PTR,
    class_driver: ULONG_PTR,
) -> (first: int)
    requires
        matches_at(words, at, class_device, class_driver),
    ensures
        first <= at,
        is_first_match(words, first, class_device, class_driver),
        first_match(words, class_device, class_driver) == Some(first),
    decreases at,
{
    if exists|earlier: int|
        0 <= earlier < at && matches_at(words, earlier, class_device, class_driver) {
        let earlier = choose|earlier: int|
            0 <= earlier < at && matches_at(words, earlier, class_device, class_driver);
        lemma_first_match_exists(words, earlier, class_device, class_driver)
    } else {
        lemma_first_match_is(words, at, class_device, class_driver);
        at
    }
}

/// Scans a private region for the first pair that the heuristic accepts.
///
/// Pairs are examined from the lowest address up, and the scan stops at the
/// first accepted one. A region of `n` words has `n - 1` pairs, so no scan makes
/// more than `n - 1` comparisons.
pub fn scan_region(
    words: &Vec<ULONG_PTR>,
    class_device: ULONG_PTR,
    class_driver: ULONG_PTR,
) -> (out: ScanOutcome)
    ensures
        out == scan_outcome(words@, class_device, class_driver),
        out.found matches Some(at) ==> is_first_match(
            words@,
            at as int,
            class_device,
            class_driver,
        ),
        out.found is None ==> forall|at: int|
            !#[trigger] matches_at(words@, at, class_device, class_driver),
        out.comparisons <= pair_count(words@.len()),
{
    let n = words.len();
    let mut at: usize = 0;
    while at + 1 < n
        invariant
            n == words@.len(),
            at <= pair_count(n as nat),
            forall|earlier: int|
                0 <= earlier < at ==> !#[trigger] matches_at(
                    words@,
                    earlier,
                    class_device,
                    class_driver,
                ),
        decreases n - at,
    {
        if accepts(words[at], words[at + 1], class_device, class_driver) {
            proof {
                lemma_first_match_is(words@, at as int, class_device, class_driver);
            }
            return ScanOutcome { found: Some(at), comparisons: at + 1 };
        }
        at = at + 1;
    }
    proof {
        lemma_first_match_none(words@, class_device, class_driver);
    }
    ScanOutcome { found: None, comparisons: at }
}

} // verus!
