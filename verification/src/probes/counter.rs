//! Distinct-device counting: fingerprints closer than a Hamming tolerance to
//! an earlier survivor are taken to come from the same device.

use vstd::prelude::*;

use crate::bits::{hamming, lemma_hamming_self, popcount};

verus! {

/// Largest Hamming distance at which two fingerprints still count as one device.
pub const HAMMING_TOLERANCE: u32 = 2;

/// `input` lies within `threshold` bits of some element of `survivors`.
pub open spec fn near_any(threshold: nat, input: u16, survivors: Seq<u16>) -> bool {
    exists|i: int| 0 <= i < survivors.len() && hamming(input, #[trigger] survivors[i]) <= threshold
}

/// The fingerprints that survive deduplication, in arrival order: the first
/// fingerprint always survives, a later one survives exactly when it is more
/// than `threshold` bits away from every survivor before it.
pub open spec fn survivors_of(threshold: nat, codes: Seq<u16>) -> Seq<u16>
    decreases codes.len(),
{
    if codes.len() == 0 {
        Seq::empty()
    } else {
        let earlier = survivors_of(threshold, codes.drop_last());
        if near_any(threshold, codes.last(), earlier) {
            earlier
        } else {
            earlier.push(codes.last())
        }
    }
}

/// Number of distinct devices behind a burst of fingerprints.
pub open spec fn count_distinct(codes: Seq<u16>) -> nat {
    survivors_of(HAMMING_TOLERANCE as nat, codes).len()
}

/// Any two survivors are more than `threshold` bits apart, the later taken first.
pub proof fn lemma_survivors_spread(threshold: nat, codes: Seq<u16>)
    ensures
        survivors_of(threshold, codes).len() <= codes.len(),
        codes.len() > 0 ==> survivors_of(threshold, codes).len() >= 1,
        codes.len() > 0 ==> survivors_of(threshold, codes)[0] == codes[0],
        forall|i: int, j: int|
            0 <= i < j < survivors_of(threshold, codes).len() ==> hamming(
                #[trigger] survivors_of(threshold, codes)[j],
                #[trigger] survivors_of(threshold, codes)[i],
            ) > threshold,
    decreases codes.len(),
{
    if codes.len() > 0 {
        let earlier = survivors_of(threshold, codes.drop_last());
        lemma_survivors_spread(threshold, codes.drop_last());
        if codes.len() == 1 {
            assert(earlier.len() == 0);
            assert(!near_any(threshold, codes.last(), earlier));
        }
    }
}

/// Survivors are pairwise different.
pub proof fn lemma_survivors_no_duplicates(threshold: nat, codes: Seq<u16>)
    ensures
        survivors_of(threshold, codes).no_duplicates(),
{
    let s = survivors_of(threshold, codes);
    lemma_survivors_spread(threshold, codes);
    assert forall|i: int, j: int| 0 <= i < s.len() && 0 <= j < s.len() && i != j implies s[i]
        != s[j] by {
        lemma_hamming_self(s[i]);
        if i < j {
            assert(hamming(s[j], s[i]) > threshold);
        } else {
            assert(hamming(s[i], s[j]) > threshold);
        }
    }
}

/// A sequence of pairwise different 16-bit values has at most 65536 elements.
pub proof fn lemma_distinct_codes_bound(s: Seq<u16>)
    requires
        s.no_duplicates(),
    ensures
        s.len() <= 0x1_0000,
{
    let ints = s.map_values(|c: u16| c as int);
    assert forall|i: int, j: int| 0 <= i < ints.len() && 0 <= j < ints.len() && i != j implies ints[i]
        != ints[j] by {
        assert(s[i] != s[j]);
    }
    ints.unique_seq_to_set();
    let range = vstd::set_lib::set_int_range(0, 0x1_0000);
    vstd::set_lib::lemma_int_range(0, 0x1_0000);
    assert forall|x: int| ints.to_set().contains(x) implies range.contains(x) by {
        let i = choose|i: int| 0 <= i < ints.len() && ints[i] == x;
        assert(ints[i] == s[i] as int);
    }
    vstd::set_lib::lemma_len_subset(ints.to_set(), range);
}

/// A burst of one fingerprint counts one device, an empty burst none.
pub proof fn lemma_count_single(c: u16)
    ensures
        count_distinct(seq![c]) == 1,
        count_distinct(Seq::<u16>::empty()) == 0,
{
    let one = seq![c];
    assert(one.drop_last() =~= Seq::<u16>::empty());
    assert(survivors_of(HAMMING_TOLERANCE as nat, one.drop_last()).len() == 0);
    assert(!near_any(
        HAMMING_TOLERANCE as nat,
        c,
        survivors_of(HAMMING_TOLERANCE as nat, one.drop_last()),
    ));
}

/// A second fingerprint within the tolerance of the first is the same device.
pub proof fn lemma_count_close_pair(first: u16, c: u16)
    requires
        popcount((c ^ first) as nat) <= 2,
    ensures
        count_distinct(seq![first, c]) == 1,
{
    let pair = seq![first, c];
    assert(pair.drop_last() =~= seq![first]);
    lemma_count_single(first);
    let earlier = survivors_of(HAMMING_TOLERANCE as nat, seq![first]);
    lemma_survivors_spread(HAMMING_TOLERANCE as nat, seq![first]);
    assert(earlier.len() == 1 && earlier[0] == first);
    assert(hamming(c, earlier[0]) <= HAMMING_TOLERANCE as nat);
    assert(near_any(HAMMING_TOLERANCE as nat, pair.last(), earlier));
}

/// A second fingerprint beyond the tolerance of the first is another device.
pub proof fn lemma_count_far_pair(first: u16, c: u16)
    requires
        popcount((c ^ first) as nat) > 2,
    ensures
        count_distinct(seq![first, c]) == 2,
{
    let pair = seq![first, c];
    assert(pair.drop_last() =~= seq![first]);
    lemma_count_single(first);
    let earlier = survivors_of(HAMMING_TOLERANCE as nat, seq![first]);
    lemma_survivors_spread(HAMMING_TOLERANCE as nat, seq![first]);
    assert(earlier.len() == 1 && earlier[0] == first);
    assert(!near_any(HAMMING_TOLERANCE as nat, pair.last(), earlier));
}

/// There are never more devices than fingerprints, never more than 65536, and
/// at least one as soon as there is a fingerprint.
pub proof fn lemma_count_bounds(codes: Seq<u16>)
    ensures
        count_distinct(codes) <= codes.len(),
        count_distinct(codes) <= 0x1_0000,
        codes.len() > 0 ==> count_distinct(codes) >= 1,
{
    lemma_survivors_spread(HAMMING_TOLERANCE as nat, codes);
    lemma_survivors_no_duplicates(HAMMING_TOLERANCE as nat, codes);
    lemma_distinct_codes_bound(survivors_of(HAMMING_TOLERANCE as nat, codes));
}

/// Whether `input` is within `threshold` bits of one of `survivors`.
pub fn is_duplicate(threshold: u32, input: u16, survivors: &[u16]) -> (found: bool)
    ensures
        found == near_any(threshold as nat, input, survivors@),
{
    let mut i: usize = 0;
    while i < survivors.len()
        invariant
            i <= survivors.len(),
            forall|k: int| 0 <= k < i ==> hamming(input, #[trigger] survivors@[k]) > threshold,
        decreases survivors.len() - i,
    {
        let dist: u32 = (input ^ survivors[i]).count_ones();
        if dist <= threshold {
            return true;
        }
        i += 1;
    }
    false
}

/// Reduces a burst of fingerprints to the number of distinct devices.
///
/// The first fingerprint seeds the survivors; each later one joins them only
/// if it is more than [`HAMMING_TOLERANCE`] bits away from all of them. The
/// count depends on arrival order: the first of two close fingerprints wins.
pub fn deduplicate_probes(input_fingerprints: &[u16]) -> (count: u32)
    ensures
        count == count_distinct(input_fingerprints@),
        count <= input_fingerprints@.len(),
        input_fingerprints@.len() > 0 ==> count >= 1,
{
    if input_fingerprints.len() == 0 {
        return 0;
    }
    let mut survivors: Vec<u16> = Vec::new();
    survivors.push(input_fingerprints[0]);
    proof {
        let first = input_fingerprints@.take(1);
        assert(first.drop_last() =~= Seq::<u16>::empty());
        assert(survivors_of(HAMMING_TOLERANCE as nat, first.drop_last()).len() == 0);
        assert(!near_any(
            HAMMING_TOLERANCE as nat,
            first.last(),
            survivors_of(HAMMING_TOLERANCE as nat, first.drop_last()),
        ));
        assert(survivors@ =~= survivors_of(HAMMING_TOLERANCE as nat, first));
    }
    let mut i: usize = 1;
    while i < input_fingerprints.len()
        invariant
            1 <= i <= input_fingerprints.len(),
            survivors@ == survivors_of(HAMMING_TOLERANCE as nat, input_fingerprints@.take(i as int)),
        decreases input_fingerprints.len() - i,
    {
        let fingerprint = input_fingerprints[i];
        proof {
            let next = input_fingerprints@.take(i + 1);
            assert(next.drop_last() =~= input_fingerprints@.take(i as int));
            assert(next.last() == fingerprint);
        }
        if !is_duplicate(HAMMING_TOLERANCE, fingerprint, survivors.as_slice()) {
            survivors.push(fingerprint);
        }
        i += 1;
    }
    proof {
        assert(input_fingerprints@.take(i as int) =~= input_fingerprints@);
        lemma_survivors_spread(HAMMING_TOLERANCE as nat, input_fingerprints@);
        lemma_survivors_no_duplicates(HAMMING_TOLERANCE as nat, input_fingerprints@);
        lemma_distinct_codes_bound(survivors@);
    }
    survivors.len() as u32
}

} // verus!
