//! Per-channel occupancy statistics and the reflag directive.
//!
//! An [`Occupancy`] wraps the decoded per-channel flag counts of one
//! [`BitFlagArchive`].  From it, [`Occupancy::reflag`] derives the ordered
//! list of channels whose flag fraction strictly exceeds a threshold; the
//! caller writes one metadata scalar per entry, keyed by
//! [`reflag_key_name`], into a byte-for-byte copy of the archive file.
//!
//! The threshold is an exact rational, so the strict comparison
//! `count / total > threshold` is decided without any rounding: it holds
//! exactly when `count * denom > numer * total`.

use vstd::prelude::*;

use crate::errors::ValueError;
use crate::flags::{lemma_occupancy_bound, BitFlagArchive};
use vstd::arithmetic::mul::lemma_mul_upper_bound;

use crate::numfmt::pad2_digits;
use crate::numfmt::u64_to_string_pad2;

verus! {

/// Per-channel occupancy statistics derived from one flag archive.
pub struct Occupancy {
    /// The file the statistics are derived from.
    pub mwaf_file: String,
    /// How often each fine channel was flagged.
    pub flag_counts_per_channel: Vec<u32>,
    /// The number of samples per channel; a channel's flag fraction is its
    /// count divided by this.
    pub total_samples_per_channel: u32,
}

impl Occupancy {
    /// The statistics are exactly those of archive `a`.
    pub open spec fn derived_from(self, a: BitFlagArchive) -> bool {
        &&& self.flag_counts_per_channel@.len() == a.channel_count
        &&& forall|c: int|
            0 <= c < a.channel_count ==> self.flag_counts_per_channel@[c] == a.flag_count(c)
        &&& self.total_samples_per_channel == a.total_samples()
    }

    /// Decodes an archive into its per-channel statistics.
    pub fn new(archive: &BitFlagArchive, mwaf_file: String) -> (r: Occupancy)
        requires
            archive.wf(),
        ensures
            r.derived_from(*archive),
            r.mwaf_file@ == mwaf_file@,
    {
        let counts = archive.decode_channel_histograms();
        let total = archive.num_samples();
        Occupancy {
            mwaf_file,
            flag_counts_per_channel: counts,
            total_samples_per_channel: total,
        }
    }

    /// Decides which channels a reflag directive marks.  Fails exactly when
    /// the threshold lies outside `(0, 1]`; otherwise the entries mark, in
    /// ascending channel order with ordinals from 0, every channel whose
    /// flag fraction strictly exceeds the threshold.
    pub fn reflag(&self, threshold: Threshold) -> (r: Result<Vec<ReflagEntry>, ValueError>)
        requires
            threshold.valid(),
            self.flag_counts_per_channel@.len() <= u32::MAX,
        ensures
            ({
                let chans = exceeding_channels(
                    self.flag_counts_per_channel@,
                    self.total_samples_per_channel,
                    threshold,
                    self.flag_counts_per_channel@.len(),
                );
                match r {
                    Ok(d) => threshold.in_range() && directive_matches(d@, chans),
                    Err(ValueError::ThresholdOutOfRange) => !threshold.in_range(),
                    Err(_) => false,
                }
            }),
    {
        if threshold.numer == 0 || threshold.numer > threshold.denom {
            return Err(ValueError::ThresholdOutOfRange);
        }
        let counts = &self.flag_counts_per_channel;
        let total = self.total_samples_per_channel;
        let mut directive: Vec<ReflagEntry> = Vec::new();
        let mut i: usize = 0;
        while i < counts.len()
            invariant
                i <= counts@.len() <= u32::MAX,
                threshold.valid(),
                counts == self.flag_counts_per_channel,
                total == self.total_samples_per_channel,
                directive@.len() <= i,
                directive_matches(
                    directive@,
                    exceeding_channels(counts@, total, threshold, i as nat),
                ),
            decreases counts@.len() - i,
        {
            let ghost prev = exceeding_channels(counts@, total, threshold, i as nat);
            let ghost i0 = i as nat;
            let ghost dprev = directive@;
            proof {
                lemma_mul_upper_bound(
                    counts@[i as int] as int,
                    u32::MAX as int,
                    threshold.denom as int,
                    u64::MAX as int,
                );
                lemma_mul_upper_bound(
                    threshold.numer as int,
                    u64::MAX as int,
                    total as int,
                    u32::MAX as int,
                );
            }
            if counts[i] as u128 * threshold.denom as u128 > threshold.numer as u128
                * total as u128 {
                let ordinal = directive.len() as u32;
                directive.push(ReflagEntry { ordinal, channel: i as u32 });
            }
            i = i + 1;
            proof {
                let next = exceeding_channels(counts@, total, threshold, i as nat);
                assert(i as nat == i0 + 1);
                assert(next == prev + if exceeds(counts@[i0 as int], total, threshold) {
                    seq![(i0 as u32)]
                } else {
                    Seq::<u32>::empty()
                });
                if exceeds(counts@[i0 as int], total, threshold) {
                    assert(next.len() == prev.len() + 1);
                    assert(next[prev.len() as int] == i0 as u32);
                    assert(directive@ == dprev.push(
                        ReflagEntry { ordinal: dprev.len() as u32, channel: i0 as u32 },
                    ));
                } else {
                    assert(directive@ == dprev);
                }
                assert(directive_matches(dprev, prev));
                assert forall|k: int| 0 <= k < directive@.len() implies (#[trigger] directive@[k]).ordinal
                    == k && directive@[k].channel == next[k] by {
                    if k < dprev.len() {
                        assert(directive@[k] == dprev[k]);
                        assert(dprev[k].ordinal == k && dprev[k].channel == prev[k]);
                        assert(next[k] == prev[k]);
                    } else {
                        assert(k == dprev.len());
                        assert(directive@[k].channel == i0 as u32);
                        assert(next[k] == i0 as u32);
                    }
                }
                assert(directive_matches(directive@, next));
            }
        }
        Ok(directive)
    }
}

/// An occupancy threshold, the exact rational `numer / denom`.
#[derive(Clone, Copy, Debug, PartialEq, Eq, Structural)]
pub struct Threshold {
    pub numer: u64,
    pub denom: u64,
}

impl Threshold {
    /// A rational needs a non-zero denominator.
    pub open spec fn valid(self) -> bool {
        self.denom > 0
    }

    /// The threshold lies in `(0, 1]`.
    pub open spec fn in_range(self) -> bool {
        0 < self.numer <= self.denom
    }
}

/// Whether `count` flags out of `total` samples strictly exceed threshold
/// `t`, that is `count / total > t` in exact rational arithmetic.
pub open spec fn exceeds(count: u32, total: u32, t: Threshold) -> bool {
    count * t.denom > t.numer * total
}

/// One entry of a reflag directive: metadata key ordinal and the 0-based
/// channel it marks.
#[derive(Clone, Copy, Debug, PartialEq, Eq, Structural)]
pub struct ReflagEntry {
    pub ordinal: u32,
    pub channel: u32,
}

/// Directive `d` lists exactly the channels `chans`, in order, with
/// ordinals counted from 0.
pub open spec fn directive_matches(d: Seq<ReflagEntry>, chans: Seq<u32>) -> bool {
    &&& d.len() == chans.len()
    &&& forall|k: int|
        0 <= k < d.len() ==> (#[trigger] d[k]).ordinal == k && d[k].channel == chans[k]
}

/// The channels among the first `k` whose flag fraction strictly exceeds
/// `t`, in ascending order.
pub open spec fn exceeding_channels(counts: Seq<u32>, total: u32, t: Threshold, k: nat) -> Seq<u32>
    decreases k,
{
    if k == 0 {
        Seq::<u32>::empty()
    } else {
        exceeding_channels(counts, total, t, (k - 1) as nat) + if exceeds(
            counts[k - 1],
            total,
            t,
        ) {
            seq![((k - 1) as u32)]
        } else {
            Seq::<u32>::empty()
        }
    }
}

/// The metadata key of directive entry `ordinal`: `REFLG_` followed by the
/// ordinal zero-padded to two digits.
pub open spec fn reflag_key_chars(ordinal: nat) -> Seq<char> {
    seq!['R', 'E', 'F', 'L', 'G', '_'] + pad2_digits(ordinal)
}

/// Renders the metadata key of directive entry `ordinal`.
pub fn reflag_key_name(ordinal: u32) -> (s: String)
    ensures
        s@ == reflag_key_chars(ordinal as nat),
{
    proof {
        reveal_strlit("REFLG_");
    }
    let mut s = String::from_str("REFLG_");
    let digits = u64_to_string_pad2(ordinal as u64);
    s.append(digits.as_str());
    s
}

/// The sum of the first `k` elements of a count vector.
pub open spec fn sum_counts(counts: Seq<u32>, k: nat) -> int
    decreases k,
{
    if k == 0 {
        0
    } else {
        sum_counts(counts, (k - 1) as nat) + counts[k - 1]
    }
}

/// For every archive, each per-channel flag count is at most the number of
/// samples, and the summed counts are at most
/// `total_samples * channel_count`.
pub proof fn lemma_counts_sum_bound(a: BitFlagArchive, o: Occupancy, k: nat)
    requires
        a.wf(),
        o.derived_from(a),
        k <= a.channel_count,
    ensures
        forall|c: int|
            0 <= c < a.channel_count ==> o.flag_counts_per_channel@[c]
                <= o.total_samples_per_channel,
        sum_counts(o.flag_counts_per_channel@, k) <= o.total_samples_per_channel * k,
    decreases k,
{
    lemma_occupancy_bound(a, k);
    assert forall|c: int| 0 <= c < a.channel_count implies o.flag_counts_per_channel@[c]
        <= o.total_samples_per_channel by {
        assert(o.flag_counts_per_channel@[c] == a.flag_count(c));
        assert(a.flag_count(c) <= a.total_samples());
    }
    if k > 0 {
        lemma_counts_sum_bound(a, o, (k - 1) as nat);
        assert(o.total_samples_per_channel * k == o.total_samples_per_channel * (k - 1)
            + o.total_samples_per_channel) by (nonlinear_arith);
    }
}

/// Decoding is idempotent: two statistics derived from the same archive
/// hold identical counts and totals.
pub proof fn lemma_decode_idempotent(a: BitFlagArchive, o1: Occupancy, o2: Occupancy)
    requires
        o1.derived_from(a),
        o2.derived_from(a),
    ensures
        o1.flag_counts_per_channel@ == o2.flag_counts_per_channel@,
        o1.total_samples_per_channel == o2.total_samples_per_channel,
{
    assert forall|c: int| 0 <= c < a.channel_count implies o1.flag_counts_per_channel@[c]
        == o2.flag_counts_per_channel@[c] by {
        assert(o1.flag_counts_per_channel@[c] == a.flag_count(c));
        assert(o2.flag_counts_per_channel@[c] == a.flag_count(c));
    }
    assert(o1.flag_counts_per_channel@ =~= o2.flag_counts_per_channel@);
}

} // verus!
