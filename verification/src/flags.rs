//! In-memory model of a packed-bit RFI flag archive, and the verified
//! decode of its per-channel flag counts.
//!
//! The archive stores one bit per (baseline, scan, fine channel) sample.
//! Bit `b` (0 = least significant) of the byte in column `s` of a row
//! encodes fine channel `7 * (s + 1) + s - b`; this fixed, non-obvious
//! convention is kept exactly as the file format defines it.

use vstd::prelude::*;

use vstd::arithmetic::mul::lemma_mul_upper_bound;

use crate::errors::FormatError;

verus! {

/// Whether bit `b` (0 = least significant) of `v` is set.
pub open spec fn bit_set(v: u8, b: u8) -> bool {
    (v >> b) & 1 == 1
}

/// The fine channel encoded by bit `b` of byte column `s`.
pub open spec fn bit_to_channel(s: nat, b: nat) -> int {
    7 * (s + 1) + s - b
}

/// The channel convention is its own inverse: bit `b` of column `s`
/// addresses channel `7*(s+1)+s-b`, and that channel is addressed by
/// column `c / 8` and bit `7 - c % 8`, as the decoded counts state it.
pub proof fn lemma_bit_to_channel_inverse(s: nat, b: nat)
    requires
        b < 8,
    ensures
        ({
            let c = bit_to_channel(s, b);
            &&& 8 * s <= c < 8 * (s + 1)
            &&& c / 8 == s
            &&& 7 - c % 8 == b
        }),
{
    let c = bit_to_channel(s, b);
    assert(c == 8 * s + 7 - b);
    assert(c / 8 == s && c % 8 == 7 - b) by (nonlinear_arith)
        requires
            c == 8 * s + 7 - b,
            b < 8,
    ;
}

/// The byte in column `s` of row `t` of a buffer of `w`-byte rows.
pub open spec fn row_byte(buf: Seq<u8>, w: nat, s: nat, t: nat) -> u8 {
    buf[(t * w + s) as int]
}

/// How many of the first `t` rows have bit `b` set in byte column `s`.
pub open spec fn rows_with_bit(buf: Seq<u8>, w: nat, s: nat, b: u8, t: nat) -> nat
    decreases t,
{
    if t == 0 {
        0
    } else {
        rows_with_bit(buf, w, s, b, (t - 1) as nat) + if bit_set(
            row_byte(buf, w, s, (t - 1) as nat),
            b,
        ) {
            1nat
        } else {
            0nat
        }
    }
}

/// How many of the first `t` rows hold byte value `v` in column `s`.
pub open spec fn rows_with_value(buf: Seq<u8>, w: nat, s: nat, v: u8, t: nat) -> nat
    decreases t,
{
    if t == 0 {
        0
    } else {
        rows_with_value(buf, w, s, v, (t - 1) as nat) + if row_byte(buf, w, s, (t - 1) as nat)
            == v {
            1nat
        } else {
            0nat
        }
    }
}

/// Over all `t` rows, how many have bit `b` set in column `s` by a byte
/// value below `vmax`.  At `vmax == 256` this is every row with the bit set;
/// the decode loop walks `vmax` upward while it unpacks the histogram.
pub open spec fn bit_count_below(buf: Seq<u8>, w: nat, s: nat, b: u8, t: nat, vmax: nat) -> nat
    decreases vmax,
{
    if vmax == 0 {
        0
    } else {
        bit_count_below(buf, w, s, b, t, (vmax - 1) as nat) + if bit_set((vmax - 1) as u8, b) {
            rows_with_value(buf, w, s, (vmax - 1) as u8, t)
        } else {
            0nat
        }
    }
}

proof fn lemma_rows_with_bit_le(buf: Seq<u8>, w: nat, s: nat, b: u8, t: nat)
    ensures
        rows_with_bit(buf, w, s, b, t) <= t,
    decreases t,
{
    if t > 0 {
        lemma_rows_with_bit_le(buf, w, s, b, (t - 1) as nat);
    }
}

proof fn lemma_rows_with_value_le(buf: Seq<u8>, w: nat, s: nat, v: u8, t: nat)
    ensures
        rows_with_value(buf, w, s, v, t) <= t,
    decreases t,
{
    if t > 0 {
        lemma_rows_with_value_le(buf, w, s, v, (t - 1) as nat);
    }
}

proof fn lemma_bit_count_below_zero_rows(buf: Seq<u8>, w: nat, s: nat, b: u8, vmax: nat)
    ensures
        bit_count_below(buf, w, s, b, 0, vmax) == 0,
    decreases vmax,
{
    if vmax > 0 {
        lemma_bit_count_below_zero_rows(buf, w, s, b, (vmax - 1) as nat);
    }
}

/// Adding one row changes each partial unpacked count by exactly the
/// contribution of that row's byte.
proof fn lemma_bit_count_below_step_row(buf: Seq<u8>, w: nat, s: nat, b: u8, t: nat, vmax: nat)
    requires
        t >= 1,
        vmax <= 256,
    ensures
        bit_count_below(buf, w, s, b, t, vmax) == bit_count_below(buf, w, s, b, (t - 1) as nat, vmax)
            + if bit_set(row_byte(buf, w, s, (t - 1) as nat), b) && (row_byte(
            buf,
            w,
            s,
            (t - 1) as nat,
        ) as nat) < vmax {
            1nat
        } else {
            0nat
        },
    decreases vmax,
{
    if vmax > 0 {
        lemma_bit_count_below_step_row(buf, w, s, b, t, (vmax - 1) as nat);
        let prev_byte = row_byte(buf, w, s, (t - 1) as nat);
        assert(rows_with_value(buf, w, s, (vmax - 1) as u8, t) == rows_with_value(
            buf,
            w,
            s,
            (vmax - 1) as u8,
            (t - 1) as nat,
        ) + if prev_byte == (vmax - 1) as u8 {
            1nat
        } else {
            0nat
        });
        assert((prev_byte as nat) < vmax <==> (prev_byte as nat) < vmax - 1 || prev_byte == (vmax
            - 1) as u8);
    }
}

/// Unpacking a complete 256-bucket histogram of a column counts exactly the
/// rows with the bit set.
proof fn lemma_bit_count_below_full(buf: Seq<u8>, w: nat, s: nat, b: u8, t: nat)
    ensures
        bit_count_below(buf, w, s, b, t, 256) == rows_with_bit(buf, w, s, b, t),
    decreases t,
{
    if t == 0 {
        lemma_bit_count_below_zero_rows(buf, w, s, b, 256);
    } else {
        lemma_bit_count_below_full(buf, w, s, b, (t - 1) as nat);
        lemma_bit_count_below_step_row(buf, w, s, b, t, 256);
    }
}

proof fn lemma_bit_count_below_mono(
    buf: Seq<u8>,
    w: nat,
    s: nat,
    b: u8,
    t: nat,
    v1: nat,
    v2: nat,
)
    requires
        v1 <= v2,
    ensures
        bit_count_below(buf, w, s, b, t, v1) <= bit_count_below(buf, w, s, b, t, v2),
    decreases v2,
{
    if v1 < v2 {
        lemma_bit_count_below_mono(buf, w, s, b, t, v1, (v2 - 1) as nat);
    }
}

/// Loop invariant of the histogram unpack: the running total of the channel
/// addressed by bit `bb` of column `s` counts exactly the rows whose byte in
/// that column is below `vlim` and has the bit set.
pub open spec fn unpack_state(
    a: BitFlagArchive,
    total: Seq<u32>,
    s: nat,
    bb: u8,
    vlim: nat,
) -> bool {
    8 * s + 7 - bb < a.channel_count ==> total[8 * s + 7 - bb] == bit_count_below(
        a.raw_bits@,
        a.row_width_bytes as nat,
        s,
        bb,
        a.total_samples(),
        vlim,
    )
}

/// A packed-bit flag archive: header scalars and the raw bit buffer,
/// exactly as stored.
pub struct BitFlagArchive {
    /// Number of fine channels per row.
    pub channel_count: u32,
    /// Number of antennas; baselines include auto-correlations.
    pub antenna_count: u32,
    /// Number of time scans.
    pub scan_count: u32,
    /// Bytes per (baseline, scan) row.
    pub row_width_bytes: u32,
    /// `baseline_count * scan_count` rows of `row_width_bytes` bytes.
    pub raw_bits: Vec<u8>,
}

impl BitFlagArchive {
    /// Number of baselines, auto-correlations included.
    pub open spec fn baseline_count(self) -> nat {
        (self.antenna_count * (self.antenna_count + 1) / 2) as nat
    }

    /// One sample per (baseline, scan) pair.
    pub open spec fn total_samples(self) -> nat {
        (self.baseline_count() * self.scan_count) as nat
    }

    /// The archive's invariant, established by [`BitFlagArchive::new`].
    pub open spec fn wf(self) -> bool {
        &&& self.channel_count > 0
        &&& self.antenna_count > 0
        &&& self.scan_count > 0
        &&& self.row_width_bytes > 0
        &&& self.channel_count <= 8 * self.row_width_bytes
        &&& self.total_samples() <= u32::MAX
        &&& self.raw_bits@.len() == self.total_samples() * self.row_width_bytes
    }

    /// How often fine channel `c` is flagged over all rows.
    pub open spec fn flag_count(self, c: int) -> nat {
        rows_with_bit(
            self.raw_bits@,
            self.row_width_bytes as nat,
            (c / 8) as nat,
            (7 - c % 8) as u8,
            self.total_samples(),
        )
    }

    /// Builds an archive from the header scalars and the raw buffer of a
    /// flag file, validating the invariant the format promises.
    pub fn new(
        channel_count: u32,
        antenna_count: u32,
        scan_count: u32,
        row_width_bytes: u32,
        raw_bits: Vec<u8>,
    ) -> (r: Result<BitFlagArchive, FormatError>)
        ensures
            ({
                let a = BitFlagArchive {
                    channel_count,
                    antenna_count,
                    scan_count,
                    row_width_bytes,
                    raw_bits: raw_bits,
                };
                let dims_ok = channel_count > 0 && antenna_count > 0 && scan_count > 0
                    && row_width_bytes > 0 && channel_count <= 8 * row_width_bytes;
                let fits = a.total_samples() <= u32::MAX;
                match r {
                    Ok(out) => {
                        &&& out.wf()
                        &&& out.channel_count == channel_count
                        &&& out.antenna_count == antenna_count
                        &&& out.scan_count == scan_count
                        &&& out.row_width_bytes == row_width_bytes
                        &&& out.raw_bits@ == a.raw_bits@
                        &&& dims_ok
                        &&& fits
                    },
                    Err(FormatError::BadDimensions) => !dims_ok,
                    Err(FormatError::TooManySamples) => dims_ok && !fits,
                    Err(FormatError::BufferLengthMismatch) => dims_ok && fits && a.raw_bits@.len()
                        != a.total_samples() * row_width_bytes,
                    Err(_) => false,
                }
            }),
    {
        if channel_count == 0 || antenna_count == 0 || scan_count == 0 || row_width_bytes == 0
            || channel_count as u64 > 8 * row_width_bytes as u64 {
            return Err(FormatError::BadDimensions);
        }
        proof {
            lemma_mul_upper_bound(
                antenna_count as int,
                u32::MAX as int,
                antenna_count as int + 1,
                u32::MAX as int + 1,
            );
        }
        let baselines: u128 = antenna_count as u128 * (antenna_count as u128 + 1) / 2;
        proof {
            lemma_mul_upper_bound(baselines as int, u64::MAX as int, scan_count as int, u32::MAX as int);
        }
        let total: u128 = baselines * scan_count as u128;
        if total > u32::MAX as u128 {
            return Err(FormatError::TooManySamples);
        }
        proof {
            lemma_mul_upper_bound(total as int, u32::MAX as int, row_width_bytes as int, u32::MAX as int);
        }
        let expected: u128 = total * row_width_bytes as u128;
        if raw_bits.len() as u128 != expected {
            return Err(FormatError::BufferLengthMismatch);
        }
        Ok(
            BitFlagArchive {
                channel_count,
                antenna_count,
                scan_count,
                row_width_bytes,
                raw_bits,
            },
        )
    }

    /// The number of samples per channel, `baseline_count * scan_count`.
    pub fn num_samples(&self) -> (r: u32)
        requires
            self.wf(),
        ensures
            r == self.total_samples(),
    {
        proof {
            lemma_mul_upper_bound(
                self.antenna_count as int,
                u32::MAX as int,
                self.antenna_count as int + 1,
                u32::MAX as int + 1,
            );
        }
        let baselines: u128 = self.antenna_count as u128 * (self.antenna_count as u128 + 1) / 2;
        proof {
            lemma_mul_upper_bound(
                baselines as int,
                u64::MAX as int,
                self.scan_count as int,
                u32::MAX as int,
            );
        }
        (baselines * self.scan_count as u128) as u32
    }

    /// Decodes the per-channel flag counts with one 256-bucket byte
    /// histogram per byte column, unpacked once per column, so the cost is
    /// O(width * (rows + 256 * 8)) instead of O(rows * width * 8).
    pub fn decode_channel_histograms(&self) -> (r: Vec<u32>)
        requires
            self.wf(),
        ensures
            r@.len() == self.channel_count,
            forall|c: int|
                0 <= c < self.channel_count ==> r@[c] == self.flag_count(c),
            forall|c: int|
                0 <= c < self.channel_count ==> r@[c] <= self.total_samples(),
    {
        let ghost buf = self.raw_bits@;
        let w: usize = self.row_width_bytes as usize;
        let n_chans: usize = self.channel_count as usize;
        let rows: usize = self.num_samples() as usize;
        let n_bytes: usize = self.raw_bits.len();
        let mut total: Vec<u32> = zeroes_u32(n_chans);

        let mut s: usize = 0;
        while s < w
            invariant
                self.wf(),
                buf == self.raw_bits@,
                w == self.row_width_bytes,
                n_chans == self.channel_count,
                rows == self.total_samples(),
                s <= w,
                n_bytes == buf.len(),
                rows * w == n_bytes,
                total@.len() == n_chans,
                forall|c: int|
                    0 <= c < n_chans && c < 8 * s ==> total@[c] == self.flag_count(c),
                forall|c: int| 8 * s <= c < n_chans ==> total@[c] == 0,
            decreases w - s,
        {
            // First pass: histogram of the byte values in column `s`.
            let mut hist: Vec<u32> = zeroes_u32(256);
            let mut t: usize = 0;
            while t < rows
                invariant
                    self.wf(),
                    buf == self.raw_bits@,
                    w == self.row_width_bytes,
                    rows == self.total_samples(),
                    s < w,
                    t <= rows,
                    n_bytes == buf.len(),
                    rows * w == n_bytes,
                    hist@.len() == 256,
                    forall|v: int|
                        0 <= v < 256 ==> hist@[v] == rows_with_value(
                            buf,
                            w as nat,
                            s as nat,
                            v as u8,
                            t as nat,
                        ),
                decreases rows - t,
            {
                proof {
                    assert(t * w + s < rows * w) by (nonlinear_arith)
                        requires
                            t < rows,
                            s < w,
                    ;
                    assert(t * w + s < n_bytes);
                    assert forall|vv: u8|
                        rows_with_value(buf, w as nat, s as nat, vv, t as nat) <= t by {
                        lemma_rows_with_value_le(buf, w as nat, s as nat, vv, t as nat);
                    }
                }
                let idx: usize = t * w + s;
                let byte = self.raw_bits[idx];
                let h = hist[byte as usize];
                hist[byte as usize] = h + 1;
                t = t + 1;
            }

            // Second pass: unpack each possible byte value into the channels
            // its set bits address.
            let mut v: usize = 0;
            while v < 256
                invariant
                    self.wf(),
                    buf == self.raw_bits@,
                    w == self.row_width_bytes,
                    n_chans == self.channel_count,
                    rows == self.total_samples(),
                    s < w,
                    v <= 256,
                    hist@.len() == 256,
                    total@.len() == n_chans,
                    forall|vv: int|
                        0 <= vv < 256 ==> hist@[vv] == rows_with_value(
                            buf,
                            w as nat,
                            s as nat,
                            vv as u8,
                            rows as nat,
                        ),
                    forall|c: int|
                        0 <= c < n_chans && c < 8 * s ==> total@[c] == self.flag_count(c),
                    forall|c: int| 8 * (s + 1) <= c < n_chans ==> total@[c] == 0,
                    forall|bb: u8|
                        bb < 8 ==> #[trigger] unpack_state(*self, total@, s as nat, bb, v as nat),
                decreases 256 - v,
            {
                let ghost v0 = v as nat;
                let vb: u8 = v as u8;
                let mut b: u8 = 0;
                while b < 8
                    invariant
                        self.wf(),
                        buf == self.raw_bits@,
                        w == self.row_width_bytes,
                        n_chans == self.channel_count,
                        rows == self.total_samples(),
                        s < w,
                        v < 256,
                        vb == v as u8,
                        b <= 8,
                        hist@.len() == 256,
                        total@.len() == n_chans,
                        forall|vv: int|
                            0 <= vv < 256 ==> hist@[vv] == rows_with_value(
                                buf,
                                w as nat,
                                s as nat,
                                vv as u8,
                                rows as nat,
                            ),
                        forall|c: int|
                            0 <= c < n_chans && c < 8 * s ==> total@[c] == self.flag_count(c),
                        forall|c: int| 8 * (s + 1) <= c < n_chans ==> total@[c] == 0,
                        forall|bb: u8|
                            bb < b ==> #[trigger] unpack_state(
                                *self,
                                total@,
                                s as nat,
                                bb,
                                v as nat + 1,
                            ),
                        forall|bb: u8|
                            b <= bb < 8 ==> #[trigger] unpack_state(
                                *self,
                                total@,
                                s as nat,
                                bb,
                                v as nat,
                            ),
                    decreases 8 - b,
                {
                    let ghost prev = total@;
                    let ch: u64 = 8 * (s as u64) + 7 - (b as u64);
                    if ch < n_chans as u64 && (vb >> b) & 1 == 1 {
                        proof {
                            assert(unpack_state(*self, total@, s as nat, b, v as nat));
                            lemma_bit_count_below_mono(
                                buf,
                                w as nat,
                                s as nat,
                                b,
                                rows as nat,
                                v as nat + 1,
                                256,
                            );
                            lemma_bit_count_below_full(buf, w as nat, s as nat, b, rows as nat);
                            lemma_rows_with_bit_le(buf, w as nat, s as nat, b, rows as nat);
                        }
                        let chu: usize = ch as usize;
                        let cur = total[chu];
                        total[chu] = cur + hist[v];
                    }
                    proof {
                        assert forall|bb: u8| bb < b + 1 implies #[trigger] unpack_state(
                            *self,
                            total@,
                            s as nat,
                            bb,
                            v as nat + 1,
                        ) by {
                            let vm: nat = v as nat + 1;
                            assert(vm - 1 == v as nat);
                            assert((vm - 1) as u8 == vb);
                            assert(bit_count_below(buf, w as nat, s as nat, bb, rows as nat, vm)
                                == bit_count_below(
                                buf,
                                w as nat,
                                s as nat,
                                bb,
                                rows as nat,
                                v as nat,
                            ) + if bit_set(vb, bb) {
                                rows_with_value(buf, w as nat, s as nat, vb, rows as nat)
                            } else {
                                0nat
                            });
                            if bb < b {
                                assert(unpack_state(*self, prev, s as nat, bb, vm));
                                assert(8 * (s as nat) + 7 - bb != 8 * (s as nat) + 7 - b);
                            } else {
                                assert(unpack_state(*self, prev, s as nat, bb, v as nat));
                            }
                        }
                        assert forall|bb: u8| b + 1 <= bb < 8 implies #[trigger] unpack_state(
                            *self,
                            total@,
                            s as nat,
                            bb,
                            v as nat,
                        ) by {
                            assert(unpack_state(*self, prev, s as nat, bb, v as nat));
                            assert(8 * (s as nat) + 7 - bb != 8 * (s as nat) + 7 - b);
                        }
                    }
                    b = b + 1;
                }
                proof {
                    assert forall|bb: u8| bb < 8 implies #[trigger] unpack_state(
                        *self,
                        total@,
                        s as nat,
                        bb,
                        v as nat + 1,
                    ) by {
                        assert(unpack_state(*self, total@, s as nat, bb, v as nat + 1));
                    }
                }
                v = v + 1;
                proof {
                    assert forall|bb: u8| bb < 8 implies #[trigger] unpack_state(
                        *self,
                        total@,
                        s as nat,
                        bb,
                        v as nat,
                    ) by {
                        assert(unpack_state(*self, total@, s as nat, bb, v0 + 1));
                        assert(v as nat == v0 + 1);
                    }
                }
            }
            proof {
                assert forall|c: int| 8 * s <= c < 8 * (s + 1) && c < n_chans implies total@[c]
                    == self.flag_count(c) by {
                    let bb = (8 * s + 7 - c) as u8;
                    assert(bb < 8);
                    assert(8 * s as nat + 7 - bb == c);
                    assert(unpack_state(*self, total@, s as nat, bb, 256));
                    lemma_bit_count_below_full(buf, w as nat, s as nat, bb, rows as nat);
                    assert(c / 8 == s as int && 7 - c % 8 == bb);
                }
            }
            s = s + 1;
        }
        proof {
            assert forall|c: int| 0 <= c < n_chans implies total@[c] == self.flag_count(c) by {
                assert(c < 8 * w);
            }
            assert forall|c: int| 0 <= c < n_chans implies total@[c]
                <= self.total_samples() by {
                assert(c < 8 * w);
                assert(total@[c] == self.flag_count(c));
                lemma_rows_with_bit_le(
                    buf,
                    self.row_width_bytes as nat,
                    (c / 8) as nat,
                    (7 - c % 8) as u8,
                    self.total_samples(),
                );
            }
        }
        total
    }
}

/// The sum of the first `k` per-channel flag counts of an archive.
pub open spec fn sum_flag_counts(a: BitFlagArchive, k: nat) -> nat
    decreases k,
{
    if k == 0 {
        0
    } else {
        sum_flag_counts(a, (k - 1) as nat) + a.flag_count(k - 1)
    }
}

/// Every channel's flag count is at most the number of samples, so the sum
/// of all per-channel counts is at most `total_samples * channel_count`.
pub proof fn lemma_occupancy_bound(a: BitFlagArchive, k: nat)
    requires
        a.wf(),
        k <= a.channel_count,
    ensures
        forall|c: int| #![trigger a.flag_count(c)]
            0 <= c < a.channel_count ==> a.flag_count(c) <= a.total_samples(),
        sum_flag_counts(a, k) <= a.total_samples() * k,
    decreases k,
{
    assert forall|c: int| 0 <= c < a.channel_count implies a.flag_count(c)
        <= a.total_samples() by {
        lemma_rows_with_bit_le(
            a.raw_bits@,
            a.row_width_bytes as nat,
            (c / 8) as nat,
            (7 - c % 8) as u8,
            a.total_samples(),
        );
    }
    if k > 0 {
        lemma_occupancy_bound(a, (k - 1) as nat);
        assert(a.total_samples() * k == a.total_samples() * (k - 1) + a.total_samples())
            by (nonlinear_arith);
    }
}

fn zeroes_u32(n: usize) -> (r: Vec<u32>)
    ensures
        r@.len() == n,
        forall|i: int| 0 <= i < n ==> r@[i] == 0,
{
    let mut v: Vec<u32> = Vec::new();
    let mut i: usize = 0;
    while i < n
        invariant
            i <= n,
            v@.len() == i,
            forall|j: int| 0 <= j < i ==> v@[j] == 0,
        decreases n - i,
    {
        v.push(0);
        i = i + 1;
    }
    v
}

} // verus!
