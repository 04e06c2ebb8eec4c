//! The spectral band analyzer: buckets a magnitude spectrum into logarithmic
//! frequency bands and normalizes the loudest band to full scale.
//!
//! All arithmetic here is fixed-point: frequencies are in milli-hertz and
//! magnitudes in caller-chosen integer units (the application scales the
//! floating-point FFT output into them), so the whole bucketing, averaging
//! and normalization policy is verified exactly. Banding always uses the
//! fixed reference rate of 44100 Hz, independent of the track's actual rate.
//! The band edges themselves are log-spaced between 20 Hz and the Nyquist
//! frequency; being transcendental they are computed by the caller and
//! handed in as data.

use vstd::arithmetic::div_mod::{lemma_div_is_ordered, lemma_div_multiples_vanish};
use vstd::arithmetic::div_mod::lemma_div_pos_is_pos;
use vstd::arithmetic::mul::lemma_mul_inequality;
use vstd::prelude::*;

verus! {

/// The FFT length: how many interleaved stereo frames one analysis reads.
pub const EQ_BUFFER_SIZE: usize = 512;

/// Half the fixed 44100 Hz reference sample rate, in milli-hertz.
pub const NYQUIST_MILLI_HZ: u64 = 22050000;

/// Bins below 20 Hz carry no musical information and are discarded.
pub const MIN_FREQ_MILLI_HZ: u64 = 20000;

/// Full scale of a normalized band value: the loudest band maps to this.
pub const BAND_SCALE: u64 = 1000;

/// Upper bound on one magnitude, so that band sums and the final scaling
/// stay inside `u64`.
pub const MAG_LIMIT: u64 = 0x10000000000;

/// Upper bound on the spectrum length, for the same reason.
pub const MAX_SPECTRUM_BINS: usize = 65536;

/// The frequency of FFT bin `i` out of `n_bins`, in milli-hertz: bins are
/// evenly spaced from 0 up to the Nyquist frequency.
pub open spec fn bin_freq_milli(i: int, n_bins: int) -> int {
    i * NYQUIST_MILLI_HZ / n_bins
}

/// The first band whose half-open edge interval contains `f`, searching from
/// band `b` upwards; `None` when no interval from `b` on matches.
pub open spec fn band_of_from(f: int, edges: Seq<u64>, b: int) -> Option<int>
    decreases edges.len() - b,
{
    if b < 0 || b + 1 >= edges.len() {
        None
    } else if edges[b] <= f < edges[b + 1] {
        Some(b)
    } else {
        band_of_from(f, edges, b + 1)
    }
}

/// The band that FFT bin `i` contributes to: none when its frequency lies
/// outside `[20 Hz, Nyquist]`, otherwise the first matching edge interval.
pub open spec fn bin_band(i: int, n_bins: int, edges: Seq<u64>) -> Option<int> {
    let f = bin_freq_milli(i, n_bins);
    if MIN_FREQ_MILLI_HZ <= f <= NYQUIST_MILLI_HZ {
        band_of_from(f, edges, 0)
    } else {
        None
    }
}

/// Sum of the magnitudes of the first `upto` bins assigned to band `b`.
pub open spec fn band_sum(mags: Seq<u64>, edges: Seq<u64>, b: int, upto: int) -> int
    decreases upto,
{
    if upto <= 0 {
        0
    } else {
        band_sum(mags, edges, b, upto - 1) + (if bin_band(upto - 1, mags.len() as int, edges)
            == Some(b) {
            mags[upto - 1] as int
        } else {
            0
        })
    }
}

/// How many of the first `upto` bins are assigned to band `b`.
pub open spec fn band_count(mags: Seq<u64>, edges: Seq<u64>, b: int, upto: int) -> int
    decreases upto,
{
    if upto <= 0 {
        0
    } else {
        band_count(mags, edges, b, upto - 1) + (if bin_band(upto - 1, mags.len() as int, edges)
            == Some(b) {
            1int
        } else {
            0int
        })
    }
}

/// The un-normalized value of band `b`: the arithmetic mean (truncating) of
/// its assigned bins, or 0 when no bin was assigned to it.
pub open spec fn raw_band(mags: Seq<u64>, edges: Seq<u64>, b: int) -> int {
    let n = mags.len() as int;
    if band_count(mags, edges, b, n) > 0 {
        band_sum(mags, edges, b, n) / band_count(mags, edges, b, n)
    } else {
        0
    }
}

/// The largest un-normalized value among bands `0 .. upto` (0 when empty).
pub open spec fn max_raw_upto(mags: Seq<u64>, edges: Seq<u64>, upto: int) -> int
    decreases upto,
{
    if upto <= 0 {
        0
    } else {
        let prev = max_raw_upto(mags, edges, upto - 1);
        let cur = raw_band(mags, edges, upto - 1);
        if cur > prev {
            cur
        } else {
            prev
        }
    }
}

/// The full analysis: every band averaged and then scaled so that the
/// loudest band is exactly `BAND_SCALE`; all bands stay 0 when the loudest
/// is 0, so silence never divides by zero.
pub open spec fn bands_spec(mags: Seq<u64>, edges: Seq<u64>) -> Seq<int> {
    let nb = edges.len() - 1;
    let m = max_raw_upto(mags, edges, nb);
    Seq::new(
        nb as nat,
        |b: int|
            if m > 0 {
                raw_band(mags, edges, b) * BAND_SCALE / m
            } else {
                0
            },
    )
}

/// Band sums and counts of bounded magnitudes are themselves bounded:
/// the sum never exceeds the count times the magnitude bound.
pub proof fn lemma_band_sum_bound(mags: Seq<u64>, edges: Seq<u64>, b: int, upto: int)
    requires
        0 <= upto <= mags.len(),
        forall|i: int| 0 <= i < mags.len() ==> mags[i] <= MAG_LIMIT,
    ensures
        0 <= band_count(mags, edges, b, upto) <= upto,
        0 <= band_sum(mags, edges, b, upto) <= band_count(mags, edges, b, upto) * MAG_LIMIT,
    decreases upto,
{
    if upto > 0 {
        lemma_band_sum_bound(mags, edges, b, upto - 1);
    }
}

/// Every un-normalized band value is non-negative and, for bounded
/// magnitudes, at most the magnitude bound.
pub proof fn lemma_raw_band_bound(mags: Seq<u64>, edges: Seq<u64>, b: int)
    requires
        forall|i: int| 0 <= i < mags.len() ==> mags[i] <= MAG_LIMIT,
    ensures
        0 <= raw_band(mags, edges, b) <= MAG_LIMIT,
{
    let n = mags.len() as int;
    lemma_band_sum_bound(mags, edges, b, n);
    let c = band_count(mags, edges, b, n);
    let s = band_sum(mags, edges, b, n);
    if c > 0 {
        lemma_div_pos_is_pos(s, c);
        lemma_div_is_ordered(s, c * MAG_LIMIT, c);
        lemma_div_multiples_vanish(MAG_LIMIT as int, c);
    }
}

/// Every un-normalized band value is at most the running maximum.
pub proof fn lemma_max_raw_ge(mags: Seq<u64>, edges: Seq<u64>, b: int, upto: int)
    requires
        0 <= b < upto,
    ensures
        raw_band(mags, edges, b) <= max_raw_upto(mags, edges, upto),
    decreases upto,
{
    if b < upto - 1 {
        lemma_max_raw_ge(mags, edges, b, upto - 1);
    }
}

/// The running maximum of un-normalized band values is non-negative, and
/// when positive it is attained by some band.
pub proof fn lemma_max_raw_attained(mags: Seq<u64>, edges: Seq<u64>, upto: int)
    ensures
        0 <= max_raw_upto(mags, edges, upto),
        max_raw_upto(mags, edges, upto) > 0 ==> exists|k: int|
            0 <= k < upto && raw_band(mags, edges, k) == max_raw_upto(mags, edges, upto),
    decreases upto,
{
    if upto > 0 {
        lemma_max_raw_attained(mags, edges, upto - 1);
    }
}

/// Silence: when every magnitude is zero, every band is zero: the
/// normalization never divides by zero.
pub proof fn lemma_silence_gives_zero_bands(mags: Seq<u64>, edges: Seq<u64>)
    requires
        edges.len() >= 1,
        forall|i: int| 0 <= i < mags.len() ==> mags[i] == 0,
    ensures
        forall|b: int|
            0 <= b < edges.len() - 1 ==> #[trigger] bands_spec(mags, edges)[b] == 0,
{
    let nb = edges.len() - 1;
    assert forall|b: int| 0 <= b < nb implies raw_band(mags, edges, b) == 0 by {
        lemma_zero_band_sum(mags, edges, b, mags.len() as int);
        let c = band_count(mags, edges, b, mags.len() as int);
        if c > 0 {
            assert(0int / c == 0) by {
                lemma_div_multiples_vanish(0, c);
            };
        }
    };
    lemma_max_raw_zero(mags, edges, nb);
}

/// With all magnitudes zero, every band sum is zero.
proof fn lemma_zero_band_sum(mags: Seq<u64>, edges: Seq<u64>, b: int, upto: int)
    requires
        upto <= mags.len(),
        forall|i: int| 0 <= i < mags.len() ==> mags[i] == 0,
    ensures
        band_sum(mags, edges, b, upto) == 0,
    decreases upto,
{
    if upto > 0 {
        lemma_zero_band_sum(mags, edges, b, upto - 1);
    }
}

/// When every un-normalized band value is zero, so is the running maximum.
proof fn lemma_max_raw_zero(mags: Seq<u64>, edges: Seq<u64>, upto: int)
    requires
        forall|b: int| 0 <= b < upto ==> #[trigger] raw_band(mags, edges, b) == 0,
    ensures
        max_raw_upto(mags, edges, upto) == 0,
    decreases upto,
{
    if upto > 0 {
        lemma_max_raw_zero(mags, edges, upto - 1);
    }
}

/// Normalization: every band lands in `[0, BAND_SCALE]`, and whenever any
/// band carries signal at all, some band is exactly `BAND_SCALE`: the
/// loudest one.
pub proof fn lemma_normalization(mags: Seq<u64>, edges: Seq<u64>)
    requires
        edges.len() >= 1,
        forall|i: int| 0 <= i < mags.len() ==> mags[i] <= MAG_LIMIT,
    ensures
        forall|b: int|
            0 <= b < edges.len() - 1 ==> 0 <= #[trigger] bands_spec(mags, edges)[b] <= BAND_SCALE,
        max_raw_upto(mags, edges, edges.len() - 1) > 0 ==> exists|k: int|
            0 <= k < edges.len() - 1 && #[trigger] bands_spec(mags, edges)[k] == BAND_SCALE,
{
    let nb = edges.len() - 1;
    let m = max_raw_upto(mags, edges, nb);
    lemma_max_raw_attained(mags, edges, nb);
    assert forall|b: int| 0 <= b < nb implies 0 <= #[trigger] bands_spec(mags, edges)[b]
        <= BAND_SCALE by {
        if m > 0 {
            let raw = raw_band(mags, edges, b);
            lemma_raw_band_bound(mags, edges, b);
            lemma_max_raw_ge(mags, edges, b, nb);
            lemma_mul_inequality(raw, m, BAND_SCALE as int);
            lemma_div_is_ordered(raw * BAND_SCALE, m * BAND_SCALE, m);
            lemma_div_multiples_vanish(BAND_SCALE as int, m);
            lemma_div_pos_is_pos(raw * BAND_SCALE, m);
            lemma_mul_inequality(0, raw, BAND_SCALE as int);
        }
    };
    if m > 0 {
        let k = choose|k: int| 0 <= k < nb && raw_band(mags, edges, k) == m;
        assert(bands_spec(mags, edges)[k] == m * BAND_SCALE / m);
        lemma_div_multiples_vanish(BAND_SCALE as int, m);
        assert(m * BAND_SCALE == BAND_SCALE * m) by {
            vstd::arithmetic::mul::lemma_mul_is_commutative(m, BAND_SCALE as int);
        };
        assert(bands_spec(mags, edges)[k] == BAND_SCALE);
    }
}

/// First matching logarithmic band for the frequency `f` (in milli-hertz),
/// by linear search over the edge intervals.
fn find_band(f: u64, edges: &Vec<u64>) -> (r: Option<usize>)
    ensures
        match r {
            Some(b) => b + 1 < edges@.len() && band_of_from(f as int, edges@, 0) == Some(b as int),
            None => band_of_from(f as int, edges@, 0) is None,
        },
{
    if edges.len() == 0 {
        return None;
    }
    let mut b: usize = 0;
    while b + 1 < edges.len()
        invariant
            edges@.len() <= usize::MAX,
            b < edges@.len(),
            band_of_from(f as int, edges@, 0) == band_of_from(f as int, edges@, b as int),
        decreases edges@.len() - b,
    {
        if edges[b] <= f && f < edges[b + 1] {
            return Some(b);
        }
        b = b + 1;
    }
    None
}

/// Buckets a magnitude spectrum into the given bands.
///
/// `band_edges_milli` holds the `n + 1` edges (in milli-hertz) of `n`
/// half-open bands `[edge[b], edge[b+1])`. Bins outside `[20 Hz, Nyquist]`
/// are discarded; each remaining bin joins the first band whose interval
/// contains its frequency; each band is the truncating mean of its bins
/// (0 with no bins); and everything is scaled so the loudest band is exactly
/// `BAND_SCALE`, or left all-zero when there is no signal.
pub fn split_into_bands(magnitudes: &Vec<u64>, band_edges_milli: &Vec<u64>) -> (r: Vec<u64>)
    requires
        band_edges_milli@.len() >= 1,
        magnitudes@.len() <= MAX_SPECTRUM_BINS,
        forall|i: int| 0 <= i < magnitudes@.len() ==> magnitudes@[i] <= MAG_LIMIT,
    ensures
        r@.len() == band_edges_milli@.len() - 1,
        forall|b: int|
            0 <= b < r@.len() ==> r@[b] == bands_spec(magnitudes@, band_edges_milli@)[b],
        forall|b: int| 0 <= b < r@.len() ==> r@[b] <= BAND_SCALE,
{
    let n_bins = magnitudes.len();
    let nb = band_edges_milli.len() - 1;

    let mut sums: Vec<u64> = Vec::new();
    let mut counts: Vec<u64> = Vec::new();
    let mut k: usize = 0;
    while k < nb
        invariant
            k <= nb,
            sums@.len() == k,
            counts@.len() == k,
            forall|b: int| 0 <= b < k ==> sums@[b] == 0 && counts@[b] == 0,
        decreases nb - k,
    {
        sums.push(0);
        counts.push(0);
        k = k + 1;
    }

    // Assign each bin's magnitude to its band.
    let mut i: usize = 0;
    while i < n_bins
        invariant
            n_bins == magnitudes@.len(),
            magnitudes@.len() <= MAX_SPECTRUM_BINS,
            forall|j: int| 0 <= j < magnitudes@.len() ==> magnitudes@[j] <= MAG_LIMIT,
            nb == band_edges_milli@.len() - 1,
            i <= n_bins,
            sums@.len() == nb,
            counts@.len() == nb,
            forall|b: int|
                0 <= b < nb ==> sums@[b] == band_sum(magnitudes@, band_edges_milli@, b, i as int),
            forall|b: int|
                0 <= b < nb ==> counts@[b] == band_count(
                    magnitudes@,
                    band_edges_milli@,
                    b,
                    i as int,
                ),
        decreases n_bins - i,
    {
        let f = (i as u64) * NYQUIST_MILLI_HZ / (n_bins as u64);
        proof {
            assert(f == bin_freq_milli(i as int, magnitudes@.len() as int));
        }
        if MIN_FREQ_MILLI_HZ <= f && f <= NYQUIST_MILLI_HZ {
            match find_band(f, band_edges_milli) {
                Some(b0) => {
                    proof {
                        assert(bin_band(i as int, magnitudes@.len() as int, band_edges_milli@)
                            == Some(b0 as int));
                        lemma_band_sum_bound(magnitudes@, band_edges_milli@, b0 as int, i as int);
                    }
                    sums[b0] = sums[b0] + magnitudes[i];
                    counts[b0] = counts[b0] + 1;
                    proof {
                        assert(forall|b: int|
                            0 <= b < nb ==> sums@[b] == band_sum(
                                magnitudes@,
                                band_edges_milli@,
                                b,
                                i as int + 1,
                            ));
                        assert(forall|b: int|
                            0 <= b < nb ==> counts@[b] == band_count(
                                magnitudes@,
                                band_edges_milli@,
                                b,
                                i as int + 1,
                            ));
                    }
                },
                None => {
                    proof {
                        assert(bin_band(i as int, magnitudes@.len() as int, band_edges_milli@)
                            is None);
                    }
                },
            }
        } else {
            proof {
                assert(bin_band(i as int, magnitudes@.len() as int, band_edges_milli@) is None);
            }
        }
        i = i + 1;
    }

    // Average each band over its bin count.
    let mut raw: Vec<u64> = Vec::new();
    let mut b: usize = 0;
    while b < nb
        invariant
            nb == band_edges_milli@.len() - 1,
            n_bins == magnitudes@.len(),
            forall|j: int| 0 <= j < magnitudes@.len() ==> magnitudes@[j] <= MAG_LIMIT,
            b <= nb,
            sums@.len() == nb,
            counts@.len() == nb,
            raw@.len() == b,
            forall|j: int|
                0 <= j < nb ==> sums@[j] == band_sum(
                    magnitudes@,
                    band_edges_milli@,
                    j,
                    n_bins as int,
                ),
            forall|j: int|
                0 <= j < nb ==> counts@[j] == band_count(
                    magnitudes@,
                    band_edges_milli@,
                    j,
                    n_bins as int,
                ),
            forall|j: int|
                0 <= j < b ==> raw@[j] == raw_band(magnitudes@, band_edges_milli@, j),
            forall|j: int| 0 <= j < b ==> raw@[j] <= MAG_LIMIT,
        decreases nb - b,
    {
        proof {
            lemma_raw_band_bound(magnitudes@, band_edges_milli@, b as int);
        }
        if counts[b] > 0 {
            raw.push(sums[b] / counts[b]);
        } else {
            raw.push(0);
        }
        b = b + 1;
    }

    // Find the loudest band.
    let mut maxv: u64 = 0;
    let mut b: usize = 0;
    while b < nb
        invariant
            nb == band_edges_milli@.len() - 1,
            b <= nb,
            raw@.len() == nb,
            forall|j: int|
                0 <= j < nb ==> raw@[j] == raw_band(magnitudes@, band_edges_milli@, j),
            forall|j: int| 0 <= j < nb ==> raw@[j] <= MAG_LIMIT,
            maxv == max_raw_upto(magnitudes@, band_edges_milli@, b as int),
            maxv <= MAG_LIMIT,
        decreases nb - b,
    {
        if raw[b] > maxv {
            maxv = raw[b];
        }
        b = b + 1;
    }

    // Scale so the loudest band is full scale; silence stays all-zero.
    let mut out: Vec<u64> = Vec::new();
    let mut b: usize = 0;
    while b < nb
        invariant
            nb == band_edges_milli@.len() - 1,
            forall|j: int| 0 <= j < magnitudes@.len() ==> magnitudes@[j] <= MAG_LIMIT,
            b <= nb,
            raw@.len() == nb,
            forall|j: int|
                0 <= j < nb ==> raw@[j] == raw_band(magnitudes@, band_edges_milli@, j),
            forall|j: int| 0 <= j < nb ==> raw@[j] <= MAG_LIMIT,
            maxv == max_raw_upto(magnitudes@, band_edges_milli@, nb as int),
            maxv <= MAG_LIMIT,
            out@.len() == b,
            forall|j: int|
                0 <= j < b ==> out@[j] == bands_spec(magnitudes@, band_edges_milli@)[j],
            forall|j: int| 0 <= j < b ==> out@[j] <= BAND_SCALE,
        decreases nb - b,
    {
        if maxv > 0 {
            proof {
                let raw_b = raw_band(magnitudes@, band_edges_milli@, b as int);
                let m = maxv as int;
                lemma_raw_band_bound(magnitudes@, band_edges_milli@, b as int);
                lemma_max_raw_ge(magnitudes@, band_edges_milli@, b as int, nb as int);
                lemma_mul_inequality(raw_b, m, BAND_SCALE as int);
                lemma_div_is_ordered(raw_b * BAND_SCALE, m * BAND_SCALE, m);
                lemma_div_multiples_vanish(BAND_SCALE as int, m);
            }
            out.push(raw[b] * BAND_SCALE / maxv);
        } else {
            out.push(0);
        }
        b = b + 1;
    }
    out
}

/// The interleaved sample offset that corresponds to an elapsed playback
/// position: `elapsed_ms * samplerate * channels / 1000`, truncating.
pub fn sample_offset(elapsed_ms: usize, samplerate: usize, channels: usize) -> (r: usize)
    requires
        samplerate >= 1,
        channels >= 1,
        elapsed_ms * samplerate * channels <= usize::MAX,
    ensures
        r == elapsed_ms * samplerate * channels / 1000,
{
    proof {
        assert(elapsed_ms * samplerate <= elapsed_ms * samplerate * channels) by (nonlinear_arith)
            requires
                channels >= 1,
                elapsed_ms >= 0,
                samplerate >= 0,
        ;
    }
    elapsed_ms * samplerate * channels / 1000
}

} // verus!
