//! The histogram compute pass and its readback handshake.
//!
//! The compute pass scans a rendered RGBA buffer and accumulates 256
//! luminance bins: every texel increments exactly the bin of its luminance,
//! so the bins always total the texel count. The result lives in a device
//! buffer; reading it back crosses the device-to-host boundary through a
//! staging buffer that becomes readable only after the device confirms the
//! copy. That handshake is a protocol, not a computation: the waiter
//! consumes the outcomes of successive device polls and must resolve on
//! every possible outcome sequence — map confirmed, map failed, or polls
//! exhausted — and never read the staging bytes early and never hang.
//! A histogram is all-or-nothing: a failed readback yields an error, never
//! a partial count.

use vstd::prelude::*;

use crate::bytes::lemma_words_roundtrip;
use crate::bytes::words_from_bytes;
use crate::bytes::words_to_bytes;
use crate::color::luma;
use crate::color::luma_channel;
use crate::image::pixel_at;
use crate::image::pixel_buffer;

verus! {

/// Number of histogram bins.
pub const HISTOGRAM_BINS: usize = 256;

/// The bin a pixel falls into: its integer luminance.
pub open spec fn bin_of(pix: Seq<u8>, i: int) -> int {
    luma(pixel_at(pix, i).r, pixel_at(pix, i).g, pixel_at(pix, i).b) as int
}

/// How many of the first `n` pixels fall into bin `b`.
pub open spec fn bin_count(pix: Seq<u8>, b: int, n: int) -> int
    decreases n,
{
    if n <= 0 {
        0
    } else {
        bin_count(pix, b, n - 1) + if bin_of(pix, n - 1) == b {
            1int
        } else {
            0int
        }
    }
}

/// The histogram of a pixel buffer: one count per bin.
pub open spec fn histogram_of(pix: Seq<u8>) -> Seq<int> {
    Seq::new(256, |b: int| bin_count(pix, b, pix.len() as int / 4))
}

/// Sum of all bin counters.
pub open spec fn total_count(bins: Seq<u32>) -> int
    decreases bins.len(),
{
    if bins.len() == 0 {
        0
    } else {
        total_count(bins.drop_last()) + bins.last()
    }
}

/// Sum of a histogram's counts.
pub open spec fn total_of(h: Seq<int>) -> int
    decreases h.len(),
{
    if h.len() == 0 {
        0
    } else {
        total_of(h.drop_last()) + h.last()
    }
}

/// A histogram of zeroes totals zero.
pub proof fn lemma_total_of_all_zero(h: Seq<int>)
    requires
        forall|i: int| 0 <= i < h.len() ==> h[i] == 0,
    ensures
        total_of(h) == 0,
    decreases h.len(),
{
    if h.len() > 0 {
        lemma_total_of_all_zero(h.drop_last());
    }
}

/// Replacing one count moves the total by exactly the difference.
pub proof fn lemma_total_of_update(h: Seq<int>, j: int, v: int)
    requires
        0 <= j < h.len(),
    ensures
        total_of(h.update(j, v)) == total_of(h) + v - h[j],
    decreases h.len(),
{
    let t = h.update(j, v);
    if j == h.len() - 1 {
        assert(t.drop_last() =~= h.drop_last());
    } else {
        assert(t.drop_last() =~= h.drop_last().update(j, v));
        lemma_total_of_update(h.drop_last(), j, v);
    }
}

/// Counting the first `n` pixels into 256 bins accounts for each exactly
/// once: the bins total `n`.
pub proof fn lemma_bin_counts_total(pix: Seq<u8>, n: int)
    requires
        0 <= n,
    ensures
        total_of(Seq::new(256, |b: int| bin_count(pix, b, n))) == n,
    decreases n,
{
    let cur = Seq::new(256, |b: int| bin_count(pix, b, n));
    if n == 0 {
        lemma_total_of_all_zero(cur);
    } else {
        lemma_bin_counts_total(pix, n - 1);
        let prev = Seq::new(256, |b: int| bin_count(pix, b, n - 1));
        let t = bin_of(pix, n - 1);
        assert(0 <= t < 256);
        assert(cur =~= prev.update(t, prev[t] + 1));
        lemma_total_of_update(prev, t, prev[t] + 1);
    }
}

/// The law of the histogram pass: its bins always total the pixel count of
/// the graded buffer — the width times height of the source texture —
/// whatever the settings of the grading pass were.
pub proof fn lemma_histogram_total(s: crate::settings::Settings, pix: Seq<u8>)
    requires
        pixel_buffer(pix),
    ensures
        total_of(histogram_of(crate::renderer::rendered(s, pix))) == pix.len() / 4,
{
    let out = crate::renderer::rendered(s, pix);
    assert(out.len() == pix.len());
    lemma_bin_counts_total(out, out.len() as int / 4);
    assert(histogram_of(out) =~= Seq::new(256, |b: int| bin_count(out, b, out.len() as int / 4)));
}

/// A bin holds at most as many pixels as were counted.
pub proof fn lemma_bin_count_bound(pix: Seq<u8>, b: int, n: int)
    requires
        n >= 0,
    ensures
        0 <= bin_count(pix, b, n) <= n,
    decreases n,
{
    if n > 0 {
        lemma_bin_count_bound(pix, b, n - 1);
    }
}

/// Replacing one counter moves the total by exactly the difference.
pub proof fn lemma_total_update(bins: Seq<u32>, j: int, v: u32)
    requires
        0 <= j < bins.len(),
    ensures
        total_count(bins.update(j, v)) == total_count(bins) + v - bins[j],
    decreases bins.len(),
{
    let t = bins.update(j, v);
    if j == bins.len() - 1 {
        assert(t.drop_last() =~= bins.drop_last());
    } else {
        assert(t.drop_last() =~= bins.drop_last().update(j, v));
        lemma_total_update(bins.drop_last(), j, v);
    }
}

/// Computes the luminance histogram of a rendered RGBA buffer: the model of
/// the compute shader, one bin increment per texel. The counters total
/// exactly the number of pixels, whatever the buffer holds.
pub fn histogram(pix: &Vec<u8>) -> (bins: Vec<u32>)
    requires
        pixel_buffer(pix@),
        pix@.len() / 4 <= u32::MAX,
    ensures
        bins@.len() == HISTOGRAM_BINS,
        forall|b: int| 0 <= b < 256 ==> bins@[b] == bin_count(pix@, b, pix@.len() as int / 4),
        bins@.map_values(|c: u32| c as int) == histogram_of(pix@),
        total_count(bins@) == pix@.len() / 4,
{
    let len: usize = pix.len();
    let n: usize = len / 4;
    proof {
        vstd::arithmetic::div_mod::lemma_fundamental_div_mod(len as int, 4);
    }
    let mut bins: Vec<u32> = Vec::new();
    let mut b: usize = 0;
    while b < HISTOGRAM_BINS
        invariant
            b <= HISTOGRAM_BINS,
            bins@.len() == b,
            forall|j: int| 0 <= j < b ==> bins@[j] == 0u32,
            total_count(bins@) == 0,
        decreases HISTOGRAM_BINS - b,
    {
        let ghost pre = bins@;
        bins.push(0u32);
        proof {
            assert(bins@.drop_last() =~= pre);
            assert(bins@.last() == 0u32);
        }
        b += 1;
    }
    let mut i: usize = 0;
    while i < n
        invariant
            len == pix@.len(),
            len == 4 * n,
            n <= u32::MAX,
            pixel_buffer(pix@),
            i <= n,
            bins@.len() == HISTOGRAM_BINS,
            forall|j: int| 0 <= j < 256 ==> bins@[j] == bin_count(pix@, j, i as int),
            total_count(bins@) == i,
        decreases n - i,
    {
        let l: u8 = luma_channel(pix[4 * i], pix[4 * i + 1], pix[4 * i + 2]);
        let idx: usize = l as usize;
        let ghost pre = bins@;
        proof {
            lemma_bin_count_bound(pix@, idx as int, i as int);
            lemma_total_update(pre, idx as int, (pre[idx as int] + 1) as u32);
        }
        let c: u32 = bins[idx];
        let slot: &mut u32 = &mut bins[idx];
        *slot = c + 1;
        proof {
            assert(bins@ == pre.update(idx as int, (c + 1) as u32));
            assert(bin_of(pix@, i as int) == idx);
            assert forall|j: int| 0 <= j < 256 implies bins@[j] == bin_count(
                pix@,
                j,
                i + 1,
            ) by {
                assert(bin_count(pix@, j, i + 1) == bin_count(pix@, j, i as int) + (
                if bin_of(pix@, i as int) == j {
                    1int
                } else {
                    0int
                }));
            }
        }
        i += 1;
    }
    proof {
        assert(bins@.map_values(|c: u32| c as int) =~= histogram_of(pix@));
    }
    bins
}

/// What one device poll reported while waiting on the staging-buffer map.
#[derive(Clone, Copy, Debug, PartialEq, Eq, Structural)]
pub enum PollStatus {
    /// The copy into the staging buffer is not confirmed yet.
    Pending,
    /// The device confirmed the copy; the mapped bytes may be read.
    Complete,
    /// The device reported that the map failed.
    Failed,
}

/// Failure of a histogram readback.
#[derive(Clone, Copy, Debug, PartialEq, Eq, Structural)]
pub enum ReadbackError {
    /// Every poll was consumed and the device never confirmed the copy.
    Timeout,
    /// The device reported a failed map.
    MapFailed,
}

/// How the handshake resolves for a sequence of poll outcomes: the first
/// non-pending poll decides — `Ok` with its position when the device
/// confirmed the copy, the map failure if it reported one — and a sequence
/// of nothing but pending polls is a timeout.
pub open spec fn readback_outcome(polls: Seq<PollStatus>) -> Result<int, ReadbackError>
    decreases polls.len(),
{
    if polls.len() == 0 {
        Err(ReadbackError::Timeout)
    } else {
        match polls.first() {
            PollStatus::Complete => Ok(0),
            PollStatus::Failed => Err(ReadbackError::MapFailed),
            PollStatus::Pending => match readback_outcome(polls.drop_first()) {
                Ok(i) => Ok(i + 1),
                Err(e) => Err(e),
            },
        }
    }
}

/// The readback handshake resolves successfully within the polls.
pub open spec fn readback_resolves(polls: Seq<PollStatus>) -> bool {
    readback_outcome(polls) is Ok
}

/// An outcome of a suffix, seen from the whole sequence.
pub open spec fn outcome_from(r: Result<int, ReadbackError>, i: int) -> Result<
    int,
    ReadbackError,
> {
    match r {
        Ok(k) => Ok(k + i),
        Err(e) => Err(e),
    }
}

/// Waits on the one-shot completion signal of the staging-buffer map by
/// consuming device poll outcomes in order. Resolves on every outcome
/// sequence — the position of the confirming poll, or the error — and an
/// exhausted sequence is a timeout, never a hang.
pub fn resolve_readback(polls: &Vec<PollStatus>) -> (r: Result<usize, ReadbackError>)
    ensures
        match r {
            Ok(i) => readback_outcome(polls@) == Ok::<int, ReadbackError>(i as int),
            Err(e) => readback_outcome(polls@) == Err::<int, ReadbackError>(e),
        },
{
    let n: usize = polls.len();
    let mut i: usize = 0;
    proof {
        assert(polls@.skip(0) =~= polls@);
    }
    while i < n
        invariant
            n == polls@.len(),
            i <= n,
            readback_outcome(polls@) == outcome_from(
                readback_outcome(polls@.skip(i as int)),
                i as int,
            ),
        decreases n - i,
    {
        let ghost suffix = polls@.skip(i as int);
        proof {
            assert(suffix.len() > 0);
            assert(suffix.first() == polls@[i as int]);
        }
        match polls[i] {
            PollStatus::Complete => {
                proof {
                    assert(readback_outcome(suffix) == Ok::<int, ReadbackError>(0));
                }
                return Ok(i);
            },
            PollStatus::Failed => {
                proof {
                    assert(readback_outcome(suffix) == Err::<int, ReadbackError>(
                        ReadbackError::MapFailed,
                    ));
                }
                return Err(ReadbackError::MapFailed);
            },
            PollStatus::Pending => {},
        }
        proof {
            assert(suffix.drop_first() =~= polls@.skip(i + 1));
        }
        i += 1;
    }
    proof {
        assert(polls@.skip(n as int) =~= Seq::<PollStatus>::empty());
    }
    Err(ReadbackError::Timeout)
}

/// The whole histogram operation as the caller sees it: dispatch the
/// compute pass over the rendered texels, copy the counters into the
/// staging buffer, wait for the device to confirm the map, and read the
/// staging bytes back as 256 little-endian words. The result is
/// all-or-nothing: on success the bins are exactly the buffer's luminance
/// histogram and total the pixel count; on failure no bins are returned.
pub fn histogram_readback(pix: &Vec<u8>, polls: &Vec<PollStatus>) -> (r: Result<
    Vec<u32>,
    ReadbackError,
>)
    requires
        pixel_buffer(pix@),
        pix@.len() / 4 <= u32::MAX,
    ensures
        match r {
            Ok(bins) => {
                &&& readback_resolves(polls@)
                &&& bins@.len() == HISTOGRAM_BINS
                &&& (forall|b: int|
                    0 <= b < 256 ==> bins@[b] == bin_count(pix@, b, pix@.len() as int / 4))
                &&& total_count(bins@) == pix@.len() / 4
            },
            Err(e) => readback_outcome(polls@) == Err::<int, ReadbackError>(e),
        },
{
    let bins = histogram(pix);
    let staging: Vec<u8> = words_to_bytes(&bins);
    match resolve_readback(polls) {
        Ok(_) => {
            proof {
                vstd::arithmetic::div_mod::lemma_mod_multiples_basic(bins@.len() as int, 4);
                lemma_words_roundtrip(bins@);
            }
            let mapped = words_from_bytes(&staging);
            proof {
                assert(mapped@ == bins@);
            }
            Ok(mapped)
        },
        Err(e) => Err(e),
    }
}

} // verus!
