//! The magnitude spectrum of one analysis frame, and where its bins lie.
//!
//! The magnitude type is a parameter: the library places and groups
//! magnitudes, it does not compute with them.

use crate::frame::FRAME_LEN;
use vstd::prelude::*;

verus! {

/// Number of bins from zero up to and including the Nyquist limit that the
/// transform of one frame yields.
pub const SPECTRUM_BINS: usize = FRAME_LEN / 2 + 1;

/// One magnitude per frequency bin, lowest frequency first, together with
/// the sample rate that places the bins.
#[derive(Debug)]
pub struct Spectrum<T> {
    /// Samples per second of the analysed signal.
    pub sample_rate: u32,
    /// The magnitude of bin `k` at index `k`.
    pub magnitudes: Vec<T>,
}

impl<T> Spectrum<T> {
    /// Number of bins.
    pub fn len(&self) -> (n: usize)
        ensures
            n == self.magnitudes@.len(),
    {
        self.magnitudes.len()
    }

    /// The centre frequency of bin `bin`, or `None` where the spectrum has
    /// no such bin.
    pub fn frequency(&self, bin: u32) -> (f: Option<BinFrequency>)
        ensures
            bin < self.magnitudes@.len() ==> f == Some(
                frequency_of(bin as nat, self.sample_rate as nat),
            ),
            bin >= self.magnitudes@.len() ==> f is None,
    {
        if (bin as usize) < self.magnitudes.len() {
            Some(bin_frequency(bin, self.sample_rate))
        } else {
            None
        }
    }
}

/// A frequency written exactly: `hertz + remainder / FRAME_LEN` hertz, with
/// `remainder < FRAME_LEN`.
#[derive(Clone, Copy, Debug, PartialEq, Eq, Structural)]
pub struct BinFrequency {
    /// Whole hertz.
    pub hertz: u64,
    /// Numerator of the fraction of a hertz, over [`FRAME_LEN`].
    pub remainder: u64,
}

/// The centre frequency of bin `bin` at `sample_rate`:
/// `bin * sample_rate / FRAME_LEN` hertz, split into its whole part and
/// what is left over.
pub open spec fn frequency_of(bin: nat, sample_rate: nat) -> BinFrequency {
    BinFrequency {
        hertz: ((bin * sample_rate) / FRAME_LEN as nat) as u64,
        remainder: ((bin * sample_rate) % FRAME_LEN as nat) as u64,
    }
}

/// The centre frequency of bin `bin` of a frame sampled at `sample_rate`.
pub fn bin_frequency(bin: u32, sample_rate: u32) -> (f: BinFrequency)
    ensures
        f == frequency_of(bin as nat, sample_rate as nat),
        f.hertz * FRAME_LEN + f.remainder == bin * sample_rate,
        f.remainder < FRAME_LEN,
{
    assert(0 <= bin * sample_rate <= 0xffff_ffff * 0xffff_ffff) by (nonlinear_arith)
        requires
            0 <= bin <= 0xffff_ffff,
            0 <= sample_rate <= 0xffff_ffff,
    ;
    let product: u64 = bin as u64 * sample_rate as u64;
    BinFrequency { hertz: product / FRAME_LEN as u64, remainder: product % FRAME_LEN as u64 }
}

/// Bins are evenly spaced: each lies `sample_rate / FRAME_LEN` hertz above
/// the one before it, bin 0 lies at zero, and the last bin of a full
/// spectrum lies at half the sample rate.
pub proof fn lemma_bins_evenly_spaced(bin: nat, sample_rate: nat)
    requires
        bin < u32::MAX,
        sample_rate <= u32::MAX,
    ensures
        frequency_of(0, sample_rate) == (BinFrequency { hertz: 0, remainder: 0 }),
        frequency_of(bin + 1, sample_rate).hertz * FRAME_LEN + frequency_of(
            bin + 1,
            sample_rate,
        ).remainder == frequency_of(bin, sample_rate).hertz * FRAME_LEN + frequency_of(
            bin,
            sample_rate,
        ).remainder + sample_rate,
        2 * (frequency_of((SPECTRUM_BINS - 1) as nat, sample_rate).hertz * FRAME_LEN
            + frequency_of((SPECTRUM_BINS - 1) as nat, sample_rate).remainder) == sample_rate
            * FRAME_LEN,
{
    assert((bin + 1) * sample_rate == bin * sample_rate + sample_rate) by (nonlinear_arith);
    assert(0 <= bin * sample_rate <= 0xffff_ffff * 0xffff_ffff) by (nonlinear_arith)
        requires
            0 <= bin <= 0xffff_ffff,
            0 <= sample_rate <= 0xffff_ffff,
    ;
    assert(0 <= (bin + 1) * sample_rate <= 0xffff_ffff * 0xffff_ffff) by (nonlinear_arith)
        requires
            0 <= bin + 1 <= 0xffff_ffff,
            0 <= sample_rate <= 0xffff_ffff,
    ;
    assert(1024 * sample_rate <= 1024 * 0xffff_ffff);
}

} // verus!
