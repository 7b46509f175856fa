//! Splitting a spectrum into fixed-width bands, one outbound message each.

use crate::spectrum::Spectrum;
use crate::text::{decimal, lemma_decimal_round_trip, push_decimal};
use vstd::prelude::*;

verus! {

/// Customary width of a band: a full spectrum then gives four bands that
/// cover its low 1024 bins.
pub const BAND_WIDTH: u32 = 256;

/// A run of consecutive magnitudes of one spectrum, tagged with its
/// position among the bands of that spectrum.
#[derive(Debug)]
pub struct Band<T> {
    /// Position of the band: band `i` starts at bin `i * width`.
    pub index: usize,
    /// The magnitudes of the band, lowest bin first.
    pub values: Vec<T>,
}

/// The magnitudes that band `i` of width `width` takes from `magnitudes`.
pub open spec fn band_at<T>(magnitudes: Seq<T>, width: nat, i: int) -> Seq<T> {
    magnitudes.subrange(i * width, (i + 1) * width)
}

/// How many whole bands of width `width` fit in `len` magnitudes. A width
/// of zero makes no band.
pub open spec fn band_count(len: nat, width: nat) -> nat {
    if width == 0 {
        0
    } else {
        len / width
    }
}

/// The message address of band `index`: `/fft/` followed by the index in
/// decimal.
pub open spec fn address_of(index: nat) -> Seq<char> {
    seq!['/', 'f', 'f', 't', '/'] + decimal(index)
}

impl<T> Band<T> {
    /// The address under which the band is sent.
    pub fn address(&self) -> (addr: String)
        ensures
            addr@ == address_of(self.index as nat),
    {
        band_address(self.index)
    }
}

/// The address under which band `index` is sent.
pub fn band_address(index: usize) -> (addr: String)
    ensures
        addr@ == address_of(index as nat),
{
    proof {
        reveal_strlit("/fft/");
    }
    let mut addr = String::from_str("/fft/");
    push_decimal(&mut addr, index as u64);
    addr
}

/// Splits the magnitudes of `spectrum` into consecutive bands of
/// `band_width` values, lowest bins first. Band `i` holds bins
/// `i * band_width` up to, not including, `(i + 1) * band_width`. Bins
/// behind the last whole band are left out. A width of zero yields no band.
pub fn encode<T>(spectrum: Spectrum<T>, band_width: u32) -> (bands: Vec<Band<T>>)
    ensures
        bands@.len() == band_count(spectrum.magnitudes@.len(), band_width as nat),
        forall|i: int|
            0 <= i < bands@.len() ==> (#[trigger] bands@[i]).index == i && bands@[i].values@
                == band_at(spectrum.magnitudes@, band_width as nat, i),
{
    let mut bands: Vec<Band<T>> = Vec::new();
    if band_width == 0 {
        return bands;
    }
    let width = band_width as usize;
    let ghost all = spectrum.magnitudes@;
    let mut rest = spectrum.magnitudes;
    assert(bands@.len() * width == 0) by (nonlinear_arith)
        requires
            bands@.len() == 0,
    ;
    while rest.len() >= width
        invariant
            width == band_width,
            width > 0,
            bands@.len() * width + rest@.len() == all.len(),
            rest@ == all.subrange(bands@.len() * width, all.len() as int),
            forall|i: int|
                0 <= i < bands@.len() ==> (#[trigger] bands@[i]).index == i && bands@[i].values@
                    == band_at(all, width as nat, i),
        decreases rest@.len(),
    {
        let ghost done = bands@.len() as int;
        assert((done + 1) * width == done * width + width) by (nonlinear_arith);
        let tail = rest.split_off(width);
        let mut head = tail;
        std::mem::swap(&mut head, &mut rest);
        let index = bands.len();
        bands.push(Band { index, values: head });
    }
    proof {
        vstd::arithmetic::div_mod::lemma_fundamental_div_mod_converse(
            all.len() as int,
            width as int,
            bands@.len() as int,
            rest@.len() as int,
        );
    }
    bands
}

/// The bands of a spectrum tile its low end: laid end to end in index
/// order they are its first `count * width` magnitudes, each band is
/// `width` long, and fewer than `width` magnitudes are left out.
pub proof fn lemma_bands_tile<T>(magnitudes: Seq<T>, width: nat)
    requires
        width > 0,
    ensures
        band_count(magnitudes.len(), width) * width <= magnitudes.len(),
        magnitudes.len() - band_count(magnitudes.len(), width) * width < width,
        forall|i: int|
            0 <= i < band_count(magnitudes.len(), width) ==> (#[trigger] band_at(
                magnitudes,
                width,
                i,
            )).len() == width,
        Seq::new(band_count(magnitudes.len(), width), |i: int| band_at(magnitudes, width, i)).flatten()
            == magnitudes.take((band_count(magnitudes.len(), width) * width) as int),
{
    let count = band_count(magnitudes.len(), width);
    vstd::arithmetic::div_mod::lemma_fundamental_div_mod(magnitudes.len() as int, width as int);
    vstd::arithmetic::div_mod::lemma_mod_bound(magnitudes.len() as int, width as int);
    assert forall|i: int| 0 <= i < count implies (#[trigger] band_at(magnitudes, width, i)).len()
        == width by {
        lemma_band_in_range(magnitudes.len(), width, i);
    }
    lemma_prefix_of_bands(magnitudes, width, count);
    let bands = Seq::new(count, |i: int| band_at(magnitudes, width, i));
    assert(bands.take(count as int) =~= bands);
}

/// Band `i` lies inside the spectrum if it is one of its whole bands.
proof fn lemma_band_in_range(len: nat, width: nat, i: int)
    requires
        width > 0,
        0 <= i < band_count(len, width),
    ensures
        0 <= i * width,
        (i + 1) * width == i * width + width,
        (i + 1) * width <= len,
{
    vstd::arithmetic::div_mod::lemma_fundamental_div_mod(len as int, width as int);
    vstd::arithmetic::div_mod::lemma_mod_bound(len as int, width as int);
    let count = band_count(len, width) as int;
    assert((i + 1) * width <= count * width) by (nonlinear_arith)
        requires
            i + 1 <= count,
            width > 0,
    ;
    assert((i + 1) * width == i * width + width) by (nonlinear_arith);
    assert(0 <= i * width) by (nonlinear_arith)
        requires
            0 <= i,
            width > 0,
    ;
}

/// The first `n` bands, laid end to end, are the first `n * width`
/// magnitudes.
proof fn lemma_prefix_of_bands<T>(magnitudes: Seq<T>, width: nat, n: nat)
    requires
        width > 0,
        n <= band_count(magnitudes.len(), width),
    ensures
        n * width <= magnitudes.len(),
        Seq::new(band_count(magnitudes.len(), width), |i: int| band_at(magnitudes, width, i)).take(
            n as int,
        ).flatten() == magnitudes.take((n * width) as int),
    decreases n,
{
    let bands = Seq::new(
        band_count(magnitudes.len(), width),
        |i: int| band_at(magnitudes, width, i),
    );
    if n > 0 {
        lemma_prefix_of_bands(magnitudes, width, (n - 1) as nat);
        lemma_band_in_range(magnitudes.len(), width, n - 1);
        let shorter = bands.take(n - 1);
        assert(bands.take(n as int) =~= shorter.push(bands[n - 1]));
        shorter.lemma_flatten_push(bands[n - 1]);
        assert(magnitudes.take(((n - 1) * width) as int) + band_at(magnitudes, width, n - 1)
            =~= magnitudes.take((n * width) as int));
    }
}

/// Two different bands never share a bin: the bins of band `i` all lie
/// below the bins of band `j` when `i < j`.
pub proof fn lemma_bands_do_not_overlap(width: nat, i: int, j: int)
    requires
        0 <= i < j,
    ensures
        (i + 1) * width <= j * width,
{
    assert((i + 1) * width <= j * width) by (nonlinear_arith)
        requires
            i + 1 <= j,
            width >= 0,
    ;
}

/// Different bands have different addresses, so a receiver can tell them
/// apart by address alone.
pub proof fn lemma_addresses_are_distinct(i: nat, j: nat)
    requires
        i != j,
    ensures
        address_of(i) != address_of(j),
{
    lemma_decimal_round_trip(i);
    lemma_decimal_round_trip(j);
    assert(address_of(i).skip(5) =~= decimal(i));
    assert(address_of(j).skip(5) =~= decimal(j));
}

} // verus!
