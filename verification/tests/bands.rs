use fft2osc::band::{band_address, encode, Band, BAND_WIDTH};
use fft2osc::spectrum::{bin_frequency, BinFrequency, Spectrum, SPECTRUM_BINS};
use fft2osc::text::{decimal_string, push_decimal};

fn spectrum(len: usize) -> Spectrum<f32> {
    Spectrum { sample_rate: 44100, magnitudes: (0..len).map(|i| i as f32).collect() }
}

#[test]
fn band_and_spectrum_constants() {
    assert_eq!(BAND_WIDTH, 256);
    assert_eq!(SPECTRUM_BINS, 1025);
}

#[test]
fn full_spectrum_gives_four_bands_of_256() {
    let bands = encode(spectrum(1025), 256);
    assert_eq!(bands.len(), 4);
    for (i, band) in bands.iter().enumerate() {
        assert_eq!(band.index, i);
        assert_eq!(band.values.len(), 256);
        let expected: Vec<f32> = (i * 256..(i + 1) * 256).map(|k| k as f32).collect();
        assert_eq!(band.values, expected);
    }
}

#[test]
fn remainder_narrower_than_a_band_is_dropped() {
    let bands = encode(spectrum(10), 3);
    assert_eq!(bands.len(), 3);
    assert_eq!(bands[0].values, vec![0.0, 1.0, 2.0]);
    assert_eq!(bands[1].values, vec![3.0, 4.0, 5.0]);
    assert_eq!(bands[2].values, vec![6.0, 7.0, 8.0]);
}

#[test]
fn bands_tile_without_gap_or_overlap() {
    for len in [0usize, 1, 7, 8, 9, 64, 1000, 1025] {
        for width in [1u32, 2, 3, 8, 256, 1024, 1025, 1026] {
            let bands = encode(spectrum(len), width);
            assert_eq!(bands.len(), len / width as usize);
            let mut joined: Vec<f32> = Vec::new();
            for (i, band) in bands.iter().enumerate() {
                assert_eq!(band.index, i);
                assert_eq!(band.values.len(), width as usize);
                joined.extend_from_slice(&band.values);
            }
            let kept = len / width as usize * width as usize;
            let expected: Vec<f32> = (0..kept).map(|k| k as f32).collect();
            assert_eq!(joined, expected);
            assert!(len - kept < width as usize);
        }
    }
}

#[test]
fn width_zero_gives_no_band() {
    assert_eq!(encode(spectrum(1025), 0).len(), 0);
    assert_eq!(encode(spectrum(0), 0).len(), 0);
}

#[test]
fn width_above_length_gives_no_band() {
    assert_eq!(encode(spectrum(255), 256).len(), 0);
    assert_eq!(encode(spectrum(0), 256).len(), 0);
}

#[test]
fn width_equal_to_length_gives_one_band() {
    let bands = encode(spectrum(256), 256);
    assert_eq!(bands.len(), 1);
    assert_eq!(bands[0].index, 0);
    assert_eq!(bands[0].values.len(), 256);
}

#[test]
fn band_addresses_count_up_from_zero() {
    let bands = encode(spectrum(1025), 256);
    let addresses: Vec<String> = bands.iter().map(|b| b.address()).collect();
    assert_eq!(addresses, vec!["/fft/0", "/fft/1", "/fft/2", "/fft/3"]);
}

#[test]
fn band_address_writes_the_index_in_decimal() {
    assert_eq!(band_address(0), "/fft/0");
    assert_eq!(band_address(9), "/fft/9");
    assert_eq!(band_address(10), "/fft/10");
    assert_eq!(band_address(1234567890), "/fft/1234567890");
    let band: Band<f32> = Band { index: 42, values: Vec::new() };
    assert_eq!(band.address(), "/fft/42");
}

#[test]
fn decimal_string_matches_std() {
    for n in [0u64, 1, 9, 10, 11, 99, 100, 101, 65535, 4_294_967_295, u64::MAX] {
        assert_eq!(decimal_string(n), n.to_string());
    }
}

#[test]
fn push_decimal_appends() {
    let mut s = String::from("port ");
    push_decimal(&mut s, 50000);
    assert_eq!(s, "port 50000");
    push_decimal(&mut s, 0);
    assert_eq!(s, "port 500000");
}

#[test]
fn bin_frequency_is_exact() {
    assert_eq!(bin_frequency(0, 44100), BinFrequency { hertz: 0, remainder: 0 });
    assert_eq!(bin_frequency(1, 44100), BinFrequency { hertz: 21, remainder: 1092 });
    assert_eq!(bin_frequency(1024, 44100), BinFrequency { hertz: 22050, remainder: 0 });
    assert_eq!(bin_frequency(2048, 48000), BinFrequency { hertz: 48000, remainder: 0 });
    assert_eq!(
        bin_frequency(u32::MAX, u32::MAX),
        BinFrequency { hertz: 9007199250546688, remainder: 1 }
    );
}

#[test]
fn bin_frequency_times_frame_len_is_bin_times_rate() {
    for bin in [0u32, 1, 2, 3, 511, 512, 1023, 1024] {
        for rate in [8000u32, 22050, 44100, 48000, 96000, 192000] {
            let f = bin_frequency(bin, rate);
            assert!(f.remainder < 2048);
            assert_eq!(f.hertz * 2048 + f.remainder, bin as u64 * rate as u64);
        }
    }
}

#[test]
fn spectrum_frequency_exists_for_its_bins_only() {
    let s = spectrum(1025);
    assert_eq!(s.len(), 1025);
    assert_eq!(s.frequency(0), Some(BinFrequency { hertz: 0, remainder: 0 }));
    assert_eq!(s.frequency(1024), Some(BinFrequency { hertz: 22050, remainder: 0 }));
    assert_eq!(s.frequency(1025), None);
    assert_eq!(spectrum(0).frequency(0), None);
}

#[test]
fn different_bands_have_different_addresses() {
    let addresses: Vec<String> = (0..1200).map(band_address).collect();
    for (i, a) in addresses.iter().enumerate() {
        assert!(a.starts_with("/fft/"));
        assert_eq!(a[5..].parse::<usize>(), Ok(i));
        for b in &addresses[i + 1..] {
            assert_ne!(a, b);
        }
    }
}

#[test]
fn numerals_have_no_sign_and_no_leading_zero() {
    for n in [0u64, 5, 10, 100, 1000, 9999, 10000, 123456789] {
        let s = decimal_string(n);
        assert!(s.chars().all(|c| c.is_ascii_digit()));
        assert!(n == 0 || !s.starts_with('0'));
        assert_eq!(s.parse::<u64>(), Ok(n));
    }
}
