use fft2osc::band::{encode, BAND_WIDTH};
use fft2osc::frame::{Accumulator, AnalysisFrame, FRAME_LEN};
use fft2osc::spectrum::{bin_frequency, Spectrum, SPECTRUM_BINS};
use spectrum_analyzer::scaling::divide_by_N_sqrt;
use spectrum_analyzer::windows::hann_window;
use spectrum_analyzer::{samples_fft_to_spectrum, FrequencyLimit, FrequencySpectrum};

fn transform(frame: &AnalysisFrame<f32>, sample_rate: u32) -> FrequencySpectrum {
    let windowed = hann_window(frame.samples());
    samples_fft_to_spectrum(&windowed, sample_rate, FrequencyLimit::All, Some(&divide_by_N_sqrt))
        .unwrap()
}

fn analyze(frame: &AnalysisFrame<f32>, sample_rate: u32) -> Spectrum<f32> {
    let magnitudes = transform(frame, sample_rate).data().iter().map(|bin| bin.1.val()).collect();
    Spectrum { sample_rate, magnitudes }
}

fn tone(cycles_per_frame: usize) -> AnalysisFrame<f32> {
    let samples: Vec<f32> = (0..FRAME_LEN)
        .map(|i| {
            let phase = 2.0 * std::f32::consts::PI * (cycles_per_frame * i) as f32 / FRAME_LEN as f32;
            phase.sin()
        })
        .collect();
    AnalysisFrame::new(samples).ok().unwrap()
}

#[test]
fn silent_frame_gives_four_zero_bands() {
    let mut acc: Accumulator<f32> = Accumulator::new();
    let mut frames = acc.push(vec![0.0f32; 2048]);
    assert_eq!(frames.len(), 1);
    let frame = frames.pop().unwrap();
    let spectrum = analyze(&frame, 44100);
    assert_eq!(spectrum.len(), SPECTRUM_BINS);
    assert!(spectrum.magnitudes.iter().all(|m| *m == 0.0));
    let bands = encode(spectrum, BAND_WIDTH);
    assert_eq!(bands.len(), 4);
    for (i, band) in bands.iter().enumerate() {
        assert_eq!(band.index, i);
        assert_eq!(band.address(), format!("/fft/{}", i));
        assert_eq!(band.values, vec![0.0f32; 256]);
    }
}

#[test]
fn transform_of_a_frame_has_one_bin_up_to_nyquist() {
    for rate in [8000u32, 44100, 48000] {
        let spectrum = transform(&tone(100), rate);
        assert_eq!(spectrum.data().len(), FRAME_LEN / 2 + 1);
        assert_eq!(spectrum.data().len(), SPECTRUM_BINS);
        for (k, bin) in spectrum.data().iter().enumerate() {
            let exact = bin_frequency(k as u32, rate);
            let hertz = exact.hertz as f64 + exact.remainder as f64 / FRAME_LEN as f64;
            assert!((bin.0.val() as f64 - hertz).abs() <= hertz * 1e-6);
        }
    }
}

#[test]
fn transform_is_repeatable_bit_for_bit() {
    let first = analyze(&tone(37), 44100);
    let second = analyze(&tone(37), 44100);
    let a: Vec<u32> = first.magnitudes.iter().map(|m| m.to_bits()).collect();
    let b: Vec<u32> = second.magnitudes.iter().map(|m| m.to_bits()).collect();
    assert_eq!(a, b);
    assert_eq!(first.sample_rate, second.sample_rate);
}

#[test]
fn tone_lands_in_the_band_of_its_bin() {
    let spectrum = analyze(&tone(300), 44100);
    let peak = spectrum
        .magnitudes
        .iter()
        .enumerate()
        .fold(0usize, |best, (k, m)| if *m > spectrum.magnitudes[best] { k } else { best });
    assert_eq!(peak, 300);
    let magnitudes = spectrum.magnitudes.clone();
    let bands = encode(spectrum, BAND_WIDTH);
    assert_eq!(bands.len(), 4);
    assert_eq!(bands[1].values[300 - 256], magnitudes[300]);
    for band in &bands {
        for (j, value) in band.values.iter().enumerate() {
            assert_eq!(value.to_bits(), magnitudes[band.index * 256 + j].to_bits());
        }
    }
}
