use fft2osc::frame::{Accumulator, AnalysisError, AnalysisFrame, FRAME_LEN};

fn ramp(from: usize, len: usize) -> Vec<f32> {
    (from..from + len).map(|i| i as f32).collect()
}

#[test]
fn frame_length_is_2048() {
    assert_eq!(FRAME_LEN, 2048);
}

#[test]
fn new_accumulator_is_empty() {
    let acc: Accumulator<f32> = Accumulator::new();
    assert_eq!(acc.residual_len(), 0);
    assert!(acc.residual().is_empty());
}

#[test]
fn three_chunks_of_2200_samples_yield_one_frame_and_152_left() {
    let mut acc: Accumulator<f32> = Accumulator::new();
    let first = acc.push(ramp(0, 1000));
    assert_eq!(first.len(), 0);
    assert_eq!(acc.residual_len(), 1000);
    let second = acc.push(ramp(1000, 1000));
    assert_eq!(second.len(), 0);
    assert_eq!(acc.residual_len(), 2000);
    let third = acc.push(ramp(2000, 200));
    assert_eq!(third.len(), 1);
    assert_eq!(third[0].samples().len(), 2048);
    assert_eq!(third[0].samples(), &ramp(0, 2048));
    assert_eq!(acc.residual_len(), 152);
    assert_eq!(acc.residual(), &ramp(2048, 152));
}

#[test]
fn frame_is_not_emitted_before_its_last_sample() {
    let mut acc: Accumulator<f32> = Accumulator::new();
    assert_eq!(acc.push(ramp(0, 2047)).len(), 0);
    assert_eq!(acc.residual_len(), 2047);
    let frames = acc.push(ramp(2047, 1));
    assert_eq!(frames.len(), 1);
    assert_eq!(frames[0].samples(), &ramp(0, 2048));
    assert_eq!(acc.residual_len(), 0);
}

#[test]
fn empty_chunk_changes_nothing() {
    let mut acc: Accumulator<f32> = Accumulator::new();
    assert_eq!(acc.push(Vec::new()).len(), 0);
    assert_eq!(acc.residual_len(), 0);
    acc.push(ramp(0, 5));
    assert_eq!(acc.push(Vec::new()).len(), 0);
    assert_eq!(acc.residual(), &ramp(0, 5));
}

#[test]
fn exact_frame_leaves_nothing_behind() {
    let mut acc: Accumulator<f32> = Accumulator::new();
    let frames = acc.push(ramp(0, 2048));
    assert_eq!(frames.len(), 1);
    assert_eq!(acc.residual_len(), 0);
}

#[test]
fn large_chunk_yields_several_frames_in_order() {
    let mut acc: Accumulator<f32> = Accumulator::new();
    let frames = acc.push(ramp(0, 5000));
    assert_eq!(frames.len(), 2);
    assert_eq!(frames[0].samples(), &ramp(0, 2048));
    assert_eq!(frames[1].samples(), &ramp(2048, 2048));
    assert_eq!(acc.residual(), &ramp(4096, 904));
}

#[test]
fn frames_and_residual_are_the_input_in_order() {
    let lengths = [1usize, 0, 4095, 2, 2048, 777, 3000, 1, 1, 6150];
    let mut acc: Accumulator<f32> = Accumulator::new();
    let mut fed: Vec<f32> = Vec::new();
    let mut got: Vec<f32> = Vec::new();
    let mut next = 0usize;
    for len in lengths {
        let chunk = ramp(next, len);
        next += len;
        fed.extend_from_slice(&chunk);
        for frame in acc.push(chunk) {
            assert_eq!(frame.samples().len(), FRAME_LEN);
            got.extend(frame.into_samples());
        }
        assert!(acc.residual_len() < FRAME_LEN);
        assert_eq!(got.len() + acc.residual_len(), fed.len());
        assert_eq!(got.len(), fed.len() / FRAME_LEN * FRAME_LEN);
    }
    got.extend_from_slice(acc.residual());
    assert_eq!(got, fed);
}

#[test]
fn chunking_does_not_change_the_frames() {
    let stream = ramp(0, 10_000);
    let mut whole: Accumulator<f32> = Accumulator::new();
    let at_once: Vec<Vec<f32>> =
        whole.push(stream.clone()).into_iter().map(|f| f.into_samples()).collect();
    let mut pieces: Accumulator<f32> = Accumulator::new();
    let mut piecewise: Vec<Vec<f32>> = Vec::new();
    for chunk in stream.chunks(333) {
        piecewise.extend(pieces.push(chunk.to_vec()).into_iter().map(|f| f.into_samples()));
    }
    assert_eq!(at_once, piecewise);
    assert_eq!(whole.residual(), pieces.residual());
}

#[test]
fn accumulator_moves_samples_of_any_type() {
    let mut acc: Accumulator<String> = Accumulator::new();
    let chunk: Vec<String> = (0..2050).map(|i| format!("s{}", i)).collect();
    let frames = acc.push(chunk);
    assert_eq!(frames.len(), 1);
    assert_eq!(frames[0].samples()[2047], "s2047");
    assert_eq!(acc.residual(), &vec!["s2048".to_string(), "s2049".to_string()]);
}

#[test]
fn analysis_frame_accepts_exactly_2048_samples() {
    let frame = AnalysisFrame::new(ramp(0, 2048));
    assert!(frame.is_ok());
    let frame = frame.ok().unwrap();
    assert_eq!(frame.samples(), &ramp(0, 2048));
    assert_eq!(frame.into_samples(), ramp(0, 2048));
}

#[test]
fn analysis_frame_rejects_short_block() {
    let err = AnalysisFrame::new(ramp(0, 2047)).err();
    assert_eq!(err, Some(AnalysisError::FrameLength { expected: 2048, actual: 2047 }));
}

#[test]
fn analysis_frame_rejects_long_block() {
    let err = AnalysisFrame::new(ramp(0, 2049)).err();
    assert_eq!(err, Some(AnalysisError::FrameLength { expected: 2048, actual: 2049 }));
}

#[test]
fn analysis_frame_rejects_empty_block() {
    let err = AnalysisFrame::<f32>::new(Vec::new()).err();
    assert_eq!(err, Some(AnalysisError::FrameLength { expected: 2048, actual: 0 }));
}
