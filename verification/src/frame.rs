//! Regrouping of sample chunks into fixed-length analysis frames.
//!
//! The sample type is a parameter: the accumulator only moves samples, it
//! never looks at them.

use vstd::prelude::*;

verus! {

/// Number of samples in one analysis frame.
pub const FRAME_LEN: usize = 2048;

/// Why a block of samples was refused for analysis.
#[derive(Clone, Copy, Debug, PartialEq, Eq, Structural)]
pub enum AnalysisError {
    /// The block does not hold exactly [`FRAME_LEN`] samples.
    FrameLength { expected: usize, actual: usize },
}

/// The `i`-th frame-sized block of `stream`.
pub open spec fn frame_at<T>(stream: Seq<T>, i: int) -> Seq<T> {
    stream.subrange(i * FRAME_LEN as int, (i + 1) * FRAME_LEN as int)
}

/// The complete frames that `stream` holds, in order.
pub open spec fn frames_of<T>(stream: Seq<T>) -> Seq<Seq<T>> {
    Seq::new(stream.len() / FRAME_LEN as nat, |i: int| frame_at(stream, i))
}

/// What is left of `stream` behind its last complete frame.
pub open spec fn residual_of<T>(stream: Seq<T>) -> Seq<T> {
    stream.subrange(stream.len() - stream.len() % FRAME_LEN as nat, stream.len() as int)
}

/// A block of exactly [`FRAME_LEN`] consecutive samples.
#[derive(Debug)]
pub struct AnalysisFrame<T> {
    samples: Vec<T>,
}

impl<T> View for AnalysisFrame<T> {
    type V = Seq<T>;

    closed spec fn view(&self) -> Seq<T> {
        self.samples@
    }
}

impl<T> AnalysisFrame<T> {
    /// Every frame in circulation holds exactly [`FRAME_LEN`] samples.
    #[verifier::type_invariant]
    spec fn well_formed(&self) -> bool {
        self.samples@.len() == FRAME_LEN
    }

    /// Accepts `samples` as a frame if and only if there are exactly
    /// [`FRAME_LEN`] of them.
    pub fn new(samples: Vec<T>) -> (result: Result<Self, AnalysisError>)
        ensures
            samples@.len() == FRAME_LEN ==> result is Ok && result->Ok_0@ == samples@,
            samples@.len() != FRAME_LEN ==> result == Err::<Self, AnalysisError>(
                AnalysisError::FrameLength { expected: FRAME_LEN, actual: samples.len() },
            ),
    {
        let actual = samples.len();
        if actual == FRAME_LEN {
            Ok(AnalysisFrame { samples })
        } else {
            Err(AnalysisError::FrameLength { expected: FRAME_LEN, actual })
        }
    }

    /// The samples of the frame, oldest first.
    pub fn samples(&self) -> (samples: &Vec<T>)
        ensures
            samples@ == self@,
            samples@.len() == FRAME_LEN,
    {
        proof {
            use_type_invariant(self);
        }
        &self.samples
    }

    /// Gives the samples back, consuming the frame.
    pub fn into_samples(self) -> (samples: Vec<T>)
        ensures
            samples@ == self@,
            samples@.len() == FRAME_LEN,
    {
        proof {
            use_type_invariant(&self);
        }
        self.samples
    }
}

/// The views of a run of frames.
pub open spec fn frame_views<T>(frames: Seq<AnalysisFrame<T>>) -> Seq<Seq<T>> {
    frames.map_values(|f: AnalysisFrame<T>| f@)
}

/// Buffers incoming chunks and cuts them into frames.
///
/// The accumulator keeps the samples that do not yet fill a frame: fewer
/// than [`FRAME_LEN`] of them between two calls.
#[derive(Debug)]
pub struct Accumulator<T> {
    residual: Vec<T>,
}

impl<T> View for Accumulator<T> {
    type V = Seq<T>;

    /// The samples received and not yet emitted, oldest first.
    closed spec fn view(&self) -> Seq<T> {
        self.residual@
    }
}

impl<T> Accumulator<T> {
    #[verifier::type_invariant]
    spec fn well_formed(&self) -> bool {
        self.residual@.len() < FRAME_LEN
    }

    /// An accumulator that has received nothing.
    pub fn new() -> (acc: Self)
        ensures
            acc@ == Seq::<T>::empty(),
    {
        Accumulator { residual: Vec::new() }
    }

    /// Number of samples waiting for the rest of their frame.
    pub fn residual_len(&self) -> (n: usize)
        ensures
            n == self@.len(),
            n < FRAME_LEN,
    {
        proof {
            use_type_invariant(self);
        }
        self.residual.len()
    }

    /// The samples waiting for the rest of their frame, oldest first.
    pub fn residual(&self) -> (samples: &Vec<T>)
        ensures
            samples@ == self@,
            samples@.len() < FRAME_LEN,
    {
        proof {
            use_type_invariant(self);
        }
        &self.residual
    }

    /// Appends `chunk` to the waiting samples and returns every frame that
    /// is now complete, oldest first. What follows the last complete frame
    /// keeps waiting.
    pub fn push(&mut self, chunk: Vec<T>) -> (frames: Vec<AnalysisFrame<T>>)
        ensures
            frame_views(frames@) == frames_of(old(self)@ + chunk@),
            final(self)@ == residual_of(old(self)@ + chunk@),
    {
        proof {
            use_type_invariant(&*self);
        }
        let ghost stream = self.residual@ + chunk@;
        let mut chunk = chunk;
        let mut buffer: Vec<T> = Vec::new();
        std::mem::swap(&mut buffer, &mut self.residual);
        buffer.append(&mut chunk);
        let mut frames: Vec<AnalysisFrame<T>> = Vec::new();
        while buffer.len() >= FRAME_LEN
            invariant
                self.residual@.len() == 0,
                frames@.len() * FRAME_LEN + buffer@.len() == stream.len(),
                buffer@ == stream.subrange(frames@.len() * FRAME_LEN, stream.len() as int),
                forall|i: int| 0 <= i < frames@.len() ==> (#[trigger] frames@[i])@ == frame_at(stream, i),
            decreases buffer@.len(),
        {
            let tail = buffer.split_off(FRAME_LEN);
            let mut head = tail;
            std::mem::swap(&mut head, &mut buffer);
            frames.push(AnalysisFrame { samples: head });
        }
        self.residual = buffer;
        proof {
            vstd::arithmetic::div_mod::lemma_fundamental_div_mod_converse(
                stream.len() as int,
                FRAME_LEN as int,
                frames@.len() as int,
                buffer@.len() as int,
            );
        }
        frames
    }
}

/// What an accumulator holding `residual` emits and keeps when it is fed
/// `chunks` one after the other: the frames of all the calls, in order, and
/// the samples left waiting after the last call.
pub open spec fn feed<T>(residual: Seq<T>, chunks: Seq<Seq<T>>) -> (Seq<Seq<T>>, Seq<T>)
    decreases chunks.len(),
{
    if chunks.len() == 0 {
        (Seq::empty(), residual)
    } else {
        let before = feed(residual, chunks.drop_last());
        let stream = before.1 + chunks.last();
        (before.0 + frames_of(stream), residual_of(stream))
    }
}

/// Cutting a stream yields as many frames as it has whole multiples of
/// [`FRAME_LEN`], every frame is exactly [`FRAME_LEN`] long, and fewer than
/// [`FRAME_LEN`] samples stay behind.
pub proof fn lemma_frames_are_full<T>(stream: Seq<T>)
    ensures
        frames_of(stream).len() == stream.len() / FRAME_LEN as nat,
        residual_of(stream).len() == stream.len() % FRAME_LEN as nat,
        residual_of(stream).len() < FRAME_LEN,
        forall|i: int|
            0 <= i < frames_of(stream).len() ==> (#[trigger] frames_of(stream)[i]).len()
                == FRAME_LEN,
{
}

/// The first `n` frames of a stream, laid end to end, are its first
/// `n * FRAME_LEN` samples.
proof fn lemma_prefix_of_frames<T>(stream: Seq<T>, n: nat)
    requires
        n <= stream.len() / FRAME_LEN as nat,
    ensures
        frames_of(stream).take(n as int).flatten() == stream.take(n * FRAME_LEN),
    decreases n,
{
    let frames = frames_of(stream);
    if n > 0 {
        lemma_prefix_of_frames(stream, (n - 1) as nat);
        let shorter = frames.take(n - 1);
        assert(frames.take(n as int) =~= shorter.push(frames[n - 1]));
        shorter.lemma_flatten_push(frames[n - 1]);
        assert(stream.take((n - 1) * FRAME_LEN) + frame_at(stream, n - 1) =~= stream.take(
            n * FRAME_LEN,
        ));
    }
}

/// Nothing is lost, duplicated or reordered by cutting: the frames of a
/// stream followed by what stays behind are the stream itself.
pub proof fn lemma_cut_conserves<T>(stream: Seq<T>)
    ensures
        frames_of(stream).flatten() + residual_of(stream) == stream,
{
    let frames = frames_of(stream);
    lemma_prefix_of_frames(stream, frames.len());
    assert(frames.take(frames.len() as int) =~= frames);
}

/// Cutting `head + tail` at once gives the same frames and the same
/// remainder as cutting `head` first and then what `head` left behind
/// followed by `tail`.
pub proof fn lemma_cut_in_two<T>(head: Seq<T>, tail: Seq<T>)
    ensures
        frames_of(head + tail) == frames_of(head) + frames_of(residual_of(head) + tail),
        residual_of(head + tail) == residual_of(residual_of(head) + tail),
{
    let whole = head + tail;
    let first = frames_of(head);
    let rest = residual_of(head) + tail;
    assert forall|i: int| 0 <= i < frames_of(whole).len() implies #[trigger] frames_of(whole)[i]
        == (first + frames_of(rest))[i] by {
        if i < first.len() {
            assert(frame_at(whole, i) =~= frame_at(head, i));
        } else {
            assert(frame_at(whole, i) =~= frame_at(rest, i - first.len()));
        }
    }
}

/// However a stream is split into chunks, an accumulator that starts with
/// fewer than [`FRAME_LEN`] waiting samples emits exactly the frames of the
/// concatenated stream and keeps exactly its remainder: a frame leaves as
/// soon as its last sample has arrived, and never earlier.
pub proof fn lemma_feed_ignores_chunking<T>(residual: Seq<T>, chunks: Seq<Seq<T>>)
    requires
        residual.len() < FRAME_LEN,
    ensures
        feed(residual, chunks).0 == frames_of(residual + chunks.flatten()),
        feed(residual, chunks).1 == residual_of(residual + chunks.flatten()),
    decreases chunks.len(),
{
    if chunks.len() > 0 {
        let earlier = chunks.drop_last();
        lemma_feed_ignores_chunking(residual, earlier);
        let head = residual + earlier.flatten();
        assert(chunks =~= earlier.push(chunks.last()));
        earlier.lemma_flatten_push(chunks.last());
        assert(residual + chunks.flatten() =~= head + chunks.last());
        lemma_cut_in_two(head, chunks.last());
    }
}

/// For every sequence of chunks fed to an accumulator, the emitted frames
/// laid end to end, followed by the samples still waiting, are the samples
/// that were waiting at first followed by all the chunks, in order.
pub proof fn lemma_feed_conserves<T>(residual: Seq<T>, chunks: Seq<Seq<T>>)
    requires
        residual.len() < FRAME_LEN,
    ensures
        feed(residual, chunks).0.flatten() + feed(residual, chunks).1 == residual
            + chunks.flatten(),
        forall|i: int|
            0 <= i < feed(residual, chunks).0.len() ==> (#[trigger] feed(residual, chunks).0[i]).len()
                == FRAME_LEN,
        feed(residual, chunks).1.len() < FRAME_LEN,
{
    lemma_feed_ignores_chunking(residual, chunks);
    lemma_cut_conserves(residual + chunks.flatten());
    lemma_frames_are_full(residual + chunks.flatten());
}

} // verus!
