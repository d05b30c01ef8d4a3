//! Voice activity detection: a loudness test per chunk and a two-state
//! machine with hysteresis on top of it.
//!
//! Loudness is the root mean square of the samples, each taken as a
//! fraction of the largest sample magnitude. It is never computed: a
//! comparison of it with a threshold is decided exactly on integers.
//! Thresholds are in thousandths.

use vstd::prelude::*;
use vstd::string::*;

verus! {

/// Why detection failed.
#[derive(Debug)]
pub enum VadError {
    InitError(String),
    ProcessError(String),
}

impl VadError {
    /// The text of `message`.
    pub open spec fn message_spec(self) -> Seq<char> {
        match self {
            VadError::InitError(detail) => "VAD initialization failed: "@ + detail@,
            VadError::ProcessError(detail) => "VAD processing failed: "@ + detail@,
        }
    }

    /// Human-readable description of the error.
    pub fn message(&self) -> (text: String)
        ensures
            text@ == self.message_spec(),
    {
        match self {
            VadError::InitError(detail) => String::from_str("VAD initialization failed: ").concat(
                detail.as_str(),
            ),
            VadError::ProcessError(detail) => String::from_str("VAD processing failed: ").concat(
                detail.as_str(),
            ),
        }
    }
}

/// The largest sample magnitude that loudness is measured against.
pub const FULL_SCALE: u64 = 32767;

/// Lowest speech threshold, in thousandths.
pub const MIN_THRESHOLD: u16 = 1;

/// Highest speech threshold, in thousandths.
pub const MAX_THRESHOLD: u16 = 500;

/// Speech threshold of a new detector, in thousandths.
pub const DEFAULT_THRESHOLD: u16 = 20;

/// Silent chunks that end speech in a new detector.
pub const DEFAULT_SILENCE_TIMEOUT: usize = 15;

/// Loudness below which the level shown is zero, in thousandths.
pub const AUDIBLE_THRESHOLD: u16 = 1;

/// Sum of the squares of the samples.
pub open spec fn sum_of_squares(samples: Seq<i16>) -> nat
    decreases samples.len(),
{
    if samples.len() == 0 {
        0
    } else {
        sum_of_squares(samples.drop_last()) + (samples.last() * samples.last()) as nat
    }
}

/// The root mean square of `samples` is greater than `permille / 1000`.
///
/// With `n` samples of sum of squares `q`, the root mean square is
/// `sqrt(q / n) / 32767`; it exceeds `p / 1000` exactly when
/// `q * 1000² > p² * 32767² * n`. No samples have loudness zero.
pub open spec fn rms_exceeds(samples: Seq<i16>, permille: nat) -> bool {
    samples.len() > 0 && sum_of_squares(samples) * 1_000_000 > permille * permille * 32767 * 32767
        * samples.len()
}

/// What a chunk was found to be.
#[derive(Debug, Clone, Copy)]
pub struct VadResult {
    /// The detector is in speech after this chunk.
    pub is_speech: bool,
    /// The chunk is loud enough for its level to be shown as more than zero.
    pub audible: bool,
    /// Sum of the squares of the chunk's samples.
    pub energy: u128,
    /// Number of samples in the chunk.
    pub samples: usize,
}

/// Everything a contract needs to know of a detector.
pub struct VadState {
    /// Loudness above which a chunk counts as speech, in thousandths.
    pub threshold: u16,
    /// Silent chunks in a row that end speech.
    pub silence_timeout: usize,
    /// Silent chunks in a row since the last chunk of speech.
    pub silence_frames: usize,
    /// The detector is in speech.
    pub in_speech: bool,
}

impl VadState {
    /// A new detector: in silence, with the default settings.
    pub open spec fn initial() -> VadState {
        VadState {
            threshold: DEFAULT_THRESHOLD,
            silence_timeout: DEFAULT_SILENCE_TIMEOUT,
            silence_frames: 0,
            in_speech: false,
        }
    }

    /// The settings are in range, and the counter can take one more chunk.
    pub open spec fn valid(self) -> bool {
        &&& MIN_THRESHOLD <= self.threshold <= MAX_THRESHOLD
        &&& self.silence_timeout >= 1
        &&& self.in_speech ==> self.silence_frames < usize::MAX
    }

    /// The state after a chunk that was loud, or was not.
    pub open spec fn step(self, loud: bool) -> VadState {
        if loud {
            VadState { silence_frames: 0, in_speech: true, ..self }
        } else if self.in_speech {
            VadState {
                silence_frames: (self.silence_frames + 1) as usize,
                in_speech: self.silence_frames + 1 < self.silence_timeout,
                ..self
            }
        } else {
            self
        }
    }

    /// The state after a run of chunks, each loud or not.
    pub open spec fn run(self, chunks: Seq<bool>) -> VadState
        decreases chunks.len(),
    {
        if chunks.len() == 0 {
            self
        } else {
            self.run(chunks.drop_last()).step(chunks.last())
        }
    }

    /// The state after `count` chunks that were not loud.
    pub open spec fn after_silence(self, count: nat) -> VadState
        decreases count,
    {
        if count == 0 {
            self
        } else {
            self.after_silence((count - 1) as nat).step(false)
        }
    }

    /// The state after a chunk of `samples`.
    pub open spec fn process(self, samples: Seq<i16>) -> VadState {
        self.step(rms_exceeds(samples, self.threshold as nat))
    }

    /// The state after a reset.
    pub open spec fn reset(self) -> VadState {
        VadState { silence_frames: 0, in_speech: false, ..self }
    }

    /// Speech has ended by timeout.
    pub open spec fn speech_ended(self) -> bool {
        !self.in_speech && self.silence_frames >= self.silence_timeout
    }
}

/// `threshold` held inside the range a detector works in.
pub open spec fn clamped_threshold(threshold: u16) -> u16 {
    if threshold < MIN_THRESHOLD {
        MIN_THRESHOLD
    } else if threshold > MAX_THRESHOLD {
        MAX_THRESHOLD
    } else {
        threshold
    }
}

/// The sum of squares grows by at most 2^30 per sample.
pub proof fn lemma_sum_of_squares_bound(samples: Seq<i16>)
    ensures
        sum_of_squares(samples) <= samples.len() * 0x4000_0000,
    decreases samples.len(),
{
    if samples.len() > 0 {
        lemma_sum_of_squares_bound(samples.drop_last());
        let last = samples.last() as int;
        assert(0 <= last * last <= 0x4000_0000) by (nonlinear_arith)
            requires
                -0x8000 <= last <= 0x7fff,
        ;
        assert(samples.last() * samples.last() == last * last);
    }
}

/// Sum of the squares of `samples`.
pub fn energy(samples: &[i16]) -> (sum: u128)
    ensures
        sum == sum_of_squares(samples@),
{
    let mut sum: u128 = 0;
    let mut i: usize = 0;
    while i < samples.len()
        invariant
            i <= samples@.len(),
            sum == sum_of_squares(samples@.take(i as int)),
            sum <= i * 0x4000_0000,
        decreases samples@.len() - i,
    {
        let sample: i128 = samples[i] as i128;
        proof {
            assert(samples@.take(i as int + 1).drop_last() =~= samples@.take(i as int));
            lemma_sum_of_squares_bound(samples@.take(i as int + 1));
            assert(0 <= sample * sample <= 0x4000_0000) by (nonlinear_arith)
                requires
                    -0x8000 <= sample <= 0x7fff,
            ;
        }
        let square: u128 = (sample * sample) as u128;
        sum = sum + square;
        i += 1;
    }
    proof {
        assert(samples@.take(samples@.len() as int) =~= samples@);
    }
    sum
}

/// Whether the root mean square of a chunk with this sum of squares and
/// this many samples is greater than `permille / 1000`.
fn exceeds(sum: u128, count: usize, permille: u16) -> (loud: bool)
    requires
        sum <= count * 0x4000_0000,
    ensures
        loud == (count > 0 && sum * 1_000_000 > permille * permille * 32767 * 32767 * count),
{
    if count == 0 {
        return false;
    }
    assert(sum * 1_000_000 <= 0xffff_ffff_ffff_ffff * 0x4000_0000 * 1_000_000) by (nonlinear_arith)
        requires
            sum <= count * 0x4000_0000,
            count <= 0xffff_ffff_ffff_ffff,
    ;
    let p: u128 = permille as u128;
    assert(p * p <= 0xffff * 0xffff) by (nonlinear_arith)
        requires
            p <= 0xffff,
    ;
    let scale: u128 = p * p * 32767 * 32767;
    assert(scale * count <= 0xffff * 0xffff * 32767 * 32767 * 0xffff_ffff_ffff_ffff)
        by (nonlinear_arith)
        requires
            scale <= 0xffff * 0xffff * 32767 * 32767,
            count <= 0xffff_ffff_ffff_ffff,
    ;
    sum * 1_000_000 > scale * (count as u128)
}

/// Whether the root mean square of `samples` is greater than `permille / 1000`.
pub fn rms_above(samples: &[i16], permille: u16) -> (loud: bool)
    ensures
        loud == rms_exceeds(samples@, permille as nat),
{
    let sum = energy(samples);
    proof {
        lemma_sum_of_squares_bound(samples@);
    }
    exceeds(sum, samples.len(), permille)
}

/// Streaming classifier of chunks into speech and silence.
pub struct VoiceActivityDetector {
    speech_threshold: u16,
    silence_frames_threshold: usize,
    silence_frames: usize,
    in_speech: bool,
}

impl View for VoiceActivityDetector {
    type V = VadState;

    closed spec fn view(&self) -> VadState {
        VadState {
            threshold: self.speech_threshold,
            silence_timeout: self.silence_frames_threshold,
            silence_frames: self.silence_frames,
            in_speech: self.in_speech,
        }
    }
}

impl VoiceActivityDetector {
    #[verifier::type_invariant]
    spec fn well_formed(self) -> bool {
        &&& MIN_THRESHOLD <= self.speech_threshold <= MAX_THRESHOLD
        &&& self.silence_frames_threshold >= 1
        &&& self.in_speech ==> self.silence_frames < usize::MAX
    }

    /// A detector in silence, with the default settings.
    pub fn new() -> (detector: Self)
        ensures
            detector@ == VadState::initial(),
            detector@.valid(),
    {
        VoiceActivityDetector {
            speech_threshold: DEFAULT_THRESHOLD,
            silence_frames_threshold: DEFAULT_SILENCE_TIMEOUT,
            silence_frames: 0,
            in_speech: false,
        }
    }

    /// Classifies one chunk. A chunk louder than the threshold puts the
    /// detector in speech at once; speech ends only after the set number of
    /// chunks in a row that are not. What is reported is the detector's
    /// state, not the chunk's own loudness.
    pub fn process(&mut self, samples: &[i16]) -> (result: VadResult)
        ensures
            final(self)@ == old(self)@.process(samples@),
            old(self)@.valid(),
            final(self)@.valid(),
            result.is_speech == final(self)@.in_speech,
            result.audible == rms_exceeds(samples@, AUDIBLE_THRESHOLD as nat),
            result.energy == sum_of_squares(samples@),
            result.samples == samples@.len(),
    {
        let sum = energy(samples);
        proof {
            use_type_invariant(&*self);
            lemma_sum_of_squares_bound(samples@);
        }
        let loud = exceeds(sum, samples.len(), self.speech_threshold);
        if loud {
            self.silence_frames = 0;
            self.in_speech = true;
        } else if self.in_speech {
            let silent: usize = self.silence_frames + 1;
            if silent >= self.silence_frames_threshold {
                self.in_speech = false;
            }
            self.silence_frames = silent;
        }
        VadResult {
            is_speech: self.in_speech,
            audible: exceeds(sum, samples.len(), AUDIBLE_THRESHOLD),
            energy: sum,
            samples: samples.len(),
        }
    }

    /// Returns to silence with a cleared counter. The settings stay.
    pub fn reset(&mut self)
        ensures
            final(self)@ == old(self)@.reset(),
            final(self)@.valid(),
    {
        proof {
            use_type_invariant(&*self);
        }
        self.in_speech = false;
        self.silence_frames = 0;
    }

    /// Whether speech has ended by timeout.
    pub fn speech_ended(&self) -> (ended: bool)
        ensures
            ended == self@.speech_ended(),
    {
        !self.in_speech && self.silence_frames >= self.silence_frames_threshold
    }

    /// Whether the detector is in speech.
    pub fn in_speech(&self) -> (speaking: bool)
        ensures
            speaking == self@.in_speech,
    {
        self.in_speech
    }

    /// Sets the speech threshold, in thousandths, held inside the working range.
    pub fn set_threshold(&mut self, threshold: u16)
        ensures
            final(self)@ == (VadState {
                threshold: clamped_threshold(threshold),
                ..old(self)@
            }),
            final(self)@.valid(),
    {
        proof {
            use_type_invariant(&*self);
        }
        self.speech_threshold = if threshold < MIN_THRESHOLD {
            MIN_THRESHOLD
        } else if threshold > MAX_THRESHOLD {
            MAX_THRESHOLD
        } else {
            threshold
        };
    }

    /// Sets the number of silent chunks in a row that end speech; at least one.
    pub fn set_silence_timeout(&mut self, frames: usize)
        ensures
            final(self)@ == (VadState {
                silence_timeout: if frames < 1 {
                    1usize
                } else {
                    frames
                },
                ..old(self)@
            }),
            final(self)@.valid(),
    {
        proof {
            use_type_invariant(&*self);
        }
        self.silence_frames_threshold = if frames < 1 {
            1
        } else {
            frames
        };
    }
}

impl Default for VoiceActivityDetector {
    fn default() -> (detector: Self)
        ensures
            detector@ == VadState::initial(),
            detector@.valid(),
    {
        VoiceActivityDetector::new()
    }
}

// ---------------------------------------------------------------------------
// Laws
// ---------------------------------------------------------------------------

/// Every sample is zero.
pub open spec fn all_zero(samples: Seq<i16>) -> bool {
    forall|i: int| 0 <= i < samples.len() ==> samples[i] == 0
}

/// Every sample is at full scale, on either side.
pub open spec fn all_full_scale(samples: Seq<i16>) -> bool {
    forall|i: int| 0 <= i < samples.len() ==> samples[i] >= 32767 || samples[i] <= -32767
}

/// Every chunk of the run is one that was not loud.
pub open spec fn all_quiet(chunks: Seq<bool>) -> bool {
    forall|i: int| 0 <= i < chunks.len() ==> !chunks[i]
}

/// Samples that are all zero have no energy.
pub proof fn lemma_zero_energy(samples: Seq<i16>)
    requires
        all_zero(samples),
    ensures
        sum_of_squares(samples) == 0,
    decreases samples.len(),
{
    if samples.len() > 0 {
        lemma_zero_energy(samples.drop_last());
    }
}

/// Samples at full scale have at least the energy of full scale each.
pub proof fn lemma_full_scale_energy(samples: Seq<i16>)
    requires
        all_full_scale(samples),
    ensures
        sum_of_squares(samples) >= samples.len() * 32767 * 32767,
    decreases samples.len(),
{
    if samples.len() > 0 {
        lemma_full_scale_energy(samples.drop_last());
        let last = samples.last() as int;
        assert(last * last >= 32767 * 32767) by (nonlinear_arith)
            requires
                last >= 32767 || last <= -32767,
        ;
        assert((samples.len() - 1) * 32767 * 32767 + 32767 * 32767 == samples.len() * 32767
            * 32767) by (nonlinear_arith);
    }
}

/// Silence is never louder than any threshold, and a detector in silence
/// stays there, unchanged, on a chunk of silence.
pub proof fn law_silence_is_not_speech(state: VadState, samples: Seq<i16>)
    requires
        all_zero(samples),
    ensures
        !rms_exceeds(samples, state.threshold as nat),
        !state.in_speech ==> state.process(samples) == state,
        !state.in_speech ==> !state.process(samples).in_speech,
{
    lemma_zero_energy(samples);
    let p = state.threshold as nat;
    assert(p * p * 32767 * 32767 * samples.len() >= 0) by (nonlinear_arith)
        requires
            p >= 0,
            samples.len() >= 0,
    ;
}

/// A detector in silence stays in silence over any run of chunks that are
/// not loud.
pub proof fn law_quiet_run_stays_silent(state: VadState, chunks: Seq<bool>)
    requires
        !state.in_speech,
        all_quiet(chunks),
    ensures
        state.run(chunks) == state,
    decreases chunks.len(),
{
    if chunks.len() > 0 {
        law_quiet_run_stays_silent(state, chunks.drop_last());
    }
}

/// A chunk at full scale is louder than every threshold a detector can
/// have, and puts the detector in speech at once, whatever its state.
pub proof fn law_full_scale_is_speech(state: VadState, samples: Seq<i16>)
    requires
        state.valid(),
        samples.len() > 0,
        all_full_scale(samples),
    ensures
        rms_exceeds(samples, state.threshold as nat),
        state.process(samples).in_speech,
        state.process(samples).silence_frames == 0,
{
    lemma_full_scale_energy(samples);
    let p = state.threshold as nat;
    let n = samples.len();
    let q = sum_of_squares(samples);
    assert(q * 1_000_000 > p * p * 32767 * 32767 * n) by (nonlinear_arith)
        requires
            1 <= p <= 500,
            n > 0,
            q >= n * 32767 * 32767,
    {
        assert(p * p <= 250_000);
        assert(p * p * (32767 * 32767 * n) <= 250_000 * (32767 * 32767 * n));
    }
}

/// After speech, the detector is still in speech after fewer silent chunks
/// than the timeout, and in silence after as many as the timeout.
pub proof fn law_speech_ends_after_timeout(state: VadState, count: nat)
    requires
        state.valid(),
        state.in_speech,
        state.silence_frames == 0,
        count <= state.silence_timeout,
    ensures
        state.after_silence(count).silence_frames == count,
        state.after_silence(count).silence_timeout == state.silence_timeout,
        count < state.silence_timeout ==> state.after_silence(count).in_speech,
        count == state.silence_timeout ==> !state.after_silence(count).in_speech,
        count == state.silence_timeout ==> state.after_silence(count).speech_ended(),
    decreases count,
{
    if count > 0 {
        law_speech_ends_after_timeout(state, (count - 1) as nat);
    }
}

/// A reset leads to silence with a cleared counter from every state, and
/// keeps the settings.
pub proof fn law_reset_returns_to_silence(state: VadState)
    ensures
        !state.reset().in_speech,
        state.reset().silence_frames == 0,
        state.reset().threshold == state.threshold,
        state.reset().silence_timeout == state.silence_timeout,
        state.reset().reset() == state.reset(),
{
}

/// Every chunk keeps a valid detector valid.
pub proof fn law_step_keeps_valid(state: VadState, loud: bool)
    requires
        state.valid(),
    ensures
        state.step(loud).valid(),
{
}

} // verus!
