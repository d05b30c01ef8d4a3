//! Lifecycle of one hardware input stream.
//!
//! The hardware is driven from outside: the caller queries the device, opens
//! the stream and feeds every callback's data in. What to do at each step,
//! and what becomes of the data, is decided here.

use crate::audio::buffer::{AudioBuffer, AudioChunk, CANONICAL_SAMPLE_RATE};
use crate::audio::channel::{clone_sender, open_chunk_channel, send_chunk};
use crate::audio::chunks::chunk_count;
use crate::audio::resample::{
    between, law_length_within_one_of_rounded, law_mono_mixdown_keeps_input,
    law_output_is_interpolation, mixdown_i16, mixdown_spec, rates_match, resample, resample_spec,
    resampled_len, rounded_product, source_ceil, source_floor,
};
use tokio::sync::mpsc::{UnboundedReceiver, UnboundedSender};
use vstd::prelude::*;
use vstd::string::*;

verus! {

/// Why capture could not start.
#[derive(Debug)]
pub enum AudioCaptureError {
    DeviceError(String),
    StreamError(String),
    NotAvailable,
    NoInputDevice,
    UnsupportedFormat,
}

impl AudioCaptureError {
    /// The text of `message`.
    pub open spec fn message_spec(self) -> Seq<char> {
        match self {
            AudioCaptureError::DeviceError(detail) => "Failed to initialize audio device: "@
                + detail@,
            AudioCaptureError::StreamError(detail) => "Failed to build audio stream: "@ + detail@,
            AudioCaptureError::NotAvailable => "Audio capture not available"@,
            AudioCaptureError::NoInputDevice => "No input device found"@,
            AudioCaptureError::UnsupportedFormat => "Unsupported sample format"@,
        }
    }

    /// Human-readable description of the error.
    pub fn message(&self) -> (text: String)
        ensures
            text@ == self.message_spec(),
    {
        match self {
            AudioCaptureError::DeviceError(detail) => String::from_str(
                "Failed to initialize audio device: ",
            ).concat(detail.as_str()),
            AudioCaptureError::StreamError(detail) => String::from_str(
                "Failed to build audio stream: ",
            ).concat(detail.as_str()),
            AudioCaptureError::NotAvailable => String::from_str("Audio capture not available"),
            AudioCaptureError::NoInputDevice => String::from_str("No input device found"),
            AudioCaptureError::UnsupportedFormat => String::from_str("Unsupported sample format"),
        }
    }
}

/// How the device represents one sample.
#[derive(Debug, Clone, Copy)]
pub enum SampleFormat {
    /// Signed 16-bit integers.
    I16,
    /// 32-bit floating point.
    F32,
    /// Any other representation.
    Other,
}

/// Native configuration of an input device.
#[derive(Debug, Clone, Copy)]
pub struct InputConfig {
    pub sample_rate: u32,
    pub channels: u16,
    pub format: SampleFormat,
}

/// What asking the host for its default input device brought.
#[derive(Debug)]
pub enum DeviceQuery {
    /// The host has no default input device.
    NoDevice,
    /// There is a device, but it would not tell its configuration.
    ConfigUnavailable(String),
    /// The device and its native configuration.
    Ready(InputConfig),
}

/// The stream to open: what the device delivers and what capture makes of it.
#[derive(Debug, Clone, Copy)]
pub struct StreamPlan {
    pub source_rate: u32,
    pub channels: u16,
    pub format: SampleFormat,
    pub target_rate: u32,
}

impl StreamPlan {
    /// A stream that the capture callback can serve.
    pub open spec fn valid(self) -> bool {
        &&& self.source_rate > 0
        &&& self.channels > 0
        &&& !(self.format is Other)
    }

    /// Whether the capture callback can serve this stream.
    pub fn is_valid(&self) -> (valid: bool)
        ensures
            valid == self.valid(),
    {
        self.source_rate > 0 && self.channels > 0 && match self.format {
            SampleFormat::Other => false,
            _ => true,
        }
    }

    /// The mono samples at the pipeline's rate that a callback's mono data becomes.
    pub open spec fn chunk_of_mono(self, mono: Seq<i16>) -> Seq<i16> {
        resample_spec(mono, self.source_rate, self.target_rate)
    }

    /// The mono samples at the pipeline's rate that a callback's interleaved data becomes.
    pub open spec fn chunk_of_frames(self, data: Seq<i16>) -> Seq<i16> {
        self.chunk_of_mono(mixdown_spec(data, self.channels))
    }

    /// `len` mono samples can be converted without the result outgrowing memory.
    pub open spec fn fits_mono(self, len: nat) -> bool {
        resampled_len(len, self.source_rate, self.target_rate) <= usize::MAX
    }

    /// `len` interleaved samples can be converted without the result outgrowing memory.
    pub open spec fn fits_frames(self, len: nat) -> bool {
        self.fits_mono(chunk_count(len, self.channels as nat))
    }

    /// Whether `len` mono samples can be converted.
    pub fn accepts_mono(&self, len: usize) -> (accepted: bool)
        requires
            self.valid(),
        ensures
            accepted == self.fits_mono(len as nat),
    {
        fits_after_resampling(len as u128, self.source_rate, self.target_rate)
    }

    /// Whether `len` interleaved samples can be converted.
    pub fn accepts_frames(&self, len: usize) -> (accepted: bool)
        requires
            self.valid(),
        ensures
            accepted == self.fits_frames(len as nat),
    {
        let width: u64 = self.channels as u64;
        let frames: u128 = (len as u128 + width as u128 - 1) / (width as u128);
        assert(frames <= len) by (nonlinear_arith)
            requires
                width >= 1,
                frames == (len + width - 1) / (width as int),
        {
            assert(len + width - 1 < (len + 1) * width);
        }
        fits_after_resampling(frames, self.source_rate, self.target_rate)
    }

    /// Resamples a callback's mono data to the pipeline's rate. Needs no
    /// access to the capture engine, so no lock either.
    pub fn convert_mono(&self, mono: &[i16]) -> (samples: Vec<i16>)
        requires
            self.valid(),
            self.fits_mono(mono@.len()),
        ensures
            samples@ == self.chunk_of_mono(mono@),
    {
        resample(mono, self.source_rate, self.target_rate)
    }

    /// Mixes a callback's interleaved integer frames down to mono and
    /// resamples them to the pipeline's rate.
    pub fn convert_i16(&self, data: &[i16]) -> (samples: Vec<i16>)
        requires
            self.valid(),
            self.fits_frames(data@.len()),
        ensures
            samples@ == self.chunk_of_frames(data@),
    {
        let mono = mixdown_i16(data, self.channels);
        resample(mono.as_slice(), self.source_rate, self.target_rate)
    }
}

/// What opening the planned stream brought.
#[derive(Debug)]
pub enum StreamOutcome {
    /// The stream could not be built.
    BuildFailed(String),
    /// The stream was built but would not play.
    PlayFailed(String),
    /// The stream is playing.
    Playing,
}

/// First step of starting capture.
#[derive(Debug, Clone, Copy)]
pub enum StartStep {
    /// Capture is running already: starting again succeeds and changes nothing.
    AlreadyCapturing,
    /// Ask the host for its default input device and that device's configuration.
    QueryDevice,
}

/// Everything a contract needs to know of an `AudioCapture`.
pub struct CaptureState {
    /// Callbacks are served.
    pub capturing: bool,
    /// The open stream, if there is one.
    pub stream: Option<StreamPlan>,
    /// The session's samples so far.
    pub buffered: Seq<i16>,
    /// A chunk channel has been created.
    pub channel_installed: bool,
    /// The open stream sends its chunks to a channel.
    pub stream_sends: bool,
}

impl CaptureState {
    /// A fresh capture engine.
    pub open spec fn initial() -> CaptureState {
        CaptureState {
            capturing: false,
            stream: None,
            buffered: Seq::empty(),
            channel_installed: false,
            stream_sends: false,
        }
    }

    /// The first step of a start from this state.
    pub open spec fn start_step(self) -> StartStep {
        if self.capturing {
            StartStep::AlreadyCapturing
        } else {
            StartStep::QueryDevice
        }
    }

    /// The state after a stream was opened with `outcome`.
    pub open spec fn after_stream_opened(self, plan: StreamPlan, playing: bool) -> CaptureState {
        if playing {
            CaptureState {
                capturing: true,
                stream: Some(plan),
                stream_sends: self.channel_installed,
                ..self
            }
        } else {
            self
        }
    }

    /// The state after a stop.
    pub open spec fn after_stop(self) -> CaptureState {
        CaptureState {
            capturing: false,
            stream: None,
            buffered: Seq::empty(),
            stream_sends: false,
            ..self
        }
    }

    /// The mono samples at the pipeline's rate that a callback's mono data becomes.
    pub open spec fn chunk_of_mono(self, mono: Seq<i16>) -> Seq<i16> {
        self.stream->0.chunk_of_mono(mono)
    }

    /// The mono samples at the pipeline's rate that a callback's interleaved data becomes.
    pub open spec fn chunk_of_frames(self, data: Seq<i16>) -> Seq<i16> {
        self.stream->0.chunk_of_frames(data)
    }

    /// The state after a callback whose data became `chunk`.
    pub open spec fn after_chunk(self, chunk: Seq<i16>) -> CaptureState {
        if self.capturing {
            CaptureState { buffered: self.buffered + chunk, ..self }
        } else {
            self
        }
    }

    /// The stream can take `len` mono samples without the result outgrowing memory.
    pub open spec fn accepts_mono(self, len: nat) -> bool {
        self.capturing ==> self.stream->0.fits_mono(len)
    }

    /// The stream can take `len` interleaved samples without the result outgrowing memory.
    pub open spec fn accepts_frames(self, len: nat) -> bool {
        self.capturing ==> self.stream->0.fits_frames(len)
    }
}

impl InputConfig {
    /// A configuration that no stream can be made of: no channel, or no
    /// samples per second.
    pub open spec fn unusable(self) -> bool {
        self.sample_rate == 0 || self.channels == 0
    }
}

/// The stream to open for a queried device, if there is one: the device is
/// there, delivers integers or floats, and tells a usable configuration.
pub open spec fn plan_for(query: DeviceQuery, target_rate: u32) -> Option<StreamPlan> {
    match query {
        DeviceQuery::Ready(config) => if config.format is Other || config.unusable() {
            None
        } else {
            Some(
                StreamPlan {
                    source_rate: config.sample_rate,
                    channels: config.channels,
                    format: config.format,
                    target_rate,
                },
            )
        },
        _ => None,
    }
}

/// What opening a stream reports to the caller of start.
pub open spec fn start_result(outcome: StreamOutcome) -> Result<(), AudioCaptureError> {
    match outcome {
        StreamOutcome::BuildFailed(detail) => Err(AudioCaptureError::StreamError(detail)),
        StreamOutcome::PlayFailed(detail) => Err(AudioCaptureError::StreamError(detail)),
        StreamOutcome::Playing => Ok(()),
    }
}

/// Owner of the session buffer, the capture flag and the outgoing chunk channel.
pub struct AudioCapture {
    buffer: AudioBuffer,
    is_capturing: bool,
    stream: Option<StreamPlan>,
    chunk_sender: Option<UnboundedSender<AudioChunk>>,
    stream_sender: Option<UnboundedSender<AudioChunk>>,
    target_sample_rate: u32,
}

impl View for AudioCapture {
    type V = CaptureState;

    closed spec fn view(&self) -> CaptureState {
        CaptureState {
            capturing: self.is_capturing,
            stream: self.stream,
            buffered: self.buffer@,
            channel_installed: self.chunk_sender is Some,
            stream_sends: self.stream_sender is Some,
        }
    }
}

impl AudioCapture {
    /// The engine's invariant: capture runs only on an open stream, and an
    /// open stream is valid and aims at the pipeline's rate.
    pub closed spec fn wf(&self) -> bool {
        &&& self.target_sample_rate == CANONICAL_SAMPLE_RATE
        &&& self.buffer.spec_sample_rate() == self.target_sample_rate
        &&& self.is_capturing ==> self.stream is Some
        &&& self.stream matches Some(plan) ==> plan.valid() && plan.target_rate
            == self.target_sample_rate
        &&& self.stream is None ==> self.stream_sender is None
    }

    /// An idle engine with an empty buffer and no chunk channel.
    pub fn new() -> (capture: Self)
        ensures
            capture.wf(),
            capture@ == CaptureState::initial(),
    {
        AudioCapture {
            buffer: AudioBuffer::new(CANONICAL_SAMPLE_RATE),
            is_capturing: false,
            stream: None,
            chunk_sender: None,
            stream_sender: None,
            target_sample_rate: CANONICAL_SAMPLE_RATE,
        }
    }

    /// Makes a fresh channel, keeps its sending half for streams opened from
    /// now on, and hands out the receiving half. An earlier channel is let go.
    pub fn create_chunk_channel(&mut self) -> (receiver: UnboundedReceiver<AudioChunk>)
        requires
            old(self).wf(),
        ensures
            final(self).wf(),
            final(self)@ == (CaptureState { channel_installed: true, ..old(self)@ }),
    {
        let (sender, receiver) = open_chunk_channel();
        self.chunk_sender = Some(sender);
        receiver
    }

    /// Begins a start: nothing is to be done while capture runs, else the
    /// device is to be queried.
    pub fn start(&self) -> (step: StartStep)
        ensures
            step == self@.start_step(),
    {
        if self.is_capturing {
            StartStep::AlreadyCapturing
        } else {
            StartStep::QueryDevice
        }
    }

    /// Second step of a start: turns what the device query brought into the
    /// stream to open, or into the error that ends the start. A sample
    /// representation other than integers or floats is refused whatever
    /// else the configuration says; a configuration without channels or
    /// without a sample rate is refused next. Every stream that is planned
    /// is one the callback can serve.
    pub fn plan_stream(&self, query: DeviceQuery) -> (plan: Result<StreamPlan, AudioCaptureError>)
        requires
            self.wf(),
        ensures
            plan_for(query, CANONICAL_SAMPLE_RATE) matches Some(p) ==> plan == Ok::<
                StreamPlan,
                AudioCaptureError,
            >(p),
            plan matches Ok(p) ==> p.valid() && p.target_rate == CANONICAL_SAMPLE_RATE,
            query is NoDevice ==> plan matches Err(AudioCaptureError::NoInputDevice),
            query matches DeviceQuery::ConfigUnavailable(cause) ==> plan == Err::<
                StreamPlan,
                AudioCaptureError,
            >(AudioCaptureError::DeviceError(cause)),
            query matches DeviceQuery::Ready(config) && config.format is Other ==> plan matches Err(
                AudioCaptureError::UnsupportedFormat,
            ),
            query matches DeviceQuery::Ready(config) && !(config.format is Other)
                && config.unusable() ==> (plan matches Err(AudioCaptureError::DeviceError(detail))
                && detail@ == "Input device reports no channels or no sample rate"@),
    {
        match query {
            DeviceQuery::NoDevice => Err(AudioCaptureError::NoInputDevice),
            DeviceQuery::ConfigUnavailable(detail) => Err(AudioCaptureError::DeviceError(detail)),
            DeviceQuery::Ready(config) => match config.format {
                SampleFormat::Other => Err(AudioCaptureError::UnsupportedFormat),
                _ => {
                    if config.sample_rate == 0 || config.channels == 0 {
                        Err(
                            AudioCaptureError::DeviceError(
                                String::from_str(
                                    "Input device reports no channels or no sample rate",
                                ),
                            ),
                        )
                    } else {
                        Ok(
                            StreamPlan {
                                source_rate: config.sample_rate,
                                channels: config.channels,
                                format: config.format,
                                target_rate: self.target_sample_rate,
                            },
                        )
                    }
                },
            },
        }
    }

    /// Last step of a start: records a playing stream and raises the capture
    /// flag, or reports why the stream failed and stays idle.
    pub fn stream_opened(&mut self, plan: StreamPlan, outcome: StreamOutcome) -> (result: Result<
        (),
        AudioCaptureError,
    >)
        requires
            old(self).wf(),
            plan.valid(),
            plan.target_rate == CANONICAL_SAMPLE_RATE,
        ensures
            final(self).wf(),
            result == start_result(outcome),
            final(self)@ == old(self)@.after_stream_opened(plan, outcome is Playing),
    {
        match outcome {
            StreamOutcome::BuildFailed(detail) => Err(AudioCaptureError::StreamError(detail)),
            StreamOutcome::PlayFailed(detail) => Err(AudioCaptureError::StreamError(detail)),
            StreamOutcome::Playing => {
                let sender = match &self.chunk_sender {
                    Some(sender) => Some(clone_sender(sender)),
                    None => None,
                };
                self.stream_sender = sender;
                self.stream = Some(plan);
                self.is_capturing = true;
                Ok(())
            },
        }
    }

    /// Lowers the capture flag, lets the stream go and hands out the
    /// session's samples, leaving the buffer empty.
    pub fn stop(&mut self) -> (result: Result<Vec<i16>, AudioCaptureError>)
        requires
            old(self).wf(),
        ensures
            final(self).wf(),
            result matches Ok(samples) && samples@ == old(self)@.buffered,
            final(self)@ == old(self)@.after_stop(),
    {
        self.is_capturing = false;
        self.stream = None;
        self.stream_sender = None;
        let samples = self.buffer.take_samples();
        Ok(samples)
    }

    /// Whether callbacks are being served.
    pub fn is_capturing(&self) -> (capturing: bool)
        ensures
            capturing == self@.capturing,
    {
        self.is_capturing
    }

    /// Number of samples recorded in this session so far.
    pub fn buffered_samples(&self) -> (n: usize)
        ensures
            n == self@.buffered.len(),
    {
        self.buffer.len()
    }

    /// Discards what was recorded so far.
    pub fn clear_buffer(&mut self)
        requires
            old(self).wf(),
        ensures
            final(self).wf(),
            final(self)@ == (CaptureState { buffered: Seq::empty(), ..old(self)@ }),
    {
        self.buffer.clear();
    }

    /// The rate of everything this engine hands out.
    pub fn sample_rate(&self) -> (rate: u32)
        requires
            self.wf(),
        ensures
            rate == CANONICAL_SAMPLE_RATE,
    {
        self.target_sample_rate
    }
    /// The open stream, if there is one. While capture runs there is one, and
    /// every open stream is valid and aims at the pipeline's rate.
    pub fn stream(&self) -> (stream: Option<StreamPlan>)
        requires
            self.wf(),
        ensures
            stream == self@.stream,
            self@.capturing ==> stream is Some,
            stream matches Some(plan) ==> plan.valid() && plan.target_rate
                == CANONICAL_SAMPLE_RATE,
            stream is None ==> !self@.stream_sends,
    {
        self.stream
    }

    /// Whether a callback with `len` interleaved samples can be served: the
    /// converted data must not outgrow what memory can address.
    pub fn accepts_frames(&self, len: usize) -> (accepted: bool)
        requires
            self.wf(),
        ensures
            accepted == self@.accepts_frames(len as nat),
    {
        if !self.is_capturing {
            return true;
        }
        match self.stream {
            Some(plan) => plan.accepts_frames(len),
            None => true,
        }
    }

    /// Whether a callback with `len` mono samples can be served.
    pub fn accepts_mono(&self, len: usize) -> (accepted: bool)
        requires
            self.wf(),
        ensures
            accepted == self@.accepts_mono(len as nat),
    {
        if !self.is_capturing {
            return true;
        }
        match self.stream {
            Some(plan) => plan.accepts_mono(len),
            None => true,
        }
    }

    /// Appends converted samples to the session buffer and hands them back
    /// as the chunk to send; nothing while capture is off. This is all of
    /// the callback that needs the engine to itself.
    pub fn record(&mut self, samples: Vec<i16>) -> (chunk: Option<AudioChunk>)
        requires
            old(self).wf(),
        ensures
            final(self).wf(),
            old(self)@.capturing ==> (chunk matches Some(c) && c.samples@ == samples@
                && c.sample_rate == CANONICAL_SAMPLE_RATE),
            !old(self)@.capturing ==> chunk is None,
            final(self)@ == old(self)@.after_chunk(samples@),
    {
        if !self.is_capturing {
            return None;
        }
        self.buffer.push(samples.as_slice());
        Some(AudioChunk { samples, sample_rate: self.target_sample_rate })
    }

    /// Records converted samples, then sends them as a chunk. Tells whether
    /// a send was attempted: capture runs and the stream has a channel.
    pub fn deliver(&mut self, samples: Vec<i16>) -> (attempted: bool)
        requires
            old(self).wf(),
        ensures
            final(self).wf(),
            final(self)@ == old(self)@.after_chunk(samples@),
            attempted == (old(self)@.capturing && old(self)@.stream_sends),
    {
        match self.record(samples) {
            Some(chunk) => self.send(chunk),
            None => false,
        }
    }

    /// The capture callback up to the point of sending, for data that is
    /// mono already: nothing while capture is off; else the data is resampled
    /// to the pipeline's rate, appended to the session buffer and handed back
    /// as the chunk to send.
    pub fn capture_chunk_mono(&mut self, mono: &[i16]) -> (chunk: Option<AudioChunk>)
        requires
            old(self).wf(),
            old(self)@.accepts_mono(mono@.len()),
        ensures
            final(self).wf(),
            old(self)@.capturing ==> chunk is Some,
            !old(self)@.capturing ==> chunk is None,
            chunk matches Some(c) ==> c.samples@ == old(self)@.chunk_of_mono(mono@)
                && c.sample_rate == CANONICAL_SAMPLE_RATE,
            final(self)@ == old(self)@.after_chunk(old(self)@.chunk_of_mono(mono@)),
    {
        if !self.is_capturing {
            return None;
        }
        match self.stream {
            Some(plan) => {
                let samples = plan.convert_mono(mono);
                self.record(samples)
            },
            None => None,
        }
    }

    /// The capture callback up to the point of sending, for interleaved
    /// integer frames: as `capture_chunk_mono`, after mixing the frames down.
    pub fn capture_chunk_i16(&mut self, data: &[i16]) -> (chunk: Option<AudioChunk>)
        requires
            old(self).wf(),
            old(self)@.accepts_frames(data@.len()),
        ensures
            final(self).wf(),
            old(self)@.capturing ==> chunk is Some,
            !old(self)@.capturing ==> chunk is None,
            chunk matches Some(c) ==> c.samples@ == old(self)@.chunk_of_frames(data@)
                && c.sample_rate == CANONICAL_SAMPLE_RATE,
            final(self)@ == old(self)@.after_chunk(old(self)@.chunk_of_frames(data@)),
    {
        if !self.is_capturing {
            return None;
        }
        match self.stream {
            Some(plan) => {
                let samples = plan.convert_i16(data);
                self.record(samples)
            },
            None => None,
        }
    }

    /// Sends `chunk` to the stream's channel, if it has one. A refused send
    /// is ignored: capture never waits for its consumer.
    pub fn send(&self, chunk: AudioChunk) -> (attempted: bool)
        ensures
            attempted == self@.stream_sends,
    {
        match &self.stream_sender {
            Some(sender) => {
                let _ = send_chunk(sender, chunk);
                true
            },
            None => false,
        }
    }

    /// The capture callback for mono data: records the chunk, then sends it.
    /// Tells whether a send was attempted.
    pub fn on_input_mono(&mut self, mono: &[i16]) -> (attempted: bool)
        requires
            old(self).wf(),
            old(self)@.accepts_mono(mono@.len()),
        ensures
            final(self).wf(),
            final(self)@ == old(self)@.after_chunk(old(self)@.chunk_of_mono(mono@)),
            attempted == (old(self)@.capturing && old(self)@.stream_sends),
    {
        match self.capture_chunk_mono(mono) {
            Some(chunk) => self.send(chunk),
            None => false,
        }
    }

    /// The capture callback for interleaved integer frames: records the
    /// chunk, then sends it. Tells whether a send was attempted.
    pub fn on_input_i16(&mut self, data: &[i16]) -> (attempted: bool)
        requires
            old(self).wf(),
            old(self)@.accepts_frames(data@.len()),
        ensures
            final(self).wf(),
            final(self)@ == old(self)@.after_chunk(old(self)@.chunk_of_frames(data@)),
            attempted == (old(self)@.capturing && old(self)@.stream_sends),
    {
        match self.capture_chunk_i16(data) {
            Some(chunk) => self.send(chunk),
            None => false,
        }
    }
}

/// Whether `len` samples at `source_rate` still fit in memory at `target_rate`.
fn fits_after_resampling(len: u128, source_rate: u32, target_rate: u32) -> (fits: bool)
    requires
        source_rate > 0,
        len <= 0x1_0000_0000_0000_0000,
    ensures
        fits == (resampled_len(len as nat, source_rate, target_rate) <= usize::MAX),
{
    let diff: u32 = if source_rate <= target_rate {
        target_rate - source_rate
    } else {
        source_rate - target_rate
    };
    if (diff as u64) * 1000 < source_rate as u64 {
        return len <= usize::MAX as u128;
    }
    assert((len as int) * (target_rate as int) <= 0x1_0000_0000_0000_0000 * 0xffff_ffff)
        by (nonlinear_arith)
        requires
            0 <= len as int <= 0x1_0000_0000_0000_0000,
            0 <= target_rate as int <= 0xffff_ffff,
    ;
    len * (target_rate as u128) / (source_rate as u128) <= usize::MAX as u128
}

// ---------------------------------------------------------------------------
// Laws
// ---------------------------------------------------------------------------

/// Starting while capture runs asks for nothing, so no second stream is
/// opened: right after a stream began to play, and in every state in which
/// capture runs.
pub proof fn law_start_is_idempotent(state: CaptureState, plan: StreamPlan)
    ensures
        state.after_stream_opened(plan, true).start_step() is AlreadyCapturing,
        state.capturing ==> state.start_step() is AlreadyCapturing,
{
}

/// Stopping an engine that never started hands out no samples and reports no error.
pub proof fn law_stop_before_start_is_empty()
    ensures
        CaptureState::initial().buffered == Seq::<i16>::empty(),
        CaptureState::initial().after_stop() == CaptureState::initial(),
{
}

/// Once stopped, callbacks leave the state alone, whatever data they bring.
pub proof fn law_callbacks_after_stop_do_nothing(state: CaptureState, chunk: Seq<i16>)
    ensures
        state.after_stop().after_chunk(chunk) == state.after_stop(),
{
}

/// What a callback makes of mono integer data from a device whose rate is
/// not the pipeline's: a chunk whose length is within one of the data's
/// length times the ratio of the rates, rounded, and whose every sample
/// lies between the two samples of the data around its position.
pub proof fn law_mono_chunk_is_interpolated(state: CaptureState, data: Seq<i16>, i: int)
    requires
        state.stream matches Some(plan) && plan.valid() && plan.channels == 1 && !rates_match(
            plan.source_rate,
            plan.target_rate,
        ),
    ensures
        state.chunk_of_frames(data) == state.chunk_of_mono(data),
        state.chunk_of_frames(data).len() <= rounded_product(
            data.len(),
            state.stream->0.source_rate,
            state.stream->0.target_rate,
        ) <= state.chunk_of_frames(data).len() + 1,
        0 <= i < state.chunk_of_frames(data).len() ==> between(
            state.chunk_of_frames(data)[i] as int,
            data[source_floor(i, state.stream->0.source_rate, state.stream->0.target_rate)] as int,
            data[source_ceil(
                data.len() as int,
                i,
                state.stream->0.source_rate,
                state.stream->0.target_rate,
            )] as int,
        ),
{
    let plan = state.stream->0;
    law_mono_mixdown_keeps_input(data);
    law_length_within_one_of_rounded(data, plan.source_rate, plan.target_rate);
    if 0 <= i < state.chunk_of_frames(data).len() {
        law_output_is_interpolation(data, plan.source_rate, plan.target_rate, i);
    }
}

} // verus!
