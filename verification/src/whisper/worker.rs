//! The transcription engine: which model context it holds, how a model gets
//! loaded (GPU first, CPU as the fallback) and how a transcript is put
//! together.
//!
//! Loading and inference themselves happen outside. A load is a short
//! conversation: the engine says what to try next, the caller tries it and
//! reports back, until the engine says the load is done.

use crate::text::{is_whitespace, law_stripped_ends, push_char, trim, trimmed, CharClass};
use crate::whisper::gpu::GpuBackend;
use vstd::prelude::*;
use vstd::string::*;

verus! {

/// Threads to run inference on with `cpus` logical CPUs: three quarters of
/// them, rounded up, and never fewer than one.
pub open spec fn thread_count_for(cpus: nat) -> int {
    let threads: int = ((3 * cpus + 3) / 4) as int;
    if threads < 1 {
        1
    } else if threads > i32::MAX {
        i32::MAX as int
    } else {
        threads
    }
}

/// Threads to run inference on with `cpus` logical CPUs.
pub fn optimal_thread_count(cpus: usize) -> (threads: i32)
    ensures
        threads == thread_count_for(cpus as nat),
        threads >= 1,
{
    let wide: u128 = (3 * (cpus as u128) + 3) / 4;
    if wide < 1 {
        1
    } else if wide > i32::MAX as u128 {
        i32::MAX
    } else {
        wide as i32
    }
}

/// The number of logical CPUs assumed when the machine will not tell.
pub const FALLBACK_CPUS: usize = 4;

/// Why a load or a transcription failed.
#[derive(Debug)]
pub enum WhisperError {
    NotLoaded,
    LoadError(String),
    ModelNotFound(String),
    TranscriptionError(String),
    InvalidAudio,
}

impl WhisperError {
    /// The text of `message`.
    pub open spec fn message_spec(self) -> Seq<char> {
        match self {
            WhisperError::NotLoaded => "Model not loaded"@,
            WhisperError::LoadError(detail) => "Failed to load model: "@ + detail@,
            WhisperError::ModelNotFound(path) => "Model not found: "@ + path@,
            WhisperError::TranscriptionError(detail) => "Transcription failed: "@ + detail@,
            WhisperError::InvalidAudio => "Invalid audio data"@,
        }
    }

    /// Human-readable description of the error.
    pub fn message(&self) -> (text: String)
        ensures
            text@ == self.message_spec(),
    {
        match self {
            WhisperError::NotLoaded => String::from_str("Model not loaded"),
            WhisperError::LoadError(detail) => String::from_str("Failed to load model: ").concat(
                detail.as_str(),
            ),
            WhisperError::ModelNotFound(path) => String::from_str("Model not found: ").concat(
                path.as_str(),
            ),
            WhisperError::TranscriptionError(detail) => String::from_str(
                "Transcription failed: ",
            ).concat(detail.as_str()),
            WhisperError::InvalidAudio => String::from_str("Invalid audio data"),
        }
    }
}

/// How a successful load went.
#[derive(Debug, Clone)]
pub struct ModelLoadResult {
    /// The model is loaded.
    pub success: bool,
    /// The model runs on the GPU.
    pub using_gpu: bool,
    /// Name of the backend the model runs on.
    pub backend: String,
    /// The GPU was tried, failed, and the CPU took over.
    pub fallback_used: bool,
}

impl ModelLoadResult {
    /// The report of a successful load on `backend`.
    pub open spec fn reports(self, using_gpu: bool, backend: Seq<char>, fallback_used: bool) -> bool {
        &&& self.success
        &&& self.using_gpu == using_gpu
        &&& self.backend@ == backend
        &&& self.fallback_used == fallback_used
    }
}

/// Settings of the engine.
#[derive(Debug, Clone)]
pub struct WhisperConfig {
    /// Path of the loaded model; empty while none is loaded.
    pub model_path: String,
    /// Language to decode; `None` asks for automatic detection.
    pub language: Option<String>,
    /// Translate to English instead of transcribing.
    pub translate: bool,
    /// Threads to run inference on.
    pub n_threads: i32,
}

impl WhisperConfig {
    /// The settings for a machine with `cpus` logical CPUs: no model, language
    /// detected automatically, no translation.
    pub fn for_cpus(cpus: usize) -> (config: Self)
        ensures
            config.model_path@ == Seq::<char>::empty(),
            config.language is None,
            !config.translate,
            config.n_threads == thread_count_for(cpus as nat),
            config.n_threads >= 1,
    {
        WhisperConfig {
            model_path: String::new(),
            language: None,
            translate: false,
            n_threads: optimal_thread_count(cpus),
        }
    }
}

impl Default for WhisperConfig {
    /// The settings for a machine that will not tell its number of CPUs.
    fn default() -> (config: Self)
        ensures
            config.model_path@ == Seq::<char>::empty(),
            config.language is None,
            !config.translate,
            config.n_threads == 3,
    {
        WhisperConfig::for_cpus(FALLBACK_CPUS)
    }
}

/// A model file as the caller found it.
#[derive(Debug, Clone)]
pub struct ModelFile {
    /// The path, as it is shown to people.
    pub path: String,
    /// Something exists at the path.
    pub exists: bool,
    /// The path is valid Unicode, so the loader can take it.
    pub is_unicode: bool,
}

/// Where a load stands.
#[derive(Debug, Clone, Copy)]
pub enum LoadPhase {
    /// No load is under way.
    Idle,
    /// The caller is finding out which backend is active.
    Detecting,
    /// The caller is initialising the model on the GPU.
    AwaitingGpu,
    /// The caller is initialising the model on the CPU.
    AwaitingCpu,
}

/// What the caller is to do next in a load.
#[derive(Debug)]
pub enum LoadStep {
    /// Find out which backend is active and report it.
    DetectBackend,
    /// Initialise the model with GPU acceleration and report the outcome.
    InitGpu,
    /// Initialise the model on the CPU and report the outcome.
    InitCpu,
    /// The load is over.
    Done(Result<ModelLoadResult, WhisperError>),
}

/// Everything a contract needs to know of a `WhisperEngine`.
pub struct EngineState<C> {
    /// The loaded model, if there is one.
    pub context: Option<C>,
    pub model_path: Seq<char>,
    pub language: Option<Seq<char>>,
    pub translate: bool,
    pub n_threads: i32,
    /// The loaded model runs on the GPU.
    pub using_gpu: bool,
    /// The loaded model fell back to the CPU.
    pub fallback_used: bool,
    /// Where the load under way stands.
    pub phase: LoadPhase,
    /// The load under way: its file's path.
    pub pending_path: Seq<char>,
    /// The load under way: its path can be handed to the loader.
    pub pending_unicode: bool,
    /// The load under way: the caller insists on the CPU.
    pub force_cpu: bool,
    /// The load under way: the backend it tried or tries on the GPU.
    pub backend: GpuBackend,
    /// The load under way: the GPU was tried.
    pub tried_gpu: bool,
}

impl<C> EngineState<C> {
    /// The engine holds a model.
    pub open spec fn loaded(self) -> bool {
        self.context is Some
    }

    /// What the loaded model is: context, path and flags. A load changes
    /// these only when it succeeds.
    pub open spec fn same_model(self, other: EngineState<C>) -> bool {
        &&& self.context == other.context
        &&& self.model_path == other.model_path
        &&& self.using_gpu == other.using_gpu
        &&& self.fallback_used == other.fallback_used
        &&& self.language == other.language
        &&& self.translate == other.translate
        &&& self.n_threads == other.n_threads
    }

    /// The state after a load was asked for.
    pub open spec fn after_begin(self, model: ModelFile, force_cpu: bool) -> EngineState<C> {
        if model.exists {
            EngineState {
                phase: LoadPhase::Detecting,
                pending_path: model.path@,
                pending_unicode: model.is_unicode,
                force_cpu,
                tried_gpu: false,
                ..self
            }
        } else {
            self
        }
    }

    /// A load with the detected `backend` goes to the GPU first.
    pub open spec fn wants_gpu(self, backend: GpuBackend) -> bool {
        !(backend is Cpu) && !self.force_cpu
    }

    /// The state after the active backend was reported.
    pub open spec fn after_backend(self, backend: GpuBackend) -> EngineState<C> {
        if !self.pending_unicode {
            EngineState { phase: LoadPhase::Idle, ..self }
        } else if self.wants_gpu(backend) {
            EngineState { phase: LoadPhase::AwaitingGpu, backend, tried_gpu: true, ..self }
        } else {
            EngineState { phase: LoadPhase::AwaitingCpu, backend, tried_gpu: false, ..self }
        }
    }

    /// The state after the GPU attempt was reported; `context` is what it
    /// brought, if it went well.
    pub open spec fn after_gpu(self, context: Option<C>) -> EngineState<C> {
        match context {
            Some(ctx) => EngineState {
                context: Some(ctx),
                model_path: self.pending_path,
                using_gpu: true,
                fallback_used: false,
                phase: LoadPhase::Idle,
                ..self
            },
            None => EngineState { phase: LoadPhase::AwaitingCpu, ..self },
        }
    }

    /// The state after the CPU attempt was reported; `context` is what it
    /// brought, if it went well.
    pub open spec fn after_cpu(self, context: Option<C>) -> EngineState<C> {
        match context {
            Some(ctx) => EngineState {
                context: Some(ctx),
                model_path: self.pending_path,
                using_gpu: false,
                fallback_used: self.tried_gpu,
                phase: LoadPhase::Idle,
                ..self
            },
            None => EngineState { phase: LoadPhase::Idle, ..self },
        }
    }
}

/// What an attempt brought, if it went well.
pub open spec fn context_of<C>(outcome: Result<C, String>) -> Option<C> {
    match outcome {
        Ok(ctx) => Some(ctx),
        Err(_) => None,
    }
}

/// What a transcription needs from the engine's settings.
#[derive(Debug, Clone)]
pub struct TranscribeJob {
    /// Language to decode; `None` asks for automatic detection.
    pub language: Option<String>,
    /// Translate to English instead of transcribing.
    pub translate: bool,
    /// Threads to run inference on.
    pub n_threads: i32,
}

/// Owner of at most one loaded model, of type `C`.
pub struct WhisperEngine<C> {
    context: Option<C>,
    config: WhisperConfig,
    using_gpu: bool,
    fallback_used: bool,
    phase: LoadPhase,
    pending_path: String,
    pending_unicode: bool,
    force_cpu: bool,
    backend: GpuBackend,
    tried_gpu: bool,
}

/// The characters of an optional string.
pub open spec fn text_view(text: Option<String>) -> Option<Seq<char>> {
    match text {
        Some(s) => Some(s@),
        None => None,
    }
}

impl<C> View for WhisperEngine<C> {
    type V = EngineState<C>;

    closed spec fn view(&self) -> EngineState<C> {
        EngineState {
            context: self.context,
            model_path: self.config.model_path@,
            language: text_view(self.config.language),
            translate: self.config.translate,
            n_threads: self.config.n_threads,
            using_gpu: self.using_gpu,
            fallback_used: self.fallback_used,
            phase: self.phase,
            pending_path: self.pending_path@,
            pending_unicode: self.pending_unicode,
            force_cpu: self.force_cpu,
            backend: self.backend,
            tried_gpu: self.tried_gpu,
        }
    }
}

impl<C> WhisperEngine<C> {
    /// An engine without a model.
    pub fn new(config: WhisperConfig) -> (engine: Self)
        ensures
            engine@.context is None,
            engine@.phase is Idle,
            !engine@.using_gpu,
            !engine@.fallback_used,
            engine@.model_path == config.model_path@,
            engine@.language == text_view(config.language),
            engine@.translate == config.translate,
            engine@.n_threads == config.n_threads,
    {
        WhisperEngine {
            context: None,
            config,
            using_gpu: false,
            fallback_used: false,
            phase: LoadPhase::Idle,
            pending_path: String::new(),
            pending_unicode: false,
            force_cpu: false,
            backend: GpuBackend::Cpu,
            tried_gpu: false,
        }
    }

    /// Whether the loaded model runs on the GPU.
    pub fn is_using_gpu(&self) -> (using_gpu: bool)
        ensures
            using_gpu == self@.using_gpu,
    {
        self.using_gpu
    }

    /// Whether the loaded model fell back to the CPU.
    pub fn was_fallback_used(&self) -> (fallback_used: bool)
        ensures
            fallback_used == self@.fallback_used,
    {
        self.fallback_used
    }

    /// Name of the backend the model runs on, `active` being the backend
    /// that is active now.
    pub fn get_backend_name(&self, active: GpuBackend) -> (name: String)
        ensures
            name@ == (if self@.using_gpu {
                active.name_spec()
            } else {
                GpuBackend::Cpu.name_spec()
            }),
    {
        if self.using_gpu {
            String::from_str(active.name())
        } else {
            String::from_str("CPU")
        }
    }

    /// Where the load under way stands.
    pub fn load_phase(&self) -> (phase: LoadPhase)
        ensures
            phase == self@.phase,
    {
        self.phase
    }

    /// Asks for a load that may use the GPU.
    pub fn load_model(&mut self, model: ModelFile) -> (step: LoadStep)
        ensures
            final(self)@ == old(self)@.after_begin(model, false),
            model.exists ==> step is DetectBackend,
            !model.exists ==> (step matches LoadStep::Done(Err(WhisperError::ModelNotFound(path)))
                && path@ == model.path@),
    {
        self.load_model_with_options(model, false)
    }

    /// Asks for a load. A file that does not exist ends the load at once and
    /// leaves the engine as it was; else the caller is to detect the backend.
    pub fn load_model_with_options(&mut self, model: ModelFile, force_cpu: bool) -> (step: LoadStep)
        ensures
            final(self)@ == old(self)@.after_begin(model, force_cpu),
            model.exists ==> step is DetectBackend,
            !model.exists ==> (step matches LoadStep::Done(Err(WhisperError::ModelNotFound(path)))
                && path@ == model.path@),
    {
        if !model.exists {
            return LoadStep::Done(Err(WhisperError::ModelNotFound(model.path)));
        }
        self.phase = LoadPhase::Detecting;
        self.pending_path = model.path;
        self.pending_unicode = model.is_unicode;
        self.force_cpu = force_cpu;
        self.tried_gpu = false;
        LoadStep::DetectBackend
    }

    /// Takes the active backend. A path the loader cannot take ends the
    /// load; else the GPU is tried if there is one and the CPU was not
    /// insisted on, and the CPU otherwise.
    pub fn backend_detected(&mut self, backend: GpuBackend) -> (step: LoadStep)
        requires
            old(self)@.phase is Detecting,
        ensures
            final(self)@ == old(self)@.after_backend(backend),
            !old(self)@.pending_unicode ==> (step matches LoadStep::Done(
                Err(WhisperError::LoadError(detail)),
            ) && detail@ == "Invalid model path"@),
            old(self)@.pending_unicode && old(self)@.wants_gpu(backend) ==> step is InitGpu,
            old(self)@.pending_unicode && !old(self)@.wants_gpu(backend) ==> step is InitCpu,
    {
        if !self.pending_unicode {
            self.phase = LoadPhase::Idle;
            return LoadStep::Done(
                Err(WhisperError::LoadError(String::from_str("Invalid model path"))),
            );
        }
        let wants_gpu = backend != GpuBackend::Cpu && !self.force_cpu;
        self.backend = backend;
        self.tried_gpu = wants_gpu;
        if wants_gpu {
            self.phase = LoadPhase::AwaitingGpu;
            LoadStep::InitGpu
        } else {
            self.phase = LoadPhase::AwaitingCpu;
            LoadStep::InitCpu
        }
    }

    /// Takes the outcome of the GPU attempt. A context replaces the one
    /// held and ends the load; a failure sends the load on to the CPU.
    pub fn gpu_initialized(&mut self, outcome: Result<C, String>) -> (step: LoadStep)
        requires
            old(self)@.phase is AwaitingGpu,
        ensures
            final(self)@ == old(self)@.after_gpu(context_of(outcome)),
            outcome is Ok ==> (step matches LoadStep::Done(Ok(report)) && report.reports(
                true,
                old(self)@.backend.name_spec(),
                false,
            )),
            outcome is Err ==> step is InitCpu,
    {
        match outcome {
            Ok(context) => {
                self.context = Some(context);
                self.config.model_path = self.pending_path.clone();
                self.using_gpu = true;
                self.fallback_used = false;
                self.phase = LoadPhase::Idle;
                LoadStep::Done(
                    Ok(
                        ModelLoadResult {
                            success: true,
                            using_gpu: true,
                            backend: String::from_str(self.backend.name()),
                            fallback_used: false,
                        },
                    ),
                )
            },
            Err(_) => {
                self.phase = LoadPhase::AwaitingCpu;
                LoadStep::InitCpu
            },
        }
    }

    /// Takes the outcome of the CPU attempt, which ends the load. A context
    /// replaces the one held; a failure leaves the engine's model as it was.
    pub fn cpu_initialized(&mut self, outcome: Result<C, String>) -> (result: Result<
        ModelLoadResult,
        WhisperError,
    >)
        requires
            old(self)@.phase is AwaitingCpu,
        ensures
            final(self)@ == old(self)@.after_cpu(context_of(outcome)),
            outcome is Ok ==> (result matches Ok(report) && report.reports(
                false,
                GpuBackend::Cpu.name_spec(),
                old(self)@.tried_gpu,
            )),
            outcome matches Err(cause) ==> (result matches Err(WhisperError::LoadError(detail))
                && detail@ == "CPU loading failed: "@ + cause@),
    {
        match outcome {
            Ok(context) => {
                self.context = Some(context);
                self.config.model_path = self.pending_path.clone();
                self.using_gpu = false;
                self.fallback_used = self.tried_gpu;
                self.phase = LoadPhase::Idle;
                Ok(
                    ModelLoadResult {
                        success: true,
                        using_gpu: false,
                        backend: String::from_str("CPU"),
                        fallback_used: self.tried_gpu,
                    },
                )
            },
            Err(cause) => {
                self.phase = LoadPhase::Idle;
                Err(
                    WhisperError::LoadError(
                        String::from_str("CPU loading failed: ").concat(cause.as_str()),
                    ),
                )
            },
        }
    }

    /// Pins decoding to a language, or asks for automatic detection with `None`.
    pub fn set_language(&mut self, language: Option<String>)
        ensures
            final(self)@ == (EngineState { language: text_view(language), ..old(self)@ }),
    {
        self.config.language = language;
    }

    /// Whether a model is loaded.
    pub fn is_loaded(&self) -> (loaded: bool)
        ensures
            loaded == self@.loaded(),
    {
        self.context.is_some()
    }

    /// The loaded model, to run inference on.
    pub fn context(&self) -> (context: Option<&C>)
        ensures
            context is Some == self@.loaded(),
            context matches Some(ctx) ==> self@.context == Some(*ctx),
    {
        self.context.as_ref()
    }

    /// Admits a transcription: refused for no samples, whether or not a
    /// model is loaded; refused without a model; else the settings to run
    /// inference with.
    pub fn transcribe(&self, samples: &[i16]) -> (job: Result<TranscribeJob, WhisperError>)
        ensures
            samples@.len() == 0 ==> job matches Err(WhisperError::InvalidAudio),
            samples@.len() > 0 && !self@.loaded() ==> job matches Err(WhisperError::NotLoaded),
            samples@.len() > 0 && self@.loaded() ==> (job matches Ok(j) && text_view(j.language)
                == self@.language && j.translate == self@.translate && j.n_threads
                == self@.n_threads),
    {
        if samples.len() == 0 {
            return Err(WhisperError::InvalidAudio);
        }
        if self.context.is_none() {
            return Err(WhisperError::NotLoaded);
        }
        let language = match &self.config.language {
            Some(code) => Some(code.clone()),
            None => None,
        };
        Ok(
            TranscribeJob {
                language,
                translate: self.config.translate,
                n_threads: self.config.n_threads,
            },
        )
    }
}

/// How inference went.
#[derive(Debug)]
pub enum InferenceOutcome {
    /// No inference state could be created.
    StateFailed(String),
    /// Inference itself failed.
    RunFailed(String),
    /// The number of segments could not be read.
    SegmentsFailed(String),
    /// The text of each segment, `None` where it could not be read.
    Segments(Vec<Option<String>>),
}

/// The readable segments, each followed by one space, in order.
pub open spec fn joined_segments(segments: Seq<Option<String>>) -> Seq<char>
    decreases segments.len(),
{
    if segments.len() == 0 {
        Seq::empty()
    } else {
        joined_segments(segments.drop_last()) + (match segments.last() {
            Some(text) => text@ + seq![' '],
            None => Seq::empty(),
        })
    }
}

/// The transcript of a run: its readable segments separated by single
/// spaces, without whitespace at either end.
pub open spec fn transcript_of(segments: Seq<Option<String>>) -> Seq<char> {
    trimmed(joined_segments(segments))
}

/// Puts the transcript together from the segments of a run.
pub fn join_segments(segments: &Vec<Option<String>>) -> (transcript: String)
    ensures
        transcript@ == transcript_of(segments@),
{
    let mut joined = String::new();
    let mut i: usize = 0;
    while i < segments.len()
        invariant
            i <= segments@.len(),
            joined@ == joined_segments(segments@.take(i as int)),
        decreases segments@.len() - i,
    {
        proof {
            assert(segments@.take(i as int + 1).drop_last() =~= segments@.take(i as int));
        }
        match &segments[i] {
            Some(text) => {
                joined.append(text.as_str());
                push_char(&mut joined, ' ');
                proof {
                    assert(joined@ =~= joined_segments(segments@.take(i as int)) + (text@
                        + seq![' ']));
                }
            },
            None => {
                proof {
                    assert(joined@ =~= joined_segments(segments@.take(i as int)) + Seq::<
                        char,
                    >::empty());
                }
            },
        }
        i += 1;
    }
    proof {
        assert(segments@.take(segments@.len() as int) =~= segments@);
    }
    trim(joined.as_str())
}

/// What a transcription returns for each way inference may have gone.
pub fn finish_transcribe(outcome: InferenceOutcome) -> (result: Result<String, WhisperError>)
    ensures
        outcome matches InferenceOutcome::StateFailed(cause) ==> (result matches Err(
            WhisperError::TranscriptionError(detail),
        ) && detail@ == "Failed to create state: "@ + cause@),
        outcome matches InferenceOutcome::RunFailed(cause) ==> (result matches Err(
            WhisperError::TranscriptionError(detail),
        ) && detail@ == "Transcription failed: "@ + cause@),
        outcome matches InferenceOutcome::SegmentsFailed(cause) ==> (result matches Err(
            WhisperError::TranscriptionError(detail),
        ) && detail@ == "Failed to get segments: "@ + cause@),
        outcome matches InferenceOutcome::Segments(segments) ==> (result matches Ok(text)
            && text@ == transcript_of(segments@)),
{
    match outcome {
        InferenceOutcome::StateFailed(cause) => Err(
            WhisperError::TranscriptionError(
                String::from_str("Failed to create state: ").concat(cause.as_str()),
            ),
        ),
        InferenceOutcome::RunFailed(cause) => Err(
            WhisperError::TranscriptionError(
                String::from_str("Transcription failed: ").concat(cause.as_str()),
            ),
        ),
        InferenceOutcome::SegmentsFailed(cause) => Err(
            WhisperError::TranscriptionError(
                String::from_str("Failed to get segments: ").concat(cause.as_str()),
            ),
        ),
        InferenceOutcome::Segments(segments) => Ok(join_segments(&segments)),
    }
}

// ---------------------------------------------------------------------------
// Laws
// ---------------------------------------------------------------------------

/// A load from a path where nothing exists leaves the engine exactly as it
/// was, a loaded model included.
pub proof fn law_missing_model_keeps_engine<C>(
    state: EngineState<C>,
    model: ModelFile,
    force_cpu: bool,
)
    requires
        !model.exists,
    ensures
        state.after_begin(model, force_cpu) == state,
{
}

/// A load that fails, at whichever step, leaves the model that was loaded
/// before it in place: loading is all or nothing.
pub proof fn law_failed_load_keeps_model<C>(
    state: EngineState<C>,
    model: ModelFile,
    force_cpu: bool,
    backend: GpuBackend,
)
    ensures
        state.after_begin(model, force_cpu).same_model(state),
        state.after_begin(model, force_cpu).after_backend(backend).same_model(state),
        state.after_begin(model, force_cpu).after_backend(backend).after_gpu(None).same_model(
            state,
        ),
        state.after_begin(model, force_cpu).after_backend(backend).after_cpu(None).same_model(
            state,
        ),
        state.after_begin(model, force_cpu).after_backend(backend).after_gpu(None).after_cpu(
            None,
        ).same_model(state),
{
}

/// A load that insists on the CPU never asks for a GPU attempt, and when the
/// CPU attempt succeeds the model runs on the CPU without a fallback.
pub proof fn law_forced_cpu_never_tries_gpu<C>(
    state: EngineState<C>,
    model: ModelFile,
    backend: GpuBackend,
    context: C,
)
    requires
        model.exists,
        model.is_unicode,
    ensures
        state.after_begin(model, true).after_backend(backend).phase is AwaitingCpu,
        !state.after_begin(model, true).after_backend(backend).tried_gpu,
        !state.after_begin(model, true).after_backend(backend).after_cpu(Some(context)).using_gpu,
        !state.after_begin(model, true).after_backend(backend).after_cpu(
            Some(context),
        ).fallback_used,
        state.after_begin(model, true).after_backend(backend).after_cpu(Some(context)).context
            == Some(context),
{
}

/// When the GPU attempt fails and the CPU attempt succeeds, the model runs
/// on the CPU and the fallback is on record.
pub proof fn law_gpu_failure_falls_back<C>(
    state: EngineState<C>,
    model: ModelFile,
    backend: GpuBackend,
    context: C,
)
    requires
        model.exists,
        model.is_unicode,
        !(backend is Cpu),
    ensures
        state.after_begin(model, false).after_backend(backend).phase is AwaitingGpu,
        state.after_begin(model, false).after_backend(backend).after_gpu(None).phase
            is AwaitingCpu,
        !state.after_begin(model, false).after_backend(backend).after_gpu(None).after_cpu(
            Some(context),
        ).using_gpu,
        state.after_begin(model, false).after_backend(backend).after_gpu(None).after_cpu(
            Some(context),
        ).fallback_used,
{
}

/// When the GPU attempt succeeds the model runs on the GPU, no fallback is
/// on record and the load is over.
pub proof fn law_gpu_success<C>(
    state: EngineState<C>,
    model: ModelFile,
    backend: GpuBackend,
    context: C,
)
    requires
        model.exists,
        model.is_unicode,
        !(backend is Cpu),
    ensures
        state.after_begin(model, false).after_backend(backend).after_gpu(Some(context)).using_gpu,
        !state.after_begin(model, false).after_backend(backend).after_gpu(
            Some(context),
        ).fallback_used,
        state.after_begin(model, false).after_backend(backend).after_gpu(Some(context)).phase
            is Idle,
        state.after_begin(model, false).after_backend(backend).after_gpu(Some(context)).model_path
            == model.path@,
{
}

/// Whether a load tries the GPU depends on that load alone: an earlier
/// fallback is not remembered.
pub proof fn law_fallback_is_not_cached<C>(
    earlier: EngineState<C>,
    later: EngineState<C>,
    model: ModelFile,
    force_cpu: bool,
    backend: GpuBackend,
)
    requires
        model.exists,
    ensures
        earlier.after_begin(model, force_cpu).after_backend(backend).phase == later.after_begin(
            model,
            force_cpu,
        ).after_backend(backend).phase,
{
}

/// A transcript neither begins nor ends with whitespace.
pub proof fn law_transcript_is_trimmed(segments: Seq<Option<String>>)
    ensures
        transcript_of(segments).len() > 0 ==> !is_whitespace(transcript_of(segments)[0])
            && !is_whitespace(transcript_of(segments).last()),
{
    law_stripped_ends(joined_segments(segments), CharClass::Whitespace);
}

} // verus!
