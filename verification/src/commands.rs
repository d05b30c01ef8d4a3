//! What the shell's commands decide: whether listening may start, what a
//! stopped recording is good for, where a model lies and which models are
//! there.

use crate::audio::capture::AudioCapture;
use crate::audio::vad::VoiceActivityDetector;
use crate::state::{Language, Permissions, Settings};
use crate::text::{ends_with, has_prefix, has_suffix, same_text, starts_with, text_of, to_chars};
use crate::whisper::health::texts;
use vstd::prelude::*;
use vstd::string::*;

verus! {

/// How listening is controlled.
#[derive(Debug, Clone, Copy)]
pub enum ListenMode {
    Toggle,
    PushToTalk,
    VoiceActivated,
}

/// Samples in the shortest recording that is worth transcribing: half a
/// second at the pipeline's rate.
pub const MIN_RECORDING_SAMPLES: usize = 8000;

/// Listening may start only with the microphone allowed; without it the
/// hardware is not touched.
pub fn start_listen(mode: ListenMode, permissions: &Permissions) -> (result: Result<(), String>)
    ensures
        permissions.microphone ==> result is Ok,
        !permissions.microphone ==> (result matches Err(message) && message@
            == "Microphone permission required"@),
{
    if !permissions.microphone {
        return Err(String::from_str("Microphone permission required"));
    }
    Ok(())
}

/// What a stopped recording is good for.
#[derive(Debug)]
pub enum Recording {
    /// Shorter than half a second: not transcribed.
    TooShort { samples: usize },
    /// Long enough: to be transcribed.
    Captured { samples: Vec<i16> },
}

impl Recording {
    /// The text of `rejection`.
    pub open spec fn rejection_spec(self) -> Option<Seq<char>> {
        match self {
            Recording::TooShort { .. } => Some("Recording too short"@),
            Recording::Captured { .. } => None,
        }
    }

    /// Why the recording is not transcribed, if it is not.
    pub fn rejection(&self) -> (message: Option<String>)
        ensures
            self.rejection_spec() is None ==> message is None,
            self.rejection_spec() matches Some(text) ==> (message matches Some(m) && m@ == text),
    {
        match self {
            Recording::TooShort { .. } => Some(String::from_str("Recording too short")),
            Recording::Captured { .. } => None,
        }
    }
}

/// Ends a recording: stops capture, returns the detector to silence and
/// sorts the recording into too short or captured.
pub fn stop_listen(capture: &mut AudioCapture, vad: &mut VoiceActivityDetector) -> (recording:
    Recording)
    requires
        old(capture).wf(),
    ensures
        final(capture).wf(),
        final(capture)@ == old(capture)@.after_stop(),
        final(vad)@ == old(vad)@.reset(),
        old(capture)@.buffered.len() < MIN_RECORDING_SAMPLES ==> (
        recording matches Recording::TooShort { samples } && samples == old(
            capture,
        )@.buffered.len()),
        old(capture)@.buffered.len() >= MIN_RECORDING_SAMPLES ==> (
        recording matches Recording::Captured { samples } && samples@ == old(capture)@.buffered),
{
    let samples = capture.stop().unwrap();
    vad.reset();
    if samples.len() < MIN_RECORDING_SAMPLES {
        Recording::TooShort { samples: samples.len() }
    } else {
        Recording::Captured { samples }
    }
}

/// The file name of a model: `ggml-`, its identifier, `.bin`.
pub open spec fn model_filename_spec(model: Seq<char>) -> Seq<char> {
    "ggml-"@ + model + ".bin"@
}

/// The file name under which a model is kept.
pub fn model_filename(model: &str) -> (filename: String)
    ensures
        filename@ == model_filename_spec(model@),
{
    String::from_str("ggml-").concat(model).concat(".bin")
}

/// What is said of a model whose file is not there.
pub fn model_missing_message(filename: &str, path: &str) -> (message: String)
    ensures
        message@ == "Model not found: "@ + filename@ + ". Expected at: "@ + path@,
{
    String::from_str("Model not found: ").concat(filename).concat(". Expected at: ").concat(path)
}

/// The identifier of the model kept in a file of this name, if the name is
/// that of a model file.
pub open spec fn model_id_spec(filename: Seq<char>) -> Option<Seq<char>> {
    if filename.len() >= 9 && starts_with(filename, "ggml-"@) && ends_with(filename, ".bin"@) {
        Some(filename.subrange(5, filename.len() - 4))
    } else {
        None
    }
}

/// The identifier of the model kept in a file of this name.
pub fn model_id(filename: &str) -> (id: Option<String>)
    ensures
        model_id_spec(filename@) is None ==> id is None,
        model_id_spec(filename@) matches Some(text) ==> (id matches Some(s) && s@ == text),
{
    let chars = to_chars(filename);
    let prefix = to_chars("ggml-");
    let suffix = to_chars(".bin");
    if chars.len() >= 9 && has_prefix(&chars, &prefix) && has_suffix(&chars, &suffix) {
        Some(text_of(&chars, 5, chars.len() - 4))
    } else {
        None
    }
}

/// The model identifiers among a list of file names, in the list's order.
pub open spec fn model_ids(filenames: Seq<Seq<char>>) -> Seq<Seq<char>>
    decreases filenames.len(),
{
    if filenames.len() == 0 {
        Seq::empty()
    } else {
        match model_id_spec(filenames.last()) {
            Some(id) => model_ids(filenames.drop_last()).push(id),
            None => model_ids(filenames.drop_last()),
        }
    }
}

/// `a` comes before `b`, or is `b`, in the order of strings: character by
/// character by code point, a prefix before what it is a prefix of.
pub open spec fn text_le(a: Seq<char>, b: Seq<char>) -> bool
    decreases a.len(),
{
    if a.len() == 0 {
        true
    } else if b.len() == 0 {
        false
    } else if a[0] != b[0] {
        (a[0] as u32) < (b[0] as u32)
    } else {
        text_le(a.drop_first(), b.drop_first())
    }
}

/// The list is in ascending order.
pub open spec fn ascending(list: Seq<Seq<char>>) -> bool {
    forall|i: int, j: int| 0 <= i < j < list.len() ==> text_le(list[i], list[j])
}

/// Calls `<[String]>::sort`, which puts the strings in ascending order.
/// Strings compare by their bytes, which is by their characters' code
/// points; the sorted list holds what the list held, each string as often.
#[verifier::external_body]
fn sort_texts(list: &mut Vec<String>)
    ensures
        texts(final(list)@).to_multiset() == texts(old(list)@).to_multiset(),
        ascending(texts(final(list)@)),
{
    list.sort()
}

/// The models among the files of the models directory, in ascending order.
pub fn get_available_models(filenames: &Vec<String>) -> (models: Vec<String>)
    ensures
        texts(models@).to_multiset() == model_ids(texts(filenames@)).to_multiset(),
        ascending(texts(models@)),
{
    let mut models: Vec<String> = Vec::new();
    let mut i: usize = 0;
    proof {
        assert(texts(filenames@).take(0) =~= Seq::<Seq<char>>::empty());
        assert(texts(models@) =~= Seq::<Seq<char>>::empty());
    }
    while i < filenames.len()
        invariant
            i <= filenames@.len(),
            texts(models@) == model_ids(texts(filenames@).take(i as int)),
        decreases filenames@.len() - i,
    {
        let ghost before = texts(models@);
        proof {
            let names = texts(filenames@);
            assert(names.take(i as int + 1).drop_last() =~= names.take(i as int));
            assert(names.take(i as int + 1).last() == filenames@[i as int]@);
        }
        match model_id(filenames[i].as_str()) {
            Some(id) => {
                models.push(id);
                proof {
                    assert(texts(models@) =~= before.push(id@));
                }
            },
            None => {
                proof {
                    assert(texts(models@) =~= before);
                }
            },
        }
        i += 1;
    }
    proof {
        let names = texts(filenames@);
        assert(names.take(names.len() as int) =~= names);
    }
    sort_texts(&mut models);
    models
}

/// The language of a code; a code that names none means automatic detection.
pub open spec fn language_of(code: Seq<char>) -> Language {
    if code == "en"@ {
        Language::En
    } else if code == "fr"@ {
        Language::Fr
    } else if code == "es"@ {
        Language::Es
    } else if code == "de"@ {
        Language::De
    } else if code == "it"@ {
        Language::It
    } else if code == "pt"@ {
        Language::Pt
    } else if code == "nl"@ {
        Language::Nl
    } else if code == "ja"@ {
        Language::Ja
    } else if code == "zh"@ {
        Language::Zh
    } else if code == "ko"@ {
        Language::Ko
    } else if code == "ar"@ {
        Language::Ar
    } else if code == "hi"@ {
        Language::Hi
    } else if code == "pl"@ {
        Language::Pl
    } else {
        Language::Auto
    }
}

/// The language to set for a code.
pub fn set_language(lang: &str) -> (language: Language)
    ensures
        language == language_of(lang@),
{
    if same_text(lang, "en") {
        Language::En
    } else if same_text(lang, "fr") {
        Language::Fr
    } else if same_text(lang, "es") {
        Language::Es
    } else if same_text(lang, "de") {
        Language::De
    } else if same_text(lang, "it") {
        Language::It
    } else if same_text(lang, "pt") {
        Language::Pt
    } else if same_text(lang, "nl") {
        Language::Nl
    } else if same_text(lang, "ja") {
        Language::Ja
    } else if same_text(lang, "zh") {
        Language::Zh
    } else if same_text(lang, "ko") {
        Language::Ko
    } else if same_text(lang, "ar") {
        Language::Ar
    } else if same_text(lang, "hi") {
        Language::Hi
    } else if same_text(lang, "pl") {
        Language::Pl
    } else {
        Language::Auto
    }
}

/// The permissions to record after the microphone was checked.
pub fn check_permissions(microphone: bool) -> (permissions: Permissions)
    ensures
        permissions.microphone == microphone,
{
    Permissions { microphone }
}

/// The settings after a model was chosen.
pub fn set_model(settings: &mut Settings, name: String)
    ensures
        final(settings).model == name,
        final(settings).language == old(settings).language,
        final(settings).quantization == old(settings).quantization,
        final(settings).shortcut == old(settings).shortcut,
{
    settings.model = name;
}

} // verus!
