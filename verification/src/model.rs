use crate::duration::{is_positive_finite, SpeechDuration};
use crate::engine::{EngineCall, EngineCallView, Language, VoiceReply, WaveReply};
use crate::error::{FliteError, FliteResult};
use crate::init::{step, InitEvent, InitGuard, InitOutcome};
use crate::locator::{
    file_locator, file_locator_of, is_web_scheme, scheme_of, url_locator, url_text,
};
use crate::output_kind::{lemma_fixed_tokens, FliteOutputKind};
use crate::text::{contains_nul, has_nul, CText};
use crate::voice::{FliteVoice, FliteVoiceView};
use crate::wave_sample::{FliteWaveSample, FliteWaveSampleView};
use vstd::pervasive::unreached;
use vstd::prelude::*;
use vstd::string::StringExecFns;

verus! {

/// The engine call that synthesizes the file `filename` with the voice at
/// `voice` and sends the audio to `output`: the entry point that reads SSML
/// if `ssml` is set, the one for plain text otherwise.
pub open spec fn file_speech_call(
    filename: Seq<char>,
    voice: usize,
    output: Seq<char>,
    ssml: bool,
) -> EngineCallView {
    if ssml {
        EngineCallView::SsmlFileToSpeech { filename, voice, output }
    } else {
        EngineCallView::FileToSpeech { filename, voice, output }
    }
}

/// The engine call that synthesizes `text` with the voice at `voice` and
/// sends the audio to `output`: the entry point that reads SSML if `ssml` is
/// set, the one for plain text otherwise.
pub open spec fn text_speech_call(
    text: Seq<char>,
    voice: usize,
    output: Seq<char>,
    ssml: bool,
) -> EngineCallView {
    if ssml {
        EngineCallView::SsmlTextToSpeech { text, voice, output }
    } else {
        EngineCallView::TextToSpeech { text, voice, output }
    }
}

/// The proof that the engine is initialized: there is no way to one but
/// through [`Flite::new`], and every operation on the engine starts from one.
#[derive(Clone, Copy, Debug)]
pub struct Flite {
    _hidden: (),
}

impl Flite {
    /// Asks `guard` for leave to initialize the engine.
    ///
    /// From an uninitialized guard the answer is the call to make, and the
    /// guard is initializing until [`Flite::new`] reports how the call went.
    /// Otherwise the answer is `AlreadyInitialized`, at once.
    pub fn new_call(guard: &mut InitGuard) -> (call: FliteResult<EngineCall>)
        ensures
            final(guard)@ == step(old(guard)@, InitEvent::Requested).0,
            match call {
                Ok(c) => step(old(guard)@, InitEvent::Requested).1 == InitOutcome::Proceed && c@
                    == EngineCallView::Init,
                Err(e) => step(old(guard)@, InitEvent::Requested).1 == InitOutcome::Refused(e),
            },
    {
        match guard.step(InitEvent::Requested) {
            InitOutcome::Proceed => Ok(EngineCall::Init),
            InitOutcome::Refused(e) => Err(e),
            InitOutcome::Granted => unreached(),
        }
    }

    /// Reports to `guard` that the engine's initialization returned `status`.
    ///
    /// Status `0` on an engine not yet initialized makes it initialized and
    /// yields the proof of it. Any other status is `InitFailed` with that
    /// status and leaves the engine uninitialized. On an engine that is
    /// initialized already, every report is `AlreadyInitialized`.
    pub fn new(guard: &mut InitGuard, status: i32) -> (flite: FliteResult<Flite>)
        ensures
            final(guard)@ == step(old(guard)@, InitEvent::Reported(status)).0,
            match flite {
                Ok(_) => step(old(guard)@, InitEvent::Reported(status)).1 == InitOutcome::Granted,
                Err(e) => step(old(guard)@, InitEvent::Reported(status)).1 == InitOutcome::Refused(
                    e,
                ),
            },
    {
        match guard.step(InitEvent::Reported(status)) {
            InitOutcome::Granted => Ok(Flite { _hidden: () }),
            InitOutcome::Refused(e) => Err(e),
            InitOutcome::Proceed => unreached(),
        }
    }

    /// The call that registers English with the engine.
    pub fn load_english_call(&self) -> (call: EngineCall)
        ensures
            call@ == (EngineCallView::AddLanguage { language: Language::English }),
            call@.deliverable(),
    {
        EngineCall::AddLanguage { language: Language::English }
    }

    /// Concludes the registration of English from the status that the engine
    /// returned: `1` is success, anything else `LanguageNotAdded`.
    pub fn load_english(&mut self, status: i32) -> (done: FliteResult<()>)
        ensures
            match done {
                Ok(_) => status == 1,
                Err(e) => status != 1 && e == FliteError::LanguageNotAdded,
            },
    {
        if status == 1 {
            Ok(())
        } else {
            Err(FliteError::LanguageNotAdded)
        }
    }

    /// The call that selects the voice in the file at `path`.
    pub fn load_model_from_file_call(&self, path: &str) -> (call: EngineCall)
        requires
            !has_nul(path@),
        ensures
            call@ == (EngineCallView::SelectVoice { locator: file_locator_of(path@) }),
            call@.deliverable(),
    {
        EngineCall::SelectVoice { locator: file_locator(path) }
    }

    /// Concludes the loading of a voice file from what the engine answered:
    /// a live handle on the voice, or `NullPtr` if the engine selected none.
    pub fn load_model_from_file(&self, reply: VoiceReply) -> (voice: FliteResult<FliteVoice>)
        ensures
            match voice {
                Ok(v) => reply.ptr != 0 && v@ == (FliteVoiceView {
                    ptr: reply.ptr,
                    live: true,
                    name: reply.name@,
                    callback: reply.callback,
                }),
                Err(e) => reply.ptr == 0 && e == FliteError::NullPtr,
            },
    {
        if reply.ptr == 0 {
            Err(FliteError::NullPtr)
        } else {
            Ok(FliteVoice::new(reply))
        }
    }

    /// The call that selects the voice at `url`, if `url` may be fetched.
    ///
    /// A URL whose scheme is neither `http` nor `https` is refused with
    /// `InvalidUrlScheme` and its scheme, and one whose text holds a NUL
    /// with `InvalidText`; the engine is to be called for neither.
    pub fn load_model_from_url_call(&self, url: &url::Url) -> (call: FliteResult<EngineCall>)
        ensures
            match call {
                Ok(c) => is_web_scheme(scheme_of(url_text(*url))) && c@
                    == (EngineCallView::SelectVoice { locator: url_text(*url) })
                    && c@.deliverable(),
                Err(FliteError::InvalidUrlScheme(s)) => !is_web_scheme(scheme_of(url_text(*url)))
                    && s@ == scheme_of(url_text(*url)),
                Err(FliteError::InvalidText) => is_web_scheme(scheme_of(url_text(*url)))
                    && has_nul(url_text(*url)),
                Err(_) => false,
            },
    {
        match url_locator(url) {
            Ok(locator) => Ok(EngineCall::SelectVoice { locator }),
            Err(e) => Err(e),
        }
    }

    /// Concludes the loading of the voice at `url` from what the engine
    /// answered.
    ///
    /// A URL that [`Flite::load_model_from_url_call`] refuses fails here in
    /// the same way, whatever the answer. Otherwise the result is a live
    /// handle on the voice, or `NullPtr` if the engine selected none.
    pub fn load_model_from_url(&self, url: &url::Url, reply: VoiceReply) -> (voice: FliteResult<
        FliteVoice,
    >)
        ensures
            match voice {
                Ok(v) => is_web_scheme(scheme_of(url_text(*url))) && !has_nul(url_text(*url))
                    && reply.ptr != 0 && v@ == (FliteVoiceView {
                    ptr: reply.ptr,
                    live: true,
                    name: reply.name@,
                    callback: reply.callback,
                }),
                Err(FliteError::InvalidUrlScheme(s)) => !is_web_scheme(scheme_of(url_text(*url)))
                    && s@ == scheme_of(url_text(*url)),
                Err(FliteError::InvalidText) => is_web_scheme(scheme_of(url_text(*url)))
                    && has_nul(url_text(*url)),
                Err(FliteError::NullPtr) => is_web_scheme(scheme_of(url_text(*url))) && !has_nul(
                    url_text(*url),
                ) && reply.ptr == 0,
                Err(_) => false,
            },
    {
        match url_locator(url) {
            Ok(_) => if reply.ptr == 0 {
                Err(FliteError::NullPtr)
            } else {
                Ok(FliteVoice::new(reply))
            },
            Err(e) => Err(e),
        }
    }

    /// The call that synthesizes the file at `filename` with `voice` and
    /// plays the audio: the SSML entry point if `ssml` is set, the plain one
    /// otherwise.
    pub fn file_to_speech_call(&self, filename: &str, voice: &FliteVoice, ssml: bool) -> (call:
        EngineCall)
        requires
            !has_nul(filename@),
            voice@.live,
        ensures
            call@ == file_speech_call(filename@, voice@.ptr, FliteOutputKind::Play.token(), ssml),
            call@.deliverable(),
    {
        proof {
            lemma_fixed_tokens();
        }
        let output = FliteOutputKind::Play.to_c_string();
        let filename = match CText::new(String::from_str(filename)) {
            Ok(filename) => filename,
            Err(_) => unreached(),
        };
        let voice: usize = voice.address();
        if ssml {
            EngineCall::SsmlFileToSpeech { filename, voice, output }
        } else {
            EngineCall::FileToSpeech { filename, voice, output }
        }
    }

    /// Concludes the synthesis of a file from the duration that the engine
    /// returned, given by its bits: the duration if it is positive and
    /// finite, `InvalidDuration` otherwise.
    pub fn file_to_speech(&self, duration_bits: u32) -> (duration: FliteResult<SpeechDuration>)
        ensures
            match duration {
                Ok(d) => is_positive_finite(duration_bits) && d@ == duration_bits,
                Err(e) => !is_positive_finite(duration_bits) && e == FliteError::InvalidDuration,
            },
    {
        SpeechDuration::from_bits(duration_bits)
    }

    /// The call that synthesizes `text` with `voice` and sends the audio to
    /// `output_kind`: the SSML entry point if `ssml` is set, the plain one
    /// otherwise. Text that holds a NUL is refused with `InvalidText`, and
    /// the engine is not to be called.
    pub fn text_to_speech_call(
        &self,
        text: &str,
        voice: &FliteVoice,
        output_kind: FliteOutputKind,
        ssml: bool,
    ) -> (call: FliteResult<EngineCall>)
        requires
            voice@.live,
            !has_nul(output_kind.token()),
        ensures
            match call {
                Ok(c) => !has_nul(text@) && c@ == text_speech_call(
                    text@,
                    voice@.ptr,
                    output_kind.token(),
                    ssml,
                ) && c@.deliverable(),
                Err(e) => has_nul(text@) && e == FliteError::InvalidText,
            },
    {
        let text = CText::new(String::from_str(text))?;
        let output = output_kind.to_c_string();
        let voice: usize = voice.address();
        if ssml {
            Ok(EngineCall::SsmlTextToSpeech { text, voice, output })
        } else {
            Ok(EngineCall::TextToSpeech { text, voice, output })
        }
    }

    /// Concludes the synthesis of `text` from the duration that the engine
    /// returned, given by its bits.
    ///
    /// Text that holds a NUL is `InvalidText`, whatever the duration.
    /// Otherwise the result is the duration if it is positive and finite,
    /// and `InvalidDuration` if it is not.
    pub fn text_to_speech(&self, text: &str, duration_bits: u32) -> (duration: FliteResult<
        SpeechDuration,
    >)
        ensures
            match duration {
                Ok(d) => !has_nul(text@) && is_positive_finite(duration_bits) && d@
                    == duration_bits,
                Err(FliteError::InvalidText) => has_nul(text@),
                Err(FliteError::InvalidDuration) => !has_nul(text@) && !is_positive_finite(
                    duration_bits,
                ),
                Err(_) => false,
            },
    {
        if contains_nul(text) {
            return Err(FliteError::InvalidText);
        }
        SpeechDuration::from_bits(duration_bits)
    }

    /// The call that synthesizes `text` with `voice` into a wave. Text that
    /// holds a NUL is refused with `InvalidText`, and the engine is not to be
    /// called.
    pub fn text_to_wave_call(&self, text: &str, voice: &FliteVoice) -> (call: FliteResult<
        EngineCall,
    >)
        requires
            voice@.live,
        ensures
            match call {
                Ok(c) => !has_nul(text@) && c@ == (EngineCallView::TextToWave {
                    text: text@,
                    voice: voice@.ptr,
                }) && c@.deliverable(),
                Err(e) => has_nul(text@) && e == FliteError::InvalidText,
            },
    {
        let text = CText::new(String::from_str(text))?;
        Ok(EngineCall::TextToWave { text, voice: voice.address() })
    }

    /// Concludes the synthesis of `text` into a wave from what the engine
    /// answered.
    ///
    /// Text that holds a NUL is `InvalidText`, whatever the answer. Otherwise
    /// the result is a live handle on the wave, or `NullPtr` if the engine
    /// produced none.
    pub fn text_to_wave(&self, text: &str, reply: WaveReply) -> (wave: FliteResult<
        FliteWaveSample,
    >)
        requires
            reply.ptr != 0 ==> reply.describes_wave(),
        ensures
            match wave {
                Ok(w) => !has_nul(text@) && reply.ptr != 0 && w@ == (FliteWaveSampleView {
                    ptr: reply.ptr,
                    live: true,
                    kind: reply.kind@,
                    sample_rate: reply.sample_rate,
                    num_samples: reply.num_samples,
                    num_channels: reply.num_channels,
                    samples: reply.samples@,
                }),
                Err(FliteError::InvalidText) => has_nul(text@),
                Err(FliteError::NullPtr) => !has_nul(text@) && reply.ptr == 0,
                Err(_) => false,
            },
    {
        if contains_nul(text) {
            return Err(FliteError::InvalidText);
        }
        if reply.ptr == 0 {
            Err(FliteError::NullPtr)
        } else {
            Ok(FliteWaveSample::new(reply))
        }
    }
}

} // verus!
