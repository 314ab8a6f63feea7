use crate::text::{has_nul, CText};
use vstd::pervasive::unreached;
use vstd::prelude::*;
use vstd::string::StringExecFns;

verus! {

/// The address of an utterance-initialization function inside the engine.
///
/// The function behind it takes a reference to an utterance and a reference to
/// a voice and returns a reference to an utterance. The address is never null:
/// the absence of a callback is `None`.
#[derive(Clone, Copy, Debug, PartialEq, Eq, Structural)]
pub struct UttCallback {
    addr: usize,
}

impl UttCallback {
    #[verifier::type_invariant]
    spec fn nonnull(self) -> bool {
        self.addr != 0
    }

    /// The address as a number.
    pub closed spec fn addr_spec(self) -> usize {
        self.addr
    }

    /// Wraps a function address; a null address is no callback.
    pub fn from_addr(addr: usize) -> (callback: Option<UttCallback>)
        ensures
            addr == 0 <==> callback is None,
            callback matches Some(c) ==> c.addr() == addr,
    {
        if addr == 0 {
            None
        } else {
            Some(UttCallback { addr })
        }
    }

    /// The address of the function, which is never null.
    #[verifier::when_used_as_spec(addr_spec)]
    pub fn addr(self) -> (addr: usize)
        ensures
            addr == self.addr_spec(),
            addr != 0,
    {
        proof {
            use_type_invariant(self);
        }
        self.addr
    }
}

/// A language that the engine can be taught.
#[derive(Clone, Copy, Debug, PartialEq, Eq, Structural)]
pub enum Language {
    /// US English, with the CMU lexicon.
    English,
}

impl Language {
    /// The identifier under which the engine registers the language.
    pub open spec fn id_of(self) -> Seq<char> {
        match self {
            Language::English => "eng"@,
        }
    }

    /// The identifier under which the engine registers the language, as the
    /// engine takes it.
    pub fn id(&self) -> (id: CText)
        ensures
            id@ == self.id_of(),
            !has_nul(id@),
    {
        proof {
            reveal_strlit("eng");
            assert(!has_nul("eng"@)) by {
                if has_nul("eng"@) {
                    let i = choose|i: int| 0 <= i < "eng"@.len() && "eng"@[i] == '\0';
                    assert("eng"@[i] != '\0');
                }
            }
        }
        match self {
            Language::English => match CText::new(String::from_str("eng")) {
                Ok(id) => id,
                Err(_) => unreached(),
            },
        }
    }
}

/// One call into the engine, with its arguments: what a driver has to carry
/// out on behalf of this crate.
///
/// Strings hold no NUL, so that the engine takes each of them whole;
/// addresses are those of engine resources.
#[derive(Debug, PartialEq, Eq)]
pub enum EngineCall {
    /// `flite_init()`.
    Init,
    /// `flite_add_lang(id, ..)` with the identifier of `language` and its
    /// two initializers, the one of its rule set and the one of its lexicon.
    AddLanguage { language: Language },
    /// `flite_voice_select(locator)`.
    SelectVoice { locator: CText },
    /// `delete_voice(voice)`.
    DeleteVoice { voice: usize },
    /// Store `callback` as the utterance initializer of `voice`.
    SetUttInit { voice: usize, callback: Option<UttCallback> },
    /// `flite_file_to_speech(filename, voice, output)`.
    FileToSpeech { filename: CText, voice: usize, output: CText },
    /// `flite_ssml_file_to_speech(filename, voice, output)`.
    SsmlFileToSpeech { filename: CText, voice: usize, output: CText },
    /// `flite_text_to_speech(text, voice, output)`.
    TextToSpeech { text: CText, voice: usize, output: CText },
    /// `flite_ssml_text_to_speech(text, voice, output)`.
    SsmlTextToSpeech { text: CText, voice: usize, output: CText },
    /// `flite_text_to_wave(text, voice)`.
    TextToWave { text: CText, voice: usize },
    /// `delete_wave(wave)`.
    DeleteWave { wave: usize },
}

/// An [`EngineCall`] with its strings as sequences of characters.
pub enum EngineCallView {
    Init,
    AddLanguage { language: Language },
    SelectVoice { locator: Seq<char> },
    DeleteVoice { voice: usize },
    SetUttInit { voice: usize, callback: Option<UttCallback> },
    FileToSpeech { filename: Seq<char>, voice: usize, output: Seq<char> },
    SsmlFileToSpeech { filename: Seq<char>, voice: usize, output: Seq<char> },
    TextToSpeech { text: Seq<char>, voice: usize, output: Seq<char> },
    SsmlTextToSpeech { text: Seq<char>, voice: usize, output: Seq<char> },
    TextToWave { text: Seq<char>, voice: usize },
    DeleteWave { wave: usize },
}

impl View for EngineCall {
    type V = EngineCallView;

    open spec fn view(&self) -> EngineCallView {
        match self {
            EngineCall::Init => EngineCallView::Init,
            EngineCall::AddLanguage { language } => EngineCallView::AddLanguage {
                language: *language,
            },
            EngineCall::SelectVoice { locator } => EngineCallView::SelectVoice {
                locator: locator@,
            },
            EngineCall::DeleteVoice { voice } => EngineCallView::DeleteVoice { voice: *voice },
            EngineCall::SetUttInit { voice, callback } => EngineCallView::SetUttInit {
                voice: *voice,
                callback: *callback,
            },
            EngineCall::FileToSpeech { filename, voice, output } => EngineCallView::FileToSpeech {
                filename: filename@,
                voice: *voice,
                output: output@,
            },
            EngineCall::SsmlFileToSpeech {
                filename,
                voice,
                output,
            } => EngineCallView::SsmlFileToSpeech {
                filename: filename@,
                voice: *voice,
                output: output@,
            },
            EngineCall::TextToSpeech { text, voice, output } => EngineCallView::TextToSpeech {
                text: text@,
                voice: *voice,
                output: output@,
            },
            EngineCall::SsmlTextToSpeech { text, voice, output } => EngineCallView::SsmlTextToSpeech {
                text: text@,
                voice: *voice,
                output: output@,
            },
            EngineCall::TextToWave { text, voice } => EngineCallView::TextToWave {
                text: text@,
                voice: *voice,
            },
            EngineCall::DeleteWave { wave } => EngineCallView::DeleteWave { wave: *wave },
        }
    }
}

impl EngineCallView {
    /// Whether the engine can be handed this call as it stands: no string
    /// holds a NUL and no resource address is null.
    pub open spec fn deliverable(self) -> bool {
        match self {
            EngineCallView::Init => true,
            EngineCallView::AddLanguage { .. } => true,
            EngineCallView::SelectVoice { locator } => !has_nul(locator),
            EngineCallView::DeleteVoice { voice } => voice != 0,
            EngineCallView::SetUttInit { voice, .. } => voice != 0,
            EngineCallView::FileToSpeech { filename, voice, output } => !has_nul(filename)
                && voice != 0 && !has_nul(output),
            EngineCallView::SsmlFileToSpeech { filename, voice, output } => !has_nul(filename)
                && voice != 0 && !has_nul(output),
            EngineCallView::TextToSpeech { text, voice, output } => !has_nul(text) && voice != 0
                && !has_nul(output),
            EngineCallView::SsmlTextToSpeech { text, voice, output } => !has_nul(text) && voice
                != 0 && !has_nul(output),
            EngineCallView::TextToWave { text, voice } => !has_nul(text) && voice != 0,
            EngineCallView::DeleteWave { wave } => wave != 0,
        }
    }
}

/// What a driver read from the engine after `flite_voice_select` returned.
///
/// A null `ptr` says that the engine selected no voice; the other fields are
/// then meaningless.
#[derive(Debug)]
pub struct VoiceReply {
    /// The address of the voice, or null.
    pub ptr: usize,
    /// The voice's name.
    pub name: String,
    /// The voice's utterance initializer, if it has one.
    pub callback: Option<UttCallback>,
}

/// What a driver read from the engine after `flite_text_to_wave` returned.
///
/// A null `ptr` says that the engine produced no wave; the other fields are
/// then meaningless.
#[derive(Debug)]
pub struct WaveReply {
    /// The address of the wave, or null.
    pub ptr: usize,
    /// The wave's kind tag.
    pub kind: String,
    /// Samples per second.
    pub sample_rate: i32,
    /// The number of samples that the wave announces.
    pub num_samples: i32,
    /// The number of channels.
    pub num_channels: i32,
    /// The samples read from the wave's buffer.
    pub samples: Vec<i16>,
}

} // verus!
