use flite::duration::SpeechDuration;
use flite::{
    CText, EngineCall, Flite, FliteError, FliteOutputKind, FliteVoice, FliteWaveSample, InitGuard,
    VoiceReply, WaveReply,
};

fn engine() -> Flite {
    let mut guard = InitGuard::new();
    Flite::new_call(&mut guard).unwrap();
    Flite::new(&mut guard, 0).unwrap()
}

fn c(text: &str) -> CText {
    CText::new(text.to_string()).unwrap()
}

fn voice() -> FliteVoice {
    FliteVoice::new(VoiceReply { ptr: 0x1000, name: "cmu_us_rms".to_string(), callback: None })
}

fn no_wave() -> WaveReply {
    WaveReply {
        ptr: 0,
        kind: String::new(),
        sample_rate: 0,
        num_samples: 0,
        num_channels: 0,
        samples: Vec::new(),
    }
}

fn wave_of(ptr: usize, samples: Vec<i16>) -> WaveReply {
    WaveReply {
        ptr,
        kind: "riff".to_string(),
        sample_rate: 16000,
        num_samples: samples.len() as i32,
        num_channels: 1,
        samples,
    }
}

#[test]
fn play_resolves_to_play() {
    assert_eq!(FliteOutputKind::Play.resolve(), "play");
}

#[test]
fn discard_resolves_to_none() {
    assert_eq!(FliteOutputKind::Discard.resolve(), "none");
}

#[test]
fn file_resolves_to_its_path_unchanged() {
    assert_eq!(FliteOutputKind::File("/tmp/out.wav").resolve(), "/tmp/out.wav");
    assert_eq!(FliteOutputKind::File("my \"out\" 'file'.wav").resolve(), "my \"out\" 'file'.wav");
    assert_eq!(FliteOutputKind::File("a\\b c%20d").resolve(), "a\\b c%20d");
    assert_eq!(FliteOutputKind::File("").resolve(), "");
    assert_eq!(FliteOutputKind::File("play").resolve(), "play");
    assert_eq!(FliteOutputKind::File("sortie/\u{e9}t\u{e9}.wav").resolve(), "sortie/\u{e9}t\u{e9}.wav");
}

#[test]
fn sink_token_is_ready_for_the_engine() {
    assert_eq!(FliteOutputKind::Play.to_c_string(), c("play"));
    assert_eq!(FliteOutputKind::Discard.to_c_string(), c("none"));
    assert_eq!(FliteOutputKind::File("/tmp/out.wav").to_c_string(), c("/tmp/out.wav"));
    assert_eq!(FliteOutputKind::Play.to_c_string().to_bytes_with_nul(), b"play\0");
    assert_eq!(FliteOutputKind::Discard.to_c_string().to_bytes_with_nul(), b"none\0");
}

#[test]
fn sinks_with_a_nul_in_the_path_are_not_deliverable() {
    assert!(FliteOutputKind::Play.is_deliverable());
    assert!(FliteOutputKind::Discard.is_deliverable());
    assert!(FliteOutputKind::File("/tmp/out.wav").is_deliverable());
    assert!(FliteOutputKind::File("").is_deliverable());
    assert!(!FliteOutputKind::File("/tmp/\0out.wav").is_deliverable());
    assert!(!FliteOutputKind::File("\0").is_deliverable());
}

#[test]
fn replies_are_complete_when_all_samples_were_read() {
    assert!(wave_of(0x2000, vec![1, 2, 3]).is_complete());
    assert!(wave_of(0x2000, Vec::new()).is_complete());
    assert!(!no_wave().is_complete());
    let mut short = wave_of(0x2000, vec![1, 2, 3]);
    short.samples.pop();
    assert!(!short.is_complete());
    let mut negative = wave_of(0x2000, Vec::new());
    negative.num_samples = -5;
    assert!(negative.is_complete());
    negative.samples.push(1);
    assert!(!negative.is_complete());
}

#[test]
fn plain_text_goes_to_the_plain_entry_point() {
    let call = engine().text_to_speech_call("Hello, world!", &voice(), FliteOutputKind::Play, false);
    assert_eq!(
        call,
        Ok(EngineCall::TextToSpeech {
            text: c("Hello, world!"),
            voice: 0x1000,
            output: c("play"),
        })
    );
}

#[test]
fn markup_goes_to_the_ssml_entry_point() {
    let call = engine().text_to_speech_call(
        "<speak>Hello</speak>",
        &voice(),
        FliteOutputKind::Discard,
        true,
    );
    assert_eq!(
        call,
        Ok(EngineCall::SsmlTextToSpeech {
            text: c("<speak>Hello</speak>"),
            voice: 0x1000,
            output: c("none"),
        })
    );
}

#[test]
fn speech_is_routed_to_the_named_file() {
    let call = engine().text_to_speech_call(
        "Hello",
        &voice(),
        FliteOutputKind::File("/tmp/hello.wav"),
        false,
    );
    assert_eq!(
        call,
        Ok(EngineCall::TextToSpeech {
            text: c("Hello"),
            voice: 0x1000,
            output: c("/tmp/hello.wav"),
        })
    );
}

#[test]
fn text_with_nul_never_reaches_the_engine() {
    let flite = engine();
    for text in ["\0", "a\0b", "\0start", "end\0", "two\0nuls\0"] {
        for ssml in [false, true] {
            assert_eq!(
                flite.text_to_speech_call(text, &voice(), FliteOutputKind::Play, ssml),
                Err(FliteError::InvalidText)
            );
        }
        assert_eq!(flite.text_to_wave_call(text, &voice()), Err(FliteError::InvalidText));
        assert_eq!(
            flite.text_to_speech(text, 1.0f32.to_bits()).unwrap_err(),
            FliteError::InvalidText
        );
        assert_eq!(
            flite.text_to_wave(text, wave_of(0x2000, vec![1, 2])).unwrap_err(),
            FliteError::InvalidText
        );
    }
}

#[test]
fn file_speech_always_plays() {
    let flite = engine();
    assert_eq!(
        flite.file_to_speech_call("/tmp/story.txt", &voice(), false),
        EngineCall::FileToSpeech {
            filename: c("/tmp/story.txt"),
            voice: 0x1000,
            output: c("play"),
        }
    );
    assert_eq!(
        flite.file_to_speech_call("/tmp/story.ssml", &voice(), true),
        EngineCall::SsmlFileToSpeech {
            filename: c("/tmp/story.ssml"),
            voice: 0x1000,
            output: c("play"),
        }
    );
}

#[test]
fn positive_finite_durations_are_kept() {
    let flite = engine();
    for seconds in [1.5f32, 0.25, 3600.0, f32::MIN_POSITIVE, f32::MAX, 1.0e-40] {
        let kept = flite.file_to_speech(seconds.to_bits()).unwrap();
        assert_eq!(f32::from_bits(kept.to_bits()), seconds);
        let kept = flite.text_to_speech("Hello", seconds.to_bits()).unwrap();
        assert_eq!(f32::from_bits(kept.to_bits()), seconds);
    }
}

#[test]
fn exact_bits_of_one_and_a_half_seconds() {
    let kept = SpeechDuration::from_bits(0x3fc0_0000).unwrap();
    assert_eq!(kept.to_bits(), 0x3fc0_0000);
    assert_eq!(f32::from_bits(kept.to_bits()), 1.5f32);
}

#[test]
fn unusable_durations_are_errors() {
    let flite = engine();
    for seconds in [0.0f32, -0.0, -1.0, -1.0e-40, f32::INFINITY, f32::NEG_INFINITY, f32::NAN, -f32::NAN] {
        assert_eq!(
            flite.file_to_speech(seconds.to_bits()).unwrap_err(),
            FliteError::InvalidDuration
        );
        assert_eq!(
            flite.text_to_speech("Hello", seconds.to_bits()).unwrap_err(),
            FliteError::InvalidDuration
        );
    }
}

#[test]
fn duration_bounds_are_exact() {
    assert!(SpeechDuration::from_bits(0).is_err());
    assert!(SpeechDuration::from_bits(1).is_ok());
    assert!(SpeechDuration::from_bits(0x7f7f_ffff).is_ok());
    assert!(SpeechDuration::from_bits(0x7f80_0000).is_err());
    assert!(SpeechDuration::from_bits(0x7f80_0001).is_err());
    assert!(SpeechDuration::from_bits(0x8000_0000).is_err());
    assert!(SpeechDuration::from_bits(0x8000_0001).is_err());
    assert!(SpeechDuration::from_bits(u32::MAX).is_err());
}

#[test]
fn wave_is_asked_for_text_and_voice() {
    assert_eq!(
        engine().text_to_wave_call("Hello, world!", &voice()),
        Ok(EngineCall::TextToWave { text: c("Hello, world!"), voice: 0x1000 })
    );
}

#[test]
fn missing_wave_is_null_ptr() {
    assert_eq!(engine().text_to_wave("Hello", no_wave()).unwrap_err(), FliteError::NullPtr);
}

#[test]
fn wave_carries_what_the_engine_reported() {
    let wave = engine().text_to_wave("Hello", wave_of(0x2000, vec![3, -4, 5, i16::MIN, i16::MAX])).unwrap();
    assert_eq!(wave.address(), 0x2000);
    assert!(wave.is_live());
    assert_eq!(wave.kind(), "riff");
    assert_eq!(wave.sample_rate(), 16000);
    assert_eq!(wave.num_samples(), 5);
    assert_eq!(wave.num_channels(), 1);
    assert_eq!(wave.samples(), &[3, -4, 5, i16::MIN, i16::MAX]);
}

#[test]
fn sample_count_follows_the_announced_count() {
    let flite = engine();
    for n in [0usize, 1, 2, 160, 16000] {
        let wave = flite.text_to_wave("Hello", wave_of(0x2000, vec![7; n])).unwrap();
        assert_eq!(wave.samples().len(), n);
        assert_eq!(wave.samples().len(), FliteWaveSample::sample_count(wave.num_samples()));
        let again = flite.text_to_wave("Hello", wave_of(0x2000, vec![7; n])).unwrap();
        assert_eq!(again.samples().len(), wave.samples().len());
    }
}

#[test]
fn sample_count_of_announced_counts() {
    assert_eq!(FliteWaveSample::sample_count(0), 0);
    assert_eq!(FliteWaveSample::sample_count(1), 1);
    assert_eq!(FliteWaveSample::sample_count(48000), 48000);
    assert_eq!(FliteWaveSample::sample_count(i32::MAX), i32::MAX as usize);
    assert_eq!(FliteWaveSample::sample_count(-1), 0);
    assert_eq!(FliteWaveSample::sample_count(i32::MIN), 0);
}

#[test]
fn empty_text_gives_what_the_engine_gives() {
    let flite = engine();
    assert_eq!(
        flite.text_to_wave_call("", &voice()),
        Ok(EngineCall::TextToWave { text: c(""), voice: 0x1000 })
    );
    for _ in 0..3 {
        let mut wave = flite.text_to_wave("", wave_of(0x2000, Vec::new())).unwrap();
        assert_eq!(wave.num_samples(), 0);
        assert!(wave.samples().is_empty());
        assert_eq!(wave.release(), Some(EngineCall::DeleteWave { wave: 0x2000 }));
        assert_eq!(flite.text_to_wave("", no_wave()).unwrap_err(), FliteError::NullPtr);
    }
}

#[test]
fn scope_end_destroys_a_live_wave_once() {
    let mut wave = FliteWaveSample::new(wave_of(0x2000, vec![1, 2, 3]));
    assert_eq!(wave.release(), Some(EngineCall::DeleteWave { wave: 0x2000 }));
    assert!(!wave.is_live());
    assert_eq!(wave.release(), None);
}

#[test]
fn transferred_wave_is_not_destroyed() {
    let mut wave = FliteWaveSample::new(wave_of(0x2000, vec![1, 2, 3]));
    assert_eq!(wave.into_inner(), Some(0x2000));
    assert_eq!(wave.release(), None);
    assert_eq!(wave.into_inner(), None);
    assert_eq!(wave.release(), None);
    assert_eq!(wave.samples(), &[1, 2, 3]);
}
