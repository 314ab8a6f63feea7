use flite::{
    CText, EngineCall, Flite, FliteError, FliteVoice, InitGuard, UttCallback, VoiceReply,
};
use url::Url;

fn engine() -> Flite {
    let mut guard = InitGuard::new();
    Flite::new_call(&mut guard).unwrap();
    Flite::new(&mut guard, 0).unwrap()
}

fn c(text: &str) -> CText {
    CText::new(text.to_string()).unwrap()
}

fn no_voice() -> VoiceReply {
    VoiceReply { ptr: 0, name: String::new(), callback: None }
}

fn rms_at(ptr: usize) -> VoiceReply {
    VoiceReply { ptr, name: "cmu_us_rms".to_string(), callback: UttCallback::from_addr(0x40) }
}

#[test]
fn voice_file_is_selected_by_file_locator() {
    let call = engine().load_model_from_file_call("/data/voices/cmu_us_rms.flitevox");
    assert_eq!(
        call,
        EngineCall::SelectVoice { locator: c("file:///data/voices/cmu_us_rms.flitevox") }
    );
}

#[test]
fn relative_and_empty_paths_keep_their_text() {
    let flite = engine();
    assert_eq!(
        flite.load_model_from_file_call("voice.flitevox"),
        EngineCall::SelectVoice { locator: c("file://voice.flitevox") }
    );
    assert_eq!(
        flite.load_model_from_file_call(""),
        EngineCall::SelectVoice { locator: c("file://") }
    );
    assert_eq!(
        flite.load_model_from_file_call("/tmp/a b/\u{e9}.flitevox"),
        EngineCall::SelectVoice { locator: c("file:///tmp/a b/\u{e9}.flitevox") }
    );
}

#[test]
fn missing_voice_file_is_null_ptr() {
    let loaded = engine().load_model_from_file(no_voice());
    assert_eq!(loaded.unwrap_err(), FliteError::NullPtr);
}

#[test]
fn loaded_voice_has_its_name() {
    let voice = engine().load_model_from_file(rms_at(0x1000)).unwrap();
    assert_eq!(voice.name(), "cmu_us_rms");
    assert!(!voice.name().is_empty());
    assert_eq!(voice.address(), 0x1000);
    assert!(voice.is_live());
    assert_eq!(voice.get_callback(), UttCallback::from_addr(0x40));
}

#[test]
fn ftp_location_is_refused_with_its_scheme() {
    let flite = engine();
    let url = Url::parse("ftp://host/voice").unwrap();
    assert_eq!(
        flite.load_model_from_url_call(&url),
        Err(FliteError::InvalidUrlScheme("ftp".to_string()))
    );
    assert_eq!(
        flite.load_model_from_url(&url, rms_at(0x1000)).unwrap_err(),
        FliteError::InvalidUrlScheme("ftp".to_string())
    );
}

#[test]
fn other_schemes_are_refused() {
    let flite = engine();
    for (text, scheme) in [
        ("file:///tmp/voice.flitevox", "file"),
        ("data:text/plain,voice", "data"),
        ("httpx://host/voice", "httpx"),
        ("htt://host/voice", "htt"),
        ("ws://host/voice", "ws"),
    ] {
        let url = Url::parse(text).unwrap();
        assert_eq!(
            flite.load_model_from_url_call(&url),
            Err(FliteError::InvalidUrlScheme(scheme.to_string()))
        );
    }
}

#[test]
fn https_location_goes_to_selection() {
    let url = Url::parse("https://host/voice").unwrap();
    assert_eq!(
        engine().load_model_from_url_call(&url),
        Ok(EngineCall::SelectVoice { locator: c("https://host/voice") })
    );
}

#[test]
fn http_location_goes_to_selection() {
    let url = Url::parse("http://host:8080/voices/rms.flitevox?rev=2").unwrap();
    assert_eq!(
        engine().load_model_from_url_call(&url),
        Ok(EngineCall::SelectVoice {
            locator: c("http://host:8080/voices/rms.flitevox?rev=2")
        })
    );
}

#[test]
fn scheme_is_matched_as_the_url_normalizes_it() {
    let url = Url::parse("HTTPS://Host/voice").unwrap();
    assert_eq!(
        engine().load_model_from_url_call(&url),
        Ok(EngineCall::SelectVoice { locator: c("https://host/voice") })
    );
}

#[test]
fn locator_is_the_serialization_not_the_scheme() {
    let url = Url::parse("http://host/a%00b").unwrap();
    match engine().load_model_from_url_call(&url) {
        Ok(EngineCall::SelectVoice { locator }) => {
            assert_eq!(locator.as_str(), url.as_str());
            assert_ne!(locator.as_str(), url.scheme());
            assert!(!locator.as_str().contains('\0'));
        }
        other => panic!("unexpected answer: {:?}", other),
    }
}

#[test]
fn url_voice_that_the_engine_lacks_is_null_ptr() {
    let url = Url::parse("https://host/voice").unwrap();
    assert_eq!(engine().load_model_from_url(&url, no_voice()).unwrap_err(), FliteError::NullPtr);
}

#[test]
fn url_voice_is_loaded() {
    let url = Url::parse("https://host/voice").unwrap();
    let voice = engine().load_model_from_url(&url, rms_at(0x2000)).unwrap();
    assert_eq!(voice.address(), 0x2000);
    assert_eq!(voice.name(), "cmu_us_rms");
    assert!(voice.is_live());
}

#[test]
fn new_voice_is_live() {
    let voice = FliteVoice::new(VoiceReply { ptr: 8, name: "kal".to_string(), callback: None });
    assert!(voice.is_live());
    assert_eq!(voice.address(), 8);
    assert_eq!(voice.name(), "kal");
    assert_eq!(voice.get_callback(), None);
}

#[test]
fn scope_end_destroys_a_live_voice_once() {
    let mut voice = FliteVoice::new(rms_at(0x1000));
    assert_eq!(voice.release(), Some(EngineCall::DeleteVoice { voice: 0x1000 }));
    assert!(!voice.is_live());
    assert_eq!(voice.release(), None);
    assert_eq!(voice.release(), None);
}

#[test]
fn transferred_voice_is_not_destroyed() {
    let mut voice = FliteVoice::new(rms_at(0x1000));
    assert_eq!(voice.into_inner(), Some(0x1000));
    assert!(!voice.is_live());
    let mut destructions = 0;
    for _ in 0..3 {
        if voice.release().is_some() {
            destructions += 1;
        }
    }
    assert_eq!(destructions, 0);
}

#[test]
fn voice_is_handed_out_once() {
    let mut voice = FliteVoice::new(rms_at(0x1000));
    assert_eq!(voice.into_inner(), Some(0x1000));
    assert_eq!(voice.into_inner(), None);
    let mut released = FliteVoice::new(rms_at(0x3000));
    assert!(released.release().is_some());
    assert_eq!(released.into_inner(), None);
}

#[test]
fn inert_voice_keeps_its_record() {
    let mut voice = FliteVoice::new(rms_at(0x1000));
    voice.into_inner();
    assert_eq!(voice.name(), "cmu_us_rms");
    assert_eq!(voice.address(), 0x1000);
    assert_eq!(voice.get_callback(), UttCallback::from_addr(0x40));
}

#[test]
fn callback_is_replaced_on_a_live_voice() {
    let mut voice = FliteVoice::new(rms_at(0x1000));
    let callback = UttCallback::from_addr(0x80);
    assert_eq!(
        voice.set_callback(callback),
        Some(EngineCall::SetUttInit { voice: 0x1000, callback })
    );
    assert_eq!(voice.get_callback(), callback);
    assert_eq!(
        voice.set_callback(None),
        Some(EngineCall::SetUttInit { voice: 0x1000, callback: None })
    );
    assert_eq!(voice.get_callback(), None);
}

#[test]
fn callback_of_an_inert_voice_stays() {
    let mut voice = FliteVoice::new(rms_at(0x1000));
    voice.into_inner();
    assert_eq!(voice.set_callback(None), None);
    assert_eq!(voice.get_callback(), UttCallback::from_addr(0x40));
}

#[test]
fn null_address_is_no_callback() {
    assert_eq!(UttCallback::from_addr(0), None);
    assert_eq!(UttCallback::from_addr(0x40).unwrap().addr(), 0x40);
    assert_eq!(UttCallback::from_addr(usize::MAX).unwrap().addr(), usize::MAX);
}
